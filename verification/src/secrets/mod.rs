//! Individually sealed secrets and the vault that holds them.
//!
//! A secret is written as text by the caller and sealed here under the
//! keyring that the session's master password unlocks: RSA with PKCS#1 v1.5
//! padding, the ciphertext as Base64 text. One file per secret, named by its
//! id, in the default vault. Listing is fail-fast: one blob that does not
//! open fails the whole call.

pub mod error;
pub mod vault;

pub use error::Error;
pub use error::Result;
pub use vault::Vault;

use vstd::prelude::*;
use crate::app_state::AppState;
use crate::encrypt::rsa::decrypted_string;
use crate::encrypt::rsa::resolved;
use crate::encrypt::rsa::Resolution;
use crate::encrypt::rsa::RsaKeyPair;
use crate::encrypt::rsa_calls::fits_modulus;
use crate::encrypt::rsa_calls::rsa_key_sound;
use vstd::utf8::encode_utf8;

verus! {

/// Length of a secret's id: a UUID in hyphenated form.
pub const ID_LEN: usize = 36;

/// What a user fills in to create a secret.
#[derive(Debug)]
pub struct NewSecretForm {
    pub kind: String,
    pub name: String,
    pub value: String,
}

/// A stored secret. Its id is given at creation and never changes.
#[derive(Debug, PartialEq)]
pub struct Secret {
    pub id: String,
    pub kind: String,
    pub name: String,
    pub value: String,
}

/// A sealed secret and the file it belongs in.
#[derive(Debug)]
pub struct SealedSecret {
    /// `<root>/vaults/default.vault/<id>.enc`.
    pub path: String,
    /// Base64 text of the RSA ciphertext.
    pub blob: String,
}

/// A digit of lower-case hexadecimal.
pub open spec fn is_lower_hex(c: char) -> bool {
    ('0' <= c <= '9') || ('a' <= c <= 'f')
}

/// The text of a random (version 4) UUID in hyphenated lower-case form:
/// 36 characters, hyphens after 8, 13, 18 and 23 of them, hexadecimal
/// digits elsewhere, the version digit `4` and a variant digit of `8`, `9`,
/// `a` or `b`.
pub open spec fn is_uuid_text(id: Seq<char>) -> bool {
    &&& id.len() == 36
    &&& forall|i: int|
        0 <= i < 36 ==> if i == 8 || i == 13 || i == 18 || i == 23 {
            #[trigger] id[i] == '-'
        } else {
            is_lower_hex(id[i])
        }
    &&& id[14] == '4'
    &&& (id[19] == '8' || id[19] == '9' || id[19] == 'a' || id[19] == 'b')
}

/// Calls `uuid::Uuid::new_v4` and writes the result with `to_string`.
///
/// Believed of every outcome: the hyphenated lower-case text of a version 4
/// UUID. Which one is drawn at random.
#[verifier::external_body]
fn new_id() -> (id: String)
    ensures
        is_uuid_text(id@),
{
    uuid::Uuid::new_v4().to_string()
}

/// The name of the one vault in use.
pub fn default_vault() -> (name: &'static str)
    ensures
        name@ == "default"@,
{
    "default"
}

/// What a blob holds for a session: the text sealed in it, where the
/// session's keyring resolves and the blob decrypts under it.
pub open spec fn found(
    password: Option<Seq<char>>,
    record: Seq<char>,
    sealed_key: Seq<char>,
    blob: Seq<char>,
) -> Option<Seq<char>> {
    match resolved(password, record, sealed_key) {
        Resolution::Key(private_pem) => decrypted_string(private_pem, blob),
        _ => None,
    }
}

/// The session's keyring resolves.
pub open spec fn unlocks(password: Option<Seq<char>>, record: Seq<char>, sealed_key: Seq<char>)
    -> bool {
    resolved(password, record, sealed_key) is Key
}

/// The session's keyring resolves to a sound key: one that decrypts what it
/// encrypts. A key that the vault generated is sound; one that was brought
/// in is taken as it is.
pub open spec fn sound_keyring(
    password: Option<Seq<char>>,
    record: Seq<char>,
    sealed_key: Seq<char>,
) -> bool {
    match resolved(password, record, sealed_key) {
        Resolution::Key(private_pem) => rsa_key_sound(private_pem),
        _ => false,
    }
}

/// The session's keyring resolves and its key takes `text`: the text's
/// bytes are no longer than the modulus less eleven bytes.
pub open spec fn takes(
    password: Option<Seq<char>>,
    record: Seq<char>,
    sealed_key: Seq<char>,
    text: Seq<char>,
) -> bool {
    match resolved(password, record, sealed_key) {
        Resolution::Key(private_pem) => fits_modulus(private_pem, encode_utf8(text).len()),
        _ => false,
    }
}

/// The texts that a list of blobs holds, in order, or `None` where one of
/// them does not open.
pub open spec fn found_all(
    password: Option<Seq<char>>,
    record: Seq<char>,
    sealed_key: Seq<char>,
    blobs: Seq<String>,
) -> Option<Seq<Seq<char>>> {
    if forall|i: int|
        0 <= i < blobs.len() ==> found(password, record, sealed_key, #[trigger] blobs[i]@)
            is Some {
        Some(Seq::new(blobs.len(), |i: int| found(password, record, sealed_key, blobs[i]@)->Some_0))
    } else {
        None
    }
}

impl Secret {
    /// A secret made from a form, under a freshly drawn id: a random UUID.
    pub fn from(data: NewSecretForm) -> (secret: Self)
        ensures
            is_uuid_text(secret.id@),
            secret.kind == data.kind,
            secret.name == data.name,
            secret.value == data.value,
    {
        Self::with_id(new_id(), data)
    }

    /// A secret made from a form, under a given id.
    pub fn with_id(id: String, data: NewSecretForm) -> (secret: Self)
        ensures
            secret.id == id,
            secret.kind == data.kind,
            secret.name == data.name,
            secret.value == data.value,
    {
        Self { id, kind: data.kind, name: data.name, value: data.value }
    }

    /// The file that holds, or will hold, the secret with a given id.
    pub fn location(state: &AppState, id: &str) -> (path: String)
        ensures
            path@ == state.fs_view().secret_path_view("default"@, id@),
    {
        state.file_system().secret_path(default_vault(), id)
    }

    /// Resolves the session's keyring from the stored master-password record
    /// and the sealed private key.
    fn keyring(state: &AppState, record: &str, sealed_key: &str) -> (r: Result<RsaKeyPair>)
        ensures
            match r {
                Ok(pair) => resolved(state.password_view(), record@, sealed_key@)
                    == Resolution::Key(pair.private_pem()),
                Err(Error::MasterPassword(_)) => !unlocks(
                    state.password_view(),
                    record@,
                    sealed_key@,
                ),
                Err(_) => false,
            },
    {
        match RsaKeyPair::from_state(state, record, sealed_key) {
            Ok(pair) => Ok(pair),
            Err(e) => Err(Error::MasterPassword(e.to_string())),
        }
    }

    /// Seals the secret's serial form `json` for writing. What comes back is
    /// found again, under the same session and files, as `json`, provided
    /// the keyring is sound.
    ///
    /// Fails with `MasterPassword` where the keyring does not resolve, and
    /// with `EncryptMod` where the key does not take the text (RSA takes no
    /// more than the modulus less eleven bytes: 245 with a generated key) or
    /// the ciphertext is too long to encode.
    pub fn save(&self, state: &AppState, record: &str, sealed_key: &str, json: &str) -> (r: Result<
        SealedSecret,
    >)
        ensures
            match r {
                Ok(sealed) => {
                    &&& sealed.path@ == state.fs_view().secret_path_view("default"@, self.id@)
                    &&& takes(state.password_view(), record@, sealed_key@, json@)
                    &&& sound_keyring(state.password_view(), record@, sealed_key@) ==> found(
                        state.password_view(),
                        record@,
                        sealed_key@,
                        sealed.blob@,
                    ) == Some(json@)
                },
                Err(Error::MasterPassword(_)) => !unlocks(
                    state.password_view(),
                    record@,
                    sealed_key@,
                ),
                Err(Error::EncryptMod(_)) => resolved(state.password_view(), record@, sealed_key@)
                    matches Resolution::Key(private_pem) && (!fits_modulus(
                    private_pem,
                    encode_utf8(json@).len(),
                ) || !crate::codec::base64_encodable(
                    crate::encrypt::rsa_calls::rsa_modulus_len(private_pem),
                )),
                Err(_) => false,
            },
    {
        let encryptor = Self::keyring(state, record, sealed_key)?;
        let encrypted = match encryptor.encrypt_string(json) {
            Ok(blob) => blob,
            Err(e) => {
                return Err(Error::from_encrypt(e));
            },
        };
        let out_path = Self::location(state, self.id.as_str());
        Ok(SealedSecret { path: out_path, blob: encrypted })
    }

    /// Opens the blob of one secret and hands back its serial form.
    pub fn find(state: &AppState, record: &str, sealed_key: &str, blob: &str) -> (r: Result<String>)
        ensures
            match r {
                Ok(json) => found(state.password_view(), record@, sealed_key@, blob@) == Some(
                    json@,
                ),
                Err(Error::MasterPassword(_)) => !unlocks(
                    state.password_view(),
                    record@,
                    sealed_key@,
                ),
                Err(Error::EncryptMod(_)) => unlocks(state.password_view(), record@, sealed_key@)
                    && found(state.password_view(), record@, sealed_key@, blob@) is None,
                Err(_) => false,
            },
    {
        let encryptor = Self::keyring(state, record, sealed_key)?;
        match encryptor.decrypt_string(blob) {
            Ok(json) => Ok(json),
            Err(e) => Err(Error::from_encrypt(e)),
        }
    }

    /// Opens the blobs of all secrets of the vault: as many serial forms as
    /// blobs, in the same order, or the failure of the first blob that does
    /// not open.
    pub fn all(state: &AppState, record: &str, sealed_key: &str, blobs: &Vec<String>) -> (r: Result<
        Vec<String>,
    >)
        ensures
            match r {
                Ok(secrets) => {
                    &&& found_all(state.password_view(), record@, sealed_key@, blobs@) is Some
                    &&& secrets@.len() == blobs@.len()
                    &&& forall|i: int|
                        0 <= i < blobs@.len() ==> Some(#[trigger] secrets@[i]@) == found(
                            state.password_view(),
                            record@,
                            sealed_key@,
                            blobs@[i]@,
                        )
                },
                Err(Error::MasterPassword(_)) => !unlocks(
                    state.password_view(),
                    record@,
                    sealed_key@,
                ),
                Err(Error::EncryptMod(_)) => unlocks(state.password_view(), record@, sealed_key@)
                    && found_all(state.password_view(), record@, sealed_key@, blobs@) is None,
                Err(_) => false,
            },
    {
        let encryptor = Self::keyring(state, record, sealed_key)?;
        let mut secrets: Vec<String> = Vec::new();
        let mut i: usize = 0;
        while i < blobs.len()
            invariant
                i <= blobs@.len(),
                secrets@.len() == i,
                resolved(state.password_view(), record@, sealed_key@) == Resolution::Key(
                    encryptor.private_pem(),
                ),
                forall|j: int|
                    0 <= j < i ==> Some(#[trigger] secrets@[j]@) == found(
                        state.password_view(),
                        record@,
                        sealed_key@,
                        blobs@[j]@,
                    ),
            decreases blobs@.len() - i,
        {
            match encryptor.decrypt_string(blobs[i].as_str()) {
                Ok(json) => {
                    secrets.push(json);
                },
                Err(e) => {
                    assert(found(state.password_view(), record@, sealed_key@, blobs@[i as int]@)
                        is None);
                    return Err(Error::from_encrypt(e));
                },
            }
            i = i + 1;
        }
        proof {
            assert forall|j: int| 0 <= j < blobs@.len() implies found(
                state.password_view(),
                record@,
                sealed_key@,
                #[trigger] blobs@[j]@,
            ) is Some by {
                assert(Some(secrets@[j]@) == found(
                    state.password_view(),
                    record@,
                    sealed_key@,
                    blobs@[j]@,
                ));
            }
        }
        Ok(secrets)
    }
}

} // verus!
