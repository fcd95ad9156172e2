//! The software RSA keyring: a generated or imported 2048-bit key pair, held
//! as PEM text, with PKCS#1 v1.5 encryption and signatures.

use vstd::prelude::*;
use vstd::string::StringExecFns;
use vstd::utf8::decode_utf8;
use vstd::utf8::encode_utf8;
use vstd::utf8::encode_utf8_decode_utf8;
use vstd::utf8::encode_utf8_valid_utf8;
use vstd::utf8::valid_utf8;
use crate::codec::base64_bytes;
use crate::codec::base64_decode;
use crate::codec::base64_encode;
use crate::codec::can_base64_encode;
use crate::codec::string_from_utf8;
use crate::app_state::AppState;
use crate::encrypt::aes::opened;
use crate::encrypt::aes::Opened;
use crate::encrypt::error::Error;
use crate::encrypt::error::Result;
use crate::encrypt::rsa_calls::decrypts_to;
use crate::encrypt::rsa_calls::is_private_key_pem;
use crate::encrypt::rsa_calls::is_public_key_pem;
use crate::encrypt::rsa_calls::is_public_text_of_key;
use crate::encrypt::rsa_calls::rsa_key_sound;
use crate::encrypt::rsa_calls::rsa_decrypt;
use crate::encrypt::rsa_calls::rsa_decrypted;
use crate::encrypt::rsa_calls::rsa_encrypt;
use crate::encrypt::rsa_calls::rsa_encrypt_to_self;
use crate::encrypt::rsa_calls::rsa_modulus_len;
use crate::encrypt::rsa_calls::rsa_generate;
use crate::encrypt::rsa_calls::rsa_parse_private;
use crate::encrypt::rsa_calls::rsa_parse_public;
use crate::encrypt::rsa_calls::rsa_private_pem;
use crate::encrypt::rsa_calls::rsa_public_of_private;
use crate::encrypt::rsa_calls::rsa_public_pem;
use crate::encrypt::rsa_calls::rsa_public_pem_of;
use crate::encrypt::rsa_calls::rsa_sign;
use crate::encrypt::rsa_calls::rsa_signature;
use crate::encrypt::rsa_calls::rsa_verifies;
use crate::encrypt::rsa_calls::rsa_verify;
use crate::master_password::accepts;
use crate::master_password::record_key;
use crate::master_password::MasterPassword;

verus! {

/// Modulus size of generated keys, in bits.
pub const KEY_BITS: usize = 2048;

/// The string that a Base64 text of an RSA ciphertext stands for under a
/// private key: decode, decrypt, read as UTF-8.
pub open spec fn decrypted_string(private_pem: Seq<char>, text: Seq<char>) -> Option<Seq<char>> {
    match base64_bytes(encode_utf8(text)) {
        None => None,
        Some(ciphertext) => match rsa_decrypted(private_pem, ciphertext) {
            None => None,
            Some(bytes) => if valid_utf8(bytes) {
                Some(decode_utf8(bytes))
            } else {
                None
            },
        },
    }
}

/// What resolving a session's keyring comes to.
pub enum Resolution {
    /// The session holds no master password.
    NoPassword,
    /// The stored record does not accept the session's password, or the
    /// sealed key's tag does not verify under it.
    Rejected,
    /// The sealed key is not Base64.
    NotBase64,
    /// What the sealed key holds is not the PEM of a private key.
    NotAKey,
    /// The private key, as PEM in kept form.
    Key(Seq<char>),
}

/// Resolves a keyring from the password a session holds, the stored
/// master-password record and the sealed private key.
pub open spec fn resolved(password: Option<Seq<char>>, record: Seq<char>, sealed_key: Seq<char>)
    -> Resolution {
    match password {
        None => Resolution::NoPassword,
        Some(password) => if !accepts(password, record) {
            Resolution::Rejected
        } else {
            match opened(record_key(password, record)->Some_0, sealed_key) {
                Opened::NotBase64 => Resolution::NotBase64,
                Opened::Truncated => Resolution::Rejected,
                Opened::Rejected => Resolution::Rejected,
                Opened::Plain(bytes) => if !valid_utf8(bytes) {
                    Resolution::NotAKey
                } else {
                    match rsa_private_pem(decode_utf8(bytes)) {
                        None => Resolution::NotAKey,
                        Some(pem) => Resolution::Key(pem),
                    }
                },
            }
        },
    }
}

/// What a public key encrypts, a sound private key of which it is the
/// public half decrypts.
pub proof fn lemma_public_key_encrypts_for_pair(
    private_pem: Seq<char>,
    public_pem: Seq<char>,
    ciphertext: Seq<u8>,
    data: Seq<u8>,
)
    requires
        rsa_public_pem_of(private_pem) == Some(public_pem),
        rsa_key_sound(private_pem),
        decrypts_to(public_pem, ciphertext, data),
    ensures
        rsa_decrypted(private_pem, ciphertext) == Some(data),
{
}

/// Joins a fixed prefix and the text of an outside error.
fn with_prefix(prefix: &str, detail: String) -> (text: String)
    ensures
        text@ == prefix@ + detail@,
{
    let mut text = String::from_str(prefix);
    text.append(detail.as_str());
    text
}

/// An RSA public key, for those operations that need no private half.
#[derive(Debug)]
pub struct PublicKey {
    pem: String,
}

impl PublicKey {
    #[verifier::type_invariant]
    spec fn well_formed(self) -> bool {
        is_public_key_pem(self.pem@)
    }

    /// The key as SPKI PEM text.
    pub closed spec fn pem(self) -> Seq<char> {
        self.pem@
    }

    /// Reads a public key from SPKI PEM text.
    pub fn from_pem(pem: &str) -> (r: Result<Self>)
        ensures
            match r {
                Ok(key) => rsa_public_pem(pem@) == Some(key.pem()) && is_public_key_pem(key.pem()),
                Err(Error::KeyFormat(_)) => rsa_public_pem(pem@) is None,
                Err(_) => false,
            },
    {
        match rsa_parse_public(pem) {
            Ok(kept) => Ok(Self { pem: kept }),
            Err(detail) => Err(
                Error::KeyFormat(with_prefix("Failed to parse public key from PEM: ", detail)),
            ),
        }
    }

    /// The key as SPKI PEM text with LF line endings.
    pub fn to_pem(&self) -> (pem: String)
        ensures
            pem@ == self.pem(),
    {
        self.pem.clone()
    }

    /// Bytes in the key's modulus.
    pub open spec fn modulus_len(self) -> nat {
        rsa_modulus_len(self.pem())
    }

    /// Encrypts `data` with PKCS#1 v1.5 padding. The key takes data no
    /// longer than its modulus less eleven bytes.
    pub fn encrypt(&self, data: &[u8]) -> (r: Result<Vec<u8>>)
        ensures
            match r {
                Ok(ciphertext) => data@.len() + 11 <= self.modulus_len() && ciphertext@.len()
                    == self.modulus_len() && decrypts_to(self.pem(), ciphertext@, data@),
                Err(Error::Rsa(_)) => data@.len() + 11 > self.modulus_len(),
                Err(_) => false,
            },
    {
        proof {
            use_type_invariant(self);
        }
        match rsa_encrypt(self.pem.as_str(), data) {
            Ok(ciphertext) => Ok(ciphertext),
            Err(detail) => Err(Error::Rsa(with_prefix("RSA encryption failed: ", detail))),
        }
    }

    /// Checks a PKCS#1 v1.5 signature over the SHA-256 digest of `data`.
    pub fn verify(&self, data: &[u8], signature_bytes: &[u8]) -> (r: Result<()>)
        ensures
            match r {
                Ok(_) => rsa_verifies(self.pem(), data@, signature_bytes@),
                Err(Error::Rsa(_)) => !rsa_verifies(self.pem(), data@, signature_bytes@),
                Err(_) => false,
            },
    {
        match rsa_verify(self.pem.as_str(), data, signature_bytes) {
            Ok(_) => Ok(()),
            Err(detail) => Err(Error::Rsa(with_prefix("Signature verification failed: ", detail))),
        }
    }
}

/// An RSA key pair.
#[derive(Debug)]
pub struct RsaKeyPair {
    private_pem: String,
    public_pem: String,
}

impl RsaKeyPair {
    #[verifier::type_invariant]
    spec fn well_formed(self) -> bool {
        &&& is_private_key_pem(self.private_pem@)
        &&& rsa_public_pem_of(self.private_pem@) == Some(self.public_pem@)
        &&& rsa_modulus_len(self.public_pem@) == rsa_modulus_len(self.private_pem@)
        &&& is_public_text_of_key(self.public_pem@)
    }

    /// The private key as PKCS#8 PEM text.
    pub closed spec fn private_pem(self) -> Seq<char> {
        self.private_pem@
    }

    /// The public key as SPKI PEM text.
    pub closed spec fn public_pem(self) -> Seq<char> {
        self.public_pem@
    }

    /// Bytes in the pair's modulus.
    pub open spec fn modulus_len(self) -> nat {
        rsa_modulus_len(self.private_pem())
    }

    /// The pair's private key is sound: it decrypts what the pair
    /// encrypts. Known of generated pairs; an imported key is taken as it
    /// is.
    pub open spec fn sound(self) -> bool {
        rsa_key_sound(self.private_pem())
    }

    /// What every key pair satisfies: the private text is in kept form and
    /// the public text is its public half, with the same modulus, between
    /// the SPKI header and footer lines.
    pub open spec fn consistent(self) -> bool {
        &&& is_private_key_pem(self.private_pem())
        &&& rsa_public_pem_of(self.private_pem()) == Some(self.public_pem())
        &&& rsa_modulus_len(self.public_pem()) == self.modulus_len()
        &&& is_public_text_of_key(self.public_pem())
    }

    /// Builds the pair for a private-key PEM already in kept form.
    fn from_kept(private_pem: String) -> (pair: Self)
        requires
            is_private_key_pem(private_pem@),
        ensures
            pair.private_pem() == private_pem@,
            pair.consistent(),
    {
        match rsa_public_of_private(private_pem.as_str()) {
            Ok(public_pem) => Self { private_pem, public_pem },
            Err(_) => vstd::pervasive::unreached(),
        }
    }

    /// Generates a key pair with a 2048-bit modulus.
    pub fn new() -> (r: Result<Self>)
        ensures
            match r {
                Ok(pair) => pair.consistent() && pair.modulus_len() == 256 && pair.sound()
                    && is_public_key_pem(pair.public_pem()),
                Err(Error::Rsa(_)) => true,
                Err(_) => false,
            },
    {
        match rsa_generate(KEY_BITS) {
            Ok(private_pem) => Ok(Self::from_kept(private_pem)),
            Err(detail) => Err(Error::Rsa(detail)),
        }
    }

    /// Reads a key pair from the PKCS#8 PEM text of its private key.
    pub fn from_string(pem: &str) -> (r: Result<Self>)
        ensures
            match r {
                Ok(pair) => rsa_private_pem(pem@) == Some(pair.private_pem()) && pair.consistent(),
                Err(Error::KeyFormat(_)) => rsa_private_pem(pem@) is None,
                Err(_) => false,
            },
    {
        match rsa_parse_private(pem) {
            Ok(kept) => Ok(Self::from_kept(kept)),
            Err(detail) => Err(Error::KeyFormat(detail)),
        }
    }

    /// Resolves the keyring of a session: derives the envelope from the
    /// password held in memory and the salt of the stored record, opens the
    /// sealed private key under it and reads the PEM.
    ///
    /// Fails with `NoMasterPassword` where the session holds no password,
    /// with `AuthenticationFailed` where the record does not accept the
    /// password or the blob's tag does not verify, with `Base64` where the
    /// blob is not Base64, and with `KeyFormat` where what the blob holds is
    /// no PEM of a private key.
    pub fn from_state(state: &AppState, record: &str, encrypted_pk: &str) -> (r: Result<Self>)
        ensures
            match r {
                Ok(pair) => pair.consistent() && resolved(
                    state.password_view(),
                    record@,
                    encrypted_pk@,
                ) == Resolution::Key(pair.private_pem()),
                Err(Error::NoMasterPassword(_)) => resolved(
                    state.password_view(),
                    record@,
                    encrypted_pk@,
                ) == Resolution::NoPassword,
                Err(Error::AuthenticationFailed(_)) => resolved(
                    state.password_view(),
                    record@,
                    encrypted_pk@,
                ) == Resolution::Rejected,
                Err(Error::Base64(_)) => resolved(state.password_view(), record@, encrypted_pk@)
                    == Resolution::NotBase64,
                Err(Error::KeyFormat(_)) => resolved(state.password_view(), record@, encrypted_pk@)
                    == Resolution::NotAKey,
                Err(_) => false,
            },
    {
        let password_encryptor = match MasterPassword::get_encryptor(state, record) {
            Ok(encryptor) => encryptor,
            Err(crate::master_password::Error::NoMasterPassword(text)) => {
                return Err(Error::NoMasterPassword(text));
            },
            Err(e) => {
                return Err(Error::AuthenticationFailed(e.to_string()));
            },
        };
        let raw_pk = password_encryptor.decrypt(encrypted_pk)?;
        let pk = match string_from_utf8(raw_pk) {
            Ok(pk) => pk,
            Err(detail) => {
                return Err(Error::KeyFormat(detail));
            },
        };
        proof {
            encode_utf8_decode_utf8(pk@);
        }
        Self::from_string(pk.as_str())
    }

    /// The pair's public key on its own, read from the pair's public text.
    /// What it encrypts, the pair decrypts, provided the pair is sound.
    /// Refused for a pair whose public text [`PublicKey::from_pem`] does
    /// not take: a key of more than 4096 bits.
    pub fn public_key(&self) -> (r: Result<PublicKey>)
        ensures
            self.consistent(),
            match r {
                Ok(key) => key.pem() == self.public_pem() && is_public_key_pem(self.public_pem()),
                Err(Error::KeyFormat(_)) => rsa_public_pem(self.public_pem()) is None,
                Err(_) => false,
            },
    {
        proof {
            use_type_invariant(self);
        }
        PublicKey::from_pem(self.public_pem.as_str())
    }

    /// The private key as PKCS#8 PEM text with LF line endings.
    pub fn private_key_pem(&self) -> (r: Result<String>)
        ensures
            r matches Ok(pem) && pem@ == self.private_pem(),
            self.consistent(),
    {
        proof {
            use_type_invariant(self);
        }
        Ok(self.private_pem.clone())
    }

    /// The public key as SPKI PEM text with LF line endings.
    pub fn public_key_pem(&self) -> (r: Result<String>)
        ensures
            r matches Ok(pem) && pem@ == self.public_pem(),
            self.consistent(),
    {
        proof {
            use_type_invariant(self);
        }
        Ok(self.public_pem.clone())
    }

    /// Encrypts `data` to this pair's public key with PKCS#1 v1.5 padding.
    /// The key takes data no longer than its modulus less eleven bytes; what
    /// comes back decrypts under this pair to `data`, provided the pair is
    /// sound.
    pub fn encrypt(&self, data: &[u8]) -> (r: Result<Vec<u8>>)
        ensures
            match r {
                Ok(ciphertext) => data@.len() + 11 <= self.modulus_len() && ciphertext@.len()
                    == self.modulus_len() && (self.sound() ==> rsa_decrypted(
                    self.private_pem(),
                    ciphertext@,
                ) == Some(data@)),
                Err(Error::Rsa(_)) => data@.len() + 11 > self.modulus_len(),
                Err(_) => false,
            },
    {
        proof {
            use_type_invariant(self);
        }
        match rsa_encrypt_to_self(self.private_pem.as_str(), data) {
            Ok(ciphertext) => Ok(ciphertext),
            Err(detail) => Err(Error::Rsa(detail)),
        }
    }

    /// Decrypts a PKCS#1 v1.5 ciphertext.
    pub fn decrypt(&self, encrypted_data: &[u8]) -> (r: Result<Vec<u8>>)
        ensures
            match r {
                Ok(data) => rsa_decrypted(self.private_pem(), encrypted_data@) == Some(data@),
                Err(Error::Rsa(_)) => rsa_decrypted(self.private_pem(), encrypted_data@) is None,
                Err(_) => false,
            },
    {
        match rsa_decrypt(self.private_pem.as_str(), encrypted_data) {
            Ok(data) => Ok(data),
            Err(detail) => Err(Error::Rsa(detail)),
        }
    }

    /// Encodes a ciphertext as Base64; refuses one too long to encode.
    pub fn encode_ciphertext(ciphertext: &[u8]) -> (r: Result<String>)
        ensures
            match r {
                Ok(text) => base64_bytes(encode_utf8(text@)) == Some(ciphertext@),
                Err(Error::Rsa(_)) => !crate::codec::base64_encodable(ciphertext@.len()),
                Err(_) => false,
            },
    {
        if !can_base64_encode(ciphertext.len()) {
            return Err(Error::Rsa(String::from_str("Ciphertext too long")));
        }
        Ok(base64_encode(ciphertext))
    }

    /// Encrypts the UTF-8 bytes of a string and encodes the result as Base64.
    /// What comes back decrypts under this pair to the string, provided the
    /// pair is sound. Fails where the string's bytes are longer than the
    /// modulus less eleven bytes, or the modulus is too long for its
    /// ciphertexts to be encoded.
    pub fn encrypt_string(&self, input: &str) -> (r: Result<String>)
        ensures
            match r {
                Ok(text) => encode_utf8(input@).len() + 11 <= self.modulus_len() && (self.sound()
                    ==> decrypted_string(self.private_pem(), text@) == Some(input@)),
                Err(Error::Rsa(_)) => encode_utf8(input@).len() + 11 > self.modulus_len()
                    || !crate::codec::base64_encodable(self.modulus_len()),
                Err(_) => false,
            },
    {
        let encrypted = self.encrypt(input.as_bytes())?;
        proof {
            encode_utf8_decode_utf8(input@);
            encode_utf8_valid_utf8(input@);
        }
        Self::encode_ciphertext(encrypted.as_slice())
    }

    /// Decodes Base64, decrypts, and reads the result as UTF-8.
    pub fn decrypt_string(&self, input: &str) -> (r: Result<String>)
        ensures
            match r {
                Ok(text) => decrypted_string(self.private_pem(), input@) == Some(text@),
                Err(Error::Base64(_)) => base64_bytes(encode_utf8(input@)) is None,
                Err(Error::Rsa(_)) => base64_bytes(encode_utf8(input@)) matches Some(ciphertext)
                    && rsa_decrypted(self.private_pem(), ciphertext) is None,
                Err(Error::BadUTF8(_)) => base64_bytes(encode_utf8(input@)) matches Some(
                    ciphertext,
                ) && rsa_decrypted(self.private_pem(), ciphertext) matches Some(bytes)
                    && !valid_utf8(bytes),
                Err(_) => false,
            },
    {
        let decoded = match base64_decode(input.as_bytes()) {
            Ok(decoded) => decoded,
            Err(detail) => {
                return Err(Error::Base64(detail));
            },
        };
        let decrypted = self.decrypt(decoded.as_slice())?;
        match string_from_utf8(decrypted) {
            Ok(text) => {
                proof {
                    encode_utf8_decode_utf8(text@);
                }
                Ok(text)
            },
            Err(detail) => Err(Error::BadUTF8(detail)),
        }
    }

    /// Signs the SHA-256 digest of `data` with PKCS#1 v1.5. The signature
    /// verifies under this pair's public key, where that key is one that
    /// [`PublicKey::from_pem`] takes.
    pub fn sign(&self, data: &[u8]) -> (r: Result<Vec<u8>>)
        ensures
            match r {
                Ok(signature) => rsa_signature(self.private_pem(), data@) == Some(signature@) && (
                rsa_public_pem(self.public_pem()) is Some ==> rsa_verifies(
                    self.public_pem(),
                    data@,
                    signature@,
                )),
                Err(Error::Rsa(_)) => rsa_signature(self.private_pem(), data@) is None,
                Err(_) => false,
            },
    {
        proof {
            use_type_invariant(self);
        }
        match rsa_sign(self.private_pem.as_str(), data) {
            Ok(signature) => Ok(signature),
            Err(detail) => Err(Error::Rsa(detail)),
        }
    }

    /// Checks a PKCS#1 v1.5 signature over the SHA-256 digest of `data`.
    pub fn verify(&self, data: &[u8], signature_bytes: &[u8]) -> (valid: bool)
        ensures
            valid == rsa_verifies(self.public_pem(), data@, signature_bytes@),
    {
        rsa_verify(self.public_pem.as_str(), data, signature_bytes).is_ok()
    }
}

} // verus!
