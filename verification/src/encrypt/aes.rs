//! The password-derived envelope: a key hashed from password and salt, and
//! blobs of the form `base64(salt ‖ nonce ‖ ciphertext ‖ tag)`.

use vstd::prelude::*;
use vstd::string::StringExecFns;
use vstd::utf8::decode_utf8;
use vstd::utf8::encode_utf8;
use vstd::utf8::encode_utf8_decode_utf8;
use vstd::utf8::valid_utf8;
use crate::bytes::copy_range;
use crate::bytes::extend_bytes;
use crate::codec::base64_bytes;
use crate::codec::base64_decode;
use crate::codec::base64_encodable;
use crate::codec::base64_encode;
use crate::codec::base64_text;
use crate::codec::can_base64_encode;
use crate::codec::is_base64_char;
use crate::codec::os_random_bytes;
use crate::codec::string_from_utf8;
use crate::codec::thread_random_bytes;
use crate::encrypt::error::Error;
use crate::encrypt::error::Result;
use crate::encrypt::primitives::aes_gcm_open;
use crate::encrypt::primitives::aes_gcm_opened;
use crate::encrypt::primitives::aes_gcm_seal;
use crate::encrypt::primitives::aes_gcm_sealed;
use crate::encrypt::primitives::sha3_256;
use crate::encrypt::primitives::sha3_256_of_parts;
use crate::encrypt::primitives::NONCE_LEN;

verus! {

/// Bytes of salt at the head of every blob.
pub const SALT_LEN: usize = 16;

/// Bytes of salt and nonce together: what a blob holds before its ciphertext.
pub const HEADER_LEN: usize = 28;

/// The key for a password and a salt: SHA3-256 over the password's bytes
/// followed by the salt. One pass, no iteration.
pub open spec fn derived_key(password: Seq<char>, salt: Seq<u8>) -> Seq<u8> {
    sha3_256(encode_utf8(password) + salt)
}

/// The text of a blob sealed with a given nonce, or `None` where the nonce
/// has not 12 bytes, the cipher refuses, or the text would be too long.
pub open spec fn sealed_text(key: Seq<u8>, salt: Seq<u8>, nonce: Seq<u8>, data: Seq<u8>) -> Option<
    Seq<char>,
> {
    if nonce.len() != 12 {
        None
    } else {
        match aes_gcm_sealed(key, nonce, data) {
            None => None,
            Some(sealed) => if base64_encodable((salt + nonce + sealed).len()) {
                Some(base64_text(salt + nonce + sealed))
            } else {
                None
            },
        }
    }
}

/// What opening a blob gives.
pub enum Opened {
    /// The tag verified; this is the plaintext.
    Plain(Seq<u8>),
    /// The text is not Base64.
    NotBase64,
    /// Fewer than 28 bytes: no room for salt and nonce.
    Truncated,
    /// The tag did not verify under the key.
    Rejected,
}

/// Opens the text of a blob under a key: decodes, skips the 16-byte salt,
/// reads the 12-byte nonce and opens the rest.
pub open spec fn opened(key: Seq<u8>, text: Seq<char>) -> Opened {
    match base64_bytes(encode_utf8(text)) {
        None => Opened::NotBase64,
        Some(blob) => if blob.len() < 28 {
            Opened::Truncated
        } else {
            match aes_gcm_opened(key, blob.subrange(16, 28), blob.subrange(28, blob.len() as int)) {
                None => Opened::Rejected,
                Some(plaintext) => Opened::Plain(plaintext),
            }
        },
    }
}

/// The salt at the head of a blob's text, or `None` where the text is not
/// Base64 or holds fewer than 16 bytes.
pub open spec fn embedded_salt(text: Seq<char>) -> Option<Seq<u8>> {
    match base64_bytes(encode_utf8(text)) {
        None => None,
        Some(blob) => if blob.len() < 16 {
            None
        } else {
            Some(blob.subrange(0, 16))
        },
    }
}

/// The nonce that follows the salt in a blob's text, or `None` where the
/// text is not Base64 or holds fewer than 28 bytes.
pub open spec fn embedded_nonce(text: Seq<char>) -> Option<Seq<u8>> {
    match base64_bytes(encode_utf8(text)) {
        None => None,
        Some(blob) => if blob.len() < 28 {
            None
        } else {
            Some(blob.subrange(16, 28))
        },
    }
}

/// Opening a blob under a key that its tag does not verify under is
/// rejected: this is what becomes of a wrong password and of a ciphertext
/// that was tampered with, as far as the cipher tells them.
pub proof fn lemma_unverified_is_rejected(key: Seq<u8>, text: Seq<char>, blob: Seq<u8>)
    requires
        base64_bytes(encode_utf8(text)) == Some(blob),
        blob.len() >= 28,
        aes_gcm_opened(key, blob.subrange(16, 28), blob.subrange(28, blob.len() as int)) is None,
    ensures
        opened(key, text) == Opened::Rejected,
{
}

/// Two blobs that carry different nonces are different blobs: sealing the
/// same data twice gives different output unless the generator repeats a
/// nonce.
pub proof fn lemma_nonces_tell_blobs_apart(
    first: Seq<char>,
    second: Seq<char>,
    first_nonce: Seq<u8>,
    second_nonce: Seq<u8>,
)
    requires
        embedded_nonce(first) == Some(first_nonce),
        embedded_nonce(second) == Some(second_nonce),
        first_nonce != second_nonce,
    ensures
        first != second,
{
}

/// What opening a blob as text gives: the string whose UTF-8 bytes the blob
/// holds.
pub open spec fn opened_string(key: Seq<u8>, text: Seq<char>) -> Option<Seq<char>> {
    match opened(key, text) {
        Opened::Plain(bytes) => if valid_utf8(bytes) {
            Some(decode_utf8(bytes))
        } else {
            None
        },
        _ => None,
    }
}

/// A password-derived envelope: a 32-byte key and the 16-byte salt it was
/// derived with.
#[derive(Debug)]
pub struct AES {
    key: Vec<u8>,
    salt: Vec<u8>,
}

impl AES {
    #[verifier::type_invariant]
    spec fn well_formed(self) -> bool {
        self.key@.len() == 32 && self.salt@.len() == 16
    }

    /// The derived key.
    pub closed spec fn key(self) -> Seq<u8> {
        self.key@
    }

    /// The salt that the key was derived with and that every blob starts with.
    pub closed spec fn salt(self) -> Seq<u8> {
        self.salt@
    }

    /// An envelope for `password` under a freshly drawn salt.
    pub fn new(password: &str) -> (envelope: Self)
        ensures
            envelope.salt().len() == 16,
            envelope.key() == derived_key(password@, envelope.salt()),
    {
        let salt = Self::generate_salt();
        let key = Self::derive_key(password, salt.as_slice());
        Self { key, salt }
    }

    /// The envelope for `password` under a given 16-byte salt.
    pub fn from_salt(password: &str, salt: &[u8]) -> (envelope: Self)
        requires
            salt@.len() == 16,
        ensures
            envelope.salt() == salt@,
            envelope.key() == derived_key(password@, salt@),
    {
        let salt_array = copy_range(salt, 0, SALT_LEN);
        assert(salt_array@ == salt@);
        let key = Self::derive_key(password, salt_array.as_slice());
        Self { key, salt: salt_array }
    }

    /// The envelope for `password` under the salt embedded in a blob.
    pub fn from_encrypted(password: &str, encrypted: &str) -> (r: Result<Self>)
        ensures
            match r {
                Ok(envelope) => embedded_salt(encrypted@) == Some(envelope.salt())
                    && envelope.key() == derived_key(password@, envelope.salt()),
                Err(Error::Base64(_)) => embedded_salt(encrypted@) is None,
                Err(_) => false,
            },
    {
        let data = match base64_decode(encrypted.as_bytes()) {
            Ok(data) => data,
            Err(text) => {
                return Err(Error::Base64(text));
            },
        };
        if data.len() < SALT_LEN {
            return Err(Error::Base64(String::from_str("Invalid encrypted data length")));
        }
        let salt = copy_range(data.as_slice(), 0, SALT_LEN);
        Ok(Self::from_salt(password, salt.as_slice()))
    }

    /// Draws 16 random bytes.
    fn generate_salt() -> (salt: Vec<u8>)
        ensures
            salt@.len() == 16,
    {
        thread_random_bytes(SALT_LEN)
    }

    /// Hashes password and salt into the key.
    fn derive_key(password: &str, salt: &[u8]) -> (key: Vec<u8>)
        ensures
            key@ == derived_key(password@, salt@),
            key@.len() == 32,
    {
        sha3_256_of_parts(password.as_bytes(), salt)
    }

    /// Seals `data` under a given nonce: `base64(salt ‖ nonce ‖ sealed)`.
    ///
    /// Fails where the nonce has not 12 bytes, the cipher refuses the data,
    /// or the blob would be too long to encode.
    pub fn seal_with_nonce(&self, nonce: &[u8], data: &[u8]) -> (r: Result<String>)
        ensures
            match r {
                Ok(blob) => sealed_text(self.key(), self.salt(), nonce@, data@) == Some(blob@)
                    && opened(self.key(), blob@) == Opened::Plain(data@)
                    && embedded_salt(blob@) == Some(self.salt())
                    && embedded_nonce(blob@) == Some(nonce@)
                    && forall|i: int| 0 <= i < blob@.len() ==> is_base64_char(#[trigger] blob@[i]),
                Err(Error::EncryptPassword(_)) => sealed_text(
                    self.key(),
                    self.salt(),
                    nonce@,
                    data@,
                ) is None,
                Err(_) => false,
            },
    {
        proof {
            use_type_invariant(self);
        }
        if nonce.len() != NONCE_LEN {
            return Err(Error::EncryptPassword(String::from_str("Invalid nonce length")));
        }
        let sealed = match aes_gcm_seal(self.key.as_slice(), nonce, data) {
            Some(sealed) => sealed,
            None => {
                return Err(Error::EncryptPassword(String::from_str("aead::Error")));
            },
        };
        let mut combined: Vec<u8> = Vec::new();
        extend_bytes(&mut combined, self.salt.as_slice());
        extend_bytes(&mut combined, nonce);
        extend_bytes(&mut combined, sealed.as_slice());
        if !can_base64_encode(combined.len()) {
            return Err(Error::EncryptPassword(String::from_str("Encrypted data too long")));
        }
        let blob = base64_encode(combined.as_slice());
        proof {
            assert(combined@.subrange(0, 16) == self.salt@);
            assert(combined@.subrange(16, 28) == nonce@);
            assert(combined@.subrange(28, combined@.len() as int) == sealed@);
        }
        Ok(blob)
    }

    /// Seals `data` under a freshly drawn nonce. Two calls on the same data
    /// give different blobs unless the generator repeats itself.
    pub fn encrypt(&self, data: &[u8]) -> (r: Result<String>)
        ensures
            match r {
                Ok(blob) => opened(self.key(), blob@) == Opened::Plain(data@)
                    && embedded_salt(blob@) == Some(self.salt())
                    && (exists|nonce: Seq<u8>| #[trigger]
                    sealed_text(self.key(), self.salt(), nonce, data@) == Some(blob@))
                    && forall|i: int| 0 <= i < blob@.len() ==> is_base64_char(#[trigger] blob@[i]),
                Err(Error::EncryptPassword(_)) => exists|nonce: Seq<u8>|
                    nonce.len() == 12 && #[trigger] sealed_text(
                        self.key(),
                        self.salt(),
                        nonce,
                        data@,
                    ) is None,
                Err(_) => false,
            },
    {
        let nonce = os_random_bytes(NONCE_LEN);
        self.seal_with_nonce(nonce.as_slice(), data)
    }

    /// Opens a blob under this envelope's key. The salt in the blob is
    /// skipped, not used.
    pub fn decrypt(&self, encoded: &str) -> (r: Result<Vec<u8>>)
        ensures
            match r {
                Ok(plaintext) => opened(self.key(), encoded@) == Opened::Plain(plaintext@),
                Err(Error::Base64(_)) => opened(self.key(), encoded@) == Opened::NotBase64,
                Err(Error::AuthenticationFailed(_)) => opened(self.key(), encoded@)
                    == Opened::Truncated || opened(self.key(), encoded@) == Opened::Rejected,
                Err(_) => false,
            },
    {
        proof {
            use_type_invariant(self);
        }
        let data = match base64_decode(encoded.as_bytes()) {
            Ok(data) => data,
            Err(text) => {
                return Err(Error::Base64(text));
            },
        };
        if data.len() < HEADER_LEN {
            return Err(
                Error::AuthenticationFailed(String::from_str("Invalid encrypted data length")),
            );
        }
        let nonce = copy_range(data.as_slice(), SALT_LEN, HEADER_LEN);
        let ciphertext = copy_range(data.as_slice(), HEADER_LEN, data.len());
        match aes_gcm_open(self.key.as_slice(), nonce.as_slice(), ciphertext.as_slice()) {
            Some(plaintext) => Ok(plaintext),
            None => Err(Error::AuthenticationFailed(String::from_str("aead::Error"))),
        }
    }

    /// Seals the UTF-8 bytes of a string.
    pub fn encrypt_string(&self, input: &str) -> (r: Result<String>)
        ensures
            match r {
                Ok(blob) => opened(self.key(), blob@) == Opened::Plain(encode_utf8(input@))
                    && opened_string(self.key(), blob@) == Some(input@)
                    && embedded_salt(blob@) == Some(self.salt())
                    && forall|i: int| 0 <= i < blob@.len() ==> is_base64_char(#[trigger] blob@[i]),
                Err(Error::EncryptPassword(_)) => exists|nonce: Seq<u8>|
                    nonce.len() == 12 && #[trigger] sealed_text(
                        self.key(),
                        self.salt(),
                        nonce,
                        encode_utf8(input@),
                    ) is None,
                Err(_) => false,
            },
    {
        let r = self.encrypt(input.as_bytes());
        proof {
            encode_utf8_decode_utf8(input@);
            vstd::utf8::encode_utf8_valid_utf8(input@);
        }
        r
    }

    /// Opens a blob and reads its plaintext as UTF-8.
    pub fn decrypt_string(&self, input: &str) -> (r: Result<String>)
        ensures
            match r {
                Ok(text) => opened_string(self.key(), input@) == Some(text@),
                Err(Error::Base64(_)) => opened(self.key(), input@) == Opened::NotBase64,
                Err(Error::AuthenticationFailed(_)) => opened(self.key(), input@)
                    == Opened::Truncated || opened(self.key(), input@) == Opened::Rejected,
                Err(Error::BadUTF8(_)) => opened(self.key(), input@) is Plain && opened_string(
                    self.key(),
                    input@,
                ) is None,
                Err(_) => false,
            },
    {
        let decrypted = self.decrypt(input)?;
        match string_from_utf8(decrypted) {
            Ok(text) => {
                proof {
                    encode_utf8_decode_utf8(text@);
                }
                Ok(text)
            },
            Err(detail) => Err(Error::BadUTF8(detail)),
        }
    }
}

} // verus!
