//! An envelope whose key comes from PBKDF2-HMAC-SHA256 with 100,000
//! iterations. Its blobs are `base64(nonce ‖ ciphertext ‖ tag)`; the salt is
//! not kept, so an encryptor opens only what it sealed itself.

use vstd::prelude::*;
use vstd::string::StringExecFns;
use vstd::utf8::encode_utf8;
use crate::bytes::copy_range;
use crate::bytes::extend_bytes;
use crate::codec::base64_bytes;
use crate::codec::base64_decode;
use crate::codec::base64_encodable;
use crate::codec::base64_encode;
use crate::codec::base64_text;
use crate::codec::can_base64_encode;
use crate::codec::os_random_bytes;
use crate::encrypt::aes::Opened;
use crate::encrypt::primitives::aes_gcm_open;
use crate::encrypt::primitives::aes_gcm_opened;
use crate::encrypt::primitives::aes_gcm_seal;
use crate::encrypt::primitives::aes_gcm_sealed;
use crate::encrypt::primitives::pbkdf2_derive;
use crate::encrypt::primitives::pbkdf2_hmac_sha256;
use crate::encrypt::primitives::pbkdf2_input_ok;
use crate::encrypt::primitives::NONCE_LEN;

verus! {

/// Rounds of PBKDF2.
pub const PBKDF2_ITERATIONS: u32 = 100_000;

/// Passwords of this many bytes or more are too long for the digest.
pub const PBKDF2_MAX_INPUT: u64 = 0x1000_0000_0000_0000;

/// Bytes of salt drawn for each new encryptor.
pub const PBKDF2_SALT_LEN: usize = 16;

/// Failures of the PBKDF2 envelope.
#[derive(Debug)]
pub enum EncryptionError {
    /// Sealing failed.
    Encryption(String),
    /// Opening failed: truncated blob, or a tag that does not verify.
    Decryption(String),
    /// The text is not Base64.
    Base64(String),
}

impl EncryptionError {
    /// The error as one line of text.
    pub fn to_string(&self) -> (text: String)
        ensures
            text@ == match self {
                EncryptionError::Encryption(msg) => "Encryption error: "@ + msg@,
                EncryptionError::Decryption(msg) => "Decryption error: "@ + msg@,
                EncryptionError::Base64(msg) => "Base64 error: "@ + msg@,
            },
    {
        let (label, msg) = match self {
            EncryptionError::Encryption(msg) => ("Encryption error: ", msg),
            EncryptionError::Decryption(msg) => ("Decryption error: ", msg),
            EncryptionError::Base64(msg) => ("Base64 error: ", msg),
        };
        let mut out = String::from_str(label);
        out.append(msg.as_str());
        out
    }
}

/// The key for a password and a salt.
pub open spec fn stretched_key(password: Seq<char>, salt: Seq<u8>) -> Seq<u8> {
    pbkdf2_hmac_sha256(100_000, salt, encode_utf8(password))
}

/// The text of a blob sealed with a given nonce, or `None` where the nonce
/// has not 12 bytes, the cipher refuses, or the text would be too long.
pub open spec fn sealed_bare(key: Seq<u8>, nonce: Seq<u8>, data: Seq<u8>) -> Option<Seq<char>> {
    if nonce.len() != 12 {
        None
    } else {
        match aes_gcm_sealed(key, nonce, data) {
            None => None,
            Some(sealed) => if base64_encodable((nonce + sealed).len()) {
                Some(base64_text(nonce + sealed))
            } else {
                None
            },
        }
    }
}

/// Opens the text of a blob: decodes, reads the 12-byte nonce and opens the
/// rest.
pub open spec fn opened_bare(key: Seq<u8>, text: Seq<char>) -> Opened {
    match base64_bytes(encode_utf8(text)) {
        None => Opened::NotBase64,
        Some(blob) => if blob.len() < 12 {
            Opened::Truncated
        } else {
            match aes_gcm_opened(key, blob.subrange(0, 12), blob.subrange(12, blob.len() as int)) {
                None => Opened::Rejected,
                Some(plaintext) => Opened::Plain(plaintext),
            }
        },
    }
}

/// A key stretched from a password.
#[derive(Debug)]
pub struct PasswordEncryptor {
    key: Vec<u8>,
}

impl PasswordEncryptor {
    #[verifier::type_invariant]
    spec fn well_formed(self) -> bool {
        self.key@.len() == 32
    }

    /// The stretched key.
    pub closed spec fn key(self) -> Seq<u8> {
        self.key@
    }

    /// The encryptor for `password` under a given salt.
    pub fn with_salt(password: &str, salt: &[u8]) -> (encryptor: Self)
        requires
            pbkdf2_input_ok(encode_utf8(password@).len()),
            pbkdf2_input_ok(salt@.len()),
        ensures
            encryptor.key() == stretched_key(password@, salt@),
    {
        let key = pbkdf2_derive(PBKDF2_ITERATIONS, salt, password.as_bytes());
        Self { key }
    }

    /// An encryptor for `password` under 16 freshly drawn salt bytes.
    pub fn new(password: &str) -> (encryptor: Self)
        requires
            pbkdf2_input_ok(encode_utf8(password@).len()),
        ensures
            exists|salt: Seq<u8>|
                salt.len() == 16 && encryptor.key() == #[trigger] stretched_key(password@, salt),
    {
        let salt = Self::generate_salt();
        let encryptor = Self::with_salt(password, salt.as_slice());
        assert(encryptor.key() == stretched_key(password@, salt@));
        encryptor
    }

    /// An encryptor for `password` under freshly drawn salt, or nothing
    /// where the password is too long for the digest.
    pub fn try_new(password: &str) -> (r: Option<Self>)
        ensures
            r is Some <==> pbkdf2_input_ok(encode_utf8(password@).len()),
            r matches Some(encryptor) ==> exists|salt: Seq<u8>|
                salt.len() == 16 && encryptor.key() == #[trigger] stretched_key(password@, salt),
    {
        if (password.as_bytes().len() as u64) < PBKDF2_MAX_INPUT {
            Some(Self::new(password))
        } else {
            None
        }
    }

    /// Seals `data` under a given nonce: `base64(nonce ‖ sealed)`.
    pub fn seal_with_nonce(&self, nonce: &[u8], data: &[u8]) -> (r: Result<String, EncryptionError>)
        ensures
            match r {
                Ok(blob) => sealed_bare(self.key(), nonce@, data@) == Some(blob@) && opened_bare(
                    self.key(),
                    blob@,
                ) == Opened::Plain(data@),
                Err(EncryptionError::Encryption(_)) => sealed_bare(self.key(), nonce@, data@)
                    is None,
                Err(_) => false,
            },
    {
        if nonce.len() != NONCE_LEN {
            return Err(EncryptionError::Encryption(String::from_str("Invalid nonce length")));
        }
        let sealed = match aes_gcm_seal(self.key.as_slice(), nonce, data) {
            Some(sealed) => sealed,
            None => {
                return Err(EncryptionError::Encryption(String::from_str("aead::Error")));
            },
        };
        let mut combined: Vec<u8> = Vec::new();
        extend_bytes(&mut combined, nonce);
        extend_bytes(&mut combined, sealed.as_slice());
        if !can_base64_encode(combined.len()) {
            return Err(EncryptionError::Encryption(String::from_str("Encrypted data too long")));
        }
        let blob = base64_encode(combined.as_slice());
        proof {
            assert(combined@.subrange(0, 12) == nonce@);
            assert(combined@.subrange(12, combined@.len() as int) == sealed@);
        }
        Ok(blob)
    }

    /// Seals `data` under a freshly drawn nonce.
    pub fn encrypt(&self, data: &[u8]) -> (r: Result<String, EncryptionError>)
        ensures
            match r {
                Ok(blob) => opened_bare(self.key(), blob@) == Opened::Plain(data@) && exists|
                    nonce: Seq<u8>,
                | #[trigger] sealed_bare(self.key(), nonce, data@) == Some(blob@),
                Err(EncryptionError::Encryption(_)) => exists|nonce: Seq<u8>|
                    nonce.len() == 12 && #[trigger] sealed_bare(self.key(), nonce, data@) is None,
                Err(_) => false,
            },
    {
        let nonce = os_random_bytes(NONCE_LEN);
        self.seal_with_nonce(nonce.as_slice(), data)
    }

    /// Opens a blob.
    pub fn decrypt(&self, encrypted_data: &str) -> (r: Result<Vec<u8>, EncryptionError>)
        ensures
            match r {
                Ok(plaintext) => opened_bare(self.key(), encrypted_data@) == Opened::Plain(
                    plaintext@,
                ),
                Err(EncryptionError::Base64(_)) => opened_bare(self.key(), encrypted_data@)
                    == Opened::NotBase64,
                Err(EncryptionError::Decryption(_)) => opened_bare(self.key(), encrypted_data@)
                    == Opened::Truncated || opened_bare(self.key(), encrypted_data@)
                    == Opened::Rejected,
                Err(_) => false,
            },
    {
        let encrypted_bytes = match base64_decode(encrypted_data.as_bytes()) {
            Ok(bytes) => bytes,
            Err(text) => {
                return Err(EncryptionError::Base64(text));
            },
        };
        if encrypted_bytes.len() < NONCE_LEN {
            return Err(
                EncryptionError::Decryption(String::from_str("Invalid encrypted data length")),
            );
        }
        let nonce = copy_range(encrypted_bytes.as_slice(), 0, NONCE_LEN);
        let ciphertext = copy_range(encrypted_bytes.as_slice(), NONCE_LEN, encrypted_bytes.len());
        match aes_gcm_open(self.key.as_slice(), nonce.as_slice(), ciphertext.as_slice()) {
            Some(plaintext) => Ok(plaintext),
            None => Err(EncryptionError::Decryption(String::from_str("aead::Error"))),
        }
    }

    /// Draws 16 random bytes.
    fn generate_salt() -> (salt: Vec<u8>)
        ensures
            salt@.len() == 16,
    {
        os_random_bytes(PBKDF2_SALT_LEN)
    }
}

} // verus!
