//! Failures as the outer interface reports them.

use vstd::prelude::*;
use vstd::string::StringExecFns;
use crate::yubikey::padding::PaddingFault;

verus! {

pub type Result<T> = core::result::Result<T, Error>;

/// Why an exchange with a hardware token was refused before or after the
/// token itself was asked.
#[derive(Clone, Copy, Debug, PartialEq, Eq, Structural)]
pub enum ProtocolFault {
    /// The slot reports no asymmetric algorithm.
    AlgorithmMissing,
    /// The slot's key is of an algorithm that the operation does not work
    /// with.
    UnexpectedAlgorithm,
    /// The bound device record holds no public key.
    PublicKeyMissing,
    /// The ciphertext is not Base64.
    MalformedCiphertext,
    /// The challenge is not Base64.
    MalformedChallenge,
    /// The challenge has not the length that the slot's algorithm signs.
    ChallengeLength { expected: usize, actual: usize },
    /// The token returned an empty signature.
    EmptySignature,
    /// The raw RSA result is not a PKCS#1 v1.5 block.
    Padding(PaddingFault),
}

impl ProtocolFault {
    /// The fault in words.
    pub fn message(&self) -> (text: &'static str)
        ensures
            text@ == match *self {
                ProtocolFault::AlgorithmMissing => "Algorithm not found for slot"@,
                ProtocolFault::UnexpectedAlgorithm => "Unexpected algorithm in slot"@,
                ProtocolFault::PublicKeyMissing => "Public key not found"@,
                ProtocolFault::MalformedCiphertext =>
                    "Failed to decode base64 encrypted data: not Base64"@,
                ProtocolFault::MalformedChallenge =>
                    "Invalid challenge format (base64 decode failed): not Base64"@,
                ProtocolFault::ChallengeLength { .. } => "Challenge size mismatch"@,
                ProtocolFault::EmptySignature => "Authentication failed: produced an empty signature"@,
                ProtocolFault::Padding(PaddingFault::BlockTooShort) =>
                    "Decryption error: Padded data too short"@,
                ProtocolFault::Padding(PaddingFault::BadHeader) =>
                    "Decryption error: Invalid PKCS#1 v1.5 padding header"@,
                ProtocolFault::Padding(PaddingFault::PaddingTooShort) =>
                    "Decryption error: PKCS#1 v1.5 padding string (PS) too short"@,
                ProtocolFault::Padding(PaddingFault::NoSeparator) =>
                    "Decryption error: PKCS#1 v1.5 padding separator 0x00 not found after PS"@,
                ProtocolFault::Padding(PaddingFault::EmptyMessage) =>
                    "Decryption error: PKCS#1 v1.5 unpadding resulted in an empty message"@,
            },
    {
        match *self {
            ProtocolFault::AlgorithmMissing => "Algorithm not found for slot",
            ProtocolFault::UnexpectedAlgorithm => "Unexpected algorithm in slot",
            ProtocolFault::PublicKeyMissing => "Public key not found",
            ProtocolFault::MalformedCiphertext =>
                "Failed to decode base64 encrypted data: not Base64",
            ProtocolFault::MalformedChallenge =>
                "Invalid challenge format (base64 decode failed): not Base64",
            ProtocolFault::ChallengeLength { .. } => "Challenge size mismatch",
            ProtocolFault::EmptySignature => "Authentication failed: produced an empty signature",
            ProtocolFault::Padding(PaddingFault::BlockTooShort) =>
                "Decryption error: Padded data too short",
            ProtocolFault::Padding(PaddingFault::BadHeader) =>
                "Decryption error: Invalid PKCS#1 v1.5 padding header",
            ProtocolFault::Padding(PaddingFault::PaddingTooShort) =>
                "Decryption error: PKCS#1 v1.5 padding string (PS) too short",
            ProtocolFault::Padding(PaddingFault::NoSeparator) =>
                "Decryption error: PKCS#1 v1.5 padding separator 0x00 not found after PS",
            ProtocolFault::Padding(PaddingFault::EmptyMessage) =>
                "Decryption error: PKCS#1 v1.5 unpadding resulted in an empty message",
        }
    }
}

/// What the outer interface reports.
#[derive(Debug)]
pub enum Error {
    /// Start-up failed.
    TauriInit(String),
    /// The secrets layer failed.
    Secrets(String),
    /// Anything that has no variant of its own.
    Custom(String),
    /// The cipher layer failed.
    Encryption(String),
    /// Reading or writing failed.
    Io(String),
    /// The session lock is poisoned.
    StateLock(String),
    /// The master-password layer failed.
    MasterPassword(String),
    /// The token or its driver reported a failure.
    YubiKeyError(String),
    /// No token with the serial number asked for is present.
    DeviceNotFound(String),
    /// The token did not accept the PIN, or was used before the PIN was
    /// verified.
    DevicePinFailed(String),
    /// An exchange with the token was refused; the fault says why.
    DeviceProtocol(ProtocolFault),
}

impl Error {
    /// Wraps a failure of the cipher layer.
    pub fn from_encrypt(e: crate::encrypt::Error) -> (wrapped: Self)
        ensures
            wrapped matches Error::Encryption(text) && text@ == e.label() + e.detail(),
    {
        Error::Encryption(e.to_string())
    }

    /// Wraps a failure of the master-password layer.
    pub fn from_master_password(e: crate::master_password::Error) -> (wrapped: Self)
        ensures
            wrapped matches Error::MasterPassword(text) && text@ == e.label() + e.detail(),
    {
        Error::MasterPassword(e.to_string())
    }

    /// Wraps a failure of the secrets layer.
    pub fn from_secrets(e: crate::secrets::Error) -> (wrapped: Self)
        ensures
            wrapped matches Error::Custom(text) && text@ == e.label() + e.detail(),
    {
        Error::Custom(e.to_string())
    }

    /// Wraps a bare text.
    pub fn from_string(e: String) -> (wrapped: Self)
        ensures
            wrapped matches Error::Custom(text) && text@ == e@,
    {
        Error::Custom(e)
    }

    /// A poisoned session lock: fatal to the operation, told apart from "not
    /// authenticated".
    pub fn lock_poisoned() -> (e: Self)
        ensures
            e matches Error::StateLock(text) && text@ == "Mutex lock poisoned"@,
    {
        Error::StateLock(String::from_str("Mutex lock poisoned"))
    }
}

} // verus!
