//! Failures of the master-password layer.

use vstd::prelude::*;
use vstd::string::StringExecFns;

verus! {

pub type Result<T> = core::result::Result<T, Error>;

/// What can go wrong while saving or verifying the master password. Each
/// variant carries a text for the user.
#[derive(Debug)]
pub enum Error {
    /// Sealing under the password failed.
    EncryptPassword(String),
    /// Opening under the password failed.
    DecryptPassword(String),
    /// The cipher layer failed; the text is its error as one line.
    EncryptMod(String),
    /// Stored text is not Base64.
    Base64(String),
    /// The session lock is poisoned.
    StateLock(String),
    /// The password is not the one the stored record was made with, or the
    /// record is damaged; which of the two is not told.
    WrongPassword(String),
    /// Reading or writing failed.
    Io(String),
    /// A protected private key is already stored and is not overwritten.
    KeyExists(String),
    /// No master password is held by the session.
    NoMasterPassword(String),
}

impl Error {
    /// The text carried by the error.
    pub open spec fn detail(self) -> Seq<char> {
        match self {
            Error::EncryptPassword(text) => text@,
            Error::DecryptPassword(text) => text@,
            Error::EncryptMod(text) => text@,
            Error::Base64(text) => text@,
            Error::StateLock(text) => text@,
            Error::WrongPassword(text) => text@,
            Error::Io(text) => text@,
            Error::KeyExists(text) => text@,
            Error::NoMasterPassword(text) => text@,
        }
    }

    /// The variant's name followed by a colon and a space.
    pub open spec fn label(self) -> Seq<char> {
        match self {
            Error::EncryptPassword(_) => "EncryptPassword: "@,
            Error::DecryptPassword(_) => "DecryptPassword: "@,
            Error::EncryptMod(_) => "EncryptMod: "@,
            Error::Base64(_) => "Base64: "@,
            Error::StateLock(_) => "StateLock: "@,
            Error::WrongPassword(_) => "WrongPassword: "@,
            Error::Io(_) => "Io: "@,
            Error::KeyExists(_) => "KeyExists: "@,
            Error::NoMasterPassword(_) => "NoMasterPassword: "@,
        }
    }

    /// The error as one line of text: its label, then its detail.
    pub fn to_string(&self) -> (text: String)
        ensures
            text@ == self.label() + self.detail(),
    {
        let (label, detail) = match self {
            Error::EncryptPassword(text) => ("EncryptPassword: ", text),
            Error::DecryptPassword(text) => ("DecryptPassword: ", text),
            Error::EncryptMod(text) => ("EncryptMod: ", text),
            Error::Base64(text) => ("Base64: ", text),
            Error::StateLock(text) => ("StateLock: ", text),
            Error::WrongPassword(text) => ("WrongPassword: ", text),
            Error::Io(text) => ("Io: ", text),
            Error::KeyExists(text) => ("KeyExists: ", text),
            Error::NoMasterPassword(text) => ("NoMasterPassword: ", text),
        };
        let mut out = String::from_str(label);
        out.append(detail.as_str());
        out
    }

    /// Wraps a failure of the cipher layer.
    pub fn from_encrypt(e: crate::encrypt::Error) -> (wrapped: Self)
        ensures
            wrapped matches Error::EncryptMod(text) && text@ == e.label() + e.detail(),
    {
        Error::EncryptMod(e.to_string())
    }
}

} // verus!
