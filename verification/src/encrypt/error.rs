//! Failures of the cipher layer.

use vstd::prelude::*;
use vstd::string::StringExecFns;

verus! {

pub type Result<T> = core::result::Result<T, Error>;

/// What can go wrong in the cipher layer. Each variant carries a text for
/// the user.
#[derive(Debug)]
pub enum Error {
    /// An authentication tag did not verify: wrong key, corrupted or
    /// truncated data.
    AuthenticationFailed(String),
    /// The cipher refused to seal.
    EncryptPassword(String),
    /// PEM or DER that does not hold the expected key.
    KeyFormat(String),
    /// An RSA operation failed.
    Rsa(String),
    /// Text that is not Base64.
    Base64(String),
    /// Bytes that are not UTF-8.
    BadUTF8(String),
    /// Reading or writing failed.
    Io(String),
    /// No master password is held by the session.
    NoMasterPassword(String),
}

/// `text` starts with `prefix`.
pub open spec fn has_prefix(text: Seq<char>, prefix: Seq<char>) -> bool {
    text.len() >= prefix.len() && text.subrange(0, prefix.len() as int) == prefix
}

impl Error {
    /// The text carried by the error.
    pub open spec fn detail(self) -> Seq<char> {
        match self {
            Error::AuthenticationFailed(text) => text@,
            Error::EncryptPassword(text) => text@,
            Error::KeyFormat(text) => text@,
            Error::Rsa(text) => text@,
            Error::Base64(text) => text@,
            Error::BadUTF8(text) => text@,
            Error::Io(text) => text@,
            Error::NoMasterPassword(text) => text@,
        }
    }

    /// The variant's name followed by a colon and a space.
    pub open spec fn label(self) -> Seq<char> {
        match self {
            Error::AuthenticationFailed(_) => "AuthenticationFailed: "@,
            Error::EncryptPassword(_) => "EncryptPassword: "@,
            Error::KeyFormat(_) => "KeyFormat: "@,
            Error::Rsa(_) => "Rsa: "@,
            Error::Base64(_) => "Base64: "@,
            Error::BadUTF8(_) => "BadUTF8: "@,
            Error::Io(_) => "Io: "@,
            Error::NoMasterPassword(_) => "NoMasterPassword: "@,
        }
    }

    /// The error as one line of text: its label, then its detail.
    pub fn to_string(&self) -> (text: String)
        ensures
            text@ == self.label() + self.detail(),
    {
        let (label, detail) = match self {
            Error::AuthenticationFailed(text) => ("AuthenticationFailed: ", text),
            Error::EncryptPassword(text) => ("EncryptPassword: ", text),
            Error::KeyFormat(text) => ("KeyFormat: ", text),
            Error::Rsa(text) => ("Rsa: ", text),
            Error::Base64(text) => ("Base64: ", text),
            Error::BadUTF8(text) => ("BadUTF8: ", text),
            Error::Io(text) => ("Io: ", text),
            Error::NoMasterPassword(text) => ("NoMasterPassword: ", text),
        };
        let mut out = String::from_str(label);
        out.append(detail.as_str());
        out
    }
}

} // verus!
