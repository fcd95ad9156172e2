//! Failures of the secrets layer.

use vstd::prelude::*;
use vstd::string::StringExecFns;

verus! {

pub type Result<T> = core::result::Result<T, Error>;

/// What can go wrong while sealing or opening a secret. Each variant carries
/// a text for the user.
#[derive(Debug)]
pub enum Error {
    /// A secret could not be written as, or read from, its serial form.
    Json(String),
    /// The cipher layer failed; the text is its error as one line.
    EncryptMod(String),
    /// Reading or writing failed.
    Io(String),
    /// The session lock is poisoned.
    AppStateLock(String),
    /// The master-password layer failed; the text is its error as one line.
    MasterPassword(String),
}

impl Error {
    /// The text carried by the error.
    pub open spec fn detail(self) -> Seq<char> {
        match self {
            Error::Json(text) => text@,
            Error::EncryptMod(text) => text@,
            Error::Io(text) => text@,
            Error::AppStateLock(text) => text@,
            Error::MasterPassword(text) => text@,
        }
    }

    /// The variant's name, qualified, followed by a colon and a space.
    pub open spec fn label(self) -> Seq<char> {
        match self {
            Error::Json(_) => "secrets::Json: "@,
            Error::EncryptMod(_) => "secrets::EncryptMod: "@,
            Error::Io(_) => "secrets::Io: "@,
            Error::AppStateLock(_) => "secrets::AppStateLock: "@,
            Error::MasterPassword(_) => "secrets::MasterPassword: "@,
        }
    }

    /// The error as one line of text: its label, then its detail.
    pub fn to_string(&self) -> (text: String)
        ensures
            text@ == self.label() + self.detail(),
    {
        let (label, detail) = match self {
            Error::Json(text) => ("secrets::Json: ", text),
            Error::EncryptMod(text) => ("secrets::EncryptMod: ", text),
            Error::Io(text) => ("secrets::Io: ", text),
            Error::AppStateLock(text) => ("secrets::AppStateLock: ", text),
            Error::MasterPassword(text) => ("secrets::MasterPassword: ", text),
        };
        let mut out = String::from_str(label);
        out.append(detail.as_str());
        out
    }

    /// Wraps a failure of the cipher layer.
    pub fn from_encrypt(e: crate::encrypt::Error) -> (wrapped: Self)
        ensures
            wrapped matches Error::EncryptMod(text) && text@ == e.label() + e.detail(),
    {
        Error::EncryptMod(e.to_string())
    }

    /// Wraps a failure of the master-password layer.
    pub fn from_master_password(e: crate::master_password::Error) -> (wrapped: Self)
        ensures
            wrapped matches Error::MasterPassword(text) && text@ == e.label() + e.detail(),
    {
        Error::MasterPassword(e.to_string())
    }
}

} // verus!
