//! A local secrets vault: password-derived authenticated envelopes, RSA and
//! elliptic-curve key handling, master-password records, sealed secrets and
//! the decisions of a PIV hardware-token bridge.
//!
//! Everything outside this crate that the vault relies on (ciphers, encoders,
//! random generators) is reached through small private functions whose
//! contracts are stated, not proved; each of them says so in its comment.

pub mod bytes;
pub mod codec;
pub mod app_state;
pub mod encrypt;
pub mod error;
pub mod file_system;
pub mod master_password;
pub mod secrets;
pub mod yubikey;

pub use app_state::AppState;
pub use encrypt::AES;
pub use error::Error;
pub use error::Result;
pub use file_system::FileSystem;
pub use master_password::MasterPassword;

use vstd::prelude::*;

verus! {

/// A thin newtype for values that cross the outer interface.
pub struct W<T>(pub T);

} // verus!
