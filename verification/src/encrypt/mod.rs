//! Ciphers of the vault: the password-derived envelope, the RSA keyring and
//! the elliptic-curve hybrid cipher.

pub mod error;
pub mod primitives;
pub mod aes;
pub mod rsa_calls;
pub mod rsa;
pub mod curves;
pub mod ecc;

pub use error::Error;
pub use error::Result;
pub use aes::AES;
pub use rsa::PublicKey;
pub use rsa::RsaKeyPair;
pub use ecc::EccAlgorithm;
