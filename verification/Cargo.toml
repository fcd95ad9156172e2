[package]
name = "vault_lib"
version = "0.1.0"
edition = "2021"
publish = false

[dependencies]
aes-gcm = "0.10"
base64 = "0.22"
rust-crypto = "0.2"
hkdf = "0.12"
p256 = { version = "0.13", features = ["ecdh", "ecdsa", "pem"] }
p384 = { version = "0.13", features = ["ecdh", "ecdsa", "pem"] }
rand = "0.8"
ring = "0.17"
rsa = { version = "0.9", features = ["sha2"] }
sha2 = "0.10"
signature = "2"
secrecy = "0.8"
serde = { version = "1", features = ["derive"] }
serde_json = "1"
uuid = { version = "1", features = ["v4"] }
thiserror = "1"
dirs = "5"
pkcs11 = "0.5"
yubikey = { version = "0.8", features = ["untested"] }

[dev-dependencies]
tempfile = "3"
