//! Symmetric primitives taken from outside crates: AES-256-GCM, SHA-2, SHA-3,
//! HKDF and PBKDF2. Each function here is a thin call whose contract is
//! believed, not proved.

use vstd::prelude::*;
use aes_gcm::aead::Aead;
use aes_gcm::aead::KeyInit;
use crypto::digest::Digest as Sha3Digest;
use sha2::Digest;

verus! {

/// Bytes in an AES-256 key.
pub const KEY_LEN: usize = 32;

/// Bytes in an AES-GCM nonce.
pub const NONCE_LEN: usize = 12;

/// Bytes in an AES-GCM authentication tag.
pub const TAG_LEN: usize = 16;

/// AES-256-GCM ciphertext with its tag appended, or `None` where the cipher
/// refuses the plaintext.
pub uninterp spec fn aes_gcm_sealed(key: Seq<u8>, nonce: Seq<u8>, plaintext: Seq<u8>) -> Option<
    Seq<u8>,
>;

/// The plaintext of an AES-256-GCM ciphertext with appended tag, or `None`
/// where the tag does not verify.
pub uninterp spec fn aes_gcm_opened(key: Seq<u8>, nonce: Seq<u8>, sealed: Seq<u8>) -> Option<
    Seq<u8>,
>;

/// SHA3-256 digest.
pub uninterp spec fn sha3_256(data: Seq<u8>) -> Seq<u8>;

/// SHA-256 digest.
pub uninterp spec fn sha256(data: Seq<u8>) -> Seq<u8>;

/// SHA-384 digest.
pub uninterp spec fn sha384(data: Seq<u8>) -> Seq<u8>;

/// HKDF over SHA-256 without salt: `len` bytes of output keying material.
pub uninterp spec fn hkdf_sha256(ikm: Seq<u8>, info: Seq<u8>, len: nat) -> Option<Seq<u8>>;

/// HKDF over SHA-384 without salt: `len` bytes of output keying material.
pub uninterp spec fn hkdf_sha384(ikm: Seq<u8>, info: Seq<u8>, len: nat) -> Option<Seq<u8>>;

/// PBKDF2 with HMAC-SHA256: a 32-byte key.
pub uninterp spec fn pbkdf2_hmac_sha256(iterations: u32, salt: Seq<u8>, password: Seq<u8>) -> Seq<
    u8,
>;

/// Calls `aes_gcm::Aes256Gcm::encrypt` (trait `Aead`) with a key made by
/// `new_from_slice`.
///
/// Believed of it: the result depends on key, nonce and plaintext alone; the
/// output is the plaintext's length plus a 16-byte tag; and opening the
/// output under the same key and nonce gives the plaintext back. The nonce
/// conversion of the outside crate panics on another length than 12, which
/// the precondition leaves out.
#[verifier::external_body]
pub(crate) fn aes_gcm_seal(key: &[u8], nonce: &[u8], plaintext: &[u8]) -> (r: Option<Vec<u8>>)
    requires
        nonce@.len() == NONCE_LEN,
    ensures
        r is Some <==> aes_gcm_sealed(key@, nonce@, plaintext@) is Some,
        r matches Some(sealed) ==> {
            &&& aes_gcm_sealed(key@, nonce@, plaintext@) == Some(sealed@)
            &&& sealed@.len() == plaintext@.len() + TAG_LEN
            &&& aes_gcm_opened(key@, nonce@, sealed@) == Some(plaintext@)
        },
{
    let cipher = aes_gcm::Aes256Gcm::new_from_slice(key).ok()?;
    cipher.encrypt(aes_gcm::Nonce::from_slice(nonce), plaintext).ok()
}

/// Calls `aes_gcm::Aes256Gcm::decrypt` (trait `Aead`) with a key made by
/// `new_from_slice`.
///
/// Believed of it: the result depends on key, nonce and input alone.
#[verifier::external_body]
pub(crate) fn aes_gcm_open(key: &[u8], nonce: &[u8], sealed: &[u8]) -> (r: Option<Vec<u8>>)
    requires
        nonce@.len() == NONCE_LEN,
    ensures
        r is Some <==> aes_gcm_opened(key@, nonce@, sealed@) is Some,
        r matches Some(plaintext) ==> aes_gcm_opened(key@, nonce@, sealed@) == Some(plaintext@),
{
    let cipher = aes_gcm::Aes256Gcm::new_from_slice(key).ok()?;
    cipher.decrypt(aes_gcm::Nonce::from_slice(nonce), sealed).ok()
}

/// Feeds two parts to `crypto::sha3::Sha3::sha3_256()` and reads the digest.
///
/// Believed of it: the digest is that of the two parts joined, and has 32
/// bytes.
#[verifier::external_body]
pub(crate) fn sha3_256_of_parts(first: &[u8], second: &[u8]) -> (digest: Vec<u8>)
    ensures
        digest@ == sha3_256(first@ + second@),
        digest@.len() == 32,
{
    let mut hasher = crypto::sha3::Sha3::sha3_256();
    hasher.input(first);
    hasher.input(second);
    let mut digest = vec![0u8; 32];
    hasher.result(&mut digest);
    digest
}

/// Calls `sha2::Sha256::digest`.
#[verifier::external_body]
pub(crate) fn sha256_digest(data: &[u8]) -> (digest: Vec<u8>)
    ensures
        digest@ == sha256(data@),
        digest@.len() == 32,
{
    sha2::Sha256::digest(data).to_vec()
}

/// Calls `sha2::Sha384::digest`.
#[verifier::external_body]
pub(crate) fn sha384_digest(data: &[u8]) -> (digest: Vec<u8>)
    ensures
        digest@ == sha384(data@),
        digest@.len() == 48,
{
    sha2::Sha384::digest(data).to_vec()
}

/// Calls `hkdf::Hkdf::<Sha256>::new(None, ikm)` and `expand`.
///
/// Believed of it: the output depends on the arguments alone and has the
/// length asked for.
#[verifier::external_body]
pub(crate) fn hkdf_sha256_expand(ikm: &[u8], info: &[u8], len: usize) -> (r: Option<Vec<u8>>)
    ensures
        r is Some <==> hkdf_sha256(ikm@, info@, len as nat) is Some,
        r matches Some(okm) ==> hkdf_sha256(ikm@, info@, len as nat) == Some(okm@) && okm@.len()
            == len,
{
    let mut okm = vec![0u8; len];
    hkdf::Hkdf::<sha2::Sha256>::new(None, ikm).expand(info, &mut okm).ok()?;
    Some(okm)
}

/// Calls `hkdf::Hkdf::<Sha384>::new(None, ikm)` and `expand`.
///
/// Believed of it: the output depends on the arguments alone and has the
/// length asked for.
#[verifier::external_body]
pub(crate) fn hkdf_sha384_expand(ikm: &[u8], info: &[u8], len: usize) -> (r: Option<Vec<u8>>)
    ensures
        r is Some <==> hkdf_sha384(ikm@, info@, len as nat) is Some,
        r matches Some(okm) ==> hkdf_sha384(ikm@, info@, len as nat) == Some(okm@) && okm@.len()
            == len,
{
    let mut okm = vec![0u8; len];
    hkdf::Hkdf::<sha2::Sha384>::new(None, ikm).expand(info, &mut okm).ok()?;
    Some(okm)
}

/// Input lengths that the digest under PBKDF2 accepts.
pub open spec fn pbkdf2_input_ok(len: nat) -> bool {
    len < 0x1000_0000_0000_0000
}

/// Calls `ring::pbkdf2::derive` with `PBKDF2_HMAC_SHA256` for a 32-byte key.
///
/// Believed of it: the key depends on iteration count, salt and password
/// alone. The outside function panics on inputs too long for the digest
/// and takes a non-zero count; the precondition leaves the rest out.
#[verifier::external_body]
pub(crate) fn pbkdf2_derive(iterations: u32, salt: &[u8], password: &[u8]) -> (key: Vec<u8>)
    requires
        iterations > 0,
        pbkdf2_input_ok(salt@.len()),
        pbkdf2_input_ok(password@.len()),
    ensures
        key@ == pbkdf2_hmac_sha256(iterations, salt@, password@),
        key@.len() == 32,
{
    let mut key = vec![0u8; 32];
    let rounds = core::num::NonZeroU32::new(iterations).unwrap();
    ring::pbkdf2::derive(ring::pbkdf2::PBKDF2_HMAC_SHA256, rounds, salt, password, &mut key);
    key
}

} // verus!
