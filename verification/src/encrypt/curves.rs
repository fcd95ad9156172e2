//! NIST P-256 and P-384 operations taken from the `p256` and `p384` crates.
//! Each function here is a thin call whose contract is believed, not proved.
//! Keys travel as bytes: secret scalars big-endian, public points in the
//! uncompressed SEC1 encoding.

use vstd::prelude::*;
use p256::elliptic_curve::sec1::ToEncodedPoint;
use p256::pkcs8::DecodePublicKey;
use signature::Signer;
use signature::Verifier;

verus! {

/// Bytes of a P-256 secret scalar.
pub const P256_SCALAR_LEN: usize = 32;

/// Bytes of an uncompressed P-256 point.
pub const P256_POINT_LEN: usize = 65;

/// Bytes of a P-384 secret scalar.
pub const P384_SCALAR_LEN: usize = 48;

/// Bytes of an uncompressed P-384 point.
pub const P384_POINT_LEN: usize = 97;

/// The bytes are accepted as a P-256 secret key.
pub uninterp spec fn p256_is_secret(bytes: Seq<u8>) -> bool;

/// The bytes are accepted as a SEC1-encoded P-256 public key.
pub uninterp spec fn p256_is_point(bytes: Seq<u8>) -> bool;

/// The uncompressed public point of a P-256 secret key, or `None` where the
/// bytes are no secret key.
pub uninterp spec fn p256_public_of(secret: Seq<u8>) -> Option<Seq<u8>>;

/// Whoever holds the secret key of `recipient` computes `shared` from
/// `point`: the two sides of an ECDH exchange agree.
pub open spec fn p256_holder_agrees(recipient: Seq<u8>, point: Seq<u8>, shared: Seq<u8>) -> bool {
    forall|secret: Seq<u8>| #[trigger]
        p256_public_of(secret) == Some(recipient) ==> p256_is_secret(secret) && p256_shared_secret(
            secret,
            point,
        ) == Some(shared)
}

/// The raw ECDH shared secret of a P-256 secret key and a peer's point, or
/// `None` where either is refused.
pub uninterp spec fn p256_shared_secret(secret: Seq<u8>, point: Seq<u8>) -> Option<Seq<u8>>;

/// The deterministic ECDSA/SHA-256 signature of a message under a P-256
/// secret key, or `None` where the key is refused or signing fails.
pub uninterp spec fn p256_signature(secret: Seq<u8>, message: Seq<u8>) -> Option<Seq<u8>>;

/// Whether a fixed-width signature verifies for a message under a P-256
/// public key, or `None` where key or signature cannot be parsed.
pub uninterp spec fn p256_verification(point: Seq<u8>, message: Seq<u8>, signature: Seq<u8>)
    -> Option<bool>;

/// The bytes are accepted as a P-384 secret key.
pub uninterp spec fn p384_is_secret(bytes: Seq<u8>) -> bool;

/// The bytes are accepted as a SEC1-encoded P-384 public key.
pub uninterp spec fn p384_is_point(bytes: Seq<u8>) -> bool;

/// The uncompressed public point of a P-384 secret key, or `None` where the
/// bytes are no secret key.
pub uninterp spec fn p384_public_of(secret: Seq<u8>) -> Option<Seq<u8>>;

/// Whoever holds the secret key of `recipient` computes `shared` from
/// `point`: the two sides of an ECDH exchange agree.
pub open spec fn p384_holder_agrees(recipient: Seq<u8>, point: Seq<u8>, shared: Seq<u8>) -> bool {
    forall|secret: Seq<u8>| #[trigger]
        p384_public_of(secret) == Some(recipient) ==> p384_is_secret(secret) && p384_shared_secret(
            secret,
            point,
        ) == Some(shared)
}

/// The raw ECDH shared secret of a P-384 secret key and a peer's point, or
/// `None` where either is refused.
pub uninterp spec fn p384_shared_secret(secret: Seq<u8>, point: Seq<u8>) -> Option<Seq<u8>>;

/// The deterministic ECDSA/SHA-384 signature of a message under a P-384
/// secret key, or `None` where the key is refused or signing fails.
pub uninterp spec fn p384_signature(secret: Seq<u8>, message: Seq<u8>) -> Option<Seq<u8>>;

/// Whether a fixed-width signature verifies for a message under a P-384
/// public key, or `None` where key or signature cannot be parsed.
pub uninterp spec fn p384_verification(point: Seq<u8>, message: Seq<u8>, signature: Seq<u8>)
    -> Option<bool>;

/// The uncompressed point of the P-256 public key in an SPKI PEM text, or
/// `None` where the text holds none.
pub uninterp spec fn p256_point_of_pem(pem: Seq<char>) -> Option<Seq<u8>>;

/// The uncompressed point of the P-384 public key in an SPKI PEM text, or
/// `None` where the text holds none.
pub uninterp spec fn p384_point_of_pem(pem: Seq<char>) -> Option<Seq<u8>>;

/// Calls `p256::PublicKey::from_public_key_pem` and encodes the key as an
/// uncompressed point.
///
/// Believed of it: the outcome depends on the text alone, and the point is
/// one that the crate accepts.
#[verifier::external_body]
pub(crate) fn p256_point_from_pem(pem: &str) -> (r: Option<Vec<u8>>)
    ensures
        r is Some <==> p256_point_of_pem(pem@) is Some,
        r matches Some(point) ==> p256_point_of_pem(pem@) == Some(point@) && p256_is_point(point@),
{
    let key = p256::PublicKey::from_public_key_pem(pem).ok()?;
    Some(key.to_encoded_point(false).as_bytes().to_vec())
}

/// Calls `p384::PublicKey::from_public_key_pem` and encodes the key as an
/// uncompressed point.
///
/// Believed of it: the outcome depends on the text alone, and the point is
/// one that the crate accepts.
#[verifier::external_body]
pub(crate) fn p384_point_from_pem(pem: &str) -> (r: Option<Vec<u8>>)
    ensures
        r is Some <==> p384_point_of_pem(pem@) is Some,
        r matches Some(point) ==> p384_point_of_pem(pem@) == Some(point@) && p384_is_point(point@),
{
    let key = p384::PublicKey::from_public_key_pem(pem).ok()?;
    Some(key.to_encoded_point(false).as_bytes().to_vec())
}

/// Calls `p256::ecdsa::SigningKey::random` with `OsRng` and encodes both
/// halves.
///
/// Believed of every outcome: a 32-byte secret that the crate accepts, and
/// the 65-byte uncompressed point of its public key, which the crate
/// accepts too.
#[verifier::external_body]
pub(crate) fn p256_generate() -> (pair: (Vec<u8>, Vec<u8>))
    ensures
        pair.0@.len() == P256_SCALAR_LEN,
        pair.1@.len() == P256_POINT_LEN,
        p256_is_secret(pair.0@),
        p256_is_point(pair.1@),
        p256_public_of(pair.0@) == Some(pair.1@),
{
    let signing_key = p256::ecdsa::SigningKey::random(&mut rand::rngs::OsRng);
    let verifying_key = p256::ecdsa::VerifyingKey::from(&signing_key);
    (signing_key.to_bytes().to_vec(), verifying_key.to_encoded_point(false).as_bytes().to_vec())
}

/// Calls `p256::SecretKey::from_slice` and reports whether it succeeds.
#[verifier::external_body]
pub(crate) fn p256_secret_valid(bytes: &[u8]) -> (ok: bool)
    ensures
        ok == p256_is_secret(bytes@),
{
    p256::SecretKey::from_slice(bytes).is_ok()
}

/// Calls `p256::PublicKey::from_sec1_bytes` and reports whether it succeeds.
#[verifier::external_body]
pub(crate) fn p256_point_valid(bytes: &[u8]) -> (ok: bool)
    ensures
        ok == p256_is_point(bytes@),
{
    p256::PublicKey::from_sec1_bytes(bytes).is_ok()
}

/// Calls `p256::ecdh::EphemeralSecret::random` with `OsRng` and
/// `diffie_hellman` with the recipient's key.
///
/// Believed of it: it yields nothing exactly where the recipient's key is
/// refused; otherwise the 65-byte uncompressed ephemeral public point and
/// the 32-byte raw shared secret, which is the secret that the holder of the
/// recipient's secret key computes from that point.
#[verifier::external_body]
pub(crate) fn p256_ephemeral_agreement(recipient: &[u8]) -> (r: Option<(Vec<u8>, Vec<u8>)>)
    ensures
        r is Some <==> p256_is_point(recipient@),
        r matches Some(pair) ==> {
            &&& pair.0@.len() == P256_POINT_LEN
            &&& pair.1@.len() == P256_SCALAR_LEN
            &&& p256_is_point(pair.0@)
            &&& p256_holder_agrees(recipient@, pair.0@, pair.1@)
        },
{
    let recipient_key = p256::PublicKey::from_sec1_bytes(recipient).ok()?;
    let ephemeral = p256::ecdh::EphemeralSecret::random(&mut rand::rngs::OsRng);
    let point = ephemeral.public_key().to_encoded_point(false).as_bytes().to_vec();
    let shared = ephemeral.diffie_hellman(&recipient_key);
    Some((point, shared.raw_secret_bytes().to_vec()))
}

/// Calls `p256::ecdh::diffie_hellman` on a parsed secret key and point.
///
/// Believed of it: the 32-byte result depends on the two arguments alone.
#[verifier::external_body]
pub(crate) fn p256_agree(secret: &[u8], point: &[u8]) -> (r: Option<Vec<u8>>)
    ensures
        r is Some <==> p256_shared_secret(secret@, point@) is Some,
        r matches Some(shared) ==> p256_shared_secret(secret@, point@) == Some(shared@)
            && shared@.len() == P256_SCALAR_LEN,
{
    let secret_key = p256::SecretKey::from_slice(secret).ok()?;
    let public_key = p256::PublicKey::from_sec1_bytes(point).ok()?;
    let shared = p256::ecdh::diffie_hellman(secret_key.to_nonzero_scalar(), public_key.as_affine());
    Some(shared.raw_secret_bytes().to_vec())
}

/// Calls `try_sign` (trait `signature::Signer`) of `p256::ecdsa::SigningKey`.
///
/// Believed of it: the signature depends on key and message alone (the
/// nonce is derived, not drawn).
#[verifier::external_body]
pub(crate) fn p256_sign(secret: &[u8], message: &[u8]) -> (r: Option<Vec<u8>>)
    ensures
        r is Some <==> p256_signature(secret@, message@) is Some,
        r matches Some(sig) ==> p256_signature(secret@, message@) == Some(sig@),
{
    let secret_key = p256::SecretKey::from_slice(secret).ok()?;
    let signing_key = p256::ecdsa::SigningKey::from(&secret_key);
    let signature: p256::ecdsa::Signature = signing_key.try_sign(message).ok()?;
    Some(signature.to_bytes().to_vec())
}

/// Calls `verify` (trait `signature::Verifier`) of
/// `p256::ecdsa::VerifyingKey` on a signature parsed by `try_from`.
///
/// Believed of it: the outcome depends on the three arguments alone.
#[verifier::external_body]
pub(crate) fn p256_verify(point: &[u8], message: &[u8], signature: &[u8]) -> (r: Option<bool>)
    ensures
        r == p256_verification(point@, message@, signature@),
{
    let verifying_key = p256::ecdsa::VerifyingKey::from_sec1_bytes(point).ok()?;
    let parsed = p256::ecdsa::Signature::try_from(signature).ok()?;
    Some(verifying_key.verify(message, &parsed).is_ok())
}

/// Calls `p384::ecdsa::SigningKey::random` with `OsRng` and encodes both
/// halves.
///
/// Believed of every outcome: a 48-byte secret that the crate accepts, and
/// the 97-byte uncompressed point of its public key, which the crate
/// accepts too.
#[verifier::external_body]
pub(crate) fn p384_generate() -> (pair: (Vec<u8>, Vec<u8>))
    ensures
        pair.0@.len() == P384_SCALAR_LEN,
        pair.1@.len() == P384_POINT_LEN,
        p384_is_secret(pair.0@),
        p384_is_point(pair.1@),
        p384_public_of(pair.0@) == Some(pair.1@),
{
    let signing_key = p384::ecdsa::SigningKey::random(&mut rand::rngs::OsRng);
    let verifying_key = p384::ecdsa::VerifyingKey::from(&signing_key);
    (signing_key.to_bytes().to_vec(), verifying_key.to_encoded_point(false).as_bytes().to_vec())
}

/// Calls `p384::SecretKey::from_slice` and reports whether it succeeds.
#[verifier::external_body]
pub(crate) fn p384_secret_valid(bytes: &[u8]) -> (ok: bool)
    ensures
        ok == p384_is_secret(bytes@),
{
    p384::SecretKey::from_slice(bytes).is_ok()
}

/// Calls `p384::PublicKey::from_sec1_bytes` and reports whether it succeeds.
#[verifier::external_body]
pub(crate) fn p384_point_valid(bytes: &[u8]) -> (ok: bool)
    ensures
        ok == p384_is_point(bytes@),
{
    p384::PublicKey::from_sec1_bytes(bytes).is_ok()
}

/// Calls `p384::ecdh::EphemeralSecret::random` with `OsRng` and
/// `diffie_hellman` with the recipient's key.
///
/// Believed of it: it yields nothing exactly where the recipient's key is
/// refused; otherwise the 97-byte uncompressed ephemeral public point and
/// the 48-byte raw shared secret, which is the secret that the holder of the
/// recipient's secret key computes from that point.
#[verifier::external_body]
pub(crate) fn p384_ephemeral_agreement(recipient: &[u8]) -> (r: Option<(Vec<u8>, Vec<u8>)>)
    ensures
        r is Some <==> p384_is_point(recipient@),
        r matches Some(pair) ==> {
            &&& pair.0@.len() == P384_POINT_LEN
            &&& pair.1@.len() == P384_SCALAR_LEN
            &&& p384_is_point(pair.0@)
            &&& p384_holder_agrees(recipient@, pair.0@, pair.1@)
        },
{
    let recipient_key = p384::PublicKey::from_sec1_bytes(recipient).ok()?;
    let ephemeral = p384::ecdh::EphemeralSecret::random(&mut rand::rngs::OsRng);
    let point = ephemeral.public_key().to_encoded_point(false).as_bytes().to_vec();
    let shared = ephemeral.diffie_hellman(&recipient_key);
    Some((point, shared.raw_secret_bytes().to_vec()))
}

/// Calls `p384::ecdh::diffie_hellman` on a parsed secret key and point.
///
/// Believed of it: the 48-byte result depends on the two arguments alone.
#[verifier::external_body]
pub(crate) fn p384_agree(secret: &[u8], point: &[u8]) -> (r: Option<Vec<u8>>)
    ensures
        r is Some <==> p384_shared_secret(secret@, point@) is Some,
        r matches Some(shared) ==> p384_shared_secret(secret@, point@) == Some(shared@)
            && shared@.len() == P384_SCALAR_LEN,
{
    let secret_key = p384::SecretKey::from_slice(secret).ok()?;
    let public_key = p384::PublicKey::from_sec1_bytes(point).ok()?;
    let shared = p384::ecdh::diffie_hellman(secret_key.to_nonzero_scalar(), public_key.as_affine());
    Some(shared.raw_secret_bytes().to_vec())
}

/// Calls `try_sign` (trait `signature::Signer`) of `p384::ecdsa::SigningKey`.
///
/// Believed of it: the signature depends on key and message alone (the
/// nonce is derived, not drawn).
#[verifier::external_body]
pub(crate) fn p384_sign(secret: &[u8], message: &[u8]) -> (r: Option<Vec<u8>>)
    ensures
        r is Some <==> p384_signature(secret@, message@) is Some,
        r matches Some(sig) ==> p384_signature(secret@, message@) == Some(sig@),
{
    let secret_key = p384::SecretKey::from_slice(secret).ok()?;
    let signing_key = p384::ecdsa::SigningKey::from(&secret_key);
    let signature: p384::ecdsa::Signature = signing_key.try_sign(message).ok()?;
    Some(signature.to_bytes().to_vec())
}

/// Calls `verify` (trait `signature::Verifier`) of
/// `p384::ecdsa::VerifyingKey` on a signature parsed by `try_from`.
///
/// Believed of it: the outcome depends on the three arguments alone.
#[verifier::external_body]
pub(crate) fn p384_verify(point: &[u8], message: &[u8], signature: &[u8]) -> (r: Option<bool>)
    ensures
        r == p384_verification(point@, message@, signature@),
{
    let verifying_key = p384::ecdsa::VerifyingKey::from_sec1_bytes(point).ok()?;
    let parsed = p384::ecdsa::Signature::try_from(signature).ok()?;
    Some(verifying_key.verify(message, &parsed).is_ok())
}

} // verus!
