//! Hybrid elliptic-curve cipher and ECDSA on P-256 and P-384.
//!
//! A sealed blob is the sender's ephemeral public point, uncompressed, at a
//! length fixed by the curve, followed by the AES-256-GCM ciphertext and tag.
//! Key and nonce come out of HKDF over the raw ECDH secret.

use vstd::prelude::*;
use vstd::utf8::encode_utf8;
use crate::bytes::copy_range;
use crate::bytes::extend_bytes;
use crate::encrypt::curves::p256_agree;
use crate::encrypt::curves::p256_ephemeral_agreement;
use crate::encrypt::curves::p256_generate;
use crate::encrypt::curves::p256_holder_agrees;
use crate::encrypt::curves::p256_is_point;
use crate::encrypt::curves::p256_is_secret;
use crate::encrypt::curves::p256_point_from_pem;
use crate::encrypt::curves::p256_point_of_pem;
use crate::encrypt::curves::p256_point_valid;
use crate::encrypt::curves::p256_public_of;
use crate::encrypt::curves::p256_secret_valid;
use crate::encrypt::curves::p256_shared_secret;
use crate::encrypt::curves::p256_sign;
use crate::encrypt::curves::p256_signature;
use crate::encrypt::curves::p256_verification;
use crate::encrypt::curves::p256_verify;
use crate::encrypt::curves::p384_agree;
use crate::encrypt::curves::p384_ephemeral_agreement;
use crate::encrypt::curves::p384_generate;
use crate::encrypt::curves::p384_holder_agrees;
use crate::encrypt::curves::p384_is_point;
use crate::encrypt::curves::p384_is_secret;
use crate::encrypt::curves::p384_point_from_pem;
use crate::encrypt::curves::p384_point_of_pem;
use crate::encrypt::curves::p384_point_valid;
use crate::encrypt::curves::p384_public_of;
use crate::encrypt::curves::p384_secret_valid;
use crate::encrypt::curves::p384_shared_secret;
use crate::encrypt::curves::p384_sign;
use crate::encrypt::curves::p384_signature;
use crate::encrypt::curves::p384_verification;
use crate::encrypt::curves::p384_verify;
use crate::encrypt::curves::P256_POINT_LEN;
use crate::encrypt::curves::P384_POINT_LEN;
use crate::encrypt::primitives::aes_gcm_open;
use crate::encrypt::primitives::aes_gcm_opened;
use crate::encrypt::primitives::aes_gcm_seal;
use crate::encrypt::primitives::aes_gcm_sealed;
use crate::encrypt::primitives::hkdf_sha256;
use crate::encrypt::primitives::hkdf_sha256_expand;
use crate::encrypt::primitives::hkdf_sha384;
use crate::encrypt::primitives::hkdf_sha384_expand;
use crate::encrypt::primitives::sha256;
use crate::encrypt::primitives::sha256_digest;
use crate::encrypt::primitives::sha384;
use crate::encrypt::primitives::sha384_digest;
use crate::encrypt::primitives::KEY_LEN;
use crate::yubikey::AlgorithmId;

verus! {

/// The two supported curves.
#[derive(Clone, Copy, Debug, PartialEq, Eq, Structural)]
pub enum EccAlgorithm {
    /// NIST P-256 with SHA-256.
    P256,
    /// NIST P-384 with SHA-384.
    P384,
}

/// Bytes of keying material drawn from HKDF: a 32-byte key and a 12-byte nonce.
pub const SESSION_MATERIAL_LEN: usize = 44;

/// The fixed HKDF info string, as bytes.
pub open spec fn session_info() -> Seq<u8> {
    encode_utf8("aes-256-gcm-key-nonce"@)
}

impl EccAlgorithm {
    /// Bytes of an uncompressed public point: 65 on P-256, 97 on P-384.
    pub open spec fn point_len(self) -> nat {
        match self {
            EccAlgorithm::P256 => 65,
            EccAlgorithm::P384 => 97,
        }
    }

    /// Bytes of a secret scalar: 32 on P-256, 48 on P-384.
    pub open spec fn scalar_len(self) -> nat {
        match self {
            EccAlgorithm::P256 => 32,
            EccAlgorithm::P384 => 48,
        }
    }

    /// The bytes are a secret key of this curve.
    pub open spec fn is_secret(self, bytes: Seq<u8>) -> bool {
        match self {
            EccAlgorithm::P256 => p256_is_secret(bytes),
            EccAlgorithm::P384 => p384_is_secret(bytes),
        }
    }

    /// The bytes are a SEC1-encoded public key of this curve.
    pub open spec fn is_point(self, bytes: Seq<u8>) -> bool {
        match self {
            EccAlgorithm::P256 => p256_is_point(bytes),
            EccAlgorithm::P384 => p384_is_point(bytes),
        }
    }

    /// The uncompressed public point of a secret key.
    pub open spec fn public_of(self, secret: Seq<u8>) -> Option<Seq<u8>> {
        match self {
            EccAlgorithm::P256 => p256_public_of(secret),
            EccAlgorithm::P384 => p384_public_of(secret),
        }
    }

    /// Whoever holds the secret key of `recipient` computes `shared` from
    /// `point`.
    pub open spec fn holder_agrees(self, recipient: Seq<u8>, point: Seq<u8>, shared: Seq<u8>)
        -> bool {
        match self {
            EccAlgorithm::P256 => p256_holder_agrees(recipient, point, shared),
            EccAlgorithm::P384 => p384_holder_agrees(recipient, point, shared),
        }
    }

    /// The uncompressed point of the public key in an SPKI PEM text.
    pub open spec fn point_of_pem(self, pem: Seq<char>) -> Option<Seq<u8>> {
        match self {
            EccAlgorithm::P256 => p256_point_of_pem(pem),
            EccAlgorithm::P384 => p384_point_of_pem(pem),
        }
    }

    /// Raw ECDH secret between a secret key and a peer's point.
    pub open spec fn shared_secret(self, secret: Seq<u8>, point: Seq<u8>) -> Option<Seq<u8>> {
        match self {
            EccAlgorithm::P256 => p256_shared_secret(secret, point),
            EccAlgorithm::P384 => p384_shared_secret(secret, point),
        }
    }

    /// The digest matched to the curve: SHA-256 or SHA-384.
    pub open spec fn digest(self, data: Seq<u8>) -> Seq<u8> {
        match self {
            EccAlgorithm::P256 => sha256(data),
            EccAlgorithm::P384 => sha384(data),
        }
    }

    /// ECDSA signature of an already digested message.
    pub open spec fn signature(self, secret: Seq<u8>, message: Seq<u8>) -> Option<Seq<u8>> {
        match self {
            EccAlgorithm::P256 => p256_signature(secret, message),
            EccAlgorithm::P384 => p384_signature(secret, message),
        }
    }

    /// Outcome of checking a signature over an already digested message.
    pub open spec fn verification(self, point: Seq<u8>, message: Seq<u8>, signature: Seq<u8>)
        -> Option<bool> {
        match self {
            EccAlgorithm::P256 => p256_verification(point, message, signature),
            EccAlgorithm::P384 => p384_verification(point, message, signature),
        }
    }

    /// The 44 bytes of key and nonce derived from a shared secret.
    pub open spec fn session_material(self, shared: Seq<u8>) -> Option<Seq<u8>> {
        match self {
            EccAlgorithm::P256 => hkdf_sha256(shared, session_info(), 44),
            EccAlgorithm::P384 => hkdf_sha384(shared, session_info(), 44),
        }
    }

    /// Message for a secret key refused when signing.
    pub open spec fn sign_key_message(self) -> Seq<char> {
        match self {
            EccAlgorithm::P256 => "Invalid P256 private key slice for signing"@,
            EccAlgorithm::P384 => "Invalid P384 private key slice for signing"@,
        }
    }

    /// Message for a public key refused when verifying.
    pub open spec fn verify_key_message(self) -> Seq<char> {
        match self {
            EccAlgorithm::P256 => "Invalid P256 public key for verification"@,
            EccAlgorithm::P384 => "Invalid P384 public key for verification"@,
        }
    }

    /// Message for a signature that cannot be parsed.
    pub open spec fn signature_format_message(self) -> Seq<char> {
        match self {
            EccAlgorithm::P256 => "Invalid P256 signature format"@,
            EccAlgorithm::P384 => "Invalid P384 signature format"@,
        }
    }

    /// Message for a recipient key refused when encrypting.
    pub open spec fn encrypt_key_message(self) -> Seq<char> {
        match self {
            EccAlgorithm::P256 => "Invalid P256 public key for encryption"@,
            EccAlgorithm::P384 => "Invalid P384 public key for encryption"@,
        }
    }

    /// Message for a secret key refused when decrypting.
    pub open spec fn decrypt_key_message(self) -> Seq<char> {
        match self {
            EccAlgorithm::P256 => "Invalid P256 private key for decryption"@,
            EccAlgorithm::P384 => "Invalid P384 private key for decryption"@,
        }
    }

    /// Message for a blob shorter than the ephemeral point.
    pub open spec fn too_short_message(self) -> Seq<char> {
        match self {
            EccAlgorithm::P256 => "Encrypted data too short to contain P256 ephemeral public key"@,
            EccAlgorithm::P384 => "Encrypted data too short to contain P384 ephemeral public key"@,
        }
    }

    /// Message for an ephemeral point that is not on the curve.
    pub open spec fn ephemeral_key_message(self) -> Seq<char> {
        match self {
            EccAlgorithm::P256 => "Invalid P256 ephemeral public key"@,
            EccAlgorithm::P384 => "Invalid P384 ephemeral public key"@,
        }
    }

    /// Message for a failed key derivation when decrypting.
    pub open spec fn derivation_message(self) -> Seq<char> {
        match self {
            EccAlgorithm::P256 => "HKDF expansion failed for P256 decryption"@,
            EccAlgorithm::P384 => "HKDF expansion failed for P384 decryption"@,
        }
    }

    /// Message for a tag that does not verify.
    pub open spec fn authentication_message(self) -> Seq<char> {
        match self {
            EccAlgorithm::P256 => "AES-GCM P256 decryption failed"@,
            EccAlgorithm::P384 => "AES-GCM P384 decryption failed"@,
        }
    }

    /// Length of this curve's uncompressed public point.
    pub fn ephemeral_key_len(self) -> (len: usize)
        ensures
            len == self.point_len(),
    {
        match self {
            EccAlgorithm::P256 => P256_POINT_LEN,
            EccAlgorithm::P384 => P384_POINT_LEN,
        }
    }
}

/// What signing gives: the signature over the curve-matched digest of the
/// data, or the message for a refused key.
pub open spec fn signed(algorithm: EccAlgorithm, data: Seq<u8>, secret: Seq<u8>) -> Result<
    Seq<u8>,
    Seq<char>,
> {
    match algorithm.signature(secret, algorithm.digest(data)) {
        Some(signature) => Ok(signature),
        None => Err(algorithm.sign_key_message()),
    }
}

/// What verifying gives: whether the signature holds for the curve-matched
/// digest of the data, or the message for what could not be parsed.
pub open spec fn verified(
    algorithm: EccAlgorithm,
    data: Seq<u8>,
    signature: Seq<u8>,
    point: Seq<u8>,
) -> Result<bool, Seq<char>> {
    if !algorithm.is_point(point) {
        Err(algorithm.verify_key_message())
    } else {
        match algorithm.verification(point, algorithm.digest(data), signature) {
            Some(valid) => Ok(valid),
            None => Err(algorithm.signature_format_message()),
        }
    }
}

/// What opening gives once the blob is split into ephemeral point and sealed
/// part.
pub open spec fn opened_parts(
    algorithm: EccAlgorithm,
    point: Seq<u8>,
    sealed: Seq<u8>,
    secret: Seq<u8>,
) -> Result<Seq<u8>, Seq<char>> {
    match algorithm.shared_secret(secret, point) {
        None => Err(algorithm.ephemeral_key_message()),
        Some(shared) => match algorithm.session_material(shared) {
            None => Err(algorithm.derivation_message()),
            Some(material) => match aes_gcm_opened(
                material.subrange(0, 32),
                material.subrange(32, 44),
                sealed,
            ) {
                None => Err(algorithm.authentication_message()),
                Some(plaintext) => Ok(plaintext),
            },
        },
    }
}

/// What decrypting a blob gives: the plaintext, or the message of the first
/// check that fails.
pub open spec fn decrypted(algorithm: EccAlgorithm, blob: Seq<u8>, secret: Seq<u8>) -> Result<
    Seq<u8>,
    Seq<char>,
> {
    if !algorithm.is_secret(secret) {
        Err(algorithm.decrypt_key_message())
    } else if blob.len() < algorithm.point_len() {
        Err(algorithm.too_short_message())
    } else {
        opened_parts(
            algorithm,
            blob.subrange(0, algorithm.point_len() as int),
            blob.subrange(algorithm.point_len() as int, blob.len() as int),
            secret,
        )
    }
}

/// `blob` is an encryption of `data`: a valid ephemeral point followed by
/// `data` sealed under key and nonce derived from some shared secret.
pub open spec fn is_encryption_of(algorithm: EccAlgorithm, blob: Seq<u8>, data: Seq<u8>) -> bool {
    &&& blob.len() == algorithm.point_len() + data.len() + 16
    &&& algorithm.is_point(blob.subrange(0, algorithm.point_len() as int))
    &&& exists|shared: Seq<u8>| #[trigger]
        sealed_under(
            algorithm,
            shared,
            data,
            blob.subrange(algorithm.point_len() as int, blob.len() as int),
        )
}

/// `sealed` is `data` under the key and nonce derived from `shared`, and
/// opens to `data` under them.
pub open spec fn sealed_under(
    algorithm: EccAlgorithm,
    shared: Seq<u8>,
    data: Seq<u8>,
    sealed: Seq<u8>,
) -> bool {
    &&& algorithm.session_material(shared) matches Some(material)
    &&& material.len() == 44
    &&& aes_gcm_sealed(material.subrange(0, 32), material.subrange(32, 44), data) == Some(sealed)
    &&& aes_gcm_opened(material.subrange(0, 32), material.subrange(32, 44), sealed) == Some(data)
}

/// Every holder of the secret key of `recipient` decrypts `blob` to `data`.
pub open spec fn opens_for_holder(
    algorithm: EccAlgorithm,
    recipient: Seq<u8>,
    blob: Seq<u8>,
    data: Seq<u8>,
) -> bool {
    forall|secret: Seq<u8>| #[trigger]
        algorithm.public_of(secret) == Some(recipient) ==> decrypted(algorithm, blob, secret)
            == Ok::<Seq<u8>, Seq<char>>(data)
}

/// A blob shorter than the curve's ephemeral point is refused, whatever it
/// holds and whatever the key.
pub proof fn lemma_short_blob_refused(algorithm: EccAlgorithm, blob: Seq<u8>, secret: Seq<u8>)
    requires
        blob.len() < algorithm.point_len(),
    ensures
        decrypted(algorithm, blob, secret) is Err,
        algorithm.is_secret(secret) ==> decrypted(algorithm, blob, secret) == Err::<
            Seq<u8>,
            Seq<char>,
        >(algorithm.too_short_message()),
{
}

/// Decrypting takes the first 65 (P-256) or 97 (P-384) bytes of the blob as
/// the ephemeral point and all that follows as the sealed part.
pub proof fn lemma_blob_framing(
    algorithm: EccAlgorithm,
    point: Seq<u8>,
    sealed: Seq<u8>,
    secret: Seq<u8>,
)
    requires
        point.len() == algorithm.point_len(),
        algorithm.is_secret(secret),
    ensures
        decrypted(algorithm, point + sealed, secret) == opened_parts(
            algorithm,
            point,
            sealed,
            secret,
        ),
{
    let blob = point + sealed;
    assert(blob.subrange(0, algorithm.point_len() as int) == point);
    assert(blob.subrange(algorithm.point_len() as int, blob.len() as int) == sealed);
}

/// Reads a public key from SPKI PEM text as an uncompressed point.
pub fn public_key_from_pem(pem: &str, algorithm: EccAlgorithm) -> (r: Option<Vec<u8>>)
    ensures
        r is Some <==> algorithm.point_of_pem(pem@) is Some,
        r matches Some(point) ==> algorithm.point_of_pem(pem@) == Some(point@)
            && algorithm.is_point(point@),
{
    match algorithm {
        EccAlgorithm::P256 => p256_point_from_pem(pem),
        EccAlgorithm::P384 => p384_point_from_pem(pem),
    }
}

/// Draws a fresh key pair: secret scalar and uncompressed public point.
pub fn generate_key_pair(algorithm: EccAlgorithm) -> (pair: (Vec<u8>, Vec<u8>))
    ensures
        pair.0@.len() == algorithm.scalar_len(),
        pair.1@.len() == algorithm.point_len(),
        algorithm.is_secret(pair.0@),
        algorithm.is_point(pair.1@),
        algorithm.public_of(pair.0@) == Some(pair.1@),
{
    match algorithm {
        EccAlgorithm::P256 => p256_generate(),
        EccAlgorithm::P384 => p384_generate(),
    }
}

/// Signs the curve-matched digest of `data` with ECDSA.
pub fn sign(data: &[u8], private_key_bytes: &[u8], algorithm: EccAlgorithm) -> (r: Result<
    Vec<u8>,
    &'static str,
>)
    ensures
        match r {
            Ok(signature) => signed(algorithm, data@, private_key_bytes@) == Ok::<
                Seq<u8>,
                Seq<char>,
            >(signature@),
            Err(message) => signed(algorithm, data@, private_key_bytes@) == Err::<
                Seq<u8>,
                Seq<char>,
            >(message@),
        },
{
    match algorithm {
        EccAlgorithm::P256 => {
            let digest = sha256_digest(data);
            match p256_sign(private_key_bytes, digest.as_slice()) {
                Some(signature) => Ok(signature),
                None => Err("Invalid P256 private key slice for signing"),
            }
        },
        EccAlgorithm::P384 => {
            let digest = sha384_digest(data);
            match p384_sign(private_key_bytes, digest.as_slice()) {
                Some(signature) => Ok(signature),
                None => Err("Invalid P384 private key slice for signing"),
            }
        },
    }
}

/// Checks an ECDSA signature over the curve-matched digest of `data`.
pub fn verify(
    data: &[u8],
    signature_bytes: &[u8],
    public_key_bytes: &[u8],
    algorithm: EccAlgorithm,
) -> (r: Result<bool, &'static str>)
    ensures
        match r {
            Ok(valid) => verified(algorithm, data@, signature_bytes@, public_key_bytes@) == Ok::<
                bool,
                Seq<char>,
            >(valid),
            Err(message) => verified(algorithm, data@, signature_bytes@, public_key_bytes@)
                == Err::<bool, Seq<char>>(message@),
        },
{
    match algorithm {
        EccAlgorithm::P256 => {
            if !p256_point_valid(public_key_bytes) {
                return Err("Invalid P256 public key for verification");
            }
            let digest = sha256_digest(data);
            match p256_verify(public_key_bytes, digest.as_slice(), signature_bytes) {
                Some(valid) => Ok(valid),
                None => Err("Invalid P256 signature format"),
            }
        },
        EccAlgorithm::P384 => {
            if !p384_point_valid(public_key_bytes) {
                return Err("Invalid P384 public key for verification");
            }
            let digest = sha384_digest(data);
            match p384_verify(public_key_bytes, digest.as_slice(), signature_bytes) {
                Some(valid) => Ok(valid),
                None => Err("Invalid P384 signature format"),
            }
        },
    }
}

/// Draws an ephemeral key for the recipient: the ephemeral public point and
/// the raw shared secret.
fn ephemeral_agreement(algorithm: EccAlgorithm, recipient: &[u8]) -> (r: Option<
    (Vec<u8>, Vec<u8>),
>)
    ensures
        r is Some <==> algorithm.is_point(recipient@),
        r matches Some(pair) ==> {
            &&& pair.0@.len() == algorithm.point_len()
            &&& pair.1@.len() == algorithm.scalar_len()
            &&& algorithm.is_point(pair.0@)
            &&& algorithm.holder_agrees(recipient@, pair.0@, pair.1@)
        },
{
    match algorithm {
        EccAlgorithm::P256 => p256_ephemeral_agreement(recipient),
        EccAlgorithm::P384 => p384_ephemeral_agreement(recipient),
    }
}

/// Derives the 44 bytes of key and nonce from a shared secret.
fn derive_session(algorithm: EccAlgorithm, shared: &[u8]) -> (r: Option<Vec<u8>>)
    ensures
        r is Some <==> algorithm.session_material(shared@) is Some,
        r matches Some(material) ==> algorithm.session_material(shared@) == Some(material@)
            && material@.len() == 44,
{
    let info = "aes-256-gcm-key-nonce".as_bytes();
    match algorithm {
        EccAlgorithm::P256 => hkdf_sha256_expand(shared, info, SESSION_MATERIAL_LEN),
        EccAlgorithm::P384 => hkdf_sha384_expand(shared, info, SESSION_MATERIAL_LEN),
    }
}

/// Computes the raw shared secret of a secret key and a peer's point.
fn agree(algorithm: EccAlgorithm, secret: &[u8], point: &[u8]) -> (r: Option<Vec<u8>>)
    ensures
        r is Some <==> algorithm.shared_secret(secret@, point@) is Some,
        r matches Some(shared) ==> algorithm.shared_secret(secret@, point@) == Some(shared@),
{
    match algorithm {
        EccAlgorithm::P256 => p256_agree(secret, point),
        EccAlgorithm::P384 => p384_agree(secret, point),
    }
}

/// The blob that sealing gives for a given ephemeral point and shared
/// secret, or the message of the step that fails.
pub open spec fn sealed_for(
    algorithm: EccAlgorithm,
    point: Seq<u8>,
    shared: Seq<u8>,
    data: Seq<u8>,
) -> Result<Seq<u8>, Seq<char>> {
    match algorithm.session_material(shared) {
        None => Err("HKDF expansion failed"@),
        Some(material) => match aes_gcm_sealed(
            material.subrange(0, 32),
            material.subrange(32, 44),
            data,
        ) {
            None => Err("AES-GCM encryption failed"@),
            Some(sealed) => Ok(point + sealed),
        },
    }
}

/// Seals `data` once the ephemeral key is drawn: derives key and nonce from
/// the shared secret, seals, and puts the ephemeral point in front.
pub fn seal_for(algorithm: EccAlgorithm, point: &[u8], shared: &[u8], data: &[u8]) -> (r: Result<
    Vec<u8>,
    &'static str,
>)
    ensures
        match r {
            Ok(blob) => sealed_for(algorithm, point@, shared@, data@) == Ok::<
                Seq<u8>,
                Seq<char>,
            >(blob@) && blob@.len() == point@.len() + data@.len() + 16 && sealed_under(
                algorithm,
                shared@,
                data@,
                blob@.subrange(point@.len() as int, blob@.len() as int),
            ),
            Err(message) => sealed_for(algorithm, point@, shared@, data@) == Err::<
                Seq<u8>,
                Seq<char>,
            >(message@),
        },
{
    let material = match derive_session(algorithm, shared) {
        Some(material) => material,
        None => {
            return Err("HKDF expansion failed");
        },
    };
    let key = copy_range(material.as_slice(), 0, KEY_LEN);
    let nonce = copy_range(material.as_slice(), KEY_LEN, SESSION_MATERIAL_LEN);
    let sealed = match aes_gcm_seal(key.as_slice(), nonce.as_slice(), data) {
        Some(sealed) => sealed,
        None => {
            return Err("AES-GCM encryption failed");
        },
    };
    let mut blob: Vec<u8> = Vec::new();
    extend_bytes(&mut blob, point);
    extend_bytes(&mut blob, sealed.as_slice());
    proof {
        assert(blob@.subrange(point@.len() as int, blob@.len() as int) == sealed@);
    }
    Ok(blob)
}

/// Encrypts `data` to the holder of `public_key_bytes`: ephemeral ECDH, HKDF,
/// AES-256-GCM, with the ephemeral public point in front of the ciphertext.
/// Whoever holds the secret key that the public key belongs to decrypts the
/// result to `data`.
pub fn encrypt(data: &[u8], public_key_bytes: &[u8], algorithm: EccAlgorithm) -> (r: Result<
    Vec<u8>,
    &'static str,
>)
    ensures
        !algorithm.is_point(public_key_bytes@) <==> (r matches Err(message) && message@
            == algorithm.encrypt_key_message()),
        r matches Ok(blob) ==> is_encryption_of(algorithm, blob@, data@) && opens_for_holder(
            algorithm,
            public_key_bytes@,
            blob@,
            data@,
        ),
        r matches Err(message) ==> {
            ||| message@ == algorithm.encrypt_key_message()
            ||| message@ == "HKDF expansion failed"@
            ||| message@ == "AES-GCM encryption failed"@
        },
{
    proof {
        lemma_messages_differ();
    }
    let (point, shared) = match ephemeral_agreement(algorithm, public_key_bytes) {
        Some(pair) => pair,
        None => {
            return Err(
                match algorithm {
                    EccAlgorithm::P256 => "Invalid P256 public key for encryption",
                    EccAlgorithm::P384 => "Invalid P384 public key for encryption",
                },
            );
        },
    };
    let r = seal_for(algorithm, point.as_slice(), shared.as_slice(), data);
    proof {
        if r is Ok {
            let blob = r->Ok_0;
            let cut = algorithm.point_len() as int;
            assert(blob@.subrange(0, cut) == point@);
            assert(sealed_under(algorithm, shared@, data@, blob@.subrange(cut, blob@.len() as int)));
            assert forall|secret: Seq<u8>| #[trigger]
                algorithm.public_of(secret) == Some(public_key_bytes@) implies decrypted(
                algorithm,
                blob@,
                secret,
            ) == Ok::<Seq<u8>, Seq<char>>(data@) by {
                assert(algorithm.is_secret(secret));
                assert(algorithm.shared_secret(secret, point@) == Some(shared@));
            }
        }
    }
    r
}

/// The messages of `encrypt` are pairwise different texts.
proof fn lemma_messages_differ()
    ensures
        "Invalid P256 public key for encryption"@ != "HKDF expansion failed"@,
        "Invalid P256 public key for encryption"@ != "AES-GCM encryption failed"@,
        "Invalid P384 public key for encryption"@ != "HKDF expansion failed"@,
        "Invalid P384 public key for encryption"@ != "AES-GCM encryption failed"@,
{
    reveal_strlit("Invalid P256 public key for encryption");
    reveal_strlit("Invalid P384 public key for encryption");
    reveal_strlit("HKDF expansion failed");
    reveal_strlit("AES-GCM encryption failed");
    assert("Invalid P256 public key for encryption"@.len() == 38);
    assert("Invalid P384 public key for encryption"@.len() == 38);
    assert("HKDF expansion failed"@.len() == 21);
    assert("AES-GCM encryption failed"@.len() == 25);
}

/// Decrypts a blob made by [`encrypt`]: splits off the ephemeral point at
/// the curve's fixed length, redoes ECDH and HKDF, and opens the rest.
pub fn decrypt(encrypted_data_with_key: &[u8], private_key_bytes: &[u8], algorithm: EccAlgorithm)
    -> (r: Result<Vec<u8>, &'static str>)
    ensures
        match r {
            Ok(plaintext) => decrypted(algorithm, encrypted_data_with_key@, private_key_bytes@)
                == Ok::<Seq<u8>, Seq<char>>(plaintext@),
            Err(message) => decrypted(algorithm, encrypted_data_with_key@, private_key_bytes@)
                == Err::<Seq<u8>, Seq<char>>(message@),
        },
{
    let secret_ok = match algorithm {
        EccAlgorithm::P256 => p256_secret_valid(private_key_bytes),
        EccAlgorithm::P384 => p384_secret_valid(private_key_bytes),
    };
    if !secret_ok {
        return Err(
            match algorithm {
                EccAlgorithm::P256 => "Invalid P256 private key for decryption",
                EccAlgorithm::P384 => "Invalid P384 private key for decryption",
            },
        );
    }
    let ephemeral_pk_size = algorithm.ephemeral_key_len();
    if encrypted_data_with_key.len() < ephemeral_pk_size {
        return Err(
            match algorithm {
                EccAlgorithm::P256 => "Encrypted data too short to contain P256 ephemeral public key",
                EccAlgorithm::P384 => "Encrypted data too short to contain P384 ephemeral public key",
            },
        );
    }
    let point = copy_range(encrypted_data_with_key, 0, ephemeral_pk_size);
    let sealed = copy_range(
        encrypted_data_with_key,
        ephemeral_pk_size,
        encrypted_data_with_key.len(),
    );
    let shared = match agree(algorithm, private_key_bytes, point.as_slice()) {
        Some(shared) => shared,
        None => {
            return Err(
                match algorithm {
                    EccAlgorithm::P256 => "Invalid P256 ephemeral public key",
                    EccAlgorithm::P384 => "Invalid P384 ephemeral public key",
                },
            );
        },
    };
    let material = match derive_session(algorithm, shared.as_slice()) {
        Some(material) => material,
        None => {
            return Err(
                match algorithm {
                    EccAlgorithm::P256 => "HKDF expansion failed for P256 decryption",
                    EccAlgorithm::P384 => "HKDF expansion failed for P384 decryption",
                },
            );
        },
    };
    let key = copy_range(material.as_slice(), 0, KEY_LEN);
    let nonce = copy_range(material.as_slice(), KEY_LEN, SESSION_MATERIAL_LEN);
    match aes_gcm_open(key.as_slice(), nonce.as_slice(), sealed.as_slice()) {
        Some(plaintext) => Ok(plaintext),
        None => Err(
            match algorithm {
                EccAlgorithm::P256 => "AES-GCM P256 decryption failed",
                EccAlgorithm::P384 => "AES-GCM P384 decryption failed",
            },
        ),
    }
}

/// Maps a slot's algorithm to its curve; RSA has none.
pub fn from_piv_algorithm_id(piv_alg_id: AlgorithmId) -> (r: Result<EccAlgorithm, &'static str>)
    ensures
        match piv_alg_id {
            AlgorithmId::EccP256 => r == Ok::<EccAlgorithm, &'static str>(EccAlgorithm::P256),
            AlgorithmId::EccP384 => r == Ok::<EccAlgorithm, &'static str>(EccAlgorithm::P384),
            _ => r matches Err(message) && message@ == "Unsupported PIV AlgorithmId for ECC"@,
        },
{
    match piv_alg_id {
        AlgorithmId::EccP256 => Ok(EccAlgorithm::P256),
        AlgorithmId::EccP384 => Ok(EccAlgorithm::P384),
        _ => Err("Unsupported PIV AlgorithmId for ECC"),
    }
}

} // verus!
