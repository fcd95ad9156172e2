//! One hardware token as a state machine: closed, open, authenticated.
//!
//! The caller performs each exchange with the token and reports what came
//! back; the functions here decide what is asked of the token and what is
//! made of its answer.

use vstd::prelude::*;
use vstd::string::StringExecFns;
use vstd::utf8::encode_utf8;
use crate::codec::base64_bytes;
use crate::codec::base64_decode;
use crate::codec::base64_encodable;
use crate::codec::base64_encode;
use crate::codec::can_base64_encode;
use crate::codec::thread_random_bytes;
use crate::encrypt::ecc::is_encryption_of;
use crate::encrypt::ecc::opens_for_holder;
use crate::encrypt::error::has_prefix;
use crate::encrypt::ecc::public_key_from_pem;
use crate::encrypt::ecc::EccAlgorithm;
use crate::encrypt::rsa::PublicKey;
use crate::encrypt::rsa_calls::decrypts_to;
use crate::encrypt::rsa_calls::rsa_public_pem;
use crate::yubikey::rsa_takes;
use crate::error::Error;
use crate::error::ProtocolFault;
use crate::error::Result;
use crate::yubikey::padding::unpad_pkcs1_v15;
use crate::yubikey::padding::unpadded;
use crate::yubikey::padding::PaddingFault;
use crate::yubikey::AlgorithmId;

verus! {

/// Where a token stands.
#[derive(Clone, Copy, Debug, PartialEq, Eq, Structural)]
pub enum DeviceState {
    /// Not opened, or closed again.
    Closed,
    /// Found by its serial number; the PIN is not verified.
    Open,
    /// The PIN is verified.
    Authenticated,
}

/// What a present token reports of itself.
#[derive(Clone, Copy, Debug, PartialEq, Eq, Structural)]
pub struct DeviceReport {
    /// Serial number.
    pub serial: u32,
    /// Algorithm of the key in the authentication slot, if it reports one.
    pub authentication: Option<AlgorithmId>,
    /// Algorithm of the key in the key-management slot, if it reports one.
    pub key_management: Option<AlgorithmId>,
}

/// What the token is to decrypt with its raw private-key operation.
#[derive(Debug)]
pub struct DecryptRequest {
    /// Algorithm of the key-management slot.
    pub algorithm: AlgorithmId,
    /// The ciphertext, decoded.
    pub ciphertext: Vec<u8>,
}

/// What the token is to sign.
#[derive(Debug)]
pub struct SignRequest {
    /// Algorithm of the authentication slot.
    pub algorithm: AlgorithmId,
    /// The challenge, decoded.
    pub challenge: Vec<u8>,
}

/// Bytes of challenge that a slot's algorithm signs: 48 on P-384, else 32.
pub open spec fn challenge_len(algorithm: AlgorithmId) -> nat {
    match algorithm {
        AlgorithmId::EccP384 => 48,
        _ => 32,
    }
}

/// The algorithm is RSA.
pub open spec fn is_rsa(algorithm: AlgorithmId) -> bool {
    algorithm == AlgorithmId::Rsa1024 || algorithm == AlgorithmId::Rsa2048
}

/// Index of the first report with a given serial number.
pub open spec fn is_first_with_serial(present: Seq<DeviceReport>, serial: u32, at: int) -> bool {
    &&& 0 <= at < present.len()
    &&& present[at].serial == serial
    &&& forall|earlier: int| 0 <= earlier < at ==> present[earlier].serial != serial
}

/// Finds the first of the present tokens that has a given serial number.
pub fn find_report(serial: u32, present: &Vec<DeviceReport>) -> (r: Option<usize>)
    ensures
        match r {
            Some(at) => is_first_with_serial(present@, serial, at as int),
            None => forall|at: int| 0 <= at < present@.len() ==> present@[at].serial != serial,
        },
{
    let mut at: usize = 0;
    while at < present.len()
        invariant
            at <= present@.len(),
            forall|earlier: int| 0 <= earlier < at ==> present@[earlier].serial != serial,
        decreases present@.len() - at,
    {
        if present[at].serial == serial {
            return Some(at);
        }
        at = at + 1;
    }
    None
}

/// Draws a random challenge of the length that `algorithm` signs, as Base64
/// text.
pub fn generate_challenge(algorithm: AlgorithmId) -> (text: String)
    ensures
        base64_bytes(encode_utf8(text@)) matches Some(challenge) && challenge.len()
            == challenge_len(algorithm),
{
    let challenge_bytes = thread_random_bytes(YubiKeyDevice::challenge_size(algorithm));
    base64_encode(challenge_bytes.as_slice())
}

/// What a blob made for a curve key is: an encryption of the data that
/// every holder of the secret key of the public key in the PEM text decrypts
/// to the data.
pub open spec fn curve_success(
    curve: EccAlgorithm,
    public_key_pem: Seq<char>,
    blob: Seq<u8>,
    data: Seq<u8>,
) -> bool {
    &&& is_encryption_of(curve, blob, data)
    &&& curve.point_of_pem(public_key_pem) matches Some(point) && opens_for_holder(
        curve,
        point,
        blob,
        data,
    )
}

/// What the text of a failure with a curve key is: the parse failure exactly
/// where the PEM text holds no key of the curve, else one of the two
/// failures of sealing or the failure of encoding.
pub open spec fn curve_failure(curve: EccAlgorithm, public_key_pem: Seq<char>, text: Seq<char>)
    -> bool {
    &&& curve.point_of_pem(public_key_pem) is None <==> text
        == "Failed to parse public key from PEM"@
    &&& {
        ||| text == "Failed to parse public key from PEM"@
        ||| text == "HKDF expansion failed"@
        ||| text == "AES-GCM encryption failed"@
        ||| text == "Ciphertext too long"@
    }
}

/// The text of the parse failure is none of the other failure texts.
proof fn lemma_failure_texts_differ()
    ensures
        "Failed to parse public key from PEM"@ != "HKDF expansion failed"@,
        "Failed to parse public key from PEM"@ != "AES-GCM encryption failed"@,
        "Failed to parse public key from PEM"@ != "Ciphertext too long"@,
{
    reveal_strlit("Failed to parse public key from PEM");
    reveal_strlit("HKDF expansion failed");
    reveal_strlit("AES-GCM encryption failed");
    reveal_strlit("Ciphertext too long");
    assert("Failed to parse public key from PEM"@.len() == 35);
    assert("HKDF expansion failed"@.len() == 21);
    assert("AES-GCM encryption failed"@.len() == 25);
    assert("Ciphertext too long"@.len() == 19);
}

/// A token, with what was learnt of its slots when it was opened.
#[derive(Debug)]
pub struct YubiKeyDevice {
    serial: u32,
    state: DeviceState,
    authentication: Option<AlgorithmId>,
    key_management: Option<AlgorithmId>,
}

impl YubiKeyDevice {
    /// Serial number.
    pub closed spec fn serial_view(self) -> u32 {
        self.serial
    }

    /// Where the token stands.
    pub closed spec fn state_view(self) -> DeviceState {
        self.state
    }

    /// Algorithm of the authentication slot.
    pub closed spec fn authentication_view(self) -> Option<AlgorithmId> {
        self.authentication
    }

    /// Algorithm of the key-management slot.
    pub closed spec fn key_management_view(self) -> Option<AlgorithmId> {
        self.key_management
    }

    /// Opens the token with a given serial number among those present.
    pub fn open(serial_u32: u32, present: &Vec<DeviceReport>) -> (r: Result<Self>)
        ensures
            match r {
                Ok(device) => exists|at: int| #[trigger]
                    is_first_with_serial(present@, serial_u32, at) && device.serial_view()
                        == serial_u32 && device.state_view() == DeviceState::Open
                        && device.authentication_view() == present@[at].authentication
                        && device.key_management_view() == present@[at].key_management,
                Err(Error::DeviceNotFound(_)) => forall|at: int|
                    0 <= at < present@.len() ==> present@[at].serial != serial_u32,
                Err(_) => false,
            },
    {
        match find_report(serial_u32, present) {
            Some(at) => Ok(
                Self {
                    serial: serial_u32,
                    state: DeviceState::Open,
                    authentication: present[at].authentication,
                    key_management: present[at].key_management,
                },
            ),
            None => Err(
                Error::DeviceNotFound(String::from_str("No YubiKey with this serial number")),
            ),
        }
    }

    /// Serial number.
    pub fn serial(&self) -> (serial: u32)
        ensures
            serial == self.serial_view(),
    {
        self.serial
    }

    /// Where the token stands.
    pub fn state(&self) -> (state: DeviceState)
        ensures
            state == self.state_view(),
    {
        self.state
    }

    /// Algorithm of the authentication slot.
    pub fn authentication(&self) -> (algorithm: Option<AlgorithmId>)
        ensures
            algorithm == self.authentication_view(),
    {
        self.authentication
    }

    /// Algorithm of the key-management slot.
    pub fn key_management(&self) -> (algorithm: Option<AlgorithmId>)
        ensures
            algorithm == self.key_management_view(),
    {
        self.key_management
    }

    /// Closes the token; any verified PIN is forgotten.
    pub fn close(&mut self)
        ensures
            final(self).state_view() == DeviceState::Closed,
            final(self).serial_view() == old(self).serial_view(),
            final(self).authentication_view() == old(self).authentication_view(),
            final(self).key_management_view() == old(self).key_management_view(),
    {
        self.state = DeviceState::Closed;
    }

    /// Takes in the token's answer to a PIN: accepted moves an open token to
    /// authenticated; refused leaves or puts it at open and is reported. A
    /// closed token stays closed.
    pub fn pin_verified(&mut self, accepted: bool) -> (r: Result<()>)
        ensures
            final(self).serial_view() == old(self).serial_view(),
            final(self).authentication_view() == old(self).authentication_view(),
            final(self).key_management_view() == old(self).key_management_view(),
            match r {
                Ok(_) => old(self).state_view() != DeviceState::Closed && accepted
                    && final(self).state_view() == DeviceState::Authenticated,
                Err(Error::DeviceNotFound(_)) => old(self).state_view() == DeviceState::Closed
                    && final(self).state_view() == DeviceState::Closed,
                Err(Error::DevicePinFailed(_)) => old(self).state_view() != DeviceState::Closed
                    && !accepted && final(self).state_view() == DeviceState::Open,
                Err(_) => false,
            },
    {
        match self.state {
            DeviceState::Closed => Err(Error::DeviceNotFound(String::from_str("Device is closed"))),
            _ => {
                if accepted {
                    self.state = DeviceState::Authenticated;
                    Ok(())
                } else {
                    self.state = DeviceState::Open;
                    Err(
                        Error::DevicePinFailed(
                            String::from_str("PIN verification failed: the token refused the PIN"),
                        ),
                    )
                }
            },
        }
    }

    /// Fails unless the PIN is verified.
    fn require_pin(&self) -> (r: Result<()>)
        ensures
            match r {
                Ok(_) => self.state_view() == DeviceState::Authenticated,
                Err(Error::DeviceNotFound(_)) => self.state_view() == DeviceState::Closed,
                Err(Error::DevicePinFailed(_)) => self.state_view() == DeviceState::Open,
                Err(_) => false,
            },
    {
        match self.state {
            DeviceState::Closed => Err(Error::DeviceNotFound(String::from_str("Device is closed"))),
            DeviceState::Open => Err(
                Error::DevicePinFailed(
                    String::from_str("PIN verification failed: no PIN was verified"),
                ),
            ),
            DeviceState::Authenticated => Ok(()),
        }
    }

    /// Pairs the public key read from the key-management slot's certificate
    /// with the slot's algorithm. Needs no PIN.
    pub fn get_public_key(&self, subject_pki_pem: String) -> (r: Result<(String, AlgorithmId)>)
        ensures
            match r {
                Ok((pem, algorithm)) => self.state_view() != DeviceState::Closed
                    && self.key_management_view() == Some(algorithm) && pem@ == subject_pki_pem@,
                Err(Error::DeviceNotFound(_)) => self.state_view() == DeviceState::Closed,
                Err(Error::DeviceProtocol(fault)) => self.state_view() != DeviceState::Closed
                    && self.key_management_view() is None && fault
                    == ProtocolFault::AlgorithmMissing,
                Err(_) => false,
            },
    {
        match self.state {
            DeviceState::Closed => {
                return Err(Error::DeviceNotFound(String::from_str("Device is closed")));
            },
            _ => {},
        }
        match self.key_management {
            Some(algorithm) => Ok((subject_pki_pem, algorithm)),
            None => Err(Error::DeviceProtocol(ProtocolFault::AlgorithmMissing)),
        }
    }

    /// Encrypts to the token's public key, without the token and without a
    /// PIN: RSA with PKCS#1 v1.5 padding where the slot holds an RSA key,
    /// the hybrid curve cipher where it holds a curve key. The result is
    /// Base64 text.
    ///
    /// With an RSA key it fails exactly where the text holds no public key
    /// (the failure then carries the label `KeyFormat`) or the key does not
    /// take the data. With a curve key it fails with the parse failure
    /// exactly where the text holds no key of the curve; any other failure
    /// is one of sealing or of encoding.
    pub fn encrypt_data(&self, public_key_pem: &str, data: Vec<u8>) -> (r: Result<String>)
        ensures
            match r {
                Ok(text) => base64_bytes(encode_utf8(text@)) matches Some(blob)
                    && match self.key_management_view() {
                    Some(AlgorithmId::Rsa1024) | Some(AlgorithmId::Rsa2048) => rsa_public_pem(
                        public_key_pem@,
                    ) matches Some(kept) && decrypts_to(kept, blob, data@),
                    Some(AlgorithmId::EccP256) => curve_success(
                        EccAlgorithm::P256,
                        public_key_pem@,
                        blob,
                        data@,
                    ),
                    Some(AlgorithmId::EccP384) => curve_success(
                        EccAlgorithm::P384,
                        public_key_pem@,
                        blob,
                        data@,
                    ),
                    None => false,
                },
                Err(Error::DeviceProtocol(fault)) => self.key_management_view() is None && fault
                    == ProtocolFault::AlgorithmMissing,
                Err(Error::Encryption(text)) => match self.key_management_view() {
                    Some(AlgorithmId::Rsa1024) | Some(AlgorithmId::Rsa2048) => match rsa_public_pem(
                        public_key_pem@,
                    ) {
                        Some(kept) => !rsa_takes(kept, data@.len()),
                        None => has_prefix(text@, "KeyFormat: "@),
                    },
                    Some(AlgorithmId::EccP256) => curve_failure(
                        EccAlgorithm::P256,
                        public_key_pem@,
                        text@,
                    ),
                    Some(AlgorithmId::EccP384) => curve_failure(
                        EccAlgorithm::P384,
                        public_key_pem@,
                        text@,
                    ),
                    None => false,
                },
                Err(_) => false,
            },
    {
        proof {
            lemma_failure_texts_differ();
        }
        let algorithm_id = match self.key_management {
            Some(algorithm_id) => algorithm_id,
            None => {
                return Err(Error::DeviceProtocol(ProtocolFault::AlgorithmMissing));
            },
        };
        let encrypted_bytes = match algorithm_id {
            AlgorithmId::Rsa1024 | AlgorithmId::Rsa2048 => {
                let encryptor = match PublicKey::from_pem(public_key_pem) {
                    Ok(encryptor) => encryptor,
                    Err(e) => {
                        let wrapped = Error::from_encrypt(e);
                        assert(wrapped->Encryption_0@.subrange(0, e.label().len() as int)
                            == e.label());
                        return Err(wrapped);
                    },
                };
                match encryptor.encrypt(data.as_slice()) {
                    Ok(bytes) => bytes,
                    Err(e) => {
                        return Err(Error::from_encrypt(e));
                    },
                }
            },
            AlgorithmId::EccP256 | AlgorithmId::EccP384 => {
                let curve = match algorithm_id {
                    AlgorithmId::EccP256 => EccAlgorithm::P256,
                    _ => EccAlgorithm::P384,
                };
                let point = match public_key_from_pem(public_key_pem, curve) {
                    Some(point) => point,
                    None => {
                        return Err(
                            Error::Encryption(
                                String::from_str("Failed to parse public key from PEM"),
                            ),
                        );
                    },
                };
                match crate::encrypt::ecc::encrypt(data.as_slice(), point.as_slice(), curve) {
                    Ok(bytes) => bytes,
                    Err(message) => {
                        return Err(Error::Encryption(String::from_str(message)));
                    },
                }
            },
        };
        if !can_base64_encode(encrypted_bytes.len()) {
            return Err(Error::Encryption(String::from_str("Ciphertext too long")));
        }
        Ok(base64_encode(encrypted_bytes.as_slice()))
    }

    /// Prepares a decryption: the PIN must be verified, the key-management
    /// slot must hold an RSA key, and the input must be Base64. What comes
    /// back goes to the token's raw RSA private-key operation.
    pub fn decrypt_request(&self, encrypted_data_base64_bytes: &[u8]) -> (r: Result<DecryptRequest>)
        ensures
            match r {
                Ok(request) => {
                    &&& self.state_view() == DeviceState::Authenticated
                    &&& self.key_management_view() == Some(request.algorithm)
                    &&& is_rsa(request.algorithm)
                    &&& base64_bytes(encrypted_data_base64_bytes@) == Some(request.ciphertext@)
                },
                Err(Error::DeviceNotFound(_)) => self.state_view() == DeviceState::Closed,
                Err(Error::DevicePinFailed(_)) => self.state_view() == DeviceState::Open,
                Err(Error::DeviceProtocol(fault)) => self.state_view() == DeviceState::Authenticated
                    && match self.key_management_view() {
                    None => fault == ProtocolFault::AlgorithmMissing,
                    Some(algorithm) => if !is_rsa(algorithm) {
                        fault == ProtocolFault::UnexpectedAlgorithm
                    } else {
                        fault == ProtocolFault::MalformedCiphertext && base64_bytes(
                            encrypted_data_base64_bytes@,
                        ) is None
                    },
                },
                Err(_) => false,
            },
    {
        self.require_pin()?;
        let algorithm = match self.key_management {
            Some(algorithm) => algorithm,
            None => {
                return Err(Error::DeviceProtocol(ProtocolFault::AlgorithmMissing));
            },
        };
        match algorithm {
            AlgorithmId::Rsa1024 | AlgorithmId::Rsa2048 => {},
            AlgorithmId::EccP256 | AlgorithmId::EccP384 => {
                return Err(Error::DeviceProtocol(ProtocolFault::UnexpectedAlgorithm));
            },
        }
        match base64_decode(encrypted_data_base64_bytes) {
            Ok(ciphertext) => Ok(DecryptRequest { algorithm, ciphertext }),
            Err(_) => Err(Error::DeviceProtocol(ProtocolFault::MalformedCiphertext)),
        }
    }

    /// Finishes a decryption: strips the PKCS#1 v1.5 padding from the block
    /// that the token's raw RSA operation returned.
    pub fn decrypt_data(&self, padded_data: &[u8]) -> (r: Result<Vec<u8>>)
        ensures
            match r {
                Ok(message) => self.state_view() == DeviceState::Authenticated && unpadded(
                    padded_data@,
                ) == Ok::<Seq<u8>, PaddingFault>(message@),
                Err(Error::DeviceNotFound(_)) => self.state_view() == DeviceState::Closed,
                Err(Error::DevicePinFailed(_)) => self.state_view() == DeviceState::Open,
                Err(Error::DeviceProtocol(ProtocolFault::Padding(fault))) => self.state_view()
                    == DeviceState::Authenticated && unpadded(padded_data@) == Err::<
                    Seq<u8>,
                    PaddingFault,
                >(fault),
                Err(_) => false,
            },
    {
        self.require_pin()?;
        match unpad_pkcs1_v15(padded_data) {
            Ok(message) => Ok(message),
            Err(fault) => Err(Error::DeviceProtocol(ProtocolFault::Padding(fault))),
        }
    }

    /// Bytes of challenge that a slot's algorithm signs.
    pub fn challenge_size(algorithm: AlgorithmId) -> (len: usize)
        ensures
            len == challenge_len(algorithm),
    {
        match algorithm {
            AlgorithmId::EccP384 => 48,
            AlgorithmId::Rsa1024 | AlgorithmId::Rsa2048 | AlgorithmId::EccP256 => 32,
        }
    }

    /// Draws a random challenge of the length that the authentication
    /// slot's algorithm signs, as Base64 text.
    pub fn generate_authentication_challenge(&self) -> (r: Result<String>)
        ensures
            match r {
                Ok(text) => self.authentication_view() matches Some(algorithm) && base64_bytes(
                    encode_utf8(text@),
                ) matches Some(challenge) && challenge.len() == challenge_len(algorithm),
                Err(Error::DeviceProtocol(fault)) => self.authentication_view() is None && fault
                    == ProtocolFault::AlgorithmMissing,
                Err(_) => false,
            },
    {
        let alg_id = match self.authentication {
            Some(alg_id) => alg_id,
            None => {
                return Err(Error::DeviceProtocol(ProtocolFault::AlgorithmMissing));
            },
        };
        Ok(generate_challenge(alg_id))
    }

    /// Prepares an authentication: the PIN must be verified, the
    /// authentication slot must report its algorithm, the challenge must be
    /// Base64 and of the length that the algorithm signs. The length is
    /// checked here, not left to the token.
    pub fn sign_request(&self, challenge_base64: &str) -> (r: Result<SignRequest>)
        ensures
            match r {
                Ok(request) => {
                    &&& self.state_view() == DeviceState::Authenticated
                    &&& self.authentication_view() == Some(request.algorithm)
                    &&& base64_bytes(encode_utf8(challenge_base64@)) == Some(request.challenge@)
                    &&& request.challenge@.len() == challenge_len(request.algorithm)
                },
                Err(Error::DeviceNotFound(_)) => self.state_view() == DeviceState::Closed,
                Err(Error::DevicePinFailed(_)) => self.state_view() == DeviceState::Open,
                Err(Error::DeviceProtocol(fault)) => self.state_view() == DeviceState::Authenticated
                    && match self.authentication_view() {
                    None => fault == ProtocolFault::AlgorithmMissing,
                    Some(algorithm) => match base64_bytes(encode_utf8(challenge_base64@)) {
                        None => fault == ProtocolFault::MalformedChallenge,
                        Some(challenge) => challenge.len() != challenge_len(algorithm) && fault == (
                        ProtocolFault::ChallengeLength {
                            expected: challenge_len(algorithm) as usize,
                            actual: challenge.len() as usize,
                        }),
                    },
                },
                Err(_) => false,
            },
    {
        self.require_pin()?;
        let alg_id = match self.authentication {
            Some(alg_id) => alg_id,
            None => {
                return Err(Error::DeviceProtocol(ProtocolFault::AlgorithmMissing));
            },
        };
        let challenge_bytes = match base64_decode(challenge_base64.as_bytes()) {
            Ok(bytes) => bytes,
            Err(_) => {
                return Err(Error::DeviceProtocol(ProtocolFault::MalformedChallenge));
            },
        };
        let expected: usize = Self::challenge_size(alg_id);
        if challenge_bytes.len() != expected {
            return Err(
                Error::DeviceProtocol(
                    ProtocolFault::ChallengeLength { expected, actual: challenge_bytes.len() },
                ),
            );
        }
        Ok(SignRequest { algorithm: alg_id, challenge: challenge_bytes })
    }

    /// Finishes an authentication: an empty signature is refused, any other
    /// is handed back as Base64 text.
    pub fn authenticate(&self, signature_bytes: &[u8]) -> (r: Result<String>)
        ensures
            match r {
                Ok(text) => signature_bytes@.len() > 0 && base64_bytes(encode_utf8(text@)) == Some(
                    signature_bytes@,
                ),
                Err(Error::DeviceProtocol(fault)) => signature_bytes@.len() == 0 && fault
                    == ProtocolFault::EmptySignature,
                Err(Error::Encryption(_)) => !base64_encodable(signature_bytes@.len()),
                Err(_) => false,
            },
    {
        if signature_bytes.len() == 0 {
            return Err(Error::DeviceProtocol(ProtocolFault::EmptySignature));
        }
        if !can_base64_encode(signature_bytes.len()) {
            return Err(Error::Encryption(String::from_str("Signature too long")));
        }
        Ok(base64_encode(signature_bytes))
    }
}

} // verus!
