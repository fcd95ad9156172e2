use rsa::pkcs8::EncodePrivateKey;
use rand::SeedableRng;
use base64::Engine;
use rsa::pkcs8::DecodePrivateKey;
use rsa::signature::SignatureEncoding;
use rsa::signature::Signer;
use rsa::traits::PrivateKeyParts;
use rsa::traits::PublicKeyParts;
use vault_lib::encrypt::RsaKeyPair;
use vault_lib::error::ProtocolFault;
use vault_lib::yubikey::list_yubikeys;
use vault_lib::yubikey::AlgorithmId;
use vault_lib::yubikey::DeviceReport;
use vault_lib::yubikey::TokenFacts;
use vault_lib::yubikey::YubiKeyDevice;
use vault_lib::Error;

/// Seed of the key that these tests share. A seeded generator gives the
/// same 2048-bit key in every run, and this seed gives it quickly.
const TEST_KEY_SEED: u64 = 18;

/// The shared key as PKCS#8 PEM.
fn test_key() -> String {
    let mut rng = rand::rngs::StdRng::seed_from_u64(TEST_KEY_SEED);
    let key = rsa::RsaPrivateKey::new(&mut rng, 2048).unwrap();
    key.to_pkcs8_pem(rsa::pkcs8::LineEnding::LF)
        .unwrap()
        .to_string()
}

fn test_key_pair() -> RsaKeyPair {
    RsaKeyPair::from_string(&test_key()).unwrap()
}

/// A token in software: an RSA key in both slots behind a PIN.
struct SoftToken {
    serial: u32,
    pin: String,
    key: rsa::RsaPrivateKey,
    public_pem: String,
}

impl SoftToken {
    fn new() -> Self {
        let pair = test_key_pair();
        Self {
            serial: 32233649,
            pin: "123456".to_string(),
            key: rsa::RsaPrivateKey::from_pkcs8_pem(&pair.private_key_pem().unwrap()).unwrap(),
            public_pem: pair.public_key_pem().unwrap(),
        }
    }

    fn report(&self) -> Vec<DeviceReport> {
        vec![DeviceReport {
            serial: self.serial,
            authentication: Some(AlgorithmId::Rsa2048),
            key_management: Some(AlgorithmId::Rsa2048),
        }]
    }

    fn verify_pin(&self, pin: &str) -> bool {
        pin == self.pin
    }

    fn raw_private_operation(&self, input: &[u8]) -> Vec<u8> {
        let c = rsa::BigUint::from_bytes_be(input);
        let mut out = c.modpow(self.key.d(), self.key.n()).to_bytes_be();
        while out.len() < self.key.size() {
            out.insert(0, 0);
        }
        out
    }

    fn sign(&self, challenge: &[u8]) -> Vec<u8> {
        let signing_key = rsa::pkcs1v15::SigningKey::<rsa::sha2::Sha256>::new(self.key.clone());
        let signature: rsa::pkcs1v15::Signature = signing_key.sign(challenge);
        signature.to_vec()
    }
}

fn get_device(token: &SoftToken) -> YubiKeyDevice {
    YubiKeyDevice::open(token.serial, &token.report()).unwrap()
}

fn decrypt_on(
    token: &SoftToken,
    device: &mut YubiKeyDevice,
    pin: String,
    encrypted: Vec<u8>,
) -> Result<Vec<u8>, Error> {
    device.pin_verified(token.verify_pin(&pin))?;
    let request = device.decrypt_request(&encrypted)?;
    let padded = token.raw_private_operation(&request.ciphertext);
    device.decrypt_data(&padded)
}

fn authenticate_on(
    token: &SoftToken,
    device: &mut YubiKeyDevice,
    pin: String,
    challenge_base64: &str,
) -> Result<String, Error> {
    device.pin_verified(token.verify_pin(&pin))?;
    let request = device.sign_request(challenge_base64)?;
    let signature = token.sign(&request.challenge);
    device.authenticate(&signature)
}

#[test]
fn test_list_yubikeys() {
    let token = SoftToken::new();
    let keys = list_yubikeys(&vec![TokenFacts {
        serial: token.serial,
        version: Some("5.4.3".to_string()),
        pub_key: Some(token.public_pem.clone()),
    }]);
    println!("Found YubiKeys: {:?}", keys);
    assert!(
        !keys.is_empty(),
        "No YubiKeys detected. Make sure at least one YubiKey is inserted."
    );
}

#[test]
fn test_encrypt_with_yubikey() {
    let token = SoftToken::new();
    let device = get_device(&token);
    let result = device.encrypt_data(&token.public_pem, "data".as_bytes().to_vec());
    assert!(result.is_ok(), "do_encrypt failed: {:?}", result.err());
    result.unwrap();
}

#[test]
fn test_authenticate_with_yubikey() {
    let token = SoftToken::new();
    let pin = "123456".to_string();
    let mut device = get_device(&token);
    let challenge = device.generate_authentication_challenge().unwrap();

    let signature_result = authenticate_on(&token, &mut device, pin, &challenge);

    assert!(
        signature_result.is_ok(),
        "Authentication failed: {:?}",
        signature_result.err()
    );
    let signature_base64 = signature_result.unwrap();
    assert!(!signature_base64.is_empty(), "Signature should not be empty");
}

#[test]
fn test_decrypt_data() {
    let token = SoftToken::new();
    let mut device = get_device(&token);
    let pin = "123456".to_string();
    let original_data_str = "This is a secret test message for YubiKey!";
    let original_data_bytes = original_data_str.as_bytes().to_vec();

    // 1. Encrypt the data using the token's public key
    let encrypted_data_base64_result =
        device.encrypt_data(&token.public_pem, original_data_bytes.clone());
    assert!(
        encrypted_data_base64_result.is_ok(),
        "Encryption failed: {:?}",
        encrypted_data_base64_result.err()
    );
    let encrypted_data_base64_string = encrypted_data_base64_result.unwrap();

    // 2. Decrypt the data using the token
    let decrypted_bytes_result = decrypt_on(
        &token,
        &mut device,
        pin,
        encrypted_data_base64_string.into_bytes(),
    );
    assert!(
        decrypted_bytes_result.is_ok(),
        "Raw decryption failed: {:?}",
        decrypted_bytes_result.err()
    );
    let decrypted_bytes = decrypted_bytes_result.unwrap();

    // 3. Verify that the decrypted raw bytes match the original raw bytes
    assert_eq!(
        decrypted_bytes.len(),
        original_data_bytes.len(),
        "Decrypted data length mismatch."
    );
    assert_eq!(
        decrypted_bytes, original_data_bytes,
        "Decrypted raw byte content does not match original raw byte content."
    );

    // 4. Convert decrypted bytes to string and verify
    let decrypted_string_result = String::from_utf8(decrypted_bytes);
    assert!(
        decrypted_string_result.is_ok(),
        "UTF-8 conversion of decrypted bytes failed: {:?}",
        decrypted_string_result.err()
    );
    let decrypted_data_final_str = decrypted_string_result.unwrap();

    assert_eq!(
        decrypted_data_final_str, original_data_str,
        "Decrypted string does not match original string."
    );
}

#[test]
fn test_get_public_key_success() {
    let token = SoftToken::new();
    let device = get_device(&token);

    let result = device.get_public_key(token.public_pem.clone());
    assert!(result.is_ok(), "get_public_key failed: {:?}", result.err());

    let (pem, algorithm) = result.unwrap();
    assert!(!pem.is_empty(), "PEM string should not be empty");
    assert!(
        pem.starts_with("-----BEGIN PUBLIC KEY-----"),
        "PEM string should start with -----BEGIN PUBLIC KEY-----"
    );
    assert!(
        pem.ends_with("-----END PUBLIC KEY-----\n"),
        "PEM string should end with -----END PUBLIC KEY-----"
    );
    assert_eq!(device.key_management(), Some(algorithm));
    assert!(matches!(
        algorithm,
        AlgorithmId::Rsa1024 | AlgorithmId::Rsa2048 | AlgorithmId::EccP256 | AlgorithmId::EccP384
    ));
}

#[test]
fn test_yubikey_device_authenticate_success() {
    let token = SoftToken::new();
    let mut device = get_device(&token);
    let pin = "123456".to_string();
    let challenge = device.generate_authentication_challenge().unwrap();

    let signature_result = authenticate_on(&token, &mut device, pin, &challenge);

    assert!(
        signature_result.is_ok(),
        "YubiKeyDevice.authenticate failed: {:?}",
        signature_result.err()
    );
    let signature_base64 = signature_result.unwrap();
    assert!(
        !signature_base64.is_empty(),
        "Signature from YubiKeyDevice.authenticate should not be empty"
    );
    let signature = base64::engine::general_purpose::STANDARD
        .decode(signature_base64.as_bytes())
        .unwrap();
    let challenge_bytes = base64::engine::general_purpose::STANDARD
        .decode(challenge.as_bytes())
        .unwrap();
    let verifier = vault_lib::encrypt::PublicKey::from_pem(&token.public_pem).unwrap();
    assert!(verifier.verify(&challenge_bytes, &signature).is_ok());
}

#[test]
fn test_yubikey_device_authenticate_incorrect_pin() {
    let token = SoftToken::new();
    let mut device = get_device(&token);
    let incorrect_pin = "000000".to_string();
    let challenge = device.generate_authentication_challenge().unwrap();

    let signature_result = authenticate_on(&token, &mut device, incorrect_pin, &challenge);

    assert!(
        signature_result.is_err(),
        "YubiKeyDevice.authenticate should fail with an incorrect PIN"
    );
    if let Err(Error::DevicePinFailed(msg)) = signature_result {
        assert!(
            msg.starts_with("PIN verification failed:"),
            "Error message mismatch for incorrect PIN. Got: {}",
            msg
        );
    } else {
        panic!(
            "Expected DevicePinFailed for incorrect PIN, got {:?}",
            signature_result
        );
    }
}

#[test]
fn test_yubikey_device_authenticate_malformed_challenge() {
    let token = SoftToken::new();
    let pin = "123456".to_string();
    let malformed_challenge = "this is not valid base64 characters !!!";

    let device_result = YubiKeyDevice::open(token.serial, &token.report());
    assert!(
        device_result.is_ok(),
        "Failed to open YubiKeyDevice for testing: {:?}",
        device_result.err()
    );
    let mut device = device_result.unwrap();

    let signature_result = authenticate_on(&token, &mut device, pin, malformed_challenge);

    assert!(
        signature_result.is_err(),
        "YubiKeyDevice.authenticate should fail with a malformed challenge"
    );
    if let Err(Error::DeviceProtocol(fault)) = signature_result {
        assert_eq!(fault, ProtocolFault::MalformedChallenge);
        let msg = fault.message();
        assert!(
            msg.contains("Invalid challenge format (base64 decode failed):"),
            "Error message mismatch for malformed challenge. Got: {}",
            msg
        );
    } else {
        panic!(
            "Expected DeviceProtocol for malformed challenge, got {:?}",
            signature_result
        );
    }
}
