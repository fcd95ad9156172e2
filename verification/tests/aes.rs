use aes_gcm::aead::Aead;
use aes_gcm::aead::KeyInit;
use base64::Engine;
use crypto::digest::Digest;
use vault_lib::encrypt::Error;
use vault_lib::encrypt::AES;

#[test]
fn aes_test_encrypt_decrypt_cycle() {
    let encryptor = AES::new("test-password");
    let original_data = b"Hello, World!";

    let encrypted = encryptor.encrypt(original_data).unwrap();
    let decrypted = encryptor.decrypt(&encrypted).unwrap();

    assert_eq!(original_data.to_vec(), decrypted);
}

#[test]
fn aes_test_different_passwords_produce_different_results() {
    let encryptor1 = AES::new("password1");
    let encryptor2 = AES::new("password2");
    let data = b"test data";

    let encrypted1 = encryptor1.encrypt(data).unwrap();
    let encrypted2 = encryptor2.encrypt(data).unwrap();

    assert_ne!(encrypted1, encrypted2);
}

#[test]
fn aes_test_wrong_password_fails_decryption() {
    let encryptor1 = AES::new("correct-password");
    let encryptor2 = AES::new("wrong-password");

    let data = b"sensitive information";
    let encrypted = encryptor1.encrypt(data).unwrap();

    assert!(encryptor2.decrypt(&encrypted).is_err());
}

#[test]
fn aes_test_corrupted_data() {
    let encryptor = AES::new("password");
    let data = b"test data";

    let encrypted = encryptor.encrypt(data).unwrap();
    let corrupted = encrypted[..encrypted.len() - 1].to_string() + "X";

    assert!(encryptor.decrypt(&corrupted).is_err());
}

#[test]
fn aes_test_invalid_base64() {
    let encryptor = AES::new("password");
    assert!(matches!(
        encryptor.decrypt("not-base64!@#$"),
        Err(Error::Base64(_))
    ));
}

#[test]
fn aes_test_same_data_different_encryption() {
    let encryptor = AES::new("password");
    let data = b"test data";

    let encrypted1 = encryptor.encrypt(data).unwrap();
    let encrypted2 = encryptor.encrypt(data).unwrap();

    assert_ne!(encrypted1, encrypted2);
}

#[test]
fn aes_test_verify_password() {
    let good_password = "pasword";
    let wrong_password = "wrong-password";
    let good_encryptor = AES::new(good_password);
    let bad_encryptor = AES::new(wrong_password);
    let good_encrypted = good_encryptor.encrypt(b"password").unwrap();

    assert!(bad_encryptor.decrypt(&good_encrypted).is_err())
}

#[test]
fn test_good_password_is_successfuly_decrypted() {
    let good_password = "pasword";
    let good_encryptor = AES::new(good_password);
    let encrypted = good_encryptor.encrypt(good_password.as_bytes()).unwrap();
    let decrypted = good_encryptor.decrypt(&encrypted).unwrap();
    assert_eq!(good_password.as_bytes(), decrypted);
}

#[test]
fn test_good_password_is_decripted_from_different_decryptor() {
    let good_password = "pasword";
    let good_encryptor = AES::new(good_password);
    let encrypted = good_encryptor.encrypt(good_password.as_bytes()).unwrap();
    let good_encryptor2 = AES::from_encrypted(good_password, &encrypted).unwrap();
    let decrypted = good_encryptor2.decrypt(&encrypted).unwrap();
    assert_eq!(good_password.as_bytes(), decrypted);
}

fn reference_key(password: &str, salt: &[u8]) -> [u8; 32] {
    let mut hasher = crypto::sha3::Sha3::sha3_256();
    hasher.input(password.as_bytes());
    hasher.input(salt);
    let mut key = [0u8; 32];
    hasher.result(&mut key);
    key
}

#[test]
fn sealed_blob_has_the_documented_layout() {
    let salt = [7u8; 16];
    let nonce = [9u8; 12];
    let envelope = AES::from_salt("secret", &salt);
    let blob = envelope.seal_with_nonce(&nonce, b"swordfish").unwrap();

    let key = reference_key("secret", &salt);
    let cipher = aes_gcm::Aes256Gcm::new_from_slice(&key).unwrap();
    let sealed = cipher
        .encrypt(aes_gcm::Nonce::from_slice(&nonce), b"swordfish".as_ref())
        .unwrap();
    let mut expected = salt.to_vec();
    expected.extend_from_slice(&nonce);
    expected.extend_from_slice(&sealed);
    assert_eq!(sealed.len(), 9 + 16);
    assert_eq!(
        blob,
        base64::engine::general_purpose::STANDARD.encode(&expected)
    );
}

#[test]
fn sealing_is_deterministic_for_a_given_nonce() {
    let envelope = AES::from_salt("secret", &[1u8; 16]);
    let first = envelope.seal_with_nonce(&[2u8; 12], b"data").unwrap();
    let second = envelope.seal_with_nonce(&[2u8; 12], b"data").unwrap();
    assert_eq!(first, second);
    let other = envelope.seal_with_nonce(&[3u8; 12], b"data").unwrap();
    assert_ne!(first, other);
}

#[test]
fn seal_refuses_a_nonce_of_another_length() {
    let envelope = AES::from_salt("secret", &[1u8; 16]);
    assert!(matches!(
        envelope.seal_with_nonce(&[2u8; 11], b"data"),
        Err(Error::EncryptPassword(_))
    ));
    assert!(matches!(
        envelope.seal_with_nonce(&[2u8; 13], b"data"),
        Err(Error::EncryptPassword(_))
    ));
}

#[test]
fn same_password_and_salt_give_the_same_key() {
    let first = AES::from_salt("secret", &[5u8; 16]);
    let second = AES::from_salt("secret", &[5u8; 16]);
    let blob = first.encrypt(b"payload").unwrap();
    assert_eq!(second.decrypt(&blob).unwrap(), b"payload".to_vec());
    let other_salt = AES::from_salt("secret", &[6u8; 16]);
    assert!(matches!(
        other_salt.decrypt(&blob),
        Err(Error::AuthenticationFailed(_))
    ));
}

#[test]
fn round_trip_holds_for_empty_and_binary_plaintexts() {
    let envelope = AES::new("pässwörd");
    let empty = envelope.encrypt(b"").unwrap();
    assert_eq!(envelope.decrypt(&empty).unwrap(), Vec::<u8>::new());
    let binary: Vec<u8> = (0u8..=255).collect();
    let blob = envelope.encrypt(&binary).unwrap();
    assert_eq!(envelope.decrypt(&blob).unwrap(), binary);
}

#[test]
fn wrong_key_is_an_authentication_failure() {
    let sealer = AES::new("first");
    let opener = AES::new("second");
    let blob = sealer.encrypt(b"message").unwrap();
    assert!(matches!(
        opener.decrypt(&blob),
        Err(Error::AuthenticationFailed(_))
    ));
}

#[test]
fn flipping_any_ciphertext_byte_is_detected() {
    let envelope = AES::from_salt("secret", &[1u8; 16]);
    let blob = envelope.seal_with_nonce(&[2u8; 12], b"tamper me").unwrap();
    let raw = base64::engine::general_purpose::STANDARD
        .decode(blob.as_bytes())
        .unwrap();
    assert_eq!(raw.len(), 16 + 12 + 9 + 16);
    for at in 28..raw.len() {
        let mut changed = raw.clone();
        changed[at] ^= 0x01;
        let text = base64::engine::general_purpose::STANDARD.encode(&changed);
        assert!(matches!(
            envelope.decrypt(&text),
            Err(Error::AuthenticationFailed(_))
        ));
    }
}

#[test]
fn truncated_blob_is_an_authentication_failure() {
    let envelope = AES::new("secret");
    let short = base64::engine::general_purpose::STANDARD.encode([0u8; 27]);
    assert!(matches!(
        envelope.decrypt(&short),
        Err(Error::AuthenticationFailed(_))
    ));
    let header_only = base64::engine::general_purpose::STANDARD.encode([0u8; 28]);
    assert!(matches!(
        envelope.decrypt(&header_only),
        Err(Error::AuthenticationFailed(_))
    ));
    assert!(matches!(
        envelope.decrypt(""),
        Err(Error::AuthenticationFailed(_))
    ));
}

#[test]
fn from_encrypted_reads_the_embedded_salt() {
    let salt = [0x42u8; 16];
    let first = AES::from_salt("secret", &salt);
    let blob = first.encrypt(b"x").unwrap();
    let second = AES::from_encrypted("secret", &blob).unwrap();
    assert_eq!(second.decrypt(&blob).unwrap(), b"x".to_vec());
    let short = base64::engine::general_purpose::STANDARD.encode([0u8; 15]);
    assert!(matches!(
        AES::from_encrypted("secret", &short),
        Err(Error::Base64(_))
    ));
    assert!(matches!(
        AES::from_encrypted("secret", "***"),
        Err(Error::Base64(_))
    ));
}

#[test]
fn strings_round_trip_and_bad_utf8_is_told_apart() {
    let envelope = AES::new("secret");
    let blob = envelope.encrypt_string("grüße, 世界").unwrap();
    assert_eq!(envelope.decrypt_string(&blob).unwrap(), "grüße, 世界");
    let not_text = envelope.encrypt(&[0xff, 0xfe, 0xfd]).unwrap();
    assert!(matches!(
        envelope.decrypt_string(&not_text),
        Err(Error::BadUTF8(_))
    ));
}

#[test]
fn error_text_is_label_and_detail() {
    let e = Error::Base64("bad".to_string());
    assert_eq!(e.to_string(), "Base64: bad");
    let e = Error::AuthenticationFailed("aead::Error".to_string());
    assert_eq!(e.to_string(), "AuthenticationFailed: aead::Error");
    assert_eq!(Error::KeyFormat("k".to_string()).to_string(), "KeyFormat: k");
    assert_eq!(Error::Rsa("r".to_string()).to_string(), "Rsa: r");
    assert_eq!(Error::BadUTF8("u".to_string()).to_string(), "BadUTF8: u");
    assert_eq!(Error::Io("i".to_string()).to_string(), "Io: i");
    assert_eq!(
        Error::EncryptPassword("e".to_string()).to_string(),
        "EncryptPassword: e"
    );
    assert_eq!(
        Error::NoMasterPassword("n".to_string()).to_string(),
        "NoMasterPassword: n"
    );
}
