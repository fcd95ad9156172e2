use aes_gcm::aead::Aead;
use aes_gcm::aead::KeyInit;
use base64::Engine;
use vault_lib::master_password::EncryptionError;
use vault_lib::master_password::PasswordEncryptor;

#[test]
fn password_encryptor_test_encrypt_decrypt_cycle() {
    let encryptor = PasswordEncryptor::new("test-password");
    let original_data = b"Hello, World!";

    let encrypted = encryptor.encrypt(original_data).unwrap();
    let decrypted = encryptor.decrypt(&encrypted).unwrap();

    assert_eq!(original_data.to_vec(), decrypted);
}

#[test]
fn password_encryptor_test_different_passwords_produce_different_results() {
    let encryptor1 = PasswordEncryptor::new("password1");
    let encryptor2 = PasswordEncryptor::new("password2");
    let data = b"test data";

    let encrypted1 = encryptor1.encrypt(data).unwrap();
    let encrypted2 = encryptor2.encrypt(data).unwrap();

    assert_ne!(encrypted1, encrypted2);
}

#[test]
fn password_encryptor_test_wrong_password_fails_decryption() {
    let encryptor1 = PasswordEncryptor::new("correct-password");
    let encryptor2 = PasswordEncryptor::new("wrong-password");

    let data = b"sensitive information";
    let encrypted = encryptor1.encrypt(data).unwrap();

    assert!(encryptor2.decrypt(&encrypted).is_err());
}

#[test]
fn password_encryptor_test_corrupted_data() {
    let encryptor = PasswordEncryptor::new("password");
    let data = b"test data";

    let encrypted = encryptor.encrypt(data).unwrap();
    let corrupted = encrypted[..encrypted.len() - 1].to_string() + "X";

    assert!(encryptor.decrypt(&corrupted).is_err());
}

#[test]
fn password_encryptor_test_invalid_base64() {
    let encryptor = PasswordEncryptor::new("password");
    assert!(matches!(
        encryptor.decrypt("not-base64!@#$"),
        Err(EncryptionError::Base64(_))
    ));
}

#[test]
fn password_encryptor_test_same_data_different_encryption() {
    let encryptor = PasswordEncryptor::new("password");
    let data = b"test data";

    let encrypted1 = encryptor.encrypt(data).unwrap();
    let encrypted2 = encryptor.encrypt(data).unwrap();

    assert_ne!(encrypted1, encrypted2);
}

#[test]
fn password_encryptor_test_verify_password() {
    let good_password = "pasword";
    let wrong_password = "wrong-password";
    let good_encryptor = PasswordEncryptor::new(&good_password);
    let bad_encryptor = PasswordEncryptor::new(&wrong_password);
    let good_encrypted = good_encryptor.encrypt(b"password").unwrap();

    assert!(bad_encryptor.decrypt(&good_encrypted).is_err())
}

#[test]
fn stretched_key_is_pbkdf2_with_100000_rounds() {
    let salt = [3u8; 16];
    let nonce = [4u8; 12];
    let encryptor = PasswordEncryptor::with_salt("password", &salt);
    let blob = encryptor.seal_with_nonce(&nonce, b"data").unwrap();

    let mut key = [0u8; 32];
    ring::pbkdf2::derive(
        ring::pbkdf2::PBKDF2_HMAC_SHA256,
        std::num::NonZeroU32::new(100_000).unwrap(),
        &salt,
        b"password",
        &mut key,
    );
    let again = PasswordEncryptor::with_salt("password", &salt);
    assert_eq!(again.decrypt(&blob).unwrap(), b"data".to_vec());

    let raw = base64::engine::general_purpose::STANDARD
        .decode(blob.as_bytes())
        .unwrap();
    assert_eq!(&raw[..12], &nonce);
    assert_eq!(raw.len(), 12 + 4 + 16);
    let cipher = aes_gcm::Aes256Gcm::new_from_slice(&key).unwrap();
    let plain = cipher
        .decrypt(aes_gcm::Nonce::from_slice(&nonce), &raw[12..])
        .unwrap();
    assert_eq!(plain, b"data".to_vec());
}

#[test]
fn password_encryptor_tells_its_failures_apart() {
    let encryptor = PasswordEncryptor::with_salt("password", &[0u8; 16]);
    let short = base64::engine::general_purpose::STANDARD.encode([0u8; 11]);
    assert!(matches!(
        encryptor.decrypt(&short),
        Err(EncryptionError::Decryption(_))
    ));
    assert!(matches!(
        encryptor.seal_with_nonce(&[0u8; 5], b"x"),
        Err(EncryptionError::Encryption(_))
    ));
    assert_eq!(
        EncryptionError::Encryption("a".to_string()).to_string(),
        "Encryption error: a"
    );
    assert_eq!(
        EncryptionError::Decryption("b".to_string()).to_string(),
        "Decryption error: b"
    );
    assert_eq!(
        EncryptionError::Base64("c".to_string()).to_string(),
        "Base64 error: c"
    );
}

#[test]
fn try_new_takes_ordinary_passwords() {
    let encryptor = PasswordEncryptor::try_new("password").unwrap();
    let blob = encryptor.encrypt(b"data").unwrap();
    assert_eq!(encryptor.decrypt(&blob).unwrap(), b"data".to_vec());
}
