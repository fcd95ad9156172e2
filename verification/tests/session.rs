use rsa::pkcs8::EncodePrivateKey;
use rand::SeedableRng;
use vault_lib::AppState;
use vault_lib::FileSystem;
use vault_lib::MasterPassword;
use vault_lib::W;

/// Seed of the key that these tests share. A seeded generator gives the
/// same 2048-bit key in every run, and this seed gives it quickly.
const TEST_KEY_SEED: u64 = 18;

/// The shared key as PKCS#8 PEM.
fn test_key() -> String {
    let mut rng = rand::rngs::StdRng::seed_from_u64(TEST_KEY_SEED);
    let key = rsa::RsaPrivateKey::new(&mut rng, 2048).unwrap();
    key.to_pkcs8_pem(rsa::pkcs8::LineEnding::LF)
        .unwrap()
        .to_string()
}

fn unauthenticated() -> AppState {
    AppState::new(FileSystem::new_test("/tmp/scratch".to_string()))
}

#[test]
fn test_production_state() {
    let state = unauthenticated();
    assert!(!state.is_authenticated());
    assert!(state.master_password().is_none());
}

#[test]
fn test_test_state() {
    let mut state = unauthenticated();
    MasterPassword::save(&mut state, "test-password", Some(&test_key()), false).unwrap();
    assert!(state.is_authenticated());
    assert_eq!(state.master_password().unwrap(), "test-password");
}

#[test]
fn test_state_modifications() {
    let mut state = unauthenticated();
    assert!(!state.is_authenticated());

    state.set_authenticated(true);
    assert!(state.is_authenticated());

    state.set_master_password("password".to_string());
    assert_eq!(state.master_password().unwrap(), "password");
}

#[test]
fn logging_in_and_out_moves_between_the_two_states() {
    let mut state = unauthenticated();
    state.log_in("secret".to_string());
    assert!(state.is_authenticated());
    assert_eq!(state.master_password(), Some("secret".to_string()));
    state.log_out();
    assert!(!state.is_authenticated());
    assert_eq!(state.master_password(), None);
    assert_eq!(state.file_system().root(), "/tmp/scratch/.vault");
}

#[test]
fn setters_touch_one_field_each() {
    let mut state = unauthenticated();
    state.set_master_password("a".to_string());
    assert!(!state.is_authenticated());
    state.set_authenticated(true);
    state.unset_master_password();
    assert!(state.is_authenticated());
    assert!(state.master_password().is_none());
    state.set_authenticated(false);
    assert!(!state.is_authenticated());
}

#[test]
fn newtype_holds_its_value() {
    let wrapped = W(5u32);
    assert_eq!(wrapped.0, 5);
    let W(text) = W("x".to_string());
    assert_eq!(text, "x");
}
