use rsa::pkcs8::EncodePrivateKey;
use rand::SeedableRng;
use vault_lib::master_password::MasterKeyFiles;
use vault_lib::secrets::Error;
use vault_lib::secrets::NewSecretForm;
use vault_lib::secrets::Secret;
use vault_lib::AppState;
use vault_lib::FileSystem;
use vault_lib::MasterPassword;

/// Seed of the key that these tests share. A seeded generator gives the
/// same 2048-bit key in every run, and this seed gives it quickly.
const TEST_KEY_SEED: u64 = 18;

/// The shared key as PKCS#8 PEM.
fn test_key() -> String {
    let mut rng = rand::rngs::StdRng::seed_from_u64(TEST_KEY_SEED);
    let key = rsa::RsaPrivateKey::new(&mut rng, 2048).unwrap();
    key.to_pkcs8_pem(rsa::pkcs8::LineEnding::LF)
        .unwrap()
        .to_string()
}

fn setup() -> (AppState, MasterKeyFiles) {
    let mut state = AppState::new(FileSystem::new_test("/tmp/scratch".to_string()));
    let files = MasterPassword::save(&mut state, "secret", Some(&test_key()), false).unwrap();
    (state, files)
}

fn to_json(secret: &Secret) -> String {
    let mut object = serde_json::Map::new();
    object.insert("id".to_string(), serde_json::Value::String(secret.id.clone()));
    object.insert("kind".to_string(), serde_json::Value::String(secret.kind.clone()));
    object.insert("name".to_string(), serde_json::Value::String(secret.name.clone()));
    object.insert("value".to_string(), serde_json::Value::String(secret.value.clone()));
    serde_json::Value::Object(object).to_string()
}

fn from_json(text: &str) -> Secret {
    let value: serde_json::Value = serde_json::from_str(text).unwrap();
    Secret {
        id: value["id"].as_str().unwrap().to_string(),
        kind: value["kind"].as_str().unwrap().to_string(),
        name: value["name"].as_str().unwrap().to_string(),
        value: value["value"].as_str().unwrap().to_string(),
    }
}

#[test]
fn test_store_and_read_secret() {
    let (state, files) = setup();
    let id = "test-id";
    let secret = Secret {
        id: id.to_string(),
        kind: "test".to_string(),
        name: "test".to_string(),
        value: "test".to_string(),
    };
    let sealed = secret
        .save(&state, &files.master_password, &files.private_key, &to_json(&secret))
        .unwrap();
    assert_eq!(sealed.path, Secret::location(&state, id));
    let read_secret =
        from_json(&Secret::find(&state, &files.master_password, &files.private_key, &sealed.blob).unwrap());
    assert_eq!(secret, read_secret);
    let all: Vec<Secret> = Secret::all(&state, &files.master_password, &files.private_key, &vec![sealed.blob])
        .unwrap()
        .iter()
        .map(|json| from_json(json))
        .collect();
    assert_eq!([secret], all.as_slice());
}

#[test]
fn concrete_scenario_bank_login() {
    let mut state = AppState::new(FileSystem::new("/home/u/.vault".to_string()));
    let files = MasterPassword::save(&mut state, "secret", Some(&test_key()), false).unwrap();

    let secret = Secret::from(NewSecretForm {
        kind: "login".to_string(),
        name: "bank".to_string(),
        value: "swordfish".to_string(),
    });
    assert_eq!(secret.id.len(), 36);
    assert!(uuid::Uuid::parse_str(&secret.id).is_ok());
    for (at, c) in secret.id.chars().enumerate() {
        if at == 8 || at == 13 || at == 18 || at == 23 {
            assert_eq!(c, '-');
        } else {
            assert!(c.is_ascii_digit() || ('a'..='f').contains(&c));
        }
    }
    assert_eq!(secret.id.as_bytes()[14], b'4');
    assert!(b"89ab".contains(&secret.id.as_bytes()[19]));
    assert_eq!(
        uuid::Uuid::parse_str(&secret.id).unwrap().get_version_num(),
        4
    );
    let sealed = secret
        .save(&state, &files.master_password, &files.private_key, &to_json(&secret))
        .unwrap();
    assert_eq!(
        sealed.path,
        format!("/home/u/.vault/vaults/default.vault/{}.enc", secret.id)
    );
    assert!(!sealed.blob.contains("swordfish"));

    let found = from_json(&Secret::find(&state, &files.master_password, &files.private_key, &sealed.blob).unwrap());
    assert_eq!(found.id, secret.id);
    assert_eq!(found.kind, "login");
    assert_eq!(found.name, "bank");
    assert_eq!(found.value, "swordfish");

    assert!(MasterPassword::verify(&mut state, "secret", &files.master_password).is_ok());
    assert!(MasterPassword::verify(&mut state, "wrong", &files.master_password).is_err());
}

#[test]
fn listing_returns_every_secret_once_and_in_order() {
    let (state, files) = setup();
    let mut blobs: Vec<String> = Vec::new();
    let mut secrets: Vec<Secret> = Vec::new();
    for n in 0..5 {
        let secret = Secret::from(NewSecretForm {
            kind: "note".to_string(),
            name: format!("n{}", n),
            value: format!("v{}", n),
        });
        let sealed = secret
            .save(&state, &files.master_password, &files.private_key, &to_json(&secret))
            .unwrap();
        blobs.push(sealed.blob);
        secrets.push(secret);
    }
    let listed: Vec<Secret> = Secret::all(&state, &files.master_password, &files.private_key, &blobs)
        .unwrap()
        .iter()
        .map(|json| from_json(json))
        .collect();
    assert_eq!(listed.len(), 5);
    assert_eq!(listed, secrets);
    for i in 0..5 {
        for j in 0..5 {
            assert_eq!(secrets[i].id == secrets[j].id, i == j);
        }
    }
    assert_eq!(
        Secret::all(&state, &files.master_password, &files.private_key, &Vec::new()).unwrap(),
        Vec::<String>::new()
    );
}

#[test]
fn one_damaged_blob_fails_the_whole_listing() {
    let (state, files) = setup();
    let secret = Secret::from(NewSecretForm {
        kind: "k".to_string(),
        name: "n".to_string(),
        value: "v".to_string(),
    });
    let good = secret
        .save(&state, &files.master_password, &files.private_key, &to_json(&secret))
        .unwrap()
        .blob;
    let blobs = vec![good.clone(), "not-base64!@#$".to_string(), good.clone()];
    assert!(matches!(
        Secret::all(&state, &files.master_password, &files.private_key, &blobs),
        Err(Error::EncryptMod(_))
    ));
    assert!(matches!(
        Secret::find(&state, &files.master_password, &files.private_key, "AAAA"),
        Err(Error::EncryptMod(_))
    ));
}

#[test]
fn secrets_need_an_unlocked_session() {
    let (mut state, files) = setup();
    let secret = Secret::from(NewSecretForm {
        kind: "k".to_string(),
        name: "n".to_string(),
        value: "v".to_string(),
    });
    let sealed = secret
        .save(&state, &files.master_password, &files.private_key, &to_json(&secret))
        .unwrap();
    state.log_out();
    assert!(matches!(
        secret.save(&state, &files.master_password, &files.private_key, "{}"),
        Err(Error::MasterPassword(_))
    ));
    assert!(matches!(
        Secret::find(&state, &files.master_password, &files.private_key, &sealed.blob),
        Err(Error::MasterPassword(_))
    ));
    assert!(matches!(
        Secret::all(&state, &files.master_password, &files.private_key, &vec![sealed.blob]),
        Err(Error::MasterPassword(_))
    ));
}

#[test]
fn a_secret_too_long_for_the_key_is_refused() {
    let (state, files) = setup();
    let secret = Secret::with_id(
        "fixed-id".to_string(),
        NewSecretForm {
            kind: "k".to_string(),
            name: "n".to_string(),
            value: "v".repeat(300),
        },
    );
    assert_eq!(secret.id, "fixed-id");
    assert!(matches!(
        secret.save(&state, &files.master_password, &files.private_key, &to_json(&secret)),
        Err(Error::EncryptMod(_))
    ));
    let fits = "x".repeat(245);
    let sealed = secret
        .save(&state, &files.master_password, &files.private_key, &fits)
        .unwrap();
    assert_eq!(
        Secret::find(&state, &files.master_password, &files.private_key, &sealed.blob).unwrap(),
        fits
    );
}

#[test]
fn a_damaged_key_file_fails_every_operation() {
    let (state, files) = setup();
    let secret = Secret::with_id(
        "id".to_string(),
        NewSecretForm {
            kind: "k".to_string(),
            name: "n".to_string(),
            value: "v".to_string(),
        },
    );
    assert!(matches!(
        secret.save(&state, &files.master_password, "AAAA", "{}"),
        Err(Error::MasterPassword(_))
    ));
    assert!(matches!(
        Secret::find(&state, "AAAA", &files.private_key, "AAAA"),
        Err(Error::MasterPassword(_))
    ));
    assert!(matches!(
        Secret::all(&state, &files.master_password, "***", &Vec::new()),
        Err(Error::MasterPassword(_))
    ));
}

#[test]
fn secrets_error_text_is_label_and_detail() {
    assert_eq!(Error::Json("j".to_string()).to_string(), "secrets::Json: j");
    assert_eq!(Error::Io("i".to_string()).to_string(), "secrets::Io: i");
    assert_eq!(
        Error::AppStateLock("l".to_string()).to_string(),
        "secrets::AppStateLock: l"
    );
    let wrapped = Error::from_encrypt(vault_lib::encrypt::Error::Rsa("r".to_string()));
    assert_eq!(wrapped.to_string(), "secrets::EncryptMod: Rsa: r");
    let wrapped = Error::from_master_password(vault_lib::master_password::Error::Io(
        "x".to_string(),
    ));
    assert_eq!(wrapped.to_string(), "secrets::MasterPassword: Io: x");
    assert_eq!(vault_lib::secrets::default_vault(), "default");
}
