use std::path::PathBuf;
use vault_lib::secrets::vault::is_secret_file;
use vault_lib::secrets::Vault;
use vault_lib::FileSystem;

fn setup() -> FileSystem {
    let temp_dir = tempfile::TempDir::new().unwrap();
    FileSystem::new_test(temp_dir.path().to_str().unwrap().to_string())
}

#[test]
fn test_file_system() {
    let fs = setup();
    let temp_dir = PathBuf::from(fs.root());

    assert_eq!(
        PathBuf::from(fs.app_data_directory()),
        temp_dir.join("app-data")
    );
    assert_eq!(PathBuf::from(fs.vaults_folder()), temp_dir.join("vaults"));
    assert_eq!(
        PathBuf::from(fs.vault_folder("test")),
        temp_dir.join("vaults").join("test.vault")
    );
}

#[test]
fn test_vault_for_tests() {
    let vault = Vault::new("test".to_string(), setup());
    assert_eq!(vault.name(), "test");
    let path = vault.path();
    assert_eq!(
        PathBuf::from(path),
        PathBuf::from(vault.fs().root()).join("vaults/test.vault")
    );
}

#[test]
fn layout_below_the_root_is_fixed() {
    let fs = FileSystem::new("/home/u/.vault".to_string());
    assert_eq!(fs.root(), "/home/u/.vault");
    assert_eq!(fs.app_data_directory(), "/home/u/.vault/app-data");
    assert_eq!(fs.vaults_folder(), "/home/u/.vault/vaults");
    assert_eq!(fs.vault_folder("default"), "/home/u/.vault/vaults/default.vault");
    assert_eq!(
        fs.pk_for_vault("default"),
        "/home/u/.vault/vaults/default.vault/private_key"
    );
    assert_eq!(fs.master_password(), "/home/u/.vault/master_password.enc");
    assert_eq!(fs.master_pk(), "/home/u/.vault/rsa_master_pk.enc");
    assert_eq!(fs.master_pub(), "/home/u/.vault/rsa_master_pub");
    assert_eq!(fs.yubikey_settings(), "/home/u/.vault/yubikey_settings.json");
    assert_eq!(
        fs.secret_path("default", "abc"),
        "/home/u/.vault/vaults/default.vault/abc.enc"
    );
    assert_eq!(
        fs.init_directories(),
        vec![
            "/home/u/.vault/app-data".to_string(),
            "/home/u/.vault/vaults".to_string(),
            "/home/u/.vault/vaults/default.vault".to_string(),
        ]
    );
    assert_eq!(
        vault_lib::file_system::join("a", "b"),
        "a/b"
    );
    assert_eq!(FileSystem::new_test("/t".to_string()).root(), "/t/.vault");
}

#[test]
fn vault_paths_follow_the_layout() {
    let vault = Vault::new(
        "work".to_string(),
        FileSystem::new("/r".to_string()),
    );
    assert_eq!(vault.path(), "/r/vaults/work.vault");
    assert_eq!(vault.secret_path("id-1"), "/r/vaults/work.vault/id-1.enc");
    assert_eq!(vault.pk_path(), "/r/vaults/work.vault/private_key");
    assert_eq!(vault.fs().root(), "/r");
}

#[test]
fn secret_files_are_told_by_their_extension() {
    assert!(is_secret_file("a.enc", false));
    assert!(is_secret_file("3f2a.b.enc", false));
    assert!(is_secret_file("..enc", false));
    assert!(is_secret_file("é.enc", false));
    assert!(!is_secret_file("a.enc", true));
    assert!(!is_secret_file(".enc", false));
    assert!(!is_secret_file("enc", false));
    assert!(!is_secret_file("", false));
    assert!(!is_secret_file("a.enc.bak", false));
    assert!(!is_secret_file("a.ENC", false));
    assert!(!is_secret_file("private_key", false));
    for name in ["a.enc", ".enc", "a.enc.bak", "3f2a.b.enc", "..enc", "private_key"] {
        let by_std = std::path::Path::new(name)
            .extension()
            .map(|s| s == "enc")
            .unwrap_or(false);
        assert_eq!(is_secret_file(name, false), by_std);
    }
}
