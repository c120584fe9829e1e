use batoulab::error::VaultError;
use batoulab::files::{Provider, VaultFiles};
use batoulab::kek::{ensure_kek, ensure_kek_with};
use batoulab::vault::{
    load_api_key, migrate_credential, open_credential, remove_api_key, save_api_key, seal_credential,
    store_credential,
};

#[test]
fn a_credential_is_saved_loaded_and_removed() {
    let mut files = VaultFiles::new();
    assert_eq!(save_api_key(&mut files, "mistral", "sk-test-123", false), Ok(()));
    assert_eq!(load_api_key(&mut files, "mistral", None), Ok(Some("sk-test-123".to_string())));
    assert_eq!(remove_api_key(&mut files, "mistral"), Ok(()));
    assert_eq!(load_api_key(&mut files, "mistral", None), Ok(None));
}

#[test]
fn removing_an_absent_credential_succeeds() {
    let mut files = VaultFiles::new();
    assert_eq!(remove_api_key(&mut files, "openai"), Ok(()));
    assert_eq!(remove_api_key(&mut files, "openai"), Ok(()));
    assert_eq!(files.openai, None);
    assert_eq!(files.kek, None);
    assert_eq!(save_api_key(&mut files, "openai", "a", false), Ok(()));
    assert_eq!(save_api_key(&mut files, "mistral", "b", false), Ok(()));
    assert_eq!(remove_api_key(&mut files, "openai"), Ok(()));
    assert_eq!(remove_api_key(&mut files, "openai"), Ok(()));
    assert_eq!(load_api_key(&mut files, "openai", None), Ok(None));
    assert_eq!(load_api_key(&mut files, "mistral", None), Ok(Some("b".to_string())));
}

#[test]
fn unknown_providers_are_refused() {
    let mut files = VaultFiles::new();
    for name in ["", "anthropic", "Mistral", "openai ", "../mistral"] {
        assert_eq!(save_api_key(&mut files, name, "k", false), Err(VaultError::UnknownProvider));
        assert_eq!(save_api_key(&mut files, name, "k", true), Err(VaultError::UnknownProvider));
        assert_eq!(load_api_key(&mut files, name, None), Err(VaultError::UnknownProvider));
        assert_eq!(load_api_key(&mut files, name, Some("x".to_string())), Err(VaultError::UnknownProvider));
        assert_eq!(remove_api_key(&mut files, name), Err(VaultError::UnknownProvider));
    }
    assert_eq!(files.kek, None);
    assert_eq!(files.openai, None);
    assert_eq!(files.mistral, None);
}

#[test]
fn the_platform_backend_is_preferred() {
    let mut files = VaultFiles::new();
    assert_eq!(save_api_key(&mut files, "openai", "sk-a", true), Ok(()));
    assert_eq!(files.openai, None);
    assert_eq!(files.kek, None);
    assert_eq!(load_api_key(&mut files, "openai", Some("sk-a".to_string())), Ok(Some("sk-a".to_string())));
    assert_eq!(save_api_key(&mut files, "openai", "sk-file", false), Ok(()));
    assert_eq!(load_api_key(&mut files, "openai", Some("sk-a".to_string())), Ok(Some("sk-a".to_string())));
    assert_eq!(load_api_key(&mut files, "openai", None), Ok(Some("sk-file".to_string())));
}

#[test]
fn credentials_are_kept_apart_by_provider() {
    let mut files = VaultFiles::new();
    assert_eq!(save_api_key(&mut files, "openai", "sk-a", false), Ok(()));
    files.mistral = files.openai.clone();
    assert_eq!(load_api_key(&mut files, "openai", None), Ok(Some("sk-a".to_string())));
    assert_eq!(load_api_key(&mut files, "mistral", None), Err(VaultError::CryptoError));
}

#[test]
fn a_credential_file_from_disk_is_opened() {
    let kek = [0x07u8; 32];
    let doc = b"{\"v\":1,\"nonce\":\"IiIiIiIiIiIiIiIiIiIiIiIiIiIiIiIi\",\"ct\":\"KGoYToA8ibF3zEFeO5ng0PmZiL6NWAKI7mn6\"}";
    assert_eq!(open_credential(&kek, "mistral", doc), Ok(b"sk-test-123".to_vec()));
    assert_eq!(open_credential(&kek, "openai", doc), Err(VaultError::CryptoError));
    assert_eq!(open_credential(&[0x08; 32], "mistral", doc), Err(VaultError::CryptoError));
    assert_eq!(open_credential(&kek, "mistral", b"{\"v\":1}"), Err(VaultError::SerializationError));
}

#[test]
fn a_credential_file_of_an_earlier_version_is_opened() {
    let mut files = VaultFiles::new();
    files.kek = Some(vec![0x07; 32]);
    files.mistral = Some(b"IiIiIiIiIiIiIiIiIiIiIiIiIiIiIiIiF+q+7BUr+KF/M8AkVdkcImGwPNWO6Q".to_vec());
    assert_eq!(load_api_key(&mut files, "mistral", None), Ok(Some("sk-old".to_string())));
    files.openai = files.mistral.clone();
    assert_eq!(load_api_key(&mut files, "openai", None), Err(VaultError::CryptoError));
}

#[test]
fn a_sealed_credential_opens_again() {
    let kek = [0x07u8; 32];
    let e = seal_credential(&kek, "openai", b"sk-a").unwrap();
    let doc = batoulab::format::encode_envelope(&e);
    assert_eq!(open_credential(&kek, "openai", &doc), Ok(b"sk-a".to_vec()));
}

#[test]
fn the_root_key_is_created_once() {
    let mut files = VaultFiles::new();
    let first = ensure_kek(&mut files).unwrap();
    assert_eq!(first.len(), 32);
    assert_ne!(first, vec![0u8; 32]);
    assert_eq!(files.kek, Some(first.clone()));
    assert_eq!(ensure_kek(&mut files), Ok(first.clone()));
    assert_eq!(ensure_kek_with(&mut files, &[1; 32]), Ok(first.clone()));
    assert_eq!(files.kek, Some(first));
    assert_eq!(files.salt, None);

    let mut empty = VaultFiles::new();
    assert_eq!(ensure_kek_with(&mut empty, &[1; 32]), Ok(vec![1; 32]));
    assert_eq!(empty.kek, Some(vec![1; 32]));
}

#[test]
fn a_damaged_root_key_is_refused() {
    for damaged in [vec![], vec![1, 2, 3], vec![7; 31], vec![7; 33]] {
        let mut files = VaultFiles::new();
        files.kek = Some(damaged.clone());
        assert_eq!(ensure_kek(&mut files), Err(VaultError::SerializationError));
        assert_eq!(ensure_kek_with(&mut files, &[1; 32]), Err(VaultError::SerializationError));
        assert_eq!(save_api_key(&mut files, "mistral", "k", false), Err(VaultError::SerializationError));
        assert_eq!(files.mistral, None);
        files.openai = Some(b"IiIiIiIiIiIiIiIiIiIiIiIiIiIiIiIiF+q+7BUr+KF/M8AkVdkcImGwPNWO6Q".to_vec());
        assert_eq!(load_api_key(&mut files, "openai", None), Err(VaultError::SerializationError));
        assert_eq!(migrate_credential(&mut files, "openai"), Err(VaultError::SerializationError));
        assert_eq!(load_api_key(&mut files, "mistral", None), Ok(None));
        assert_eq!(files.kek, Some(damaged));
    }
}

#[test]
fn a_stored_root_key_is_kept() {
    let mut files = VaultFiles::new();
    files.kek = Some(vec![9; 32]);
    assert_eq!(ensure_kek(&mut files), Ok(vec![9; 32]));
    assert_eq!(save_api_key(&mut files, "mistral", "k", false), Ok(()));
    assert_eq!(files.kek, Some(vec![9; 32]));
    assert_eq!(load_api_key(&mut files, "mistral", None), Ok(Some("k".to_string())));
    assert_eq!(open_credential(&[9; 32], "mistral", &files.mistral.clone().unwrap()), Ok(b"k".to_vec()));
}

#[test]
fn a_stored_credential_reads_back() {
    let mut files = VaultFiles::new();
    let e = seal_credential(&[9; 32], "openai", b"sk-a").unwrap();
    assert_eq!(store_credential(&mut files, Provider::OpenAi, &e), Ok(()));
    assert_eq!(files.openai, Some(batoulab::format::encode_envelope(&e)));
    assert_eq!(files.mistral, None);
    assert_eq!(open_credential(&[9; 32], "openai", &files.openai.clone().unwrap()), Ok(b"sk-a".to_vec()));
}

#[test]
fn a_credential_file_of_an_earlier_version_is_rewritten() {
    let legacy = b"IiIiIiIiIiIiIiIiIiIiIiIiIiIiIiIiF+q+7BUr+KF/M8AkVdkcImGwPNWO6Q".to_vec();
    let mut files = VaultFiles::new();
    files.kek = Some(vec![0x07; 32]);
    files.mistral = Some(legacy.clone());
    assert_eq!(migrate_credential(&mut files, "mistral"), Ok(true));
    let rewritten = files.mistral.clone().unwrap();
    assert_ne!(rewritten, legacy);
    assert!(batoulab::format::decode_envelope(&rewritten).is_ok());
    assert_eq!(open_credential(&[0x07; 32], "mistral", &rewritten), Ok(b"sk-old".to_vec()));
    assert_eq!(load_api_key(&mut files, "mistral", None), Ok(Some("sk-old".to_string())));
    assert_eq!(migrate_credential(&mut files, "mistral"), Ok(false));
    assert_eq!(files.mistral, Some(rewritten));
    assert_eq!(files.kek, Some(vec![0x07; 32]));
}

#[test]
fn migration_leaves_other_files_alone() {
    let mut files = VaultFiles::new();
    assert_eq!(migrate_credential(&mut files, "openai"), Ok(false));
    assert_eq!(files.kek, None);
    assert_eq!(migrate_credential(&mut files, "anthropic"), Err(VaultError::UnknownProvider));

    files.kek = Some(vec![0x08; 32]);
    files.mistral = Some(b"IiIiIiIiIiIiIiIiIiIiIiIiIiIiIiIiF+q+7BUr+KF/M8AkVdkcImGwPNWO6Q".to_vec());
    assert_eq!(migrate_credential(&mut files, "mistral"), Err(VaultError::CryptoError));
    assert_eq!(
        files.mistral,
        Some(b"IiIiIiIiIiIiIiIiIiIiIiIiIiIiIiIiF+q+7BUr+KF/M8AkVdkcImGwPNWO6Q".to_vec())
    );
    files.openai = Some(b"neither form!".to_vec());
    assert_eq!(migrate_credential(&mut files, "openai"), Err(VaultError::SerializationError));
    assert_eq!(files.openai, Some(b"neither form!".to_vec()));
}
