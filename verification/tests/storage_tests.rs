use knishio_client::storage::envelope::{open, seal, DEFAULT_ITERATIONS};
use knishio_client::storage::SecretStorageMetadata;
use knishio_client::error::KnishIOError;
use knishio_client::storage::secure_memory::{constant_time_equals, with_secure_bytes, with_secure_string, zeroize_bytes};
use knishio_client::storage::{
    AesGcmSecretStorageProvider, MemorySecretStorageProvider, MemoryStorageBackend, SecretStorageProvider, StorageBackend,
    StorageOptions,
};

#[test]
fn constant_time_equals_matches_equality() {
    assert!(constant_time_equals(b"abc", b"abc"));
    assert!(!constant_time_equals(b"abc", b"abd"));
    assert!(!constant_time_equals(b"abc", b"ab"));
    assert!(constant_time_equals(b"", b""));
}

#[test]
fn zeroize_and_secure_closures() {
    let mut buf = [1u8, 2, 3];
    zeroize_bytes(&mut buf);
    assert_eq!(buf, [0u8, 0, 0]);
    let n = with_secure_bytes(vec![4u8, 5], |b| b.len());
    assert_eq!(n, 2);
    let s = with_secure_string("secret".to_string(), |s| s.to_uppercase());
    assert_eq!(s, "SECRET");
}

#[test]
fn memory_backend_reads_back_what_was_written() {
    let mut backend = MemoryStorageBackend::new();
    assert_eq!(backend.get_item("a"), None);
    backend.set_item("a", "1".to_string());
    backend.set_item("b", "2".to_string());
    backend.set_item("a", "3".to_string());
    assert_eq!(backend.get_item("a"), Some("3".to_string()));
    assert_eq!(backend.get_item("b"), Some("2".to_string()));
    let mut keys = backend.keys();
    keys.sort();
    assert_eq!(keys, vec!["a".to_string(), "b".to_string()]);
    assert!(backend.remove_item("a"));
    assert!(!backend.remove_item("a"));
    assert_eq!(backend.get_item("a"), None);
}

#[test]
fn memory_provider_stores_and_deletes() {
    let mut provider = MemorySecretStorageProvider::new();
    let options = StorageOptions::new(Some("main".to_string()), None);
    provider.store_secret_sync("bundle1", "s3cret", options).unwrap();
    assert_eq!(provider.retrieve_secret("bundle1", StorageOptions::default()).unwrap(), Some("s3cret".to_string()));
    assert!(provider.has_secret("bundle1").unwrap());
    let listed = provider.list_secrets().unwrap();
    assert_eq!(listed.len(), 1);
    assert_eq!(listed[0].bundle_hash, "bundle1");
    assert_eq!(listed[0].label, Some("main".to_string()));
    assert_eq!(listed[0].provider_type, "memory");
    assert!(!listed[0].hardware_backed);
    let upper = provider
        .with_secret("bundle1", StorageOptions::default(), |s| Ok::<String, KnishIOError>(s.to_uppercase()))
        .unwrap();
    assert_eq!(upper, "S3CRET");
    assert!(provider.delete_secret("bundle1").unwrap());
    assert!(!provider.delete_secret("bundle1").unwrap());
    assert_eq!(provider.retrieve_secret("bundle1", StorageOptions::default()).unwrap(), None);
    assert!(provider.get_recovery_payload("bundle1").is_none());
    provider.clear();
    assert!(provider.list_secrets().unwrap().is_empty());
}

#[test]
fn memory_provider_rejects_empty_inputs() {
    let mut provider = MemorySecretStorageProvider::default();
    match provider.store_secret_sync("", "x", StorageOptions::default()) {
        Err(KnishIOError::SecretStorage(m)) => assert_eq!(m, "Bundle hash cannot be empty"),
        other => panic!("unexpected {:?}", other),
    }
    match provider.store_secret_sync("b", "", StorageOptions::default()) {
        Err(KnishIOError::SecretStorage(m)) => assert_eq!(m, "Secret cannot be empty"),
        other => panic!("unexpected {:?}", other),
    }
    match provider.with_secret("missing", StorageOptions::default(), |s| Ok::<usize, KnishIOError>(s.len())) {
        Err(KnishIOError::SecretNotFound(m)) => assert_eq!(m, "missing"),
        other => panic!("unexpected {:?}", other),
    }
}

#[test]
fn aes_gcm_provider_keys_and_passphrases() {
    let key = AesGcmSecretStorageProvider::<MemoryStorageBackend>::derive_key("password", b"salt", 1);
    let expected: [u8; 32] = [
        0x12, 0x0f, 0xb6, 0xcf, 0xfc, 0xf8, 0xb3, 0x2c, 0x43, 0xe7, 0x22, 0x52, 0x56, 0xc4, 0xf8, 0x37, 0xa8, 0x65, 0x48,
        0xc9, 0x2c, 0xcc, 0x35, 0x48, 0x08, 0x05, 0x98, 0x7c, 0xb7, 0x0b, 0xe1, 0x7b,
    ];
    assert_eq!(key, expected);
    assert_ne!(key, AesGcmSecretStorageProvider::<MemoryStorageBackend>::derive_key("password", b"salt", 2));

    let mut backend = MemoryStorageBackend::new();
    backend.set_item("knishio:secret:b1", "{}".to_string());
    let mut provider = AesGcmSecretStorageProvider::new(backend, Some("default-pass".to_string()));
    assert!(provider.has_secret("b1").unwrap());
    assert!(!provider.has_secret("b2").unwrap());
    let with = StorageOptions::with_passphrase("given");
    assert_eq!(provider.passphrase_for(&with), Some(&"given".to_string()));
    assert_eq!(provider.passphrase_for(&StorageOptions::default()), Some(&"default-pass".to_string()));
    assert!(provider.delete_secret("b1").unwrap());
    assert!(!provider.has_secret("b1").unwrap());
    assert_eq!(AesGcmSecretStorageProvider::<MemoryStorageBackend>::storage_key("x"), "knishio:secret:x");
    let default_provider = AesGcmSecretStorageProvider::<MemoryStorageBackend>::default();
    assert_eq!(default_provider.passphrase_for(&StorageOptions::default()), None);
    assert_eq!(default_provider.provider_type(), "aes-gcm");
}

#[test]
fn envelope_seal_then_open_gives_the_secret() {
    let metadata = SecretStorageMetadata {
        bundle_hash: "b".to_string(),
        label: None,
        created_at: 5,
        hardware_backed: false,
        provider_type: "aes-gcm".to_string(),
    };
    let payload = seal("s3cret text", "pass", metadata).unwrap();
    assert_eq!(payload.version, 1);
    assert_eq!(payload.algorithm, "AES-GCM");
    assert_eq!(payload.iterations, DEFAULT_ITERATIONS);
    assert_eq!(payload.metadata.created_at, 5);
    assert_eq!(open(&payload, "pass").unwrap(), b"s3cret text".to_vec());
    match open(&payload, "wrong") {
        Err(KnishIOError::DecryptionFailed(m)) => assert!(m.starts_with("Decryption authentication failed: ")),
        other => panic!("unexpected {:?}", other),
    }
}

#[test]
fn envelope_reports_each_malformed_part() {
    let metadata = SecretStorageMetadata {
        bundle_hash: "b".to_string(),
        label: Some("l".to_string()),
        created_at: 0,
        hardware_backed: false,
        provider_type: "aes-gcm".to_string(),
    };
    let good = seal("x", "p", metadata).unwrap();
    let mut bad = seal("x", "p", good.metadata.clone()).unwrap();
    bad.salt = "***".to_string();
    match open(&bad, "p") {
        Err(KnishIOError::DecryptionFailed(m)) => assert!(m.starts_with("Invalid salt base64: ")),
        other => panic!("unexpected {:?}", other),
    }
    let mut bad = seal("x", "p", good.metadata.clone()).unwrap();
    bad.iv = "AAAA".to_string();
    match open(&bad, "p") {
        Err(KnishIOError::DecryptionFailed(m)) => assert!(m.starts_with("Invalid IV length: ")),
        other => panic!("unexpected {:?}", other),
    }
    let mut bad = seal("x", "p", good.metadata.clone()).unwrap();
    bad.ciphertext = "!".to_string();
    match open(&bad, "p") {
        Err(KnishIOError::DecryptionFailed(m)) => assert!(m.starts_with("Invalid ciphertext base64: ")),
        other => panic!("unexpected {:?}", other),
    }
    let mut bad = seal("x", "p", good.metadata.clone()).unwrap();
    bad.iv = "?".to_string();
    match open(&bad, "p") {
        Err(KnishIOError::DecryptionFailed(m)) => assert!(m.starts_with("Invalid IV base64: ")),
        other => panic!("unexpected {:?}", other),
    }
    assert_eq!(good.salt.len(), 24);
    assert_eq!(good.iv.len(), 16);
}

#[test]
fn aes_gcm_provider_seals_stores_and_opens() {
    let mut provider = AesGcmSecretStorageProvider::new(MemoryStorageBackend::new(), Some("pw".to_string()));
    let options = StorageOptions::new(Some("main".to_string()), None);
    let payload = provider.seal_secret("bundle", "my secret", &options).unwrap();
    assert_eq!(payload.metadata.bundle_hash, "bundle");
    assert_eq!(payload.metadata.label, Some("main".to_string()));
    assert_eq!(payload.metadata.provider_type, "aes-gcm");
    assert!(!payload.metadata.hardware_backed);
    assert_eq!(provider.open_secret(&payload, &options).unwrap(), "my secret");
    match provider.open_secret(&payload, &StorageOptions::with_passphrase("other")) {
        Err(KnishIOError::DecryptionFailed(_)) => {},
        other => panic!("unexpected {:?}", other),
    }
    provider.store_sealed("bundle", "sealed text".to_string());
    assert_eq!(provider.sealed_text("bundle"), Some("sealed text".to_string()));
    assert_eq!(provider.sealed_text("other"), None);
    assert!(provider.has_secret("bundle").unwrap());

    let bare = AesGcmSecretStorageProvider::<MemoryStorageBackend>::default();
    match bare.seal_secret("b", "s", &StorageOptions::default()) {
        Err(KnishIOError::SecretStorage(m)) => assert_eq!(m, "Passphrase required for envelope encryption"),
        other => panic!("unexpected {:?}", other),
    }
    match bare.open_secret(&payload, &StorageOptions::default()) {
        Err(KnishIOError::SecretStorage(m)) => assert_eq!(m, "Passphrase required for secret decryption"),
        other => panic!("unexpected {:?}", other),
    }
    match bare.seal_secret("", "s", &options) {
        Err(KnishIOError::SecretStorage(m)) => assert_eq!(m, "Bundle hash cannot be empty"),
        other => panic!("unexpected {:?}", other),
    }
    match bare.seal_secret("b", "", &options) {
        Err(KnishIOError::SecretStorage(m)) => assert_eq!(m, "Secret cannot be empty"),
        other => panic!("unexpected {:?}", other),
    }
}

#[test]
fn aes_gcm_provider_lists_only_its_sealed_entries() {
    let mut backend = MemoryStorageBackend::new();
    backend.set_item("unrelated", "x".to_string());
    backend.set_item("knishio:secret:first", "one".to_string());
    let mut provider = AesGcmSecretStorageProvider::new(backend, None);
    provider.store_sealed("second", "two".to_string());
    provider.store_sealed("first", "uno".to_string());
    let entries = provider.sealed_entries();
    assert_eq!(
        entries,
        vec![
            ("knishio:secret:first".to_string(), "uno".to_string()),
            ("knishio:secret:second".to_string(), "two".to_string()),
        ]
    );
    assert_eq!(provider.delete_secret("first").unwrap(), true);
    assert_eq!(provider.sealed_entries(), vec![("knishio:secret:second".to_string(), "two".to_string())]);
}

fn hex_bytes(h: &str) -> Vec<u8> {
    (0..h.len()).step_by(2).map(|i| u8::from_str_radix(&h[i..i + 2], 16).unwrap()).collect()
}

#[test]
fn derive_key_is_pbkdf2_hmac_sha256() {
    let key1 = AesGcmSecretStorageProvider::<MemoryStorageBackend>::derive_key("password", b"salt", 1);
    assert_eq!(key1.to_vec(), hex_bytes("120fb6cffcf8b32c43e7225256c4f837a86548c92ccc35480805987cb70be17b"));
    let key2 = AesGcmSecretStorageProvider::<MemoryStorageBackend>::derive_key("password", b"salt", 2);
    assert_eq!(key2.to_vec(), hex_bytes("ae4d0c95af6b46d32d0adff928f06dd02a303f8ef3c251dfd6e2d85a95474c43"));
}
