use ownkey::codec::{
    decode_plaintext, decode_stored, encode_plaintext, migrate_items, EncryptedVault,
    LegacyItem, StoredVault,
};
use ownkey::crypto::{
    decode_base64, derive_key_bytes, encode_base64, open, seal, KDF_ROUNDS, TAG_LEN,
};
use ownkey::error::VaultError;
use ownkey::models::Vault;
use ownkey::service::{
    confirm_new_password, plan_save, resolve_password, unlock_step, unlock_with_password,
    PasswordOptions, UnlockAction, UnlockEvent,
};
use ownkey::vault::{decrypt_vault_with_key, encrypt_vault, seal_vault};

fn vault_of(pairs: &[(&str, &str)]) -> Vault {
    let mut v = Vault::new();
    for (k, s) in pairs {
        v.insert(k.to_string(), s.to_string());
    }
    v
}

fn sorted_pairs(v: &Vault) -> Vec<(String, String)> {
    let mut p = v.entries().clone();
    p.sort();
    p
}

fn pairs(list: &[(&str, &str)]) -> Vec<(String, String)> {
    let mut p: Vec<(String, String)> =
        list.iter().map(|(k, v)| (k.to_string(), v.to_string())).collect();
    p.sort();
    p
}

fn unlock_with(blob: &EncryptedVault, pw: &str, use_session: bool) -> UnlockAction {
    unlock_step(blob, use_session, UnlockEvent::Password(pw.to_string()))
}

#[test]
fn round_trip_returns_the_same_mapping() {
    let vault = vault_of(&[("a", "1"), ("quote\"d", "line\nbreak"), ("ü", "")]);
    let e = encrypt_vault(&vault, "pw").unwrap();
    let salt = decode_base64(&e.salt).unwrap();
    let key = derive_key_bytes("pw", &salt);
    let back = decrypt_vault_with_key(&e, &key).unwrap();
    assert_eq!(sorted_pairs(&back), sorted_pairs(&vault));
}

#[test]
fn round_trip_of_empty_vault() {
    let vault = Vault::new();
    let e = encrypt_vault(&vault, "").unwrap();
    match unlock_with(&e, "", false) {
        UnlockAction::Unlocked { vault, refresh } => {
            assert_eq!(vault.len(), 0);
            assert!(refresh.is_none());
        }
        _ => panic!("empty vault must unlock"),
    }
}

#[test]
fn wrong_password_is_auth_failure() {
    let vault = vault_of(&[("k", "v")]);
    let e = encrypt_vault(&vault, "password").unwrap();
    match unlock_with(&e, "password2", false) {
        UnlockAction::Failed(err) => assert_eq!(err, VaultError::IncorrectPasswordOrCorrupt),
        _ => panic!("a wrong password must not unlock"),
    }
}

#[test]
fn flipped_byte_is_detected() {
    let vault = vault_of(&[("k", "v")]);
    let e = encrypt_vault(&vault, "pw").unwrap();
    let salt = decode_base64(&e.salt).unwrap();
    let key = derive_key_bytes("pw", &salt);
    let ct = decode_base64(&e.ciphertext).unwrap();
    for i in 0..ct.len() {
        let mut bad = ct.clone();
        bad[i] ^= 0x01;
        let tampered = EncryptedVault {
            salt: e.salt.clone(),
            nonce: e.nonce.clone(),
            ciphertext: encode_base64(&bad),
        };
        assert_eq!(
            decrypt_vault_with_key(&tampered, &key).err(),
            Some(VaultError::IncorrectPasswordOrCorrupt)
        );
    }
    for n in 0..ct.len() {
        let truncated = EncryptedVault {
            salt: e.salt.clone(),
            nonce: e.nonce.clone(),
            ciphertext: encode_base64(&ct[..n]),
        };
        assert!(decrypt_vault_with_key(&truncated, &key).is_err());
    }
}

#[test]
fn malformed_nonce_is_auth_failure() {
    let vault = vault_of(&[("k", "v")]);
    let e = encrypt_vault(&vault, "pw").unwrap();
    let salt = decode_base64(&e.salt).unwrap();
    let key = derive_key_bytes("pw", &salt);
    for nonce in ["not base64!", "AAAA", ""] {
        let bad = EncryptedVault {
            salt: e.salt.clone(),
            nonce: nonce.to_string(),
            ciphertext: e.ciphertext.clone(),
        };
        assert_eq!(
            decrypt_vault_with_key(&bad, &key).err(),
            Some(VaultError::IncorrectPasswordOrCorrupt)
        );
    }
}

#[test]
fn malformed_salt_is_format_failure() {
    let vault = vault_of(&[("k", "v")]);
    let e = encrypt_vault(&vault, "pw").unwrap();
    let bad = EncryptedVault {
        salt: "%%%".to_string(),
        nonce: e.nonce.clone(),
        ciphertext: e.ciphertext.clone(),
    };
    assert_eq!(unlock_with_password(&bad, "pw").err(), Some(VaultError::FormatInvalid));
}

#[test]
fn non_vault_plaintext_is_format_failure() {
    let salt = [7u8; 16];
    let nonce = [9u8; 12];
    let key = derive_key_bytes("pw", &salt);
    let ct = seal(&key, &nonce, b"[1,2,3]").unwrap();
    let e = EncryptedVault {
        salt: encode_base64(&salt),
        nonce: encode_base64(&nonce),
        ciphertext: encode_base64(&ct),
    };
    assert_eq!(decrypt_vault_with_key(&e, &key).err(), Some(VaultError::FormatInvalid));
}

#[test]
fn two_encryptions_are_fresh() {
    let vault = vault_of(&[("k", "v")]);
    let a = encrypt_vault(&vault, "pw").unwrap();
    let b = encrypt_vault(&vault, "pw").unwrap();
    assert_ne!(a.salt, b.salt);
    assert_ne!(a.nonce, b.nonce);
    assert_ne!(a.ciphertext, b.ciphertext);
}

#[test]
fn sealing_is_deterministic_for_fixed_salt_and_nonce() {
    let vault = vault_of(&[("k", "v")]);
    let a = seal_vault(&vault, "pw", &[1u8; 16], &[2u8; 12]).unwrap();
    let b = seal_vault(&vault, "pw", &[1u8; 16], &[2u8; 12]).unwrap();
    assert_eq!(a.ciphertext, b.ciphertext);
    assert_eq!(a.salt, encode_base64(&[1u8; 16]));
    assert_eq!(a.nonce, encode_base64(&[2u8; 12]));
}

#[test]
fn session_key_is_only_tried() {
    let vault = vault_of(&[("k", "v")]);
    let e = encrypt_vault(&vault, "pw").unwrap();
    assert!(matches!(unlock_step(&e, true, UnlockEvent::Start), UnlockAction::LoadSession));
    assert!(matches!(unlock_step(&e, false, UnlockEvent::Start), UnlockAction::ResolvePassword));
    let wrong = [0u8; 32];
    assert!(matches!(
        unlock_step(&e, true, UnlockEvent::SessionKey(Some(wrong))),
        UnlockAction::ResolvePassword
    ));
    assert!(matches!(
        unlock_step(&e, true, UnlockEvent::SessionKey(None)),
        UnlockAction::ResolvePassword
    ));
    let salt = decode_base64(&e.salt).unwrap();
    let right = derive_key_bytes("pw", &salt);
    match unlock_step(&e, true, UnlockEvent::SessionKey(Some(right))) {
        UnlockAction::Unlocked { vault, refresh } => {
            assert_eq!(vault.get("k").unwrap(), "v");
            assert!(refresh.is_none());
        }
        _ => panic!("the right session key unlocks"),
    }
    assert!(matches!(
        unlock_step(&e, false, UnlockEvent::SessionKey(Some(right))),
        UnlockAction::ResolvePassword
    ));
}

#[test]
fn password_unlock_refreshes_session_when_enabled() {
    let vault = vault_of(&[("k", "v")]);
    let e = encrypt_vault(&vault, "pw").unwrap();
    let salt = decode_base64(&e.salt).unwrap();
    match unlock_with(&e, "pw", true) {
        UnlockAction::Unlocked { refresh, .. } => {
            assert_eq!(refresh, Some(derive_key_bytes("pw", &salt)))
        }
        _ => panic!("the password unlocks"),
    }
}

#[test]
fn ensure_save_load_scenario() {
    // A new vault is saved empty, then with one entry, then loaded.
    let empty = Vault::new();
    let first = plan_save(&empty, "pw", false).unwrap();
    assert!(first.session_key.is_none());
    let mut vault = match unlock_with(&first.envelope, "pw", false) {
        UnlockAction::Unlocked { vault, .. } => vault,
        _ => panic!("the new vault opens"),
    };
    vault.insert("k".to_string(), "v".to_string());
    let saved = plan_save(&vault, "pw", true).unwrap();
    let salt = decode_base64(&saved.envelope.salt).unwrap();
    assert_eq!(saved.session_key, Some(derive_key_bytes("pw", &salt)));
    match unlock_with(&saved.envelope, "pw", false) {
        UnlockAction::Unlocked { vault, .. } => {
            assert_eq!(sorted_pairs(&vault), pairs(&[("k", "v")]))
        }
        _ => panic!("load with the password succeeds"),
    }
    match unlock_with(&saved.envelope, "wrong", false) {
        UnlockAction::Failed(err) => assert_eq!(err, VaultError::IncorrectPasswordOrCorrupt),
        _ => panic!("load with a wrong password fails"),
    }
}

#[test]
fn rotate_password_scenario() {
    let vault = vault_of(&[("k", "v")]);
    let old = plan_save(&vault, "pw1", false).unwrap();
    let loaded = match unlock_with(&old.envelope, "pw1", false) {
        UnlockAction::Unlocked { vault, .. } => vault,
        _ => panic!("the old password opens the vault"),
    };
    let new_pw = confirm_new_password("pw2".to_string(), "pw2").unwrap();
    let rotated = plan_save(&loaded, &new_pw, false).unwrap();
    assert!(matches!(unlock_with(&rotated.envelope, "pw1", false), UnlockAction::Failed(_)));
    match unlock_with(&rotated.envelope, "pw2", false) {
        UnlockAction::Unlocked { vault, .. } => {
            assert_eq!(sorted_pairs(&vault), pairs(&[("k", "v")]))
        }
        _ => panic!("the new password opens the vault"),
    }
}

#[test]
fn legacy_plain_vault_loads_without_password() {
    let text = br#"{"entries":{"a":"1"}}"#;
    let parsed = decode_plaintext(text).unwrap();
    assert_eq!(sorted_pairs(&parsed), pairs(&[("a", "1")]));
    let legacy = vault_of(&[("a", "1")]);
    match decode_stored(None, Some(legacy), None) {
        Ok(StoredVault::Plain(v)) => assert_eq!(sorted_pairs(&v), pairs(&[("a", "1")])),
        _ => panic!("a legacy vault is read as plain"),
    }
}

#[test]
fn envelope_decoder_comes_first() {
    let vault = vault_of(&[("a", "1")]);
    let e = encrypt_vault(&vault, "pw").unwrap();
    let salt = e.salt.clone();
    match decode_stored(Some(e), Some(Vault::new()), Some(Vec::new())) {
        Ok(StoredVault::Encrypted(found)) => assert_eq!(found.salt, salt),
        _ => panic!("the envelope wins"),
    }
}

#[test]
fn legacy_items_are_migrated() {
    let items = vec![
        LegacyItem { name: Some("a".to_string()), secret: Some("1".to_string()) },
        LegacyItem { name: None, secret: Some("ignored".to_string()) },
        LegacyItem { name: Some("b".to_string()), secret: None },
        LegacyItem { name: Some("a".to_string()), secret: Some("2".to_string()) },
    ];
    let v = migrate_items(&items);
    assert_eq!(sorted_pairs(&v), pairs(&[("a", "2"), ("b", "")]));
    match decode_stored(None, None, Some(items)) {
        Ok(StoredVault::Plain(v)) => assert_eq!(v.len(), 2),
        _ => panic!("items are the last decoder"),
    }
}

#[test]
fn nothing_decodes_is_corrupt() {
    assert!(matches!(decode_stored(None, None, None), Err(VaultError::CorruptVault)));
}

#[test]
fn plaintext_is_entries_object() {
    let vault = vault_of(&[("b", "2"), ("a", "1")]);
    let p = encode_plaintext(&vault);
    assert_eq!(p, br#"{"entries":{"a":"1","b":"2"}}"#.to_vec());
    let back = decode_plaintext(&p).unwrap();
    assert_eq!(sorted_pairs(&back), pairs(&[("a", "1"), ("b", "2")]));
    assert!(decode_plaintext(br#"{"entries":{"a":1}}"#).is_none());
    assert!(decode_plaintext(b"{}").is_none());
    assert!(decode_plaintext(br#"{"items":{"a":"1"}}"#).is_none());
}

#[test]
fn new_password_confirmation() {
    assert_eq!(confirm_new_password("a".to_string(), "a"), Ok("a".to_string()));
    assert_eq!(confirm_new_password("a".to_string(), "b"), Err(VaultError::PasswordMismatch));
}

#[test]
fn explicit_password_is_used_first() {
    let opts = PasswordOptions::new(Some("secret"), "/tmp/v.json");
    assert_eq!(resolve_password(&opts), Some("secret".to_string()));
    let mut prompt = PasswordOptions::new(None, "/tmp/v.json");
    assert_eq!(resolve_password(&prompt), None);
    prompt.keychain_account = Some("me");
    assert_eq!(resolve_password(&prompt), None);
}

#[test]
fn password_options_defaults() {
    let opts = PasswordOptions::new(None, "/tmp/v.json");
    assert_eq!(opts.password, None);
    assert_eq!(opts.keychain_account, None);
    assert_eq!(opts.keychain_service, "ownkey");
    assert_eq!(opts.vault_path, "/tmp/v.json");
    assert!(!opts.no_session);
}

#[test]
fn key_derivation_is_deterministic_and_salted() {
    assert_eq!(KDF_ROUNDS, 100_000);
    let a = derive_key_bytes("pw", &[1u8; 16]);
    let b = derive_key_bytes("pw", &[1u8; 16]);
    let c = derive_key_bytes("pw", &[2u8; 16]);
    let d = derive_key_bytes("pw2", &[1u8; 16]);
    assert_eq!(a, b);
    assert_ne!(a, c);
    assert_ne!(a, d);
    assert_ne!(a, [0u8; 32]);
}

#[test]
fn base64_is_standard_padded() {
    assert_eq!(encode_base64(b"hello"), "aGVsbG8=");
    assert_eq!(decode_base64("aGVsbG8="), Some(b"hello".to_vec()));
    assert_eq!(decode_base64("aGVsbG8"), None);
}

#[test]
fn cipher_appends_a_tag() {
    let key = [3u8; 32];
    let nonce = [4u8; 12];
    let ct = seal(&key, &nonce, b"abc").unwrap();
    assert_eq!(ct.len(), 3 + TAG_LEN);
    assert_ne!(&ct[..3], b"abc");
    assert_eq!(open(&key, &nonce, &ct), Some(b"abc".to_vec()));
    assert_eq!(open(&[5u8; 32], &nonce, &ct), None);
    assert_eq!(open(&key, &nonce, &ct[..10]), None);
}

#[test]
fn zero_padded_password_derives_the_same_key() {
    // HMAC pads its key with zero bytes, so these two passwords are one key.
    let salt = [5u8; 16];
    assert_eq!(derive_key_bytes("pw", &salt), derive_key_bytes("pw\u{0}", &salt));
}

#[test]
fn envelope_ciphertext_is_plaintext_plus_tag() {
    let vault = vault_of(&[("k", "v")]);
    let e = encrypt_vault(&vault, "pw").unwrap();
    let ct = decode_base64(&e.ciphertext).unwrap();
    assert_eq!(ct.len(), encode_plaintext(&vault).len() + TAG_LEN);
    assert_eq!(decode_base64(&e.salt).unwrap().len(), 16);
    assert_eq!(decode_base64(&e.nonce).unwrap().len(), 12);
}
