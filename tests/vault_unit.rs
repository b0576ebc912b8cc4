use ownkey::crypto::{decode_base64, derive_key_bytes};
use ownkey::models::Vault;
use ownkey::vault::{decrypt_vault_with_key, encrypt_vault};

fn vault_of(pairs: &[(&str, &str)]) -> Vault {
    let mut v = Vault::new();
    for (k, s) in pairs {
        v.insert(k.to_string(), s.to_string());
    }
    v
}

fn sorted_pairs(v: &Vault) -> Vec<(String, String)> {
    let mut p = v.entries().clone();
    p.sort();
    p
}

#[test]
fn encrypt_decrypt_round_trip_works() {
    let vault = vault_of(&[("key1", "secret1"), ("key2", "secret2")]);

    let password = "testpw";
    let encrypted = encrypt_vault(&vault, password).expect("encrypt_vault should succeed");
    assert!(!encrypted.ciphertext.is_empty(), "ciphertext should not be empty");

    let salt_bytes = decode_base64(&encrypted.salt).expect("salt should be valid base64");
    let key_bytes = derive_key_bytes(password, &salt_bytes);
    let decrypted =
        decrypt_vault_with_key(&encrypted, &key_bytes).expect("decrypt_vault_with_key should succeed");

    assert_eq!(sorted_pairs(&decrypted), sorted_pairs(&vault));
}

#[test]
fn decrypt_with_wrong_password_fails() {
    let vault = vault_of(&[("key", "secret")]);

    let encrypted =
        encrypt_vault(&vault, "correct_pw").expect("encrypt_vault should succeed with correct_pw");
    let salt_bytes = decode_base64(&encrypted.salt).expect("salt should be valid base64");
    let wrong_key_bytes = derive_key_bytes("wrong_pw", &salt_bytes);

    let result = decrypt_vault_with_key(&encrypted, &wrong_key_bytes);
    assert!(result.is_err(), "decrypt_vault_with_key should fail with wrong password");
}

#[test]
fn corrupt_ciphertext_cannot_be_decrypted() {
    let vault = vault_of(&[("key", "secret")]);

    let encrypted = encrypt_vault(&vault, "pw").expect("encrypt_vault should succeed");

    // Corrupt the ciphertext by truncating it.
    let corrupted = ownkey::codec::EncryptedVault {
        salt: encrypted.salt.clone(),
        nonce: encrypted.nonce.clone(),
        ciphertext: encrypted
            .ciphertext
            .chars()
            .take(encrypted.ciphertext.len().saturating_sub(4))
            .collect(),
    };

    let salt_bytes = decode_base64(&corrupted.salt).expect("salt should be valid base64");
    let key_bytes = derive_key_bytes("pw", &salt_bytes);

    let result = decrypt_vault_with_key(&corrupted, &key_bytes);
    assert!(result.is_err(), "decrypt_vault_with_key should fail for corrupted ciphertext");
}
