use ownkey::commands::{
    contains_str, delete_confirmed, entry_matches_folded, is_yes_folded, is_yes_letter, preview,
    restore_confirmed, search_entries,
};
use ownkey::config::{config_path, default_config_text, default_sync_provider, Config, SyncProvider};
use ownkey::error::VaultError;
use ownkey::keychain::{delete_password, retrieve_password, store_password};
use ownkey::models::Vault;
use ownkey::session::{SessionRecord, SESSION_TTL_SECS};
use ownkey::store::{
    hex_u64, join_path, lock_outcome, next_replace_step, next_write_step, permissions_need_fix,
    restore_contents, temp_file_name, ReplaceStep, StoreLayout, WriteStep,
};

#[test]
fn expired_session_is_never_honored() {
    let key = [42u8; 32];
    let rec = SessionRecord::issue("/tmp/v.json", &key, 1_000);
    assert_eq!(rec.expires_at, 1_000 + SESSION_TTL_SECS);
    assert_eq!(rec.key_for("/tmp/v.json", 1_000), Some(key));
    assert_eq!(rec.key_for("/tmp/v.json", 1_300), Some(key));
    assert_eq!(rec.key_for("/tmp/v.json", 1_301), None);
    assert_eq!(rec.key_for("/tmp/v.json", u64::MAX), None);
}

#[test]
fn session_path_must_match_exactly() {
    let key = [1u8; 32];
    let rec = SessionRecord::issue("/tmp/v.json", &key, 0);
    assert_eq!(rec.key_for("/tmp/./v.json", 10), None);
    assert_eq!(rec.key_for("/tmp/v.json ", 10), None);
    assert_eq!(rec.key_for("/tmp/v.json", 10), Some(key));
}

#[test]
fn session_with_bad_key_text_is_ignored() {
    let rec = SessionRecord {
        vault_path: "p".to_string(),
        key_b64: "AAAA".to_string(),
        expires_at: 100,
    };
    assert_eq!(rec.key_for("p", 0), None);
    let rec = SessionRecord { vault_path: "p".to_string(), key_b64: "!".to_string(), expires_at: 100 };
    assert_eq!(rec.key_for("p", 0), None);
}

#[test]
fn session_expiry_saturates() {
    let rec = SessionRecord::issue("p", &[0u8; 32], u64::MAX - 10);
    assert_eq!(rec.expires_at, u64::MAX);
}

#[test]
fn restore_without_backup_fails() {
    assert_eq!(restore_contents(None), Err(VaultError::NoBackupFound));
    let backup = "{\n  \"salt\": \"x\"\n}".to_string();
    assert_eq!(restore_contents(Some(backup.clone())), Ok(backup));
}

#[test]
fn contended_lock_is_busy() {
    assert_eq!(lock_outcome(false), Err(VaultError::VaultBusy));
    assert_eq!(lock_outcome(true), Ok(()));
}

#[test]
fn permission_bits_are_checked() {
    assert!(!permissions_need_fix(0o600));
    assert!(!permissions_need_fix(0o100600));
    assert!(permissions_need_fix(0o644));
    assert!(permissions_need_fix(0o700));
    assert!(permissions_need_fix(0));
}

#[test]
fn hex_is_lowercase_without_leading_zeros() {
    assert_eq!(hex_u64(0), "0");
    assert_eq!(hex_u64(255), "ff");
    assert_eq!(hex_u64(0x1a2b), "1a2b");
    assert_eq!(hex_u64(u64::MAX), "ffffffffffffffff");
    for n in [1u64, 15, 16, 4096, 123_456_789] {
        assert_eq!(hex_u64(n), format!("{:x}", n));
    }
}

#[test]
fn temporary_names() {
    assert_eq!(temp_file_name(Some("vault.json"), 255), "vault.json.tmpff");
    assert_eq!(temp_file_name(None, 0), "vault.json.tmp0");
    assert_eq!(temp_file_name(Some("x"), 0xabc), "x.tmpabc");
}

#[test]
fn paths_are_joined() {
    assert_eq!(join_path("/home/u", ".ownkey"), "/home/u/.ownkey");
    assert_eq!(join_path("/home/u/", ".ownkey"), "/home/u/.ownkey");
    assert_eq!(join_path("", "a"), "a");
    let layout = StoreLayout::for_home("/home/u");
    assert_eq!(layout.data_dir, "/home/u/.ownkey");
    assert_eq!(layout.vault, "/home/u/.ownkey/vault.json");
    assert_eq!(layout.backup_dir, "/home/u/.ownkey/backups");
    assert_eq!(layout.backup, "/home/u/.ownkey/backups/vault.json.bak");
    assert_eq!(layout.session, "/home/u/.ownkey/session");
    assert_eq!(layout.config, "/home/u/.ownkey/config.toml");
    assert_eq!(layout.remote, "/home/u/.ownkey/remote_vault.json");
    assert_eq!(config_path("/root"), "/root/.ownkey/config.toml");
}

#[test]
fn configuration_defaults() {
    assert_eq!(default_sync_provider(), SyncProvider::LocalOnly);
    assert_eq!(Config::default().sync_provider, SyncProvider::LocalOnly);
    assert!(default_config_text().contains("sync_provider = \"local_only\""));
}

#[test]
fn keychain_is_unavailable_here() {
    assert_eq!(store_password("ownkey", "me", "pw"), Err(VaultError::CredentialStoreUnavailable));
    assert_eq!(retrieve_password("ownkey", "me"), Err(VaultError::CredentialStoreUnavailable));
    assert_eq!(delete_password("ownkey", "me"), Err(VaultError::CredentialStoreUnavailable));
}

#[test]
fn vault_insert_overwrites_and_remove_deletes() {
    let mut v = Vault::new();
    v.insert("k".to_string(), "1".to_string());
    v.insert("k".to_string(), "2".to_string());
    v.insert("j".to_string(), "3".to_string());
    assert_eq!(v.len(), 2);
    assert_eq!(v.get("k").map(|s| s.as_str()), Some("2"));
    assert!(v.contains_key("j"));
    assert_eq!(Vault::default().len(), 0);
    assert!(v.remove("k"));
    assert!(!v.remove("k"));
    assert!(!v.contains_key("k"));
    assert_eq!(v.keys(), vec!["j".to_string()]);
}

#[test]
fn search_ignores_case_in_names_and_values() {
    let mut v = Vault::new();
    v.insert("GitHub".to_string(), "tok".to_string());
    v.insert("mail".to_string(), "HubPass".to_string());
    v.insert("bank".to_string(), "1234".to_string());
    let found = search_entries(&v, "hUB");
    assert_eq!(
        found,
        vec![
            ("GitHub".to_string(), "tok".to_string()),
            ("mail".to_string(), "HubPass".to_string())
        ]
    );
    assert_eq!(search_entries(&v, "").len(), 3);
    assert!(search_entries(&v, "zzz").is_empty());
}

#[test]
fn substring_and_preview() {
    assert!(contains_str("abcdef", "cde"));
    assert!(contains_str("abc", ""));
    assert!(!contains_str("abc", "abcd"));
    assert!(!contains_str("abc", "ac"));
    assert!(entry_matches_folded("github", "x", "hub"));
    assert!(entry_matches_folded("x", "hubby", "hub"));
    assert!(!entry_matches_folded("x", "y", "hub"));
    assert_eq!(preview("0123456789abcdef"), "0123456789ab");
    assert_eq!(preview("short"), "short");
    assert_eq!(preview("ééééééééééééé"), "éééééééééééé");
}

#[test]
fn error_messages() {
    assert_eq!(
        VaultError::IncorrectPasswordOrCorrupt.message(),
        "Vault password is incorrect or vault is corrupted."
    );
    assert!(VaultError::CorruptVault.message().contains("damaged or truncated"));
}

fn run_replace(outcomes: &[bool]) -> Vec<ReplaceStep> {
    let mut step = ReplaceStep::WriteTemp;
    let mut seen = vec![step];
    for &ok in outcomes {
        step = next_replace_step(step, ok);
        seen.push(step);
    }
    seen
}

#[test]
fn replace_renames_only_after_durable_temp() {
    assert_eq!(
        run_replace(&[true, true, true, true, true]),
        vec![
            ReplaceStep::WriteTemp,
            ReplaceStep::SyncTemp,
            ReplaceStep::Rename,
            ReplaceStep::SyncDir,
            ReplaceStep::FixPermissions,
            ReplaceStep::Done
        ]
    );
    // A failed write or sync of the temporary file never reaches the rename.
    assert!(!run_replace(&[false, true, true]).contains(&ReplaceStep::Rename));
    assert!(!run_replace(&[true, false, true]).contains(&ReplaceStep::Rename));
    // A directory that cannot be synced does not fail the replace.
    assert_eq!(*run_replace(&[true, true, true, false, true]).last().unwrap(), ReplaceStep::Done);
    assert_eq!(next_replace_step(ReplaceStep::Rename, false), ReplaceStep::Failed);
}

#[test]
fn locked_write_keeps_backup_on_primary_failure() {
    assert_eq!(next_write_step(WriteStep::Lock, false), WriteStep::Failed(VaultError::VaultBusy));
    assert_eq!(next_write_step(WriteStep::Lock, true), WriteStep::FixPermissions);
    assert_eq!(next_write_step(WriteStep::FixPermissions, true), WriteStep::ReplacePrimary);
    assert_eq!(
        next_write_step(WriteStep::ReplacePrimary, false),
        WriteStep::Failed(VaultError::IoFailure)
    );
    assert_eq!(next_write_step(WriteStep::ReplacePrimary, true), WriteStep::ReplaceBackup);
    assert_eq!(next_write_step(WriteStep::ReplaceBackup, true), WriteStep::Done);
    assert_eq!(next_write_step(WriteStep::Done, false), WriteStep::Done);
}

#[test]
fn confirmation_answers() {
    assert!(delete_confirmed("y\n"));
    assert!(delete_confirmed("  YES \n"));
    assert!(delete_confirmed("Yes"));
    assert!(!delete_confirmed("\n"));
    assert!(!delete_confirmed("yeah"));
    assert!(is_yes_folded("yes"));
    assert!(!is_yes_folded("YES"));
    assert!(restore_confirmed("Y\n"));
    assert!(restore_confirmed(" y "));
    assert!(!restore_confirmed("yes\n"));
    assert!(is_yes_letter("Y"));
    assert!(!is_yes_letter(" y"));
}
