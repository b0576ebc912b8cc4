use vstd::prelude::*;

verus! {

/// The failures the vault engine reports to its callers.
///
/// Wrong passwords and damaged ciphertexts share one variant on purpose:
/// telling them apart would help an attacker.
#[derive(Debug, Clone, Copy, PartialEq, Eq, Structural)]
pub enum VaultError {
    /// Another process holds the vault lock; the caller may retry later.
    VaultBusy,
    /// Decryption or authentication failed.
    IncorrectPasswordOrCorrupt,
    /// No decoder accepted the vault file.
    CorruptVault,
    /// The envelope or the decrypted payload does not have the expected shape.
    FormatInvalid,
    /// No backup copy exists yet.
    NoBackupFound,
    /// The platform has no credential store, or it failed.
    CredentialStoreUnavailable,
    /// The confirmation of a new password did not match.
    PasswordMismatch,
    /// The system random source or the cipher refused to encrypt.
    EncryptionFailed,
    /// A file-system operation failed.
    IoFailure,
}

/// The message shown for each failure.
pub open spec fn error_text(e: VaultError) -> Seq<char> {
    match e {
        VaultError::VaultBusy => "Vault is currently in use by another ownkey process. Please try again later."@,
        VaultError::IncorrectPasswordOrCorrupt => "Vault password is incorrect or vault is corrupted."@,
        VaultError::CorruptVault => "Vault file appears damaged or truncated. A backup copy may be available."@,
        VaultError::FormatInvalid => "Vault format invalid. Please restore from backup or reinitialize."@,
        VaultError::NoBackupFound => "No backup found."@,
        VaultError::CredentialStoreUnavailable => "Keychain backend is only available on macOS"@,
        VaultError::PasswordMismatch => "passwords do not match"@,
        VaultError::EncryptionFailed => "encryption failed"@,
        VaultError::IoFailure => "file operation failed"@,
    }
}

impl VaultError {
    /// A message for the person at the terminal.
    pub fn message(&self) -> (r: String)
        ensures
            r@ == error_text(*self),
    {
        match self {
            VaultError::VaultBusy => String::from_str(
                "Vault is currently in use by another ownkey process. Please try again later.",
            ),
            VaultError::IncorrectPasswordOrCorrupt => String::from_str(
                "Vault password is incorrect or vault is corrupted.",
            ),
            VaultError::CorruptVault => String::from_str(
                "Vault file appears damaged or truncated. A backup copy may be available.",
            ),
            VaultError::FormatInvalid => String::from_str(
                "Vault format invalid. Please restore from backup or reinitialize.",
            ),
            VaultError::NoBackupFound => String::from_str("No backup found."),
            VaultError::CredentialStoreUnavailable => String::from_str(
                "Keychain backend is only available on macOS",
            ),
            VaultError::PasswordMismatch => String::from_str("passwords do not match"),
            VaultError::EncryptionFailed => String::from_str("encryption failed"),
            VaultError::IoFailure => String::from_str("file operation failed"),
        }
    }
}

} // verus!
