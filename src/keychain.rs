//! The credential store. This build has no platform credential store, so
//! every request reports `CredentialStoreUnavailable`; callers treat that as
//! a cue to prompt instead.
use crate::error::VaultError;
use vstd::prelude::*;

verus! {

/// Saves a password for a service and account.
pub fn store_password(service: &str, account: &str, password: &str) -> (r: Result<(), VaultError>)
    ensures
        r == Err::<(), VaultError>(VaultError::CredentialStoreUnavailable),
{
    Err(VaultError::CredentialStoreUnavailable)
}

/// Looks up the password saved for a service and account.
pub fn retrieve_password(service: &str, account: &str) -> (r: Result<Option<String>, VaultError>)
    ensures
        r matches Err(e) && e == VaultError::CredentialStoreUnavailable,
{
    Err(VaultError::CredentialStoreUnavailable)
}

/// Forgets the password saved for a service and account.
pub fn delete_password(service: &str, account: &str) -> (r: Result<(), VaultError>)
    ensures
        r == Err::<(), VaultError>(VaultError::CredentialStoreUnavailable),
{
    Err(VaultError::CredentialStoreUnavailable)
}

} // verus!
