//! The vault service: how a password is chosen and the decisions taken
//! between the outside steps of loading and saving a vault.
//!
//! Reading files, prompting and the session file belong to the caller. The
//! caller reports what each step produced as an event; `unlock_step` says
//! what to do next.
use crate::codec::{vault_plaintext, EncryptedVault};
use crate::crypto::{
    base64_decoded, base64_of, decode_base64, derive_key_bytes, random_nonce, random_salt,
    gcm_seal, vault_key, NONCE_LEN, PLAINTEXT_MAX, TAG_LEN,
};
use crate::error::VaultError;
use crate::keychain;
use crate::models::Vault;
use crate::text::{owned, str_eq};
use crate::vault::{
    decrypt_vault_with_key, lemma_round_trip, opened_vault, seal_with_key, sealed_envelope, seals,
    unlocked_vault,
};
use vstd::prelude::*;

verus! {

/// How one operation obtains its password and whether it may use the
/// session cache.
#[derive(Clone, Copy)]
pub struct PasswordOptions<'a> {
    /// A password given explicitly for this invocation.
    pub password: Option<&'a str>,
    /// The credential-store account to consult, if any.
    pub keychain_account: Option<&'a str>,
    /// The credential-store service name.
    pub keychain_service: &'a str,
    /// The vault path the session cache is keyed by.
    pub vault_path: &'a str,
    /// Skip the session cache for this operation.
    pub no_session: bool,
}

impl<'a> PasswordOptions<'a> {
    /// Options with an optional explicit password, the default service name,
    /// no credential-store account and the session cache enabled.
    pub fn new(password: Option<&'a str>, vault_path: &'a str) -> (r: Self)
        ensures
            r.password == password,
            r.keychain_account is None,
            r.keychain_service@ == "ownkey"@,
            r.vault_path == vault_path,
            !r.no_session,
    {
        PasswordOptions {
            password,
            keychain_account: None,
            keychain_service: "ownkey",
            vault_path,
            no_session: false,
        }
    }
}

/// The password that needs no prompt: the explicit one, else one held by
/// the credential store. `None` means the caller must prompt.
pub fn resolve_password(opts: &PasswordOptions) -> (r: Option<String>)
    ensures
        opts.password matches Some(p) ==> (r matches Some(s) && s@ == p@),
        opts.password is None ==> r is None,
{
    match opts.password {
        Some(p) => Some(owned(p)),
        None => match opts.keychain_account {
            Some(account) => match keychain::retrieve_password(opts.keychain_service, account) {
                Ok(Some(pw)) => Some(pw),
                _ => None,
            },
            None => None,
        },
    }
}

/// Accepts a new password only when its confirmation matches.
pub fn confirm_new_password(first: String, second: &str) -> (r: Result<String, VaultError>)
    ensures
        first@ == second@ ==> (r matches Ok(s) && s@ == first@),
        first@ != second@ ==> r == Err::<String, VaultError>(VaultError::PasswordMismatch),
{
    if str_eq(first.as_str(), second) {
        Ok(first)
    } else {
        Err(VaultError::PasswordMismatch)
    }
}

/// Unlocks an envelope with a password: derives the key from the stored
/// salt and opens the envelope. Also hands back the derived key.
pub fn unlock_with_password(blob: &EncryptedVault, password: &str) -> (r: Result<
    (Vault, [u8; 32]),
    VaultError,
>)
    ensures
        r matches Ok(p) ==> unlocked_vault(blob@, password@) == Ok::<
            Map<Seq<char>, Seq<char>>,
            VaultError,
        >(p.0@),
        r matches Ok(p) ==> exists|s: Seq<u8>|
            base64_decoded(blob@.0) == Some(s) && p.1@ == vault_key(password@, s),
        r matches Err(x) ==> unlocked_vault(blob@, password@) == Err::<
            Map<Seq<char>, Seq<char>>,
            VaultError,
        >(x),
        forall|m: Map<Seq<char>, Seq<char>>, s: Seq<u8>|
            blob@.0 == base64_of(s) && #[trigger] seals(blob@, vault_key(password@, s), m) ==> (
            r matches Ok(p) && p.0@ == m),
{
    let salt = match decode_base64(blob.salt.as_str()) {
        Some(s) => s,
        None => {
            return Err(VaultError::FormatInvalid);
        },
    };
    let key = derive_key_bytes(password, salt.as_slice());
    match decrypt_vault_with_key(blob, &key) {
        Ok(v) => Ok((v, key)),
        Err(e) => Err(e),
    }
}

/// What the caller reports to `unlock_step`.
pub enum UnlockEvent {
    /// The envelope has just been read.
    Start,
    /// What the session cache held for this vault path.
    SessionKey(Option<[u8; 32]>),
    /// The password that was resolved or prompted for.
    Password(String),
}

/// What `unlock_step` asks the caller to do next.
pub enum UnlockAction {
    /// Look up the session cache for this vault path.
    LoadSession,
    /// Obtain the password: explicit, from the credential store, or prompted.
    ResolvePassword,
    /// Done; if `refresh` holds a key, store it in the session cache.
    Unlocked { vault: Vault, refresh: Option<[u8; 32]> },
    /// Done; the operation fails.
    Failed(VaultError),
}

/// One decision of loading an encrypted vault. A session key is only ever
/// tried: when it does not open the envelope the password path follows, and
/// its failure is never reported.
pub fn unlock_step(blob: &EncryptedVault, use_session: bool, event: UnlockEvent) -> (r:
    UnlockAction)
    ensures
        event is Start && use_session ==> r is LoadSession,
        event is Start && !use_session ==> r is ResolvePassword,
        event is SessionKey ==> (r is ResolvePassword || r is Unlocked),
        event matches UnlockEvent::SessionKey(k) ==> (r is Unlocked <==> (use_session && k is Some
            && opened_vault(blob@, k->0@) is Ok)),
        event matches UnlockEvent::SessionKey(k) ==> (r matches UnlockAction::Unlocked {
            vault,
            refresh,
        } ==> refresh is None && opened_vault(blob@, k->0@) == Ok::<
            Map<Seq<char>, Seq<char>>,
            VaultError,
        >(vault@)),
        event matches UnlockEvent::Password(pw) ==> (match unlocked_vault(blob@, pw@) {
            Ok(m) => r matches UnlockAction::Unlocked { vault, refresh } && vault@ == m && (
            use_session <==> refresh is Some) && (refresh matches Some(k) ==> exists|s: Seq<u8>|
                base64_decoded(blob@.0) == Some(s) && k@ == vault_key(pw@, s)),
            Err(x) => r == UnlockAction::Failed(x),
        }),
        event matches UnlockEvent::Password(pw) ==> forall|m: Map<Seq<char>, Seq<char>>, s: Seq<u8>|
            blob@.0 == base64_of(s) && #[trigger] seals(blob@, vault_key(pw@, s), m) ==> (
            r matches UnlockAction::Unlocked { vault, refresh } && vault@ == m),
{
    match event {
        UnlockEvent::Start => {
            if use_session {
                UnlockAction::LoadSession
            } else {
                UnlockAction::ResolvePassword
            }
        },
        UnlockEvent::SessionKey(k) => {
            if !use_session {
                return UnlockAction::ResolvePassword;
            }
            match k {
                Some(key) => match decrypt_vault_with_key(blob, &key) {
                    Ok(v) => UnlockAction::Unlocked { vault: v, refresh: None },
                    Err(_) => UnlockAction::ResolvePassword,
                },
                None => UnlockAction::ResolvePassword,
            }
        },
        UnlockEvent::Password(pw) => match unlock_with_password(blob, pw.as_str()) {
            Ok((v, key)) => {
                if use_session {
                    UnlockAction::Unlocked { vault: v, refresh: Some(key) }
                } else {
                    UnlockAction::Unlocked { vault: v, refresh: None }
                }
            },
            Err(e) => UnlockAction::Failed(e),
        },
    }
}

/// Round trip of a save: the envelope of a vault sealed with a password
/// and a salt records that salt and seals the vault under the key the
/// password derives from it, so unlocking it with the password gives the
/// vault back.
pub proof fn lemma_saved_vault_unlocks(vault: Vault, password: Seq<char>, salt: Seq<u8>, nonce: Seq<u8>)
    requires
        salt.len() == 16,
        nonce.len() == NONCE_LEN,
        vault_plaintext(vault@).len() <= PLAINTEXT_MAX,
    ensures
        sealed_envelope(vault@, password, salt, nonce).0 == base64_of(salt),
        seals(sealed_envelope(vault@, password, salt, nonce), vault_key(password, salt), vault@),
{
    vault.lemma_view_finite();
    lemma_round_trip(vault@, password, salt, nonce);
}

/// What a save writes: the envelope, and the key to cache when the session
/// cache is in use.
pub struct SavePlan {
    pub envelope: EncryptedVault,
    pub session_key: Option<[u8; 32]>,
}

/// Seals a vault for saving with a fresh salt and nonce; the session key,
/// if wanted, is the one derived from the new salt.
pub fn plan_save(vault: &Vault, password: &str, use_session: bool) -> (r: Result<
    SavePlan,
    VaultError,
>)
    ensures
        r matches Ok(p) ==> exists|s: Seq<u8>, n: Seq<u8>|
            s.len() == 16 && n.len() == NONCE_LEN && #[trigger] sealed_envelope(
                vault@,
                password@,
                s,
                n,
            ) == p.envelope@ && gcm_seal(vault_key(password@, s), n, vault_plaintext(vault@)).len()
                == vault_plaintext(vault@).len() + TAG_LEN && (use_session ==> (
            p.session_key matches Some(k) && k@ == vault_key(password@, s))),
        r matches Ok(p) ==> vault_plaintext(vault@).len() <= PLAINTEXT_MAX,
        r matches Ok(p) ==> (p.session_key is Some <==> use_session),
        vault_plaintext(vault@).len() > PLAINTEXT_MAX ==> r is Err,
        r matches Err(x) ==> x == VaultError::EncryptionFailed,
{
    let salt = match random_salt() {
        Some(s) => s,
        None => {
            return Err(VaultError::EncryptionFailed);
        },
    };
    let nonce = match random_nonce() {
        Some(n) => n,
        None => {
            return Err(VaultError::EncryptionFailed);
        },
    };
    let key = derive_key_bytes(password, &salt);
    match seal_with_key(vault, &key, &salt, &nonce) {
        Ok(envelope) => {
            proof {
                assert(sealed_envelope(vault@, password@, salt@, nonce@) == envelope@);
                assert(gcm_seal(vault_key(password@, salt@), nonce@, vault_plaintext(vault@)).len()
                    == vault_plaintext(vault@).len() + TAG_LEN);
            }
            let session_key = if use_session {
                Some(key)
            } else {
                None
            };
            Ok(SavePlan { envelope, session_key })
        },
        Err(e) => Err(e),
    }
}

} // verus!
