//! The session cache: one record holding a derived key for a short time,
//! keyed by the vault path it was derived for.
use crate::crypto::{base64_decoded, base64_of, decode_base64, encode_base64, KEY_LEN};
use crate::text::{owned, str_eq};
use vstd::prelude::*;

verus! {

/// How long, in seconds, a cached key stays valid.
pub const SESSION_TTL_SECS: u64 = 300;

/// The expiry of a record issued at `now`; it saturates at the end of time.
pub open spec fn expiry(now: u64) -> u64 {
    if now + SESSION_TTL_SECS > u64::MAX {
        u64::MAX
    } else {
        (now + SESSION_TTL_SECS) as u64
    }
}

/// The persisted session record.
pub struct SessionRecord {
    /// The vault path, byte for byte as the key was cached for it.
    pub vault_path: String,
    /// The derived key, base64 encoded.
    pub key_b64: String,
    /// Unix seconds after which the record is void.
    pub expires_at: u64,
}

/// A record that is honored for a path at a time gives back this key.
pub open spec fn honors(r: SessionRecord, vault_path: Seq<char>, now: u64, key: Seq<u8>) -> bool {
    &&& r.vault_path@ == vault_path
    &&& now <= r.expires_at
    &&& base64_decoded(r.key_b64@) == Some(key)
    &&& key.len() == KEY_LEN
}

impl SessionRecord {
    /// The record caching `key` for `vault_path`, issued at `now`.
    pub fn issue(vault_path: &str, key: &[u8; 32], now: u64) -> (r: SessionRecord)
        ensures
            r.vault_path@ == vault_path@,
            r.key_b64@ == base64_of(key@),
            r.expires_at == expiry(now),
    {
        SessionRecord {
            vault_path: owned(vault_path),
            key_b64: encode_base64(key),
            expires_at: now.saturating_add(SESSION_TTL_SECS),
        }
    }

    /// The cached key, if the record is for exactly this path and has not
    /// expired at `now`. An expired record is never honored, whatever key it
    /// holds.
    pub fn key_for(&self, vault_path: &str, now: u64) -> (r: Option<[u8; 32]>)
        ensures
            r is Some <==> exists|k: Seq<u8>| honors(*self, vault_path@, now, k),
            r matches Some(k) ==> honors(*self, vault_path@, now, k@),
            now > self.expires_at ==> r is None,
            self.vault_path@ != vault_path@ ==> r is None,
            forall|k: Seq<u8>|
                k.len() == KEY_LEN && self.key_b64@ == #[trigger] base64_of(k) && self.vault_path@
                    == vault_path@ && now <= self.expires_at ==> (r matches Some(x) && x@ == k),
    {
        if !str_eq(self.vault_path.as_str(), vault_path) {
            return None;
        }
        if now > self.expires_at {
            return None;
        }
        match decode_base64(self.key_b64.as_str()) {
            Some(bytes) => {
                if bytes.len() != KEY_LEN {
                    return None;
                }
                let key: [u8; 32] = [
                    bytes[0], bytes[1], bytes[2], bytes[3], bytes[4], bytes[5], bytes[6], bytes[7],
                    bytes[8], bytes[9], bytes[10], bytes[11], bytes[12], bytes[13], bytes[14],
                    bytes[15], bytes[16], bytes[17], bytes[18], bytes[19], bytes[20], bytes[21],
                    bytes[22], bytes[23], bytes[24], bytes[25], bytes[26], bytes[27], bytes[28],
                    bytes[29], bytes[30], bytes[31],
                ];
                assert(key@ =~= bytes@);
                assert(honors(*self, vault_path@, now, key@));
                Some(key)
            },
            None => None,
        }
    }
}

} // verus!
