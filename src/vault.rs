//! The vault engine: sealing a vault into an envelope under a password and
//! opening it again.
use crate::codec::{
    decode_plaintext, encode_plaintext, plaintext_vault, vault_plaintext, EncryptedVault,
};
use crate::crypto::{
    base64_decoded, base64_of, bytes_of, decode_base64, derive_key_bytes, encode_base64,
    gcm_open, gcm_seal, open, random_nonce, random_salt, seal, vault_key, NONCE_LEN,
    PLAINTEXT_MAX, TAG_LEN,
};
use crate::error::VaultError;
use crate::models::Vault;
use vstd::prelude::*;

verus! {

/// The envelope of a vault sealed with a password, a salt and a nonce.
pub open spec fn sealed_envelope(
    m: Map<Seq<char>, Seq<char>>,
    password: Seq<char>,
    salt: Seq<u8>,
    nonce: Seq<u8>,
) -> (Seq<char>, Seq<char>, Seq<char>) {
    (
        base64_of(salt),
        base64_of(nonce),
        base64_of(gcm_seal(vault_key(password, salt), nonce, vault_plaintext(m))),
    )
}

/// The envelope holds the mapping sealed under the key, with some nonce.
pub open spec fn seals(
    e: (Seq<char>, Seq<char>, Seq<char>),
    key: Seq<u8>,
    m: Map<Seq<char>, Seq<char>>,
) -> bool {
    exists|n: Seq<u8>|
        n.len() == NONCE_LEN && m.dom().finite() && vault_plaintext(m).len() <= PLAINTEXT_MAX
            && e.1 == base64_of(n) && e.2 == #[trigger] base64_of(
            gcm_seal(key, n, vault_plaintext(m)),
        )
}

/// What opening an envelope with a key gives: the mapping, or the failure.
/// Bad encodings and failed tags are one failure; a plaintext that is not a
/// vault is a format failure.
pub open spec fn opened_vault(e: (Seq<char>, Seq<char>, Seq<char>), key: Seq<u8>) -> Result<
    Map<Seq<char>, Seq<char>>,
    VaultError,
> {
    match (base64_decoded(e.1), base64_decoded(e.2)) {
        (Some(n), Some(c)) => {
            if n.len() != NONCE_LEN {
                Err(VaultError::IncorrectPasswordOrCorrupt)
            } else {
                match gcm_open(key, n, c) {
                    Some(p) => if p.len() > PLAINTEXT_MAX {
                        Err(VaultError::IncorrectPasswordOrCorrupt)
                    } else {
                        match plaintext_vault(p) {
                            Some(m) => Ok(m),
                            None => Err(VaultError::FormatInvalid),
                        }
                    },
                    None => Err(VaultError::IncorrectPasswordOrCorrupt),
                }
            }
        },
        _ => Err(VaultError::IncorrectPasswordOrCorrupt),
    }
}

/// What unlocking an envelope with a password gives: the key is derived
/// from the salt the envelope stores.
pub open spec fn unlocked_vault(e: (Seq<char>, Seq<char>, Seq<char>), password: Seq<char>) -> Result<
    Map<Seq<char>, Seq<char>>,
    VaultError,
> {
    match base64_decoded(e.0) {
        Some(s) => opened_vault(e, vault_key(password, s)),
        None => Err(VaultError::FormatInvalid),
    }
}

/// The mapping or failure a result carries.
pub open spec fn vault_result(r: Result<Vault, VaultError>) -> Result<
    Map<Seq<char>, Seq<char>>,
    VaultError,
> {
    match r {
        Ok(v) => Ok(v@),
        Err(e) => Err(e),
    }
}

/// Seals a vault under a password with the given salt and nonce. It fails
/// only when the plaintext is longer than the cipher accepts.
pub fn seal_vault(vault: &Vault, password: &str, salt: &[u8; 16], nonce: &[u8; 12]) -> (r: Result<
    EncryptedVault,
    VaultError,
>)
    ensures
        r is Ok <==> vault_plaintext(vault@).len() <= PLAINTEXT_MAX,
        r matches Ok(e) ==> e@ == sealed_envelope(vault@, password@, salt@, nonce@),
        r is Ok ==> gcm_seal(vault_key(password@, salt@), nonce@, vault_plaintext(vault@)).len()
            == vault_plaintext(vault@).len() + TAG_LEN,
        r matches Err(x) ==> x == VaultError::EncryptionFailed,
{
    let key = derive_key_bytes(password, salt);
    seal_with_key(vault, &key, salt, nonce)
}

/// Seals a vault under an already derived key; the envelope records the
/// salt the key came from.
pub fn seal_with_key(vault: &Vault, key: &[u8; 32], salt: &[u8; 16], nonce: &[u8; 12]) -> (r:
    Result<EncryptedVault, VaultError>)
    ensures
        r is Ok <==> vault_plaintext(vault@).len() <= PLAINTEXT_MAX,
        r matches Ok(e) ==> e@ == (
            base64_of(salt@),
            base64_of(nonce@),
            base64_of(gcm_seal(key@, nonce@, vault_plaintext(vault@))),
        ),
        r is Ok ==> gcm_seal(key@, nonce@, vault_plaintext(vault@)).len() == vault_plaintext(
            vault@,
        ).len() + TAG_LEN,
        r matches Err(x) ==> x == VaultError::EncryptionFailed,
{
    let plaintext = encode_plaintext(vault);
    match seal(key, nonce, plaintext.as_slice()) {
        Some(ciphertext) => Ok(
            EncryptedVault {
                salt: encode_base64(salt),
                nonce: encode_base64(nonce),
                ciphertext: encode_base64(ciphertext.as_slice()),
            },
        ),
        None => Err(VaultError::EncryptionFailed),
    }
}

/// Seals a vault under a password with a salt and a nonce freshly drawn
/// from the operating system's random source.
pub fn encrypt_vault(vault: &Vault, password: &str) -> (r: Result<EncryptedVault, VaultError>)
    ensures
        r matches Ok(e) ==> exists|s: Seq<u8>, n: Seq<u8>|
            s.len() == 16 && n.len() == NONCE_LEN && #[trigger] sealed_envelope(
                vault@,
                password@,
                s,
                n,
            ) == e@ && gcm_seal(vault_key(password@, s), n, vault_plaintext(vault@)).len()
                == vault_plaintext(vault@).len() + TAG_LEN,
        r is Ok ==> vault_plaintext(vault@).len() <= PLAINTEXT_MAX,
        r matches Err(x) ==> x == VaultError::EncryptionFailed,
        vault_plaintext(vault@).len() > PLAINTEXT_MAX ==> r is Err,
{
    let salt = match random_salt() {
        Some(s) => s,
        None => {
            return Err(VaultError::EncryptionFailed);
        },
    };
    let nonce = match random_nonce() {
        Some(n) => n,
        None => {
            return Err(VaultError::EncryptionFailed);
        },
    };
    let r = seal_vault(vault, password, &salt, &nonce);
    proof {
        if r is Ok {
            assert(sealed_envelope(vault@, password@, salt@, nonce@) == r->Ok_0@);
            assert(gcm_seal(vault_key(password@, salt@), nonce@, vault_plaintext(vault@)).len()
                == vault_plaintext(vault@).len() + TAG_LEN);
        }
    }
    r
}

/// Round trip: the envelope of a vault sealed with a password, a salt and a
/// nonce records that salt, and seals the vault under the key the password
/// derives from it; opening it with that key gives the vault back.
pub proof fn lemma_round_trip(
    m: Map<Seq<char>, Seq<char>>,
    password: Seq<char>,
    salt: Seq<u8>,
    nonce: Seq<u8>,
)
    requires
        m.dom().finite(),
        salt.len() == 16,
        nonce.len() == NONCE_LEN,
        vault_plaintext(m).len() <= PLAINTEXT_MAX,
    ensures
        sealed_envelope(m, password, salt, nonce).0 == base64_of(salt),
        seals(sealed_envelope(m, password, salt, nonce), vault_key(password, salt), m),
{
    let e = sealed_envelope(m, password, salt, nonce);
    assert(e.2 == base64_of(gcm_seal(vault_key(password, salt), nonce, vault_plaintext(m))));
}

/// A nonce with which an envelope seals a mapping.
proof fn seal_nonce(
    e: (Seq<char>, Seq<char>, Seq<char>),
    key: Seq<u8>,
    m: Map<Seq<char>, Seq<char>>,
) -> (n: Seq<u8>)
    requires
        seals(e, key, m),
    ensures
        n.len() == NONCE_LEN,
        m.dom().finite(),
        vault_plaintext(m).len() <= PLAINTEXT_MAX,
        e.1 == base64_of(n),
        e.2 == base64_of(gcm_seal(key, n, vault_plaintext(m))),
{
    choose|n: Seq<u8>|
        n.len() == NONCE_LEN && m.dom().finite() && vault_plaintext(m).len() <= PLAINTEXT_MAX
            && e.1 == base64_of(n) && e.2 == #[trigger] base64_of(
            gcm_seal(key, n, vault_plaintext(m)),
        )
}

/// Opens an envelope with a derived key. Every failure to decode or to
/// authenticate is the one opaque `IncorrectPasswordOrCorrupt`.
pub fn decrypt_vault_with_key(blob: &EncryptedVault, key_bytes: &[u8; 32]) -> (r: Result<
    Vault,
    VaultError,
>)
    ensures
        vault_result(r) == opened_vault(blob@, key_bytes@),
        r matches Ok(v) ==> exists|n: Seq<u8>, p: Seq<u8>|
            base64_decoded(blob@.1) == Some(n) && base64_decoded(blob@.2) == Some(
                #[trigger] gcm_seal(key_bytes@, n, p),
            ) && plaintext_vault(p) == Some(v@),
        forall|m: Map<Seq<char>, Seq<char>>|
            #[trigger] seals(blob@, key_bytes@, m) ==> vault_result(r) == Ok::<
                Map<Seq<char>, Seq<char>>,
                VaultError,
            >(m),
{
    let nonce_bytes = decode_base64(blob.nonce.as_str());
    let ciphertext = decode_base64(blob.ciphertext.as_str());
    let (n, c) = match (nonce_bytes, ciphertext) {
        (Some(n), Some(c)) => (n, c),
        _ => {
            proof {
                assert forall|m: Map<Seq<char>, Seq<char>>| !#[trigger] seals(
                    blob@,
                    key_bytes@,
                    m,
                ) by {
                    if seals(blob@, key_bytes@, m) {
                        let w = seal_nonce(blob@, key_bytes@, m);
                    }
                }
            }
            return Err(VaultError::IncorrectPasswordOrCorrupt);
        },
    };
    if n.len() != NONCE_LEN {
        proof {
            assert forall|m: Map<Seq<char>, Seq<char>>| !#[trigger] seals(blob@, key_bytes@, m) by {
                if seals(blob@, key_bytes@, m) {
                    let w = seal_nonce(blob@, key_bytes@, m);
                }
            }
        }
        return Err(VaultError::IncorrectPasswordOrCorrupt);
    }
    let nonce: [u8; 12] = [n[0], n[1], n[2], n[3], n[4], n[5], n[6], n[7], n[8], n[9], n[10], n[11]];
    assert(nonce@ =~= n@);
    let opened = open(key_bytes, &nonce, c.as_slice());
    proof {
        assert forall|m: Map<Seq<char>, Seq<char>>| #[trigger]
            seals(blob@, key_bytes@, m) implies bytes_of(opened) == Some(vault_plaintext(m)) by {
            let w = seal_nonce(blob@, key_bytes@, m);
            assert(n@ == w);
        }
    }
    match opened {
        Some(p) => {
            if p.len() as u64 > PLAINTEXT_MAX {
                return Err(VaultError::IncorrectPasswordOrCorrupt);
            }
            let decoded = decode_plaintext(p.as_slice());
            proof {
                assert forall|m: Map<Seq<char>, Seq<char>>| #[trigger]
                    seals(blob@, key_bytes@, m) implies (decoded matches Some(v) && v@ == m) by {
                    assert(p@ == vault_plaintext(m));
                }
                assert(c@ == gcm_seal(key_bytes@, n@, p@));
            }
            match decoded {
                Some(v) => Ok(v),
                None => Err(VaultError::FormatInvalid),
            }
        },
        None => Err(VaultError::IncorrectPasswordOrCorrupt),
    }
}

} // verus!
