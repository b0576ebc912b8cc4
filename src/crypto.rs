//! Key derivation, authenticated encryption, base64 and the random source.
//!
//! The primitives come from outside crates. Each is reached through one
//! small trusted function whose contract names its result; the rest of the
//! library is proved against those names.
use aes_gcm::aead::rand_core::RngCore;
use aes_gcm::aead::{Aead, KeyInit, OsRng};
use aes_gcm::{Aes256Gcm, Key, Nonce};
use base64::engine::general_purpose;
use base64::Engine;
use sha2::Sha256;
use vstd::prelude::*;

verus! {

/// Length in bytes of a key-derivation salt.
pub const SALT_LEN: usize = 16;

/// Length in bytes of an AES-GCM nonce.
pub const NONCE_LEN: usize = 12;

/// Length in bytes of a derived key.
pub const KEY_LEN: usize = 32;

/// Length in bytes of the authentication tag appended to a ciphertext.
pub const TAG_LEN: usize = 16;

/// Iterations of PBKDF2-HMAC-SHA256 used to derive a vault key.
pub const KDF_ROUNDS: u32 = 100000;

/// The longest plaintext, in bytes, that AES-GCM accepts.
pub const PLAINTEXT_MAX: u64 = 0x10_0000_0000;

/// The 32 bytes that PBKDF2-HMAC-SHA256 derives from a password, a salt and
/// an iteration count.
pub uninterp spec fn pbkdf2_sha256(password: Seq<u8>, salt: Seq<u8>, rounds: nat) -> Seq<u8>;

/// AES-256-GCM encryption of a plaintext under a key and a nonce, with no
/// associated data: the ciphertext followed by the 16-byte tag.
pub uninterp spec fn gcm_seal(key: Seq<u8>, nonce: Seq<u8>, plaintext: Seq<u8>) -> Seq<u8>;

/// AES-256-GCM decryption with no associated data: the plaintext when the
/// tag verifies, `None` otherwise.
pub uninterp spec fn gcm_open(key: Seq<u8>, nonce: Seq<u8>, ciphertext: Seq<u8>) -> Option<Seq<u8>>;

/// The standard, padded base64 text of a byte string.
pub uninterp spec fn base64_of(bytes: Seq<u8>) -> Seq<char>;

/// The bytes standard base64 text decodes to; `None` for text that is not
/// canonical base64.
pub uninterp spec fn base64_decoded(text: Seq<char>) -> Option<Seq<u8>>;

/// The bytes an optional buffer holds.
pub open spec fn bytes_of(r: Option<Vec<u8>>) -> Option<Seq<u8>> {
    match r {
        Some(v) => Some(v@),
        None => None,
    }
}

/// The key a vault password derives with a salt.
pub open spec fn vault_key(password: Seq<char>, salt: Seq<u8>) -> Seq<u8> {
    pbkdf2_sha256(vstd::utf8::encode_utf8(password), salt, KDF_ROUNDS as nat)
}

/// Relies on `pbkdf2::pbkdf2_hmac::<Sha256>`: fills the output with the
/// derived bytes, a function of password, salt and rounds alone.
#[verifier::external_body]
fn pbkdf2_hmac_sha256(password: &[u8], salt: &[u8], rounds: u32) -> (r: [u8; 32])
    ensures
        r@ == pbkdf2_sha256(password@, salt@, rounds as nat),
{
    let mut out = [0u8; 32];
    pbkdf2::pbkdf2_hmac::<Sha256>(password, salt, rounds, &mut out);
    out
}

/// Relies on `Aead::encrypt` of `aes_gcm::Aes256Gcm`: it fails only on a
/// plaintext longer than `P_MAX`, and otherwise returns the sealed bytes,
/// the tag appended.
#[verifier::external_body]
fn aes_gcm_encrypt(key: &[u8; 32], nonce: &[u8; 12], plaintext: &[u8]) -> (r: Option<Vec<u8>>)
    ensures
        r.is_some() <==> plaintext@.len() <= PLAINTEXT_MAX,
        r matches Some(c) ==> c@ == gcm_seal(key@, nonce@, plaintext@),
        r matches Some(c) ==> c@.len() == plaintext@.len() + TAG_LEN,
{
    let cipher = Aes256Gcm::new(Key::<Aes256Gcm>::from_slice(key));
    cipher.encrypt(Nonce::from_slice(nonce), plaintext).ok()
}

/// Relies on `Aead::decrypt` of `aes_gcm::Aes256Gcm`: the tag is checked
/// against the ciphertext, so it succeeds exactly on the outputs of
/// encryption under the same key and nonce, and returns their plaintext;
/// an input shorter than the tag is refused.
#[verifier::external_body]
fn aes_gcm_decrypt(key: &[u8; 32], nonce: &[u8; 12], ciphertext: &[u8]) -> (r: Option<Vec<u8>>)
    ensures
        bytes_of(r) == gcm_open(key@, nonce@, ciphertext@),
        r matches Some(p) ==> p@.len() + TAG_LEN == ciphertext@.len(),
        r matches Some(p) ==> p@.len() <= PLAINTEXT_MAX ==> ciphertext@ == gcm_seal(
            key@,
            nonce@,
            p@,
        ),
        forall|p: Seq<u8>|
            p.len() <= PLAINTEXT_MAX && ciphertext@ == #[trigger] gcm_seal(key@, nonce@, p)
                ==> bytes_of(r) == Some(p),
        ciphertext@.len() < TAG_LEN ==> r is None,
{
    let cipher = Aes256Gcm::new(Key::<Aes256Gcm>::from_slice(key));
    cipher.decrypt(Nonce::from_slice(nonce), ciphertext).ok()
}

/// Relies on `Engine::encode` of `base64::engine::general_purpose::STANDARD`.
#[verifier::external_body]
fn base64_encode(bytes: &[u8]) -> (r: String)
    ensures
        r@ == base64_of(bytes@),
{
    general_purpose::STANDARD.encode(bytes)
}

/// Relies on `Engine::decode` of `base64::engine::general_purpose::STANDARD`:
/// the text of an encoding decodes to the bytes encoded.
#[verifier::external_body]
fn base64_decode(text: &str) -> (r: Option<Vec<u8>>)
    ensures
        bytes_of(r) == base64_decoded(text@),
        forall|b: Seq<u8>| text@ == #[trigger] base64_of(b) ==> bytes_of(r) == Some(b),
{
    general_purpose::STANDARD.decode(text).ok()
}

/// Relies on `RngCore::try_fill_bytes` of the operating system's random
/// source; the bytes drawn are unconstrained.
#[verifier::external_body]
fn os_random_fill(buf: &mut [u8]) -> (ok: bool)
    ensures
        final(buf)@.len() == old(buf)@.len(),
{
    OsRng.try_fill_bytes(buf).is_ok()
}

/// Derives the 32-byte vault key from a password and a salt with
/// PBKDF2-HMAC-SHA256 at `KDF_ROUNDS` iterations.
pub fn derive_key_bytes(password: &str, salt: &[u8]) -> (r: [u8; 32])
    ensures
        r@ == vault_key(password@, salt@),
{
    pbkdf2_hmac_sha256(password.as_bytes(), salt, KDF_ROUNDS)
}

/// Encodes bytes as standard base64 text.
pub fn encode_base64(bytes: &[u8]) -> (r: String)
    ensures
        r@ == base64_of(bytes@),
{
    base64_encode(bytes)
}

/// Decodes standard base64 text; what `encode_base64` wrote comes back.
pub fn decode_base64(text: &str) -> (r: Option<Vec<u8>>)
    ensures
        bytes_of(r) == base64_decoded(text@),
        forall|b: Seq<u8>| text@ == #[trigger] base64_of(b) ==> (r matches Some(v) && v@ == b),
{
    base64_decode(text)
}

/// Seals a plaintext under a key and nonce; `None` when it is too long.
pub fn seal(key: &[u8; 32], nonce: &[u8; 12], plaintext: &[u8]) -> (r: Option<Vec<u8>>)
    ensures
        r.is_some() <==> plaintext@.len() <= PLAINTEXT_MAX,
        r matches Some(c) ==> c@ == gcm_seal(key@, nonce@, plaintext@),
        r matches Some(c) ==> c@.len() == plaintext@.len() + TAG_LEN,
{
    aes_gcm_encrypt(key, nonce, plaintext)
}

/// Opens a sealed ciphertext; `Some` exactly when the tag verifies.
pub fn open(key: &[u8; 32], nonce: &[u8; 12], ciphertext: &[u8]) -> (r: Option<Vec<u8>>)
    ensures
        bytes_of(r) == gcm_open(key@, nonce@, ciphertext@),
        r matches Some(p) ==> p@.len() + TAG_LEN == ciphertext@.len(),
        r matches Some(p) ==> p@.len() <= PLAINTEXT_MAX ==> ciphertext@ == gcm_seal(
            key@,
            nonce@,
            p@,
        ),
        forall|p: Seq<u8>|
            p.len() <= PLAINTEXT_MAX && ciphertext@ == #[trigger] gcm_seal(key@, nonce@, p) ==> (
            r matches Some(q) && q@ == p),
        ciphertext@.len() < TAG_LEN ==> r is None,
{
    aes_gcm_decrypt(key, nonce, ciphertext)
}

/// Draws a fresh salt from the operating system; `None` if the source failed.
pub fn random_salt() -> (r: Option<[u8; 16]>) {
    let mut salt = [0u8; 16];
    if os_random_fill(&mut salt) {
        Some(salt)
    } else {
        None
    }
}

/// Draws a fresh nonce from the operating system; `None` if the source failed.
pub fn random_nonce() -> (r: Option<[u8; 12]>) {
    let mut nonce = [0u8; 12];
    if os_random_fill(&mut nonce) {
        Some(nonce)
    } else {
        None
    }
}

} // verus!
