//! The serialized forms of a vault: the plaintext that is encrypted, the
//! legacy plain files and the order in which stored files are decoded.
use crate::error::VaultError;
use crate::models::{entries_map, keys_unique, Vault};
use vstd::prelude::*;

verus! {

/// The serde_json text of a JSON object mapping strings to strings.
pub uninterp spec fn json_object_of(m: Map<Seq<char>, Seq<char>>) -> Seq<u8>;

/// What serde_json reads from bytes as an object mapping strings to
/// strings; `None` where the bytes are not such an object.
pub uninterp spec fn json_object_parse(b: Seq<u8>) -> Option<Map<Seq<char>, Seq<char>>>;

/// The mapping that optional pairs denote.
pub open spec fn mapping_of(r: Option<Vec<(String, String)>>) -> Option<Map<Seq<char>, Seq<char>>> {
    match r {
        Some(v) => Some(entries_map(v@)),
        None => None,
    }
}

/// Relies on `serde_json::to_vec` on a `BTreeMap<&str, &str>` built from
/// pairs with distinct keys: a map with string keys always serializes, and
/// its sorted order makes the text depend on the map alone.
#[verifier::external_body]
fn json_object_bytes(pairs: &Vec<(String, String)>) -> (r: Vec<u8>)
    requires
        keys_unique(pairs@),
    ensures
        r@ == json_object_of(entries_map(pairs@)),
{
    let map: std::collections::BTreeMap<&str, &str> = pairs.iter().map(
        |(k, v)| (k.as_str(), v.as_str()),
    ).collect();
    serde_json::to_vec(&map).unwrap_or_default()
}

/// Relies on `serde_json::from_slice` into a `BTreeMap<String, String>`:
/// the map's pairs come out once per key, and the text that `to_vec` wrote
/// for a map reads back as that map.
#[verifier::external_body]
fn json_object_from_bytes(b: &[u8]) -> (r: Option<Vec<(String, String)>>)
    ensures
        r is Some <==> json_object_parse(b@) is Some,
        r matches Some(v) ==> keys_unique(v@) && json_object_parse(b@) == Some(entries_map(v@)),
        forall|m: Map<Seq<char>, Seq<char>>|
            m.dom().finite() && b@ == #[trigger] json_object_of(m) ==> mapping_of(r) == Some(m),
{
    serde_json::from_slice::<std::collections::BTreeMap<String, String>>(b).ok().map(
        |m| m.into_iter().collect(),
    )
}

/// The bytes that open the plaintext of a vault: `{"entries":`.
pub open spec fn plaintext_head() -> Seq<u8> {
    seq![123u8, 34, 101, 110, 116, 114, 105, 101, 115, 34, 58]
}

/// The byte that closes the plaintext of a vault: `}`.
pub open spec fn plaintext_tail() -> Seq<u8> {
    seq![125u8]
}

/// The plaintext of a vault: a JSON object whose `entries` field holds the
/// mapping.
pub open spec fn vault_plaintext(m: Map<Seq<char>, Seq<char>>) -> Seq<u8> {
    plaintext_head() + json_object_of(m) + plaintext_tail()
}

/// The mapping a plaintext holds, if it has the shape `vault_plaintext`
/// writes.
pub open spec fn plaintext_vault(p: Seq<u8>) -> Option<Map<Seq<char>, Seq<char>>> {
    let h = plaintext_head().len() as int;
    if p.len() >= h + 1 && p.subrange(0, h) == plaintext_head() && p.last() == 125u8 {
        json_object_parse(p.subrange(h, p.len() - 1))
    } else {
        None
    }
}

/// Serializes a vault into the plaintext that gets encrypted.
pub fn encode_plaintext(vault: &Vault) -> (r: Vec<u8>)
    ensures
        r@ == vault_plaintext(vault@),
{
    let pairs = vault.entries();
    let body = json_object_bytes(pairs);
    let mut out: Vec<u8> = vec![123u8, 34, 101, 110, 116, 114, 105, 101, 115, 34, 58];
    let mut i: usize = 0;
    while i < body.len()
        invariant
            0 <= i <= body@.len(),
            out@ == plaintext_head() + body@.subrange(0, i as int),
        decreases body@.len() - i,
    {
        out.push(body[i]);
        i = i + 1;
        assert(body@.subrange(0, i as int) =~= body@.subrange(0, i - 1).push(body@[i - 1]));
    }
    out.push(125u8);
    assert(body@.subrange(0, body@.len() as int) =~= body@);
    assert(out@ =~= vault_plaintext(vault@));
    out
}

/// Reads a vault back from its plaintext; `None` if the plaintext does not
/// have the shape `encode_plaintext` writes.
pub fn decode_plaintext(p: &[u8]) -> (r: Option<Vault>)
    ensures
        r is Some <==> plaintext_vault(p@) is Some,
        r matches Some(v) ==> plaintext_vault(p@) == Some(v@),
        forall|m: Map<Seq<char>, Seq<char>>|
            m.dom().finite() && p@ == #[trigger] vault_plaintext(m) ==> (r matches Some(v) && v@
                == m),
{
    let ghost h = plaintext_head();
    let head: Vec<u8> = vec![123u8, 34, 101, 110, 116, 114, 105, 101, 115, 34, 58];
    assert(head@ =~= h);
    if p.len() < 12 {
        return None;
    }
    let mut i: usize = 0;
    while i < 11
        invariant
            0 <= i <= 11,
            p@.len() >= 12,
            h.len() == 11,
            h == plaintext_head(),
            head@ == h,
            forall|j: int| 0 <= j < i ==> p@[j] == h[j],
        decreases 11 - i,
    {
        if p[i] != head[i] {
            proof {
                assert(p@.subrange(0, 11)[i as int] != h[i as int]);
                assert(p@.subrange(0, 11) != h);
                assert(h == plaintext_head());
                assert(p@.subrange(0, plaintext_head().len() as int) != plaintext_head());
            }
            return None;
        }
        i = i + 1;
    }
    assert(p@.subrange(0, 11) =~= h);
    if p[p.len() - 1] != 125u8 {
        return None;
    }
    let mut body: Vec<u8> = Vec::new();
    let mut k: usize = 11;
    while k < p.len() - 1
        invariant
            11 <= k <= p@.len() - 1,
            p@.len() >= 12,
            body@ == p@.subrange(11, k as int),
        decreases p@.len() - 1 - k,
    {
        body.push(p[k]);
        k = k + 1;
        assert(p@.subrange(11, k as int) =~= p@.subrange(11, k - 1).push(p@[k - 1]));
    }
    let parsed = json_object_from_bytes(body.as_slice());
    proof {
        assert forall|m: Map<Seq<char>, Seq<char>>|
            m.dom().finite() && p@ == #[trigger] vault_plaintext(m) implies mapping_of(parsed)
            == Some(m) by {
            lemma_plaintext_round_trip(m);
            assert(body@ == json_object_of(m));
        }
    }
    match parsed {
        Some(pairs) => Some(Vault::from_unique_pairs(pairs)),
        None => None,
    }
}

/// The on-disk envelope: base64 text of the salt, the nonce and the sealed
/// plaintext.
pub struct EncryptedVault {
    pub salt: String,
    pub nonce: String,
    pub ciphertext: String,
}

impl View for EncryptedVault {
    type V = (Seq<char>, Seq<char>, Seq<char>);

    open spec fn view(&self) -> (Seq<char>, Seq<char>, Seq<char>) {
        (self.salt@, self.nonce@, self.ciphertext@)
    }
}

/// One record of the generic legacy layout `{"items": [{"name", "secret"}]}`:
/// the fields that were strings.
pub struct LegacyItem {
    pub name: Option<String>,
    pub secret: Option<String>,
}

/// The mapping a list of legacy records migrates to: each record with a name
/// stores its secret, or the empty string, and later records win.
pub open spec fn migrated(items: Seq<LegacyItem>) -> Map<Seq<char>, Seq<char>>
    decreases items.len(),
{
    if items.len() == 0 {
        Map::empty()
    } else {
        let rest = migrated(items.drop_last());
        match items.last().name {
            Some(n) => rest.insert(
                n@,
                match items.last().secret {
                    Some(s) => s@,
                    None => Seq::empty(),
                },
            ),
            None => rest,
        }
    }
}

/// Rebuilds a vault from legacy records.
pub fn migrate_items(items: &Vec<LegacyItem>) -> (r: Vault)
    ensures
        r@ == migrated(items@),
{
    let mut vault = Vault::new();
    let mut i: usize = 0;
    while i < items.len()
        invariant
            0 <= i <= items@.len(),
            vault@ == migrated(items@.subrange(0, i as int)),
        decreases items@.len() - i,
    {
        let item = &items[i];
        proof {
            assert(items@.subrange(0, i + 1).drop_last() =~= items@.subrange(0, i as int));
        }
        match &item.name {
            Some(n) => {
                let secret = match &item.secret {
                    Some(s) => s.clone(),
                    None => String::new(),
                };
                vault.insert(n.clone(), secret);
            },
            None => {},
        }
        i = i + 1;
    }
    assert(items@.subrange(0, items@.len() as int) =~= items@);
    vault
}

/// What a stored vault file decodes to.
pub enum StoredVault {
    /// The current format: an envelope still to be decrypted.
    Encrypted(EncryptedVault),
    /// A plain legacy vault, readable without a password.
    Plain(Vault),
}

/// Picks the first decoder that accepted the file: the envelope, then the
/// legacy plain vault, then the generic `items` records.
pub fn decode_stored(
    envelope: Option<EncryptedVault>,
    legacy: Option<Vault>,
    items: Option<Vec<LegacyItem>>,
) -> (r: Result<StoredVault, VaultError>)
    ensures
        envelope is Some ==> (r matches Ok(StoredVault::Encrypted(e)) && e@ == envelope->0@),
        envelope is None && legacy is Some ==> (r matches Ok(StoredVault::Plain(v)) && v@
            == legacy->0@),
        envelope is None && legacy is None && items is Some ==> (r matches Ok(
            StoredVault::Plain(v),
        ) && v@ == migrated(items->0@)),
        envelope is None && legacy is None && items is None ==> r == Err::<
            StoredVault,
            VaultError,
        >(VaultError::CorruptVault),
{
    match envelope {
        Some(e) => Ok(StoredVault::Encrypted(e)),
        None => match legacy {
            Some(v) => Ok(StoredVault::Plain(v)),
            None => match items {
                Some(list) => Ok(StoredVault::Plain(migrate_items(&list))),
                None => Err(VaultError::CorruptVault),
            },
        },
    }
}

/// The plaintext of a vault reads back as that vault.
pub proof fn lemma_plaintext_round_trip(m: Map<Seq<char>, Seq<char>>)
    requires
        m.dom().finite(),
    ensures
        vault_plaintext(m).subrange(0, plaintext_head().len() as int) == plaintext_head(),
        vault_plaintext(m).subrange(
            plaintext_head().len() as int,
            vault_plaintext(m).len() - 1,
        ) == json_object_of(m),
{
    let p = vault_plaintext(m);
    assert(p.subrange(0, 11) =~= plaintext_head());
    assert(p.subrange(11, p.len() - 1) =~= json_object_of(m));
}

} // verus!
