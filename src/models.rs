//! The vault: a mapping from secret names to secret values.
use crate::text::str_eq;
use vstd::prelude::*;

verus! {

/// The names in a list of pairs are pairwise distinct.
pub open spec fn keys_unique(s: Seq<(String, String)>) -> bool {
    forall|i: int, j: int| 0 <= i < j < s.len() ==> s[i].0@ != s[j].0@
}

/// The mapping a list of pairs denotes; a later pair for a name overrides
/// an earlier one, as successive inserts would.
pub open spec fn entries_map(s: Seq<(String, String)>) -> Map<Seq<char>, Seq<char>>
    decreases s.len(),
{
    if s.len() == 0 {
        Map::empty()
    } else {
        entries_map(s.drop_last()).insert(s.last().0@, s.last().1@)
    }
}

/// A name is mapped exactly when some pair carries it.
pub proof fn lemma_entries_map_domain(s: Seq<(String, String)>, k: Seq<char>)
    ensures
        entries_map(s).contains_key(k) <==> exists|i: int| 0 <= i < s.len() && s[i].0@ == k,
    decreases s.len(),
{
    if s.len() > 0 {
        lemma_entries_map_domain(s.drop_last(), k);
        if entries_map(s.drop_last()).contains_key(k) {
            let i = choose|i: int| 0 <= i < s.drop_last().len() && s.drop_last()[i].0@ == k;
            assert(s[i].0@ == k);
        }
        if exists|i: int| 0 <= i < s.len() && s[i].0@ == k {
            let i = choose|i: int| 0 <= i < s.len() && s[i].0@ == k;
            if i < s.len() - 1 {
                assert(s.drop_last()[i].0@ == k);
            }
        }
    }
}

/// With distinct names, each pair gives the value of its name.
pub proof fn lemma_entries_map_value(s: Seq<(String, String)>, i: int)
    requires
        keys_unique(s),
        0 <= i < s.len(),
    ensures
        entries_map(s).contains_key(s[i].0@),
        entries_map(s)[s[i].0@] == s[i].1@,
    decreases s.len(),
{
    if i < s.len() - 1 {
        assert(keys_unique(s.drop_last()));
        lemma_entries_map_value(s.drop_last(), i);
        assert(s.drop_last()[i] == s[i]);
    }
}

/// Replacing the pair at `i` by one with the same name updates that name.
pub proof fn lemma_entries_map_update(s: Seq<(String, String)>, i: int, p: (String, String))
    requires
        keys_unique(s),
        0 <= i < s.len(),
        p.0@ == s[i].0@,
    ensures
        keys_unique(s.update(i, p)),
        entries_map(s.update(i, p)) == entries_map(s).insert(p.0@, p.1@),
    decreases s.len(),
{
    let t = s.update(i, p);
    assert(keys_unique(t));
    if i == s.len() - 1 {
        assert(t.drop_last() =~= s.drop_last());
    } else {
        assert(keys_unique(s.drop_last()));
        lemma_entries_map_update(s.drop_last(), i, p);
        assert(t.drop_last() =~= s.drop_last().update(i, p));
        assert(s.last().0@ != p.0@);
        assert(entries_map(t) =~= entries_map(s).insert(p.0@, p.1@));
    }
}

/// Dropping the pair at `i` removes its name.
pub proof fn lemma_entries_map_remove(s: Seq<(String, String)>, i: int)
    requires
        keys_unique(s),
        0 <= i < s.len(),
    ensures
        keys_unique(s.remove(i)),
        entries_map(s.remove(i)) == entries_map(s).remove(s[i].0@),
    decreases s.len(),
{
    let t = s.remove(i);
    assert(keys_unique(t)) by {
        assert forall|a: int, b: int| 0 <= a < b < t.len() implies t[a].0@ != t[b].0@ by {
            let a2 = if a < i { a } else { a + 1 };
            let b2 = if b < i { b } else { b + 1 };
            assert(t[a] == s[a2] && t[b] == s[b2]);
        }
    }
    if i == s.len() - 1 {
        assert(t =~= s.drop_last());
        lemma_entries_map_domain(s.drop_last(), s[i].0@);
        assert(entries_map(t) =~= entries_map(s).remove(s[i].0@));
    } else {
        assert(keys_unique(s.drop_last()));
        lemma_entries_map_remove(s.drop_last(), i);
        assert(t.drop_last() =~= s.drop_last().remove(i));
        assert(t.last() == s.last());
        assert(s.last().0@ != s[i].0@);
        assert(entries_map(t) =~= entries_map(s).remove(s[i].0@));
    }
}

/// Appending a pair with a new name keeps the names distinct.
pub proof fn lemma_push_unique(s: Seq<(String, String)>, p: (String, String))
    requires
        keys_unique(s),
        !entries_map(s).contains_key(p.0@),
    ensures
        keys_unique(s.push(p)),
        entries_map(s.push(p)) == entries_map(s).insert(p.0@, p.1@),
{
    lemma_entries_map_domain(s, p.0@);
    assert(s.push(p).drop_last() =~= s);
    assert forall|a: int, b: int| 0 <= a < b < s.push(p).len() implies s.push(p)[a].0@ != s.push(
        p,
    )[b].0@ by {
        if b == s.len() {
            assert(s.push(p)[a] == s[a]);
        }
    }
}

/// An unordered mapping from secret name to secret value. Names are unique;
/// inserting an existing name overwrites its value.
#[derive(Debug)]
pub struct Vault {
    entries: Vec<(String, String)>,
}

impl View for Vault {
    type V = Map<Seq<char>, Seq<char>>;

    closed spec fn view(&self) -> Map<Seq<char>, Seq<char>> {
        entries_map(self.entries@)
    }
}

impl Default for Vault {
    fn default() -> (r: Vault)
        ensures
            r@ == Map::<Seq<char>, Seq<char>>::empty(),
    {
        Vault::new()
    }
}

impl Vault {
    /// The stored pairs hold each name once.
    #[verifier::type_invariant]
    closed spec fn inv(&self) -> bool {
        keys_unique(self.entries@)
    }

    /// The pairs of the vault, each name once.
    pub closed spec fn pairs(&self) -> Seq<(String, String)> {
        self.entries@
    }

    /// A vault holds finitely many secrets.
    pub proof fn lemma_view_finite(&self)
        ensures
            self@.dom().finite(),
    {
        lemma_entries_map_finite(self.entries@);
    }

    /// An empty vault.
    pub fn new() -> (r: Vault)
        ensures
            r@ == Map::<Seq<char>, Seq<char>>::empty(),
    {
        Vault { entries: Vec::new() }
    }

    /// A vault holding the given pairs, whose names are distinct.
    pub(crate) fn from_unique_pairs(pairs: Vec<(String, String)>) -> (r: Vault)
        requires
            keys_unique(pairs@),
        ensures
            r@ == entries_map(pairs@),
            r.pairs() == pairs@,
    {
        Vault { entries: pairs }
    }

    /// The pairs of the vault, in storage order.
    pub fn entries(&self) -> (r: &Vec<(String, String)>)
        ensures
            r@ == self.pairs(),
            keys_unique(r@),
            entries_map(r@) == self@,
    {
        proof {
            use_type_invariant(self);
        }
        &self.entries
    }

    /// Number of secrets held.
    pub fn len(&self) -> (r: usize)
        ensures
            r == self@.len(),
    {
        proof {
            use_type_invariant(self);
            self.lemma_len();
        }
        self.entries.len()
    }

    proof fn lemma_len(&self)
        requires
            keys_unique(self.entries@),
        ensures
            self@.len() == self.entries@.len(),
    {
        lemma_unique_len(self.entries@);
    }

    /// Position of a name among the pairs, if present.
    fn position(&self, key: &str) -> (r: Option<usize>)
        ensures
            r matches Some(i) ==> i < self.entries@.len() && self.entries@[i as int].0@ == key@,
            r is None ==> !self@.contains_key(key@),
    {
        let mut i: usize = 0;
        while i < self.entries.len()
            invariant
                0 <= i <= self.entries@.len(),
                forall|j: int| 0 <= j < i ==> self.entries@[j].0@ != key@,
            decreases self.entries@.len() - i,
        {
            if str_eq(self.entries[i].0.as_str(), key) {
                return Some(i);
            }
            i = i + 1;
        }
        proof {
            lemma_entries_map_domain(self.entries@, key@);
        }
        None
    }

    /// Whether a name is present.
    pub fn contains_key(&self, key: &str) -> (r: bool)
        ensures
            r == self@.contains_key(key@),
    {
        proof {
            use_type_invariant(self);
        }
        match self.position(key) {
            Some(i) => {
                proof {
                    lemma_entries_map_value(self.entries@, i as int);
                }
                true
            },
            None => false,
        }
    }

    /// The value stored under a name.
    pub fn get(&self, key: &str) -> (r: Option<&String>)
        ensures
            r is Some <==> self@.contains_key(key@),
            r matches Some(v) ==> v@ == self@[key@],
    {
        proof {
            use_type_invariant(self);
        }
        match self.position(key) {
            Some(i) => {
                proof {
                    lemma_entries_map_value(self.entries@, i as int);
                }
                Some(&self.entries[i].1)
            },
            None => None,
        }
    }

    /// Stores a value under a name, overwriting any earlier value.
    pub fn insert(&mut self, key: String, value: String)
        ensures
            final(self)@ == old(self)@.insert(key@, value@),
    {
        proof {
            use_type_invariant(&*self);
        }
        match self.position(key.as_str()) {
            Some(i) => {
                proof {
                    lemma_entries_map_update(self.entries@, i as int, (key, value));
                }
                self.entries = replaced(&self.entries, i, (key, value));
            },
            None => {
                proof {
                    lemma_push_unique(self.entries@, (key, value));
                }
                self.entries = appended(&self.entries, (key, value));
            },
        }
    }

    /// Removes a name; reports whether it was present.
    pub fn remove(&mut self, key: &str) -> (r: bool)
        ensures
            r == old(self)@.contains_key(key@),
            final(self)@ == old(self)@.remove(key@),
    {
        proof {
            use_type_invariant(&*self);
        }
        match self.position(key) {
            Some(i) => {
                proof {
                    lemma_entries_map_value(self.entries@, i as int);
                    lemma_entries_map_remove(self.entries@, i as int);
                }
                self.entries = without(&self.entries, i);
                true
            },
            None => {
                proof {
                    assert(self@.remove(key@) =~= self@);
                }
                false
            },
        }
    }

    /// The names held, in storage order, each once.
    pub fn keys(&self) -> (r: Vec<String>)
        ensures
            r@.len() == self@.len(),
            forall|k: Seq<char>| self@.contains_key(k) <==> exists|i: int| 0 <= i < r@.len() && r@[i]@ == k,
    {
        proof {
            use_type_invariant(self);
            self.lemma_len();
        }
        let mut out: Vec<String> = Vec::new();
        let mut i: usize = 0;
        while i < self.entries.len()
            invariant
                0 <= i <= self.entries@.len(),
                out@.len() == i,
                forall|j: int| 0 <= j < i ==> out@[j]@ == self.entries@[j].0@,
            decreases self.entries@.len() - i,
        {
            out.push(self.entries[i].0.clone());
            i = i + 1;
        }
        proof {
            assert forall|k: Seq<char>| self@.contains_key(k) <==> exists|i: int| 0 <= i < out@.len() && out@[i]@ == k by {
                lemma_entries_map_domain(self.entries@, k);
                if self@.contains_key(k) {
                    let j = choose|j: int| 0 <= j < self.entries@.len() && self.entries@[j].0@ == k;
                    assert(out@[j]@ == k);
                }
                if exists|i: int| 0 <= i < out@.len() && out@[i]@ == k {
                    let j = choose|j: int| 0 <= j < out@.len() && out@[j]@ == k;
                    assert(self.entries@[j].0@ == k);
                }
            }
        }
        out
    }
}

/// A copy of the pairs with the pair at `i` replaced.
fn replaced(s: &Vec<(String, String)>, i: usize, p: (String, String)) -> (r: Vec<(String, String)>)
    requires
        i < s@.len(),
    ensures
        r@ == s@.update(i as int, p),
{
    let mut out: Vec<(String, String)> = Vec::new();
    let mut p = Some(p);
    let ghost g = p;
    let mut j: usize = 0;
    while j < s.len()
        invariant
            0 <= j <= s@.len(),
            i < s@.len(),
            out@.len() == j,
            g is Some,
            j <= i ==> p == g,
            forall|k: int| 0 <= k < j ==> out@[k] == s@.update(i as int, g->0)[k],
        decreases s@.len() - j,
    {
        if j == i {
            match p.take() {
                Some(q) => out.push(q),
                None => {},
            }
        } else {
            out.push((s[j].0.clone(), s[j].1.clone()));
        }
        j = j + 1;
    }
    assert(out@ =~= s@.update(i as int, g->0));
    out
}

/// A copy of the pairs with one more at the end.
fn appended(s: &Vec<(String, String)>, p: (String, String)) -> (r: Vec<(String, String)>)
    ensures
        r@ == s@.push(p),
{
    let mut out: Vec<(String, String)> = Vec::new();
    let mut j: usize = 0;
    while j < s.len()
        invariant
            0 <= j <= s@.len(),
            out@.len() == j,
            forall|k: int| 0 <= k < j ==> out@[k] == s@[k],
        decreases s@.len() - j,
    {
        out.push((s[j].0.clone(), s[j].1.clone()));
        j = j + 1;
    }
    out.push(p);
    assert(out@ =~= s@.push(p));
    out
}

/// A copy of the pairs without the pair at `i`.
fn without(s: &Vec<(String, String)>, i: usize) -> (r: Vec<(String, String)>)
    requires
        i < s@.len(),
    ensures
        r@ == s@.remove(i as int),
{
    let mut out: Vec<(String, String)> = Vec::new();
    let mut j: usize = 0;
    while j < s.len()
        invariant
            0 <= j <= s@.len(),
            i < s@.len(),
            out@.len() == if j <= i { j as int } else { j - 1 },
            forall|k: int| 0 <= k < out@.len() ==> out@[k] == s@.remove(i as int)[k],
        decreases s@.len() - j,
    {
        if j != i {
            out.push((s[j].0.clone(), s[j].1.clone()));
        }
        j = j + 1;
    }
    assert(out@ =~= s@.remove(i as int));
    out
}

/// With distinct names, the mapping has one entry per pair.
pub proof fn lemma_unique_len(s: Seq<(String, String)>)
    requires
        keys_unique(s),
    ensures
        entries_map(s).len() == s.len(),
    decreases s.len(),
{
    if s.len() > 0 {
        let t = s.drop_last();
        assert(keys_unique(t));
        lemma_unique_len(t);
        lemma_entries_map_domain(t, s.last().0@);
        if entries_map(t).contains_key(s.last().0@) {
            let i = choose|i: int| 0 <= i < t.len() && t[i].0@ == s.last().0@;
            assert(s[i].0@ == s[s.len() - 1].0@);
        }
        lemma_entries_map_finite(t);
    }
}

/// The mapping of a list of pairs is finite.
pub proof fn lemma_entries_map_finite(s: Seq<(String, String)>)
    ensures
        entries_map(s).dom().finite(),
    decreases s.len(),
{
    if s.len() > 0 {
        lemma_entries_map_finite(s.drop_last());
    }
}

} // verus!
