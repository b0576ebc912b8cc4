//! What the vault commands compute: searching and previewing secrets.
use crate::models::Vault;
use crate::text::{chars_of, str_eq, string_of};
use vstd::prelude::*;

verus! {

/// The lowercase form of a text, as `str::to_lowercase` gives it.
pub uninterp spec fn lower_of(s: Seq<char>) -> Seq<char>;

/// Relies on `str::to_lowercase`: the result depends on the characters
/// alone, and an empty text stays empty.
#[verifier::external_body]
fn lowercase(s: &str) -> (r: String)
    ensures
        r@ == lower_of(s@),
        s@.len() == 0 ==> r@.len() == 0,
{
    s.to_lowercase()
}

/// `needle` occurs in `hay` at some position.
pub open spec fn is_substring(needle: Seq<char>, hay: Seq<char>) -> bool {
    exists|i: int| 0 <= i <= hay.len() - needle.len() && #[trigger] hay.subrange(i, i + needle.len()) == needle
}

/// Whether `needle` occurs in `hay`.
pub fn contains_str(hay: &str, needle: &str) -> (r: bool)
    ensures
        r == is_substring(needle@, hay@),
{
    let h = chars_of(hay);
    let n = chars_of(needle);
    if n.len() > h.len() {
        return false;
    }
    let mut i: usize = 0;
    while i <= h.len() - n.len()
        invariant
            h@ == hay@,
            n@ == needle@,
            n@.len() <= h@.len(),
            0 <= i <= h@.len() - n@.len() + 1,
            forall|k: int| 0 <= k < i ==> #[trigger] h@.subrange(k, k + n@.len()) != n@,
        decreases h@.len() - n@.len() + 1 - i,
    {
        let mut j: usize = 0;
        let mut same = true;
        while j < n.len()
            invariant
                0 <= j <= n@.len(),
                h@.len() <= usize::MAX,
                n@.len() <= h@.len(),
                i <= h@.len() - n@.len(),
                same <==> forall|t: int| 0 <= t < j ==> h@[i + t] == n@[t],
            decreases n@.len() - j,
        {
            if h[i + j] != n[j] {
                same = false;
            }
            j = j + 1;
        }
        if same {
            assert(h@.subrange(i as int, i + n@.len()) =~= n@);
            return true;
        }
        proof {
            if h@.subrange(i as int, i + n@.len()) == n@ {
                assert forall|t: int| 0 <= t < n@.len() implies h@[i + t] == n@[t] by {
                    assert(h@.subrange(i as int, i + n@.len())[t] == h@[i + t]);
                }
            }
        }
        i = i + 1;
    }
    false
}

/// An entry matches a search when the lowercase keyword occurs in its
/// lowercase name or lowercase value.
pub open spec fn matches_folded(key: Seq<char>, value: Seq<char>, keyword: Seq<char>) -> bool {
    is_substring(keyword, key) || is_substring(keyword, value)
}

/// The entry test of a search, on texts already in lowercase.
pub fn entry_matches_folded(key_lower: &str, value_lower: &str, keyword_lower: &str) -> (r: bool)
    ensures
        r == matches_folded(key_lower@, value_lower@, keyword_lower@),
{
    contains_str(key_lower, keyword_lower) || contains_str(value_lower, keyword_lower)
}

/// The entries among `pairs` that a search for `keyword` finds, in order.
pub open spec fn search_result(pairs: Seq<(String, String)>, keyword: Seq<char>) -> Seq<
    (Seq<char>, Seq<char>),
>
    decreases pairs.len(),
{
    if pairs.len() == 0 {
        Seq::empty()
    } else {
        let rest = search_result(pairs.drop_last(), keyword);
        let p = pairs.last();
        if matches_folded(lower_of(p.0@), lower_of(p.1@), lower_of(keyword)) {
            rest.push((p.0@, p.1@))
        } else {
            rest
        }
    }
}

/// The texts of a list of pairs.
pub open spec fn pair_views(s: Seq<(String, String)>) -> Seq<(Seq<char>, Seq<char>)> {
    s.map_values(|p: (String, String)| (p.0@, p.1@))
}

/// The entries whose name or value contains the keyword, ignoring case, in
/// the vault's order.
pub fn search_entries(vault: &Vault, keyword: &str) -> (r: Vec<(String, String)>)
    ensures
        pair_views(r@) == search_result(vault.pairs(), keyword@),
{
    let kw = lowercase(keyword);
    let pairs = vault.entries();
    let mut out: Vec<(String, String)> = Vec::new();
    let mut i: usize = 0;
    while i < pairs.len()
        invariant
            0 <= i <= pairs@.len(),
            kw@ == lower_of(keyword@),
            pair_views(out@) == search_result(pairs@.subrange(0, i as int), keyword@),
        decreases pairs@.len() - i,
    {
        let k = &pairs[i].0;
        let v = &pairs[i].1;
        let kl = lowercase(k.as_str());
        let vl = lowercase(v.as_str());
        let ghost before = out@;
        proof {
            assert(pairs@.subrange(0, i + 1).drop_last() =~= pairs@.subrange(0, i as int));
        }
        if entry_matches_folded(kl.as_str(), vl.as_str(), kw.as_str()) {
            out.push((k.clone(), v.clone()));
            assert(pair_views(out@) =~= pair_views(before).push((k@, v@)));
        }
        i = i + 1;
    }
    assert(pairs@.subrange(0, pairs@.len() as int) =~= pairs@);
    out
}

/// How many characters of a value a search shows.
pub const PREVIEW_CHARS: usize = 12;

/// The first characters of a value, as a search lists it.
pub fn preview(value: &str) -> (r: String)
    ensures
        value@.len() <= PREVIEW_CHARS ==> r@ == value@,
        value@.len() > PREVIEW_CHARS ==> r@ == value@.subrange(0, PREVIEW_CHARS as int),
{
    let cs = chars_of(value);
    let mut out: Vec<char> = Vec::new();
    let mut i: usize = 0;
    while i < cs.len() && i < PREVIEW_CHARS
        invariant
            0 <= i <= cs@.len(),
            i <= PREVIEW_CHARS,
            out@ == cs@.subrange(0, i as int),
        decreases cs@.len() - i,
    {
        out.push(cs[i]);
        i = i + 1;
        assert(cs@.subrange(0, i as int) =~= cs@.subrange(0, i - 1).push(cs@[i - 1]));
    }
    assert(cs@.subrange(0, cs@.len() as int) =~= cs@);
    string_of(&out)
}

/// A text without its leading and trailing whitespace, as `str::trim`
/// gives it.
pub uninterp spec fn trimmed_of(s: Seq<char>) -> Seq<char>;

/// Relies on `str::trim`: the result depends on the characters alone.
#[verifier::external_body]
fn trim(s: &str) -> (r: &str)
    ensures
        r@ == trimmed_of(s@),
{
    s.trim()
}

/// Whether a trimmed, lowercase answer accepts a deletion: `y` or `yes`.
pub fn is_yes_folded(folded: &str) -> (r: bool)
    ensures
        r == (folded@ == "y"@ || folded@ == "yes"@),
{
    str_eq(folded, "y") || str_eq(folded, "yes")
}

/// Whether an answer typed at the deletion prompt accepts it.
pub fn delete_confirmed(answer: &str) -> (r: bool)
    ensures
        r == (lower_of(trimmed_of(answer@)) == "y"@ || lower_of(trimmed_of(answer@)) == "yes"@),
{
    let folded = lowercase(trim(answer));
    is_yes_folded(folded.as_str())
}

/// Whether a trimmed answer accepts a restore: `y` in either case.
pub fn is_yes_letter(trimmed: &str) -> (r: bool)
    ensures
        r == (trimmed@ == "y"@ || trimmed@ == "Y"@),
{
    str_eq(trimmed, "y") || str_eq(trimmed, "Y")
}

/// Whether an answer typed at the restore prompt accepts it.
pub fn restore_confirmed(answer: &str) -> (r: bool)
    ensures
        r == (trimmed_of(answer@) == "y"@ || trimmed_of(answer@) == "Y"@),
{
    is_yes_letter(trim(answer))
}

} // verus!
