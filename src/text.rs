//! Small text helpers over the views of `str` and `String`.
use vstd::prelude::*;

verus! {

broadcast use {vstd::utf8::encode_utf8_decode_utf8, vstd::utf8::encode_utf8_valid_utf8};

/// Whether two strings hold the same characters.
pub fn str_eq(a: &str, b: &str) -> (r: bool)
    ensures
        r == (a@ == b@),
{
    let ab = a.as_bytes();
    let bb = b.as_bytes();
    if ab.len() != bb.len() {
        proof {
            if a@ == b@ {
                assert(ab@ == bb@);
            }
        }
        return false;
    }
    let mut i: usize = 0;
    while i < ab.len()
        invariant
            ab@ == vstd::utf8::encode_utf8(a@),
            bb@ == vstd::utf8::encode_utf8(b@),
            ab@.len() == bb@.len(),
            0 <= i <= ab@.len(),
            forall|j: int| 0 <= j < i ==> ab@[j] == bb@[j],
        decreases ab@.len() - i,
    {
        if ab[i] != bb[i] {
            proof {
                if a@ == b@ {
                    assert(ab@ == bb@);
                }
            }
            return false;
        }
        i = i + 1;
    }
    proof {
        assert(ab@ =~= bb@);
        assert(vstd::utf8::decode_utf8(vstd::utf8::encode_utf8(a@)) == a@);
        assert(vstd::utf8::decode_utf8(vstd::utf8::encode_utf8(b@)) == b@);
    }
    true
}

/// Relies on `String::push`: appends one character.
#[verifier::external_body]
pub(crate) fn push_char(s: &mut String, c: char)
    ensures
        final(s)@ == old(s)@.push(c),
{
    s.push(c);
}

/// The characters of a string slice.
pub fn chars_of(s: &str) -> (r: Vec<char>)
    ensures
        r@ == s@,
{
    let mut out: Vec<char> = Vec::new();
    for c in iter: s.chars()
        invariant
            out@.len() == iter.index(),
            forall|i: int| 0 <= i < out@.len() ==> out@[i] == iter.seq()[i],
    {
        out.push(c);
    }
    assert(out@ =~= s@);
    out
}

/// A string holding the given characters.
pub fn string_of(cs: &Vec<char>) -> (r: String)
    ensures
        r@ == cs@,
{
    let mut out = String::new();
    let mut i: usize = 0;
    while i < cs.len()
        invariant
            0 <= i <= cs@.len(),
            out@ == cs@.subrange(0, i as int),
        decreases cs@.len() - i,
    {
        push_char(&mut out, cs[i]);
        i = i + 1;
        assert(cs@.subrange(0, i as int) =~= cs@.subrange(0, i - 1).push(cs@[i - 1]));
    }
    assert(cs@.subrange(0, cs@.len() as int) =~= cs@);
    out
}

/// Appends the characters of a string slice.
pub fn push_str(out: &mut String, s: &str)
    ensures
        final(out)@ == old(out)@ + s@,
{
    out.append(s);
}

/// Copies a string slice into an owned string.
pub fn owned(s: &str) -> (r: String)
    ensures
        r@ == s@,
{
    s.to_owned()
}

} // verus!
