//! String utilities for the version verifier: character-wise equality,
//! substring search, and stripping of the leading version-prefix character.

use vstd::prelude::*;

verus! {

/// Character-wise equality of two string slices.
pub fn str_eq(a: &str, b: &str) -> (r: bool)
    ensures
        r <==> a@ == b@,
{
    let alen = a.unicode_len();
    let blen = b.unicode_len();
    if alen != blen {
        return false;
    }
    let mut i: usize = 0;
    while i < alen
        invariant
            alen == a@.len(),
            alen == b@.len(),
            i <= alen,
            forall|j: int| 0 <= j < i ==> a@[j] == b@[j],
        decreases alen - i,
    {
        if a.get_char(i) != b.get_char(i) {
            return false;
        }
        i = i + 1;
    }
    proof {
        assert(a@ =~= b@);
    }
    true
}

/// Whether `needle` occurs in `haystack` starting at position `at`.
pub open spec fn matches_at(haystack: Seq<char>, needle: Seq<char>, at: int) -> bool {
    0 <= at && at + needle.len() <= haystack.len() && haystack.subrange(
        at,
        at + needle.len(),
    ) == needle
}

/// Whether `needle` occurs anywhere in `haystack`.
pub open spec fn is_substring(needle: Seq<char>, haystack: Seq<char>) -> bool {
    exists|at: int| matches_at(haystack, needle, at)
}

/// Whether the characters of `needle` all stand in `haystack` at offset `at`.
fn matches_here(haystack: &str, needle: &str, at: usize) -> (r: bool)
    requires
        at + needle@.len() <= haystack@.len(),
    ensures
        r <==> matches_at(haystack@, needle@, at as int),
{
    let hlen = haystack.unicode_len();
    let nlen = needle.unicode_len();
    let mut k: usize = 0;
    while k < nlen
        invariant
            hlen == haystack@.len(),
            nlen == needle@.len(),
            at + nlen <= hlen,
            k <= nlen,
            forall|j: int| 0 <= j < k ==> haystack@[at + j] == needle@[j],
        decreases nlen - k,
    {
        if haystack.get_char(at + k) != needle.get_char(k) {
            proof {
                let piece = haystack@.subrange(at as int, at + needle@.len());
                assert(piece[k as int] != needle@[k as int]);
            }
            return false;
        }
        k = k + 1;
    }
    proof {
        assert(haystack@.subrange(at as int, at + needle@.len()) =~= needle@);
    }
    true
}

/// Substring search: whether `needle` occurs anywhere in `haystack`.
pub fn contains_substr(haystack: &str, needle: &str) -> (r: bool)
    ensures
        r <==> is_substring(needle@, haystack@),
{
    let hlen = haystack.unicode_len();
    let nlen = needle.unicode_len();
    if nlen > hlen {
        return false;
    }
    if nlen == 0 {
        proof {
            assert(haystack@.subrange(0, 0) =~= needle@);
            assert(matches_at(haystack@, needle@, 0));
        }
        return true;
    }
    let mut at: usize = 0;
    while at <= hlen - nlen
        invariant
            hlen == haystack@.len(),
            nlen == needle@.len(),
            1 <= nlen <= hlen,
            at <= hlen - nlen + 1,
            forall|j: int| 0 <= j < at ==> !matches_at(haystack@, needle@, j),
        decreases hlen + 1 - at,
    {
        if matches_here(haystack, needle, at) {
            return true;
        }
        at = at + 1;
    }
    false
}

/// The string with its maximal run of leading version-prefix characters
/// (`'v'`) removed.
pub open spec fn strip_v(s: Seq<char>) -> Seq<char>
    decreases s.len(),
{
    if s.len() > 0 && s[0] == 'v' {
        strip_v(s.drop_first())
    } else {
        s
    }
}

/// Removes every leading `'v'` from an expected-version string, so that a
/// version given with or without the conventional prefix compares alike.
pub fn strip_version_prefix(s: &str) -> (r: &str)
    ensures
        r@ == strip_v(s@),
{
    let len = s.unicode_len();
    let mut i: usize = 0;
    proof {
        assert(s@.subrange(0, len as int) =~= s@);
    }
    while i < len && s.get_char(i) == 'v'
        invariant
            len == s@.len(),
            i <= len,
            strip_v(s@) == strip_v(s@.subrange(i as int, len as int)),
        decreases len - i,
    {
        proof {
            let rest = s@.subrange(i as int, len as int);
            assert(rest.drop_first() =~= s@.subrange(i + 1, len as int));
        }
        i = i + 1;
    }
    proof {
        let rest = s@.subrange(i as int, len as int);
        if rest.len() > 0 {
            assert(rest[0] == s@[i as int]);
        }
    }
    s.substring_char(i, len)
}

/// A version string given with the leading prefix character and the same
/// string given without it strip to the same characters.
pub proof fn lemma_prefix_irrelevant(s: Seq<char>)
    ensures
        strip_v(seq!['v'] + s) == strip_v(s),
{
    let prefixed = seq!['v'] + s;
    assert(prefixed.len() > 0 && prefixed[0] == 'v');
    assert(prefixed.drop_first() =~= s);
}

} // verus!
