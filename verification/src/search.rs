//! Case-insensitive substring search over track names, and the test for
//! characters that need advanced text shaping.

use vstd::prelude::*;

verus! {

/// What `str::to_lowercase` returns: a function of the characters alone.
pub uninterp spec fn lower_of(s: Seq<char>) -> Seq<char>;

/// Relies on `str::to_lowercase` from std: the result depends on the
/// characters of `s` alone, and an empty string stays empty.
#[verifier::external_body]
pub fn to_lowercase(s: &str) -> (r: String)
    ensures
        r@ == lower_of(s@),
        s@.len() == 0 ==> r@.len() == 0,
{
    s.to_lowercase()
}

/// `needle` occurs in `hay` starting at position `i`.
pub open spec fn occurs_at(hay: Seq<char>, needle: Seq<char>, i: int) -> bool {
    &&& 0 <= i
    &&& i + needle.len() <= hay.len()
    &&& hay.subrange(i, i + needle.len()) == needle
}

/// `needle` occurs somewhere in `hay`; the empty needle occurs in anything.
pub open spec fn contains_seq(hay: Seq<char>, needle: Seq<char>) -> bool {
    exists|i: int| occurs_at(hay, needle, i)
}

/// One character of `hay` and `needle` agrees at every offset below `count`.
spec fn agree_below(hay: Seq<char>, needle: Seq<char>, i: int, count: int) -> bool {
    forall|k: int| 0 <= k < count ==> hay[i + k] == needle[k]
}

/// Whether `needle` occurs in `hay` at position `i` exactly.
fn occurs_at_exec(hay: &str, needle: &str, i: usize) -> (r: bool)
    requires
        i + needle@.len() <= hay@.len(),
    ensures
        r == occurs_at(hay@, needle@, i as int),
{
    let h = hay.unicode_len();
    let n = needle.unicode_len();
    let mut j: usize = 0;
    while j < n
        invariant
            h == hay@.len(),
            n == needle@.len(),
            i + n <= h,
            0 <= j <= n,
            agree_below(hay@, needle@, i as int, j as int),
        decreases n - j,
    {
        if hay.get_char(i + j) != needle.get_char(j) {
            assert(hay@.subrange(i as int, i + needle@.len())[j as int] != needle@[j as int]);
            return false;
        }
        j = j + 1;
    }
    proof {
        assert(hay@.subrange(i as int, i + needle@.len()) =~= needle@);
    }
    true
}

/// Substring search: whether `needle` occurs anywhere in `hay`.
pub fn str_contains(hay: &str, needle: &str) -> (r: bool)
    ensures
        r == contains_seq(hay@, needle@),
{
    let h = hay.unicode_len();
    let n = needle.unicode_len();
    if n > h {
        proof {
            assert(forall|i: int| !occurs_at(hay@, needle@, i));
        }
        return false;
    }
    if n == 0 {
        proof {
            assert(hay@.subrange(0, 0) =~= needle@);
            assert(occurs_at(hay@, needle@, 0));
        }
        return true;
    }
    let mut i: usize = 0;
    while i <= h - n
        invariant
            h == hay@.len(),
            n == needle@.len(),
            1 <= n <= h,
            0 <= i <= h - n + 1,
            forall|p: int| 0 <= p < i ==> !occurs_at(hay@, needle@, p),
        decreases h - i,
    {
        if occurs_at_exec(hay, needle, i) {
            return true;
        }
        i = i + 1;
    }
    proof {
        assert(forall|p: int| occurs_at(hay@, needle@, p) ==> 0 <= p <= h - n);
    }
    false
}

/// `c` is an ASCII letter or digit.
pub open spec fn is_english_char(c: char) -> bool {
    ||| '0' <= c <= '9'
    ||| 'a' <= c <= 'z'
    ||| 'A' <= c <= 'Z'
}

/// Some character of `s` is not an ASCII letter or digit.
pub open spec fn has_non_english_char(s: Seq<char>) -> bool {
    exists|i: int| 0 <= i < s.len() && !is_english_char(s[i])
}

/// Whether a track name holds any character outside ASCII letters and
/// digits, in which case its label needs advanced text shaping.
pub fn contains_non_english_chars(input: &str) -> (r: bool)
    ensures
        r == has_non_english_char(input@),
{
    let len = input.unicode_len();
    let mut i: usize = 0;
    while i < len
        invariant
            len == input@.len(),
            0 <= i <= len,
            forall|k: int| 0 <= k < i ==> is_english_char(input@[k]),
        decreases len - i,
    {
        let c = input.get_char(i);
        let u = c as u32;
        let digit = u >= '0' as u32 && u <= '9' as u32;
        let lower = u >= 'a' as u32 && u <= 'z' as u32;
        let upper = u >= 'A' as u32 && u <= 'Z' as u32;
        if !(digit || lower || upper) {
            return true;
        }
        i = i + 1;
    }
    false
}

/// A track path matches a query when the lowered query occurs in the
/// lowered path.
pub open spec fn matches_query(path: Seq<char>, query: Seq<char>) -> bool {
    contains_seq(lower_of(path), lower_of(query))
}

/// Case-insensitive test of one track path against the search query.
pub fn path_matches_query(path: &str, query: &str) -> (r: bool)
    ensures
        r == matches_query(path@, query@),
{
    let lowered_path = to_lowercase(path);
    let lowered_query = to_lowercase(query);
    str_contains(lowered_path.as_str(), lowered_query.as_str())
}

} // verus!
