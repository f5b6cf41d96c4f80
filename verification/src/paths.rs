//! A plain-text model of the path operations the player needs: the file
//! name of a directory entry, its extension and its stem.
//!
//! A path is a string as a directory listing yields it: components joined
//! by `/`, with no trailing separator. The extension and the stem follow
//! the usual convention: the file name is split at its last dot, the stem
//! must be non-empty for the split to count (a name that starts with its
//! only dot has no extension), and a name without a dot is all stem.

use vstd::prelude::*;

verus! {

/// The characters after the last occurrence of `sep`, or all of `s` when
/// `sep` does not occur in `s`.
pub open spec fn suffix_after_last(s: Seq<char>, sep: char) -> Seq<char>
    decreases s.len(),
{
    if s.len() == 0 {
        s
    } else if s.last() == sep {
        Seq::empty()
    } else {
        suffix_after_last(s.drop_last(), sep).push(s.last())
    }
}

/// The characters before the last occurrence of `sep`; empty when `sep`
/// does not occur in `s`.
pub open spec fn prefix_before_last(s: Seq<char>, sep: char) -> Seq<char>
    decreases s.len(),
{
    if s.len() == 0 {
        s
    } else if s.last() == sep {
        s.drop_last()
    } else {
        prefix_before_last(s.drop_last(), sep)
    }
}

/// The final component of a path: what follows the last separator.
pub open spec fn file_name_of(p: Seq<char>) -> Seq<char> {
    suffix_after_last(p, '/')
}

/// The extension of a path: what follows the last dot of the file name,
/// provided the name holds a dot and does not start with its last dot.
pub open spec fn extension_of(p: Seq<char>) -> Option<Seq<char>> {
    let name = file_name_of(p);
    if name.contains('.') && prefix_before_last(name, '.').len() > 0 {
        Some(suffix_after_last(name, '.'))
    } else {
        None
    }
}

/// The stem of a path: the file name up to its last dot where an extension
/// exists, the whole file name otherwise, and nothing for an empty name.
pub open spec fn stem_of(p: Seq<char>) -> Option<Seq<char>> {
    let name = file_name_of(p);
    if name.len() == 0 {
        None
    } else if name.contains('.') && prefix_before_last(name, '.').len() > 0 {
        Some(prefix_before_last(name, '.'))
    } else {
        Some(name)
    }
}

proof fn lemma_suffix_after_last_at(s: Seq<char>, sep: char, i: int)
    requires
        0 <= i < s.len(),
        s[i] == sep,
        forall|j: int| i < j < s.len() ==> s[j] != sep,
    ensures
        suffix_after_last(s, sep) == s.subrange(i + 1, s.len() as int),
    decreases s.len(),
{
    if i == s.len() - 1 {
        assert(suffix_after_last(s, sep) =~= s.subrange(i + 1, s.len() as int));
    } else {
        lemma_suffix_after_last_at(s.drop_last(), sep, i);
        assert(s.drop_last().subrange(i + 1, s.len() - 1) =~= s.subrange(i + 1, s.len() - 1));
        assert(s.subrange(i + 1, s.len() - 1).push(s.last()) =~= s.subrange(
            i + 1,
            s.len() as int,
        ));
    }
}

proof fn lemma_suffix_after_last_absent(s: Seq<char>, sep: char)
    requires
        forall|j: int| 0 <= j < s.len() ==> s[j] != sep,
    ensures
        suffix_after_last(s, sep) == s,
    decreases s.len(),
{
    if s.len() > 0 {
        lemma_suffix_after_last_absent(s.drop_last(), sep);
        assert(s.drop_last().push(s.last()) =~= s);
    }
}

proof fn lemma_prefix_before_last_at(s: Seq<char>, sep: char, i: int)
    requires
        0 <= i < s.len(),
        s[i] == sep,
        forall|j: int| i < j < s.len() ==> s[j] != sep,
    ensures
        prefix_before_last(s, sep) == s.subrange(0, i),
    decreases s.len(),
{
    if i == s.len() - 1 {
        assert(s.drop_last() =~= s.subrange(0, i));
    } else {
        lemma_prefix_before_last_at(s.drop_last(), sep, i);
        assert(s.drop_last().subrange(0, i) =~= s.subrange(0, i));
    }
}

/// The position of the last occurrence of `sep` in `s`, if any.
fn last_index_of(s: &str, sep: char) -> (r: Option<usize>)
    ensures
        match r {
            Some(i) => {
                &&& i < s@.len()
                &&& s@[i as int] == sep
                &&& forall|j: int| i < j < s@.len() ==> s@[j] != sep
            },
            None => forall|j: int| 0 <= j < s@.len() ==> s@[j] != sep,
        },
{
    let len = s.unicode_len();
    let mut i: usize = len;
    while i > 0
        invariant
            len == s@.len(),
            0 <= i <= len,
            forall|j: int| i <= j < s@.len() ==> s@[j] != sep,
        decreases i,
    {
        i = i - 1;
        if s.get_char(i) == sep {
            return Some(i);
        }
    }
    None
}

/// The final component of a path, as [`file_name_of`] gives it.
pub fn path_file_name(path: &str) -> (r: String)
    ensures
        r@ == file_name_of(path@),
{
    let len = path.unicode_len();
    match last_index_of(path, '/') {
        Some(i) => {
            proof {
                lemma_suffix_after_last_at(path@, '/', i as int);
            }
            let name = path.substring_char(i + 1, len);
            name.to_owned()
        },
        None => {
            proof {
                lemma_suffix_after_last_absent(path@, '/');
            }
            path.to_owned()
        },
    }
}

/// The extension of a path, as [`extension_of`] gives it.
pub fn path_extension(path: &str) -> (r: Option<String>)
    ensures
        match r {
            Some(e) => extension_of(path@) == Some(e@),
            None => extension_of(path@) is None,
        },
{
    let name = path_file_name(path);
    let name_len = name.as_str().unicode_len();
    match last_index_of(name.as_str(), '.') {
        Some(i) => {
            proof {
                lemma_prefix_before_last_at(name@, '.', i as int);
            }
            if i > 0 {
                proof {
                    lemma_suffix_after_last_at(name@, '.', i as int);
                }
                let ext = name.as_str().substring_char(i + 1, name_len);
                Some(ext.to_owned())
            } else {
                assert(prefix_before_last(name@, '.') =~= Seq::<char>::empty());
                None
            }
        },
        None => {
            assert(!name@.contains('.'));
            None
        },
    }
}

/// The stem of a path, as [`stem_of`] gives it.
pub fn path_file_stem(path: &str) -> (r: Option<String>)
    ensures
        match r {
            Some(st) => stem_of(path@) == Some(st@),
            None => stem_of(path@) is None,
        },
{
    let name = path_file_name(path);
    let name_len = name.as_str().unicode_len();
    if name_len == 0 {
        return None;
    }
    match last_index_of(name.as_str(), '.') {
        Some(i) => {
            proof {
                lemma_prefix_before_last_at(name@, '.', i as int);
            }
            if i > 0 {
                let stem = name.as_str().substring_char(0, i);
                Some(stem.to_owned())
            } else {
                assert(prefix_before_last(name@, '.') =~= Seq::<char>::empty());
                Some(name)
            }
        },
        None => {
            assert(!name@.contains('.'));
            Some(name)
        },
    }
}

} // verus!
