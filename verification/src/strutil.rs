//! Verified character-level helpers for `&str` values.
//!
//! Window titles, window classes and executable paths arrive from the
//! embedder as strings; admission and classification compare them against
//! fixed names, prefixes and suffixes.  These helpers state those comparisons
//! over the `Seq<char>` views of the strings.

use vstd::prelude::*;
use vstd::seq_lib::*;
use vstd::string::*;

verus! {

/// Character-for-character equality of two string slices.
pub fn str_eq(a: &str, b: &str) -> (r: bool)
    ensures
        r == (a@ == b@),
{
    let a_len = a.unicode_len();
    let b_len = b.unicode_len();
    if a_len != b_len {
        return false;
    }
    let mut i: usize = 0;
    while i < a_len
        invariant
            0 <= i <= a_len,
            a_len == a@.len(),
            b_len == b@.len(),
            a_len == b_len,
            forall|k: int| 0 <= k < i ==> a@[k] == b@[k],
        decreases a_len - i,
    {
        if a.get_char(i) != b.get_char(i) {
            return false;
        }
        i += 1;
    }
    proof {
        assert(a@ =~= b@);
    }
    true
}

/// True iff `p` is a prefix of `s`, by characters.
pub fn str_starts_with(s: &str, p: &str) -> (r: bool)
    ensures
        r == p@.is_prefix_of(s@),
{
    let s_len = s.unicode_len();
    let p_len = p.unicode_len();
    if p_len > s_len {
        return false;
    }
    let mut i: usize = 0;
    while i < p_len
        invariant
            0 <= i <= p_len,
            s_len == s@.len(),
            p_len == p@.len(),
            p_len <= s_len,
            forall|k: int| 0 <= k < i ==> s@[k] == p@[k],
        decreases p_len - i,
    {
        if s.get_char(i) != p.get_char(i) {
            return false;
        }
        i += 1;
    }
    proof {
        assert(p@ =~= s@.subrange(0, p@.len() as int));
    }
    true
}

/// True iff `p` is a suffix of `s`, by characters.
pub fn str_ends_with(s: &str, p: &str) -> (r: bool)
    ensures
        r == p@.is_suffix_of(s@),
{
    let s_len = s.unicode_len();
    let p_len = p.unicode_len();
    if p_len > s_len {
        return false;
    }
    let off = s_len - p_len;
    let mut i: usize = 0;
    while i < p_len
        invariant
            0 <= i <= p_len,
            s_len == s@.len(),
            p_len == p@.len(),
            p_len <= s_len,
            off == s_len - p_len,
            forall|k: int| 0 <= k < i ==> s@[off + k] == p@[k],
        decreases p_len - i,
    {
        if s.get_char(off + i) != p.get_char(i) {
            return false;
        }
        i += 1;
    }
    proof {
        assert(p@ =~= s@.subrange(s@.len() - p@.len(), s@.len() as int));
    }
    true
}

/// Whether a character separates path components.
pub open spec fn is_path_sep(c: char) -> bool {
    c == '\\' || c == '/'
}

/// Whether `path` lies under the directory `dir`, by components: `dir` is
/// a character prefix and ends at a component boundary (the path is the
/// directory itself, or a separator follows).  `dir` must not end in a
/// separator.
pub open spec fn dir_prefix_of(dir: Seq<char>, path: Seq<char>) -> bool {
    dir.is_prefix_of(path) && (path.len() == dir.len() || is_path_sep(path[dir.len() as int]))
}

/// Whether `path` lies under the directory `dir`, by components.
pub fn path_starts_with_dir(path: &str, dir: &str) -> (r: bool)
    ensures
        r == dir_prefix_of(dir@, path@),
{
    if !str_starts_with(path, dir) {
        return false;
    }
    let dlen = dir.unicode_len();
    let plen = path.unicode_len();
    if plen == dlen {
        return true;
    }
    let c = path.get_char(dlen);
    c == '\\' || c == '/'
}

/// Whether the final path component of `path` is `name`: `name` is a
/// character suffix that starts at a component boundary (the path is the
/// name itself, or a separator precedes it).  `name` must hold no
/// separator of its own.
pub open spec fn final_component_is(name: Seq<char>, path: Seq<char>) -> bool {
    name.is_suffix_of(path) && (path.len() == name.len() || is_path_sep(
        path[path.len() - name.len() - 1],
    ))
}

/// Whether the final path component of `path` is `name`.
pub fn path_ends_with_component(path: &str, name: &str) -> (r: bool)
    ensures
        r == final_component_is(name@, path@),
{
    if !str_ends_with(path, name) {
        return false;
    }
    let nlen = name.unicode_len();
    let plen = path.unicode_len();
    if plen == nlen {
        return true;
    }
    let c = path.get_char(plen - nlen - 1);
    c == '\\' || c == '/'
}

/// The verbatim prefix some file APIs put before an absolute path.
pub const VERBATIM_PREFIX: &'static str = "\\\\?\\";

/// A path with every leading verbatim prefix removed.
pub open spec fn strip_verbatim_spec(s: Seq<char>) -> Seq<char>
    decreases s.len(),
{
    if VERBATIM_PREFIX@.len() > 0 && VERBATIM_PREFIX@.is_prefix_of(s) {
        strip_verbatim_spec(s.skip(VERBATIM_PREFIX@.len() as int))
    } else {
        s
    }
}

/// Removes every leading verbatim prefix from a path.
pub fn strip_verbatim_prefix(path: &str) -> (r: String)
    ensures
        r@ == strip_verbatim_spec(path@),
{
    let plen = VERBATIM_PREFIX.unicode_len();
    let mut s = String::from_str(path);
    while plen > 0 && str_starts_with(s.as_str(), VERBATIM_PREFIX)
        invariant
            plen == VERBATIM_PREFIX@.len(),
            strip_verbatim_spec(path@) == strip_verbatim_spec(s@),
        decreases s@.len(),
    {
        let len = s.as_str().unicode_len();
        proof {
            assert(s@.subrange(plen as int, len as int) =~= s@.skip(plen as int));
        }
        let next = String::from_str(s.as_str().substring_char(plen, len));
        s = next;
    }
    s
}

/// The file name of a path: the characters after the last path separator,
/// or the whole path when it holds none.
pub fn file_name(path: &str) -> (r: String)
    ensures
        (forall|j: int| 0 <= j < path@.len() ==> !is_path_sep(path@[j])) ==> r@ == path@,
        (exists|k: int| 0 <= k < path@.len() && is_path_sep(path@[k])) ==> (exists|k: int|
            0 <= k < path@.len() && is_path_sep(#[trigger] path@[k]) && (forall|j: int|
                k < j < path@.len() ==> !is_path_sep(path@[j])) && r@ == path@.subrange(
                k + 1,
                path@.len() as int,
            )),
{
    let len = path.unicode_len();
    let mut i: usize = len;
    while i > 0
        invariant
            0 <= i <= len,
            len == path@.len(),
            forall|j: int| i <= j < len ==> !is_path_sep(path@[j]),
        decreases i,
    {
        let c = path.get_char(i - 1);
        if c == '\\' || c == '/' {
            let tail = path.substring_char(i, len);
            return String::from_str(tail);
        }
        i -= 1;
    }
    String::from_str(path)
}

} // verus!
