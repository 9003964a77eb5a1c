//! File-system paths, through `std::path`.
//!
//! The wrappers below state what `std::path` does on Unix and on Windows
//! alike. Two things are left open on purpose: which separator a new one is
//! (`/` on Unix, `\` on Windows), and paths that begin with two separators
//! (Windows UNC, device and verbatim paths), which Windows parses and
//! rebuilds in ways of their own.

use vstd::prelude::*;
use crate::config::opt_view;

verus! {

/// `s` ends with `suffix`.
pub open spec fn ends_with(s: Seq<char>, suffix: Seq<char>) -> bool {
    suffix.len() <= s.len() && s.subrange(s.len() - suffix.len(), s.len() as int) == suffix
}

/// `c` separates path components on Unix (`/`) or on Windows (`/`, `\`).
pub open spec fn is_separator(c: char) -> bool {
    c == '/' || c == '\\'
}

/// `p` begins with two separators: on Windows, a UNC, device or verbatim
/// path.
pub open spec fn two_sep_start(p: Seq<char>) -> bool {
    p.len() >= 2 && is_separator(p[0]) && is_separator(p[1])
}

/// `name` is a single plain file name: non-empty, neither `.` nor `..`, with
/// no separator or drive colon in it.
pub open spec fn plain_name(name: Seq<char>) -> bool {
    &&& name.len() > 0
    &&& name != seq!['.']
    &&& name != seq!['.', '.']
    &&& forall|i: int|
        0 <= i < name.len() ==> #[trigger] name[i] != '/' && name[i] != '\\' && name[i] != ':'
}

/// `r` is `dir`, one separator, then `name`.
pub open spec fn sep_joined(dir: Seq<char>, name: Seq<char>, r: Seq<char>) -> bool {
    r == dir + seq!['/'] + name || r == dir + seq!['\\'] + name
}

/// `dir` is a directory path whose last component is an ordinary name: it is
/// non-empty, does not end in a separator, a drive colon or a dot, and does
/// not begin with two separators.
pub open spec fn plain_dir(dir: Seq<char>) -> bool {
    &&& dir.len() > 0
    &&& !is_separator(dir.last())
    &&& dir.last() != ':'
    &&& dir.last() != '.'
    &&& !two_sep_start(dir)
}

/// `path` is the directory `dir`, a `/`, and the plain file name `file`:
/// the shape of a file path whose parent and file name every platform reads
/// alike.
pub open spec fn simple_split(path: Seq<char>, dir: Seq<char>, file: Seq<char>) -> bool {
    &&& path == dir + seq!['/'] + file
    &&& plain_name(file)
    &&& plain_dir(dir)
}

/// `r` is what joining the plain name `name` onto `base` gives: `name`
/// alone for an empty base, no new separator after a `/`, either way after
/// a `\` or a `:` (a Windows drive such as `C:` takes none), and one
/// separator otherwise.
pub open spec fn join_result(base: Seq<char>, name: Seq<char>, r: Seq<char>) -> bool {
    if base.len() == 0 {
        r == name
    } else if base.last() == '/' {
        r == base + name
    } else if base.last() == '\\' || base.last() == ':' {
        r == base + name || sep_joined(base, name, r)
    } else {
        sep_joined(base, name, r)
    }
}

/// `r` lies in the directory of `path`, under `name`: wherever `path` is a
/// directory, a `/` and a plain file name, `r` is that directory, one
/// separator and `name`.
pub open spec fn sibling(path: Seq<char>, name: Seq<char>, r: Seq<char>) -> bool {
    forall|d: Seq<char>, f: Seq<char>| #[trigger] simple_split(path, d, f) ==> sep_joined(d, name, r)
}

/// `r` is the file name of `path` wherever `path` is a directory, a `/` and
/// a plain file name.
pub open spec fn split_file(path: Seq<char>, r: Option<Seq<char>>) -> bool {
    forall|d: Seq<char>, f: Seq<char>| #[trigger] simple_split(path, d, f) ==> r == Some(f)
}

/// `r` is the directory of `path` wherever `path` is a directory, a `/` and
/// a plain file name.
pub open spec fn split_dir(path: Seq<char>, r: Option<Seq<char>>) -> bool {
    forall|d: Seq<char>, f: Seq<char>| #[trigger] simple_split(path, d, f) ==> r == Some(d)
}

/// `Path::join` of a plain file name onto `base`, as a string. Where `base`
/// does not begin with two separators, `base` is kept as it is and `name`
/// appended, with a separator between them where `base` does not already end
/// in one (see `join_result`). Which separator that is, and what a base that
/// begins with two separators becomes, is left unsaid.
#[verifier::external_body]
pub(crate) fn join(base: &str, name: &str) -> (r: String)
    requires
        plain_name(name@),
    ensures
        !two_sep_start(base@) ==> join_result(base@, name@, r@),
{
    std::path::Path::new(base).join(name).to_string_lossy().into_owned()
}

/// `Path::with_file_name`: `path` with its file name replaced by `name` (or
/// `name` pushed, where `path` has no file name), as a string. Where `path`
/// does not begin with two separators the result ends with `name` (pushing
/// appends it, or, for an absolute name or one with a drive, replaces all or
/// all but the drive with it). For a plain name the result is `path`'s
/// directory, a separator and `name` where `path` has the shape of
/// `simple_split`. For other paths, where the directory part ends is left
/// unsaid, as is which separator is used.
#[verifier::external_body]
pub(crate) fn with_file_name(path: &str, name: &str) -> (r: String)
    ensures
        !two_sep_start(path@) ==> ends_with(r@, name@),
        plain_name(name@) ==> sibling(path@, name@, r@),
{
    std::path::Path::new(path).with_file_name(name).to_string_lossy().into_owned()
}

/// `Path::file_name`: the last component of `path`, if it is a normal one,
/// as a string. A returned name is non-empty and occurs in `path`; where
/// `path` has the shape of `simple_split`, it is the name after the `/`.
#[verifier::external_body]
pub(crate) fn file_name(path: &str) -> (r: Option<String>)
    ensures
        r matches Some(n) ==> n@.len() > 0 && crate::text::contains(path@, n@),
        split_file(path@, opt_view(r)),
{
    std::path::Path::new(path).file_name().map(|n| n.to_string_lossy().into_owned())
}

/// `Path::parent`: `path` without its last component, if it has one, as a
/// string. A returned parent is a leading part of `path`; where `path` has
/// the shape of `simple_split`, it is the directory before the `/`.
#[verifier::external_body]
pub(crate) fn parent(path: &str) -> (r: Option<String>)
    ensures
        r matches Some(p) ==> p@.len() <= path@.len() && path@.subrange(0, p@.len() as int) == p@,
        split_dir(path@, opt_view(r)),
{
    std::path::Path::new(path).parent().map(|p| p.to_string_lossy().into_owned())
}

/// Two names that one string ends with agree, counted from the end, as far
/// as the shorter reaches.
pub proof fn lemma_common_end(r: Seq<char>, x: Seq<char>, y: Seq<char>, j: int)
    requires
        ends_with(r, x),
        ends_with(r, y),
        1 <= j <= x.len(),
        j <= y.len(),
    ensures
        x[x.len() - j] == y[y.len() - j],
{
    assert(x[x.len() - j] == r.subrange(r.len() - x.len(), r.len() as int)[x.len() - j]);
    assert(y[y.len() - j] == r.subrange(r.len() - y.len(), r.len() as int)[y.len() - j]);
}

} // verus!
