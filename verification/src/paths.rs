//! Paths as strings, and the `std::path` operations the tool relies on.
//!
//! A path is held as a `String`; its model is its `Seq<char>`. What
//! `std::path::Path` computes from a path (its components, its file name, its
//! parent, a join or a changed extension) is named here and trusted; what the
//! standard documentation states of those results in a few words is stated
//! beside the names. The split of a file name at its last dot into stem and
//! extension, which the documentation of `Path::extension` and
//! `Path::file_stem` states in a few lines, is written and proved here.

use vstd::prelude::*;
use std::path::Path;
use crate::text::str_eq;

verus! {

/// The final component of `path` as `Path::file_name` reports it.
pub uninterp spec fn file_name_of(path: Seq<char>) -> Option<Seq<char>>;

/// `path` without its final component, as `Path::parent` reports it.
pub uninterp spec fn parent_of(path: Seq<char>) -> Option<Seq<char>>;

/// `base` joined with `part`, as `Path::join` builds it.
pub uninterp spec fn joined(base: Seq<char>, part: Seq<char>) -> Seq<char>;

/// `path` with its extension set to `extension`, as `Path::with_extension`
/// builds it.
pub uninterp spec fn with_extension_of(path: Seq<char>, extension: Seq<char>) -> Seq<char>;

/// Whether two paths have the same components (`Path`'s `==`).
pub uninterp spec fn same_path(a: Seq<char>, b: Seq<char>) -> bool;

/// The model of an optional string.
pub open spec fn opt_view(o: Option<String>) -> Option<Seq<char>> {
    match o {
        Some(s) => Some(s@),
        None => None,
    }
}

/// The index of the last `c` in `s`, or -1 when `s` holds none.
pub open spec fn last_index_of(s: Seq<char>, c: char) -> int
    decreases s.len(),
{
    if s.len() == 0 {
        -1
    } else if s.last() == c {
        s.len() - 1
    } else {
        last_index_of(s.drop_last(), c)
    }
}

proof fn lemma_last_index_bounds(s: Seq<char>, c: char)
    ensures
        -1 <= last_index_of(s, c) < s.len(),
        last_index_of(s, c) >= 0 ==> s[last_index_of(s, c)] == c,
    decreases s.len(),
{
    if s.len() > 0 && s.last() != c {
        lemma_last_index_bounds(s.drop_last(), c);
    }
}

/// The name `..`.
pub open spec fn parent_dir_name() -> Seq<char> {
    seq!['.', '.']
}

/// The extension of a file name, as `Path::extension` splits it: none when
/// the name holds no `.`, none when its only `.` is its first character, none
/// for `..`, and otherwise the part after the final `.`.
pub open spec fn extension_of_name(name: Seq<char>) -> Option<Seq<char>> {
    let k = last_index_of(name, '.');
    if name != parent_dir_name() && k > 0 {
        Some(name.subrange(k + 1, name.len() as int))
    } else {
        None
    }
}

/// The stem of a file name, as `Path::file_stem` splits it: the part before
/// the final `.` when the name has an extension, and the whole name
/// otherwise.
pub open spec fn stem_of_name(name: Seq<char>) -> Seq<char> {
    let k = last_index_of(name, '.');
    if name != parent_dir_name() && k > 0 {
        name.subrange(0, k)
    } else {
        name
    }
}

/// Whether the file stem of `path` is `.`, as for a file named `..gif`;
/// changing the extension of such a path leaves no file name behind.
pub open spec fn stem_is_dot(path: Seq<char>) -> bool {
    match file_name_of(path) {
        Some(f) => stem_of_name(f) == seq!['.'],
        None => false,
    }
}

/// A file name with an extension has a stem that is not empty.
pub proof fn lemma_stem_of_name_with_extension(name: Seq<char>)
    requires
        extension_of_name(name) is Some,
    ensures
        stem_of_name(name).len() > 0,
{
    lemma_last_index_bounds(name, '.');
}

/// A file name with an extension is its stem, a dot and its extension.
pub proof fn lemma_name_splits_at_last_dot(name: Seq<char>)
    requires
        extension_of_name(name) is Some,
    ensures
        name == stem_of_name(name) + seq!['.'] + extension_of_name(name).unwrap(),
        !extension_of_name(name).unwrap().contains('.'),
{
    lemma_last_index_bounds(name, '.');
    let k = last_index_of(name, '.');
    assert(name =~= name.subrange(0, k) + seq!['.'] + name.subrange(k + 1, name.len() as int));
    lemma_no_dot_after_last(name);
}

proof fn lemma_no_dot_after_last(s: Seq<char>)
    ensures
        forall|i: int| last_index_of(s, '.') < i < s.len() ==> s[i] != '.',
    decreases s.len(),
{
    if s.len() > 0 && s.last() != '.' {
        lemma_no_dot_after_last(s.drop_last());
        lemma_last_index_bounds(s.drop_last(), '.');
        assert forall|i: int| last_index_of(s, '.') < i < s.len() implies s[i] != '.' by {
            if i < s.len() - 1 {
                assert(s[i] == s.drop_last()[i]);
            }
        }
    }
}

/// A name made of a stem, a dot and an extension without dots splits back
/// into that stem and that extension.
pub proof fn lemma_name_with_extension(stem: Seq<char>, extension: Seq<char>)
    requires
        stem.len() > 0,
        !extension.contains('.'),
        extension.len() > 0,
    ensures
        extension_of_name(stem + seq!['.'] + extension) == Some(extension),
        stem_of_name(stem + seq!['.'] + extension) == stem,
    decreases extension.len(),
{
    let name = stem + seq!['.'] + extension;
    assert(name != parent_dir_name()) by {
        if name == parent_dir_name() {
            assert(name.len() >= 3);
        }
    }
    lemma_last_index_after_dot(stem, extension);
    assert(name.subrange(stem.len() + 1int, name.len() as int) =~= extension);
    assert(name.subrange(0, stem.len() as int) =~= stem);
}

proof fn lemma_last_index_after_dot(stem: Seq<char>, extension: Seq<char>)
    requires
        !extension.contains('.'),
    ensures
        last_index_of(stem + seq!['.'] + extension, '.') == stem.len(),
    decreases extension.len(),
{
    let name = stem + seq!['.'] + extension;
    if extension.len() == 0 {
        assert(name.last() == '.');
    } else {
        assert(extension.last() != '.') by {
            if extension.last() == '.' {
                assert(extension.contains('.'));
            }
        }
        assert(!extension.drop_last().contains('.')) by {
            if extension.drop_last().contains('.') {
                let i = choose|i: int| 0 <= i < extension.drop_last().len() && extension.drop_last()[i] == '.';
                assert(extension[i] == '.');
            }
        }
        lemma_last_index_after_dot(stem, extension.drop_last());
        assert(name.drop_last() =~= stem + seq!['.'] + extension.drop_last());
    }
}

/// The extension of a path: that of its file name, if it has one.
pub open spec fn extension_of(path: Seq<char>) -> Option<Seq<char>> {
    match file_name_of(path) {
        Some(name) => extension_of_name(name),
        None => None,
    }
}

/// `Path::file_name`, read back as a string. The path comes from a `&str`, so
/// the name is valid UTF-8 and the conversion loses nothing.
#[verifier::external_body]
pub(crate) fn file_name(path: &str) -> (res: Option<String>)
    ensures
        opt_view(res) == file_name_of(path@),
{
    match Path::new(path).file_name() {
        Some(name) => Some(name.to_string_lossy().into_owned()),
        None => None,
    }
}

/// `Path::parent`, read back as a string. Its documentation states that the
/// empty path has no parent; what the parent is otherwise is left to the name.
#[verifier::external_body]
pub(crate) fn parent(path: &str) -> (res: Option<String>)
    ensures
        opt_view(res) == parent_of(path@),
        path@.len() == 0 ==> res is None,
{
    match Path::new(path).parent() {
        Some(p) => Some(p.to_string_lossy().into_owned()),
        None => None,
    }
}

/// `Path::join`, read back as a string. The result is left to the name.
#[verifier::external_body]
pub(crate) fn join(base: &str, part: &str) -> (res: String)
    ensures
        res@ == joined(base@, part@),
{
    Path::new(base).join(part).to_string_lossy().into_owned()
}

/// `Path::with_extension`, read back as a string. It panics on an extension
/// that holds a path separator, which `requires` rules out. As its
/// documentation (through `PathBuf::set_extension`) states, a path without a
/// file name is kept as it is, and otherwise the extension is replaced or
/// added: for a new extension that is not empty, the file name becomes the
/// old stem, a dot and the new extension, and the parent is kept. The one
/// exception is a stem of `.` (a name such as `..gif`): cutting the old
/// extension off leaves `..`, which is no file name, and nothing is said of
/// that case beyond the name.
#[verifier::external_body]
pub(crate) fn with_extension(path: &str, extension: &str) -> (res: String)
    requires
        !extension@.contains('/'),
        !extension@.contains('\\'),
    ensures
        res@ == with_extension_of(path@, extension@),
        file_name_of(path@) is None ==> res@ == path@,
        file_name_of(path@) is Some && !stem_is_dot(path@) && extension@.len() > 0
            ==> file_name_of(res@) == Some(stem_of_name(file_name_of(path@).unwrap()) + seq!['.'] + extension@)
                && parent_of(res@) == parent_of(path@),
{
    Path::new(path).with_extension(extension).to_string_lossy().into_owned()
}

/// `Path`'s `==`, which compares the paths' components. Equal strings have
/// equal components, and paths with equal components have the same final
/// component, hence the same file name.
#[verifier::external_body]
pub(crate) fn paths_equal(a: &str, b: &str) -> (res: bool)
    ensures
        res == same_path(a@, b@),
        a@ == b@ ==> res,
        res ==> file_name_of(a@) == file_name_of(b@),
{
    Path::new(a) == Path::new(b)
}

/// The last index of `c` in `s`, or `None` when `s` holds none.
fn last_index(s: &str, c: char) -> (res: Option<usize>)
    ensures
        match res {
            Some(k) => k as int == last_index_of(s@, c),
            None => last_index_of(s@, c) == -1,
        },
{
    let n = s.unicode_len();
    let mut i: usize = n;
    assert(s@.subrange(0, n as int) == s@);
    while i > 0
        invariant
            n == s@.len(),
            i <= n,
            last_index_of(s@, c) == last_index_of(s@.subrange(0, i as int), c),
        decreases i,
    {
        let ch = s.get_char(i - 1);
        assert(s@.subrange(0, i as int).drop_last() == s@.subrange(0, i - 1));
        if ch == c {
            return Some(i - 1);
        }
        i = i - 1;
    }
    None
}

/// The extension of a file name, split at its last dot as `Path::extension`
/// splits it (a name of `..` has none).
pub fn extension_of_file_name(name: &str) -> (res: Option<String>)
    ensures
        opt_view(res) == extension_of_name(name@),
{
    proof {
        lemma_last_index_bounds(name@, '.');
        reveal_strlit("..");
        assert(".."@ =~= parent_dir_name());
    }
    if str_eq(name, "..") {
        return None;
    }
    match last_index(name, '.') {
        Some(k) => {
            if k > 0 {
                let n = name.unicode_len();
                Some(String::from_str(name.substring_char(k + 1, n)))
            } else {
                None
            }
        },
        None => None,
    }
}

/// The extension of a path, if its file name has one.
pub fn extension(path: &str) -> (res: Option<String>)
    ensures
        opt_view(res) == extension_of(path@),
{
    match file_name(path) {
        Some(name) => extension_of_file_name(name.as_str()),
        None => None,
    }
}

} // verus!
