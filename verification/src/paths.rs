//! Paths are held as text. Joining follows the Unix rules of
//! `PathBuf::push`; splitting a path into its parts is done by
//! `std::path::Path`, whose results are named here.

use vstd::prelude::*;
use crate::text::concat2;

verus! {

/// Whether a path is absolute on Unix: it starts at the root.
pub open spec fn is_absolute_spec(path: Seq<char>) -> bool {
    path.len() > 0 && path[0] == '/'
}

/// `base` joined with `part` as `Path::join` does on Unix: an absolute
/// `part` replaces `base`; otherwise a separator is added unless `base` is
/// empty or already ends with one.
pub open spec fn join_spec(base: Seq<char>, part: Seq<char>) -> Seq<char> {
    if is_absolute_spec(part) {
        part
    } else if base.len() == 0 || base.last() == '/' {
        base + part
    } else {
        base + "/"@ + part
    }
}

/// Joins `part` onto `base` (`Path::join` on Unix).
pub fn join_path(base: &str, part: &str) -> (r: String)
    ensures
        r@ == join_spec(base@, part@),
{
    let n = base.unicode_len();
    if part.unicode_len() > 0 && part.get_char(0) == '/' {
        part.to_owned()
    } else if n == 0 || base.get_char(n - 1) == '/' {
        concat2(base, part)
    } else {
        let with_sep = concat2(base, "/");
        concat2(with_sep.as_str(), part)
    }
}

/// The final component of a path (`Path::file_name`).
pub uninterp spec fn path_file_name_spec(path: Seq<char>) -> Option<Seq<char>>;

/// The final component without its extension (`Path::file_stem`).
pub uninterp spec fn path_file_stem_spec(path: Seq<char>) -> Option<Seq<char>>;

/// The extension of the final component (`Path::extension`).
pub uninterp spec fn path_extension_spec(path: Seq<char>) -> Option<Seq<char>>;

/// The path without its final component (`Path::parent`).
pub uninterp spec fn path_parent_spec(path: Seq<char>) -> Option<Seq<char>>;

/// Whether `base` is a component-wise prefix of `path` (`Path::starts_with`).
pub uninterp spec fn path_starts_with_spec(path: Seq<char>, base: Seq<char>) -> bool;

/// Whether two paths have the same components (`Path` equality).
pub uninterp spec fn path_equal_spec(a: Seq<char>, b: Seq<char>) -> bool;

/// Calls `std::path::Path::file_name`.
///
/// Trusted: the result is what `path_file_name_spec` names; component
/// parsing is left to std.
#[verifier::external_body]
pub(crate) fn path_file_name(path: &str) -> (r: Option<String>)
    ensures
        match r {
            Some(s) => path_file_name_spec(path@) == Some(s@),
            None => path_file_name_spec(path@) is None,
        },
{
    std::path::Path::new(path).file_name().map(|n| n.to_string_lossy().into_owned())
}

/// Calls `std::path::Path::file_stem`.
///
/// Trusted: the result is what `path_file_stem_spec` names.
#[verifier::external_body]
pub(crate) fn path_file_stem(path: &str) -> (r: Option<String>)
    ensures
        match r {
            Some(s) => path_file_stem_spec(path@) == Some(s@),
            None => path_file_stem_spec(path@) is None,
        },
{
    std::path::Path::new(path).file_stem().map(|n| n.to_string_lossy().into_owned())
}

/// Calls `std::path::Path::extension`.
///
/// Trusted: the result is what `path_extension_spec` names.
#[verifier::external_body]
pub(crate) fn path_extension(path: &str) -> (r: Option<String>)
    ensures
        match r {
            Some(s) => path_extension_spec(path@) == Some(s@),
            None => path_extension_spec(path@) is None,
        },
{
    std::path::Path::new(path).extension().map(|n| n.to_string_lossy().into_owned())
}

/// Calls `std::path::Path::parent`.
///
/// Trusted: the result is what `path_parent_spec` names.
#[verifier::external_body]
pub(crate) fn path_parent(path: &str) -> (r: Option<String>)
    ensures
        match r {
            Some(s) => path_parent_spec(path@) == Some(s@),
            None => path_parent_spec(path@) is None,
        },
{
    std::path::Path::new(path).parent().map(|n| n.to_string_lossy().into_owned())
}

/// Calls `std::path::Path::starts_with`.
///
/// Trusted: the result is what `path_starts_with_spec` names.
#[verifier::external_body]
pub(crate) fn path_starts_with(path: &str, base: &str) -> (r: bool)
    ensures
        r == path_starts_with_spec(path@, base@),
{
    std::path::Path::new(path).starts_with(base)
}

/// Compares two paths with `std::path::Path`'s `==`.
///
/// Trusted: the result is what `path_equal_spec` names; the documentation
/// makes it an equivalence, of which only reflexivity is claimed here.
#[verifier::external_body]
pub(crate) fn path_equal(a: &str, b: &str) -> (r: bool)
    ensures
        r == path_equal_spec(a@, b@),
        a@ == b@ ==> r,
{
    std::path::Path::new(a) == std::path::Path::new(b)
}

} // verus!
