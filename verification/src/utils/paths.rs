//! File path components, through `std::path::Path`.
//!
//! Paths are held as strings. The names below stand for what `Path` computes
//! on the target platform (Unix separators); the library only relies on their
//! being functions of the path text.

use vstd::prelude::*;

verus! {

/// The text of `Path::parent` of a path, when it has one.
pub uninterp spec fn path_parent_of(p: Seq<char>) -> Option<Seq<char>>;

/// The text of `Path::file_name` of a path, when it has one.
pub uninterp spec fn path_file_name_of(p: Seq<char>) -> Option<Seq<char>>;

/// The text of `Path::extension` of a path, when it has one.
pub uninterp spec fn path_extension_of(p: Seq<char>) -> Option<Seq<char>>;

/// `Path::parent`, as text. Its result is named by `path_parent_of`.
#[verifier::external_body]
pub(crate) fn path_parent(p: &str) -> (r: Option<String>)
    ensures
        match r {
            Some(s) => path_parent_of(p@) == Some(s@),
            None => path_parent_of(p@) is None,
        },
{
    std::path::Path::new(p).parent().map(|q| q.to_string_lossy().to_string())
}

/// `Path::file_name`, as text. Its result is named by `path_file_name_of`.
#[verifier::external_body]
pub(crate) fn path_file_name(p: &str) -> (r: Option<String>)
    ensures
        match r {
            Some(s) => path_file_name_of(p@) == Some(s@),
            None => path_file_name_of(p@) is None,
        },
{
    std::path::Path::new(p).file_name().map(|q| q.to_string_lossy().to_string())
}

/// `Path::extension`, as text. Its result is named by `path_extension_of`.
#[verifier::external_body]
pub(crate) fn path_extension(p: &str) -> (r: Option<String>)
    ensures
        match r {
            Some(s) => path_extension_of(p@) == Some(s@),
            None => path_extension_of(p@) is None,
        },
{
    std::path::Path::new(p).extension().map(|q| q.to_string_lossy().to_string())
}

/// `Path::exists`: whether the file system holds something at the path when
/// the call is made. Nothing is stated of the result, which depends on the
/// disk.
#[verifier::external_body]
pub(crate) fn path_exists(p: &str) -> (b: bool) {
    std::path::Path::new(p).exists()
}

/// The name of a path's parent directory.
pub open spec fn parent_name_of(p: Seq<char>) -> Option<Seq<char>> {
    match path_parent_of(p) {
        Some(q) => path_file_name_of(q),
        None => None,
    }
}

/// The name of the directory holding `p`, if it has one.
pub fn parent_dir_name(p: &str) -> (r: Option<String>)
    ensures
        match r {
            Some(s) => parent_name_of(p@) == Some(s@),
            None => parent_name_of(p@) is None,
        },
{
    match path_parent(p) {
        Some(q) => path_file_name(q.as_str()),
        None => None,
    }
}

/// The name of the directory two levels above `p`, if it has one.
pub open spec fn grandparent_name_of(p: Seq<char>) -> Option<Seq<char>> {
    match path_parent_of(p) {
        Some(q) => parent_name_of(q),
        None => None,
    }
}

/// The name of the directory two levels above `p`, if it has one.
pub fn grandparent_dir_name(p: &str) -> (r: Option<String>)
    ensures
        match r {
            Some(s) => grandparent_name_of(p@) == Some(s@),
            None => grandparent_name_of(p@) is None,
        },
{
    match path_parent(p) {
        Some(q) => parent_dir_name(q.as_str()),
        None => None,
    }
}

} // verus!
