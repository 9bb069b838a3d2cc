//! Paths as text, computed by the standard library's `Path`.
//!
//! A path is held as a `String`. What `Path` makes of such a text is named
//! here; the functions of this module hand back exactly those values.

use vstd::prelude::*;

verus! {

/// `Path::new(base).join(part)`, as text.
pub uninterp spec fn path_join(base: Seq<char>, part: Seq<char>) -> Seq<char>;

/// `Path::new(path).file_stem()`, as text.
pub uninterp spec fn path_file_stem(path: Seq<char>) -> Option<Seq<char>>;

/// `Path::new(path).parent()`, as text.
pub uninterp spec fn path_parent(path: Seq<char>) -> Option<Seq<char>>;

/// `Path::join`: the path `base` with `part` adjoined. The result is a
/// function of the two texts.
#[verifier::external_body]
pub(crate) fn join(base: &str, part: &str) -> (joined: String)
    ensures
        joined@ == path_join(base@, part@),
{
    std::path::Path::new(base).join(part).to_string_lossy().into_owned()
}

/// `Path::file_stem`: the final component of `path` without its extension,
/// where the path has a final component. The result is a function of the text.
#[verifier::external_body]
pub(crate) fn file_stem(path: &str) -> (stem: Option<String>)
    ensures
        stem.is_some() == path_file_stem(path@).is_some(),
        stem matches Some(s) ==> Some(s@) == path_file_stem(path@),
{
    std::path::Path::new(path).file_stem().map(|s| s.to_string_lossy().into_owned())
}

/// `Path::parent`: `path` without its final component, where it has one. The
/// result is a function of the text, and leaving a component out makes the
/// text shorter.
#[verifier::external_body]
pub(crate) fn parent(path: &str) -> (up: Option<String>)
    ensures
        up.is_some() == path_parent(path@).is_some(),
        up matches Some(p) ==> Some(p@) == path_parent(path@) && p@.len() < path@.len(),
{
    std::path::Path::new(path).parent().map(|p| p.to_string_lossy().into_owned())
}

} // verus!
