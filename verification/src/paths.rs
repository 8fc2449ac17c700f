use vstd::prelude::*;

verus! {

/// What `std::path::Path::file_name` gives for a path: its final component,
/// or nothing where the path ends in `..` or has no final component. It
/// follows the path rules of the platform the crate is built for.
pub uninterp spec fn path_file_name(path: Seq<char>) -> Option<Seq<char>>;

/// What `std::path::Path::join` gives for a base and a tail: the tail
/// adjoined to the base, by the path rules of the platform the crate is
/// built for.
pub uninterp spec fn path_join(base: Seq<char>, tail: Seq<char>) -> Seq<char>;

/// Calls `std::path::Path::file_name` on `path`. The contract claims that
/// the result is `path_file_name` of the path's text. A final component of a
/// path given as text is itself valid text, so the conversion back to a
/// `String` loses nothing.
#[verifier::external_body]
pub(crate) fn file_name(path: &str) -> (name: Option<String>)
    ensures
        name.deep_view() == path_file_name(path@),
{
    match std::path::Path::new(path).file_name() {
        Some(n) => Some(n.to_string_lossy().into_owned()),
        None => None,
    }
}

/// Calls `std::path::Path::join` on `base` and `tail`. The contract claims
/// that the result is `path_join` of the two texts. Joining two valid texts
/// gives valid text, so the conversion back to a `String` loses nothing.
#[verifier::external_body]
pub(crate) fn join_path(base: &str, tail: &str) -> (joined: String)
    ensures
        joined@ == path_join(base@, tail@),
{
    std::path::Path::new(base).join(tail).to_string_lossy().into_owned()
}

} // verus!
