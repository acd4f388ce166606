use vstd::prelude::*;

verus! {

/// The text of the path that `std::path::Path::join` builds from `base` and `child`,
/// with the separator and the rules of the platform that the library is built for.
pub uninterp spec fn joined(base: Seq<char>, child: Seq<char>) -> Seq<char>;

/// The text of the path that `std::path::Path::parent` gives for `path`, if any: the
/// path without its final component.
pub uninterp spec fn parent_of(path: Seq<char>) -> Option<Seq<char>>;

/// The text of the final component that `std::path::Path::file_name` gives for `path`, if any.
pub uninterp spec fn file_name_of(path: Seq<char>) -> Option<Seq<char>>;

/// The text that formatting a `std::path::Path` with `{:?}` gives: the path between
/// double quotes, with quotes, backslashes and unprintable characters escaped.
pub uninterp spec fn quoted_path(path: Seq<char>) -> Seq<char>;

/// The view of an optional piece of text.
pub open spec fn text_of(value: Option<String>) -> Option<Seq<char>> {
    match value {
        Some(text) => Some(text@),
        None => None,
    }
}

/// Calls `std::path::Path::join` on `base` with `child`. Both are valid UTF-8 and the
/// call only puts them together, so turning the result back into text loses nothing.
/// The contract names the result; it does not say how the two parts are put together.
#[verifier::external_body]
pub(crate) fn join(base: &str, child: &str) -> (r: String)
    ensures
        r@ == joined(base@, child@),
{
    std::path::Path::new(base).join(child).to_string_lossy().into_owned()
}

/// Calls `std::path::Path::parent` on `path`. The contract names the result.
#[verifier::external_body]
pub(crate) fn parent(path: &str) -> (r: Option<String>)
    ensures
        text_of(r) == parent_of(path@),
{
    match std::path::Path::new(path).parent() {
        Some(dir) => Some(dir.to_string_lossy().into_owned()),
        None => None,
    }
}

/// Calls `std::path::Path::file_name` on `path`. The contract names the result.
#[verifier::external_body]
pub(crate) fn file_name(path: &str) -> (r: Option<String>)
    ensures
        text_of(r) == file_name_of(path@),
{
    match std::path::Path::new(path).file_name() {
        Some(name) => Some(name.to_string_lossy().into_owned()),
        None => None,
    }
}

/// Formats `path` as a `std::path::Path` with `{:?}`, the form in which a path is
/// written into a command line. The contract names the result.
#[verifier::external_body]
pub(crate) fn quoted(path: &str) -> (r: String)
    ensures
        r@ == quoted_path(path@),
{
    format!("{:?}", std::path::Path::new(path))
}

} // verus!
