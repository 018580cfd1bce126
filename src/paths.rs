use vstd::prelude::*;

verus! {

/// What `std::path::Path::parent` gives for a path.
pub uninterp spec fn parent_of(p: Seq<char>) -> Option<Seq<char>>;

/// What `std::path::Path::file_name` gives for a path.
pub uninterp spec fn file_name_of(p: Seq<char>) -> Option<Seq<char>>;

/// `std::path::Path::join` on Unix: an absolute `rest` replaces the base;
/// otherwise `rest` is appended, after a `/` unless the base is empty or
/// already ends in one.
pub open spec fn join_of(base: Seq<char>, rest: Seq<char>) -> Seq<char> {
    if rest.len() > 0 && rest[0] == '/' {
        rest
    } else if base.len() == 0 || base.last() == '/' {
        base + rest
    } else {
        base + "/"@ + rest
    }
}

/// What `std::path::Path::with_file_name` gives for a path and a new name.
pub uninterp spec fn with_file_name_of(p: Seq<char>, name: Seq<char>) -> Seq<char>;

pub open spec fn opt_view(o: Option<String>) -> Option<Seq<char>> {
    match o {
        Some(s) => Some(s@),
        None => None,
    }
}

/// Relies on std::path::Path::parent: the path without its final component,
/// or `None` for a root or an empty path.
#[verifier::external_body]
pub(crate) fn path_parent(p: &str) -> (r: Option<String>)
    ensures
        opt_view(r) == parent_of(p@),
{
    std::path::Path::new(p).parent().map(|q| q.to_string_lossy().into_owned())
}

/// Relies on std::path::Path::file_name: the final component, if it is a
/// normal one.
#[verifier::external_body]
pub(crate) fn path_file_name(p: &str) -> (r: Option<String>)
    ensures
        opt_view(r) == file_name_of(p@),
{
    std::path::Path::new(p).file_name().map(|q| q.to_string_lossy().into_owned())
}

/// Relies on std::path::Path::join (as documented for `PathBuf::push` on
/// Unix): `rest` appended to `base` as a further component.
#[verifier::external_body]
pub(crate) fn path_join(base: &str, rest: &str) -> (r: String)
    ensures
        r@ == join_of(base@, rest@),
{
    std::path::Path::new(base).join(rest).to_string_lossy().into_owned()
}

/// Relies on std::path::Path::with_file_name: the path with its final
/// component replaced by `name`.
#[verifier::external_body]
pub(crate) fn path_with_file_name(p: &str, name: &str) -> (r: String)
    ensures
        r@ == with_file_name_of(p@, name@),
{
    std::path::Path::new(p).with_file_name(name).to_string_lossy().into_owned()
}

/// Relies on std::path::Path::is_file: whether a regular file is reachable
/// at the path now. Nothing is known in advance of the answer.
#[verifier::external_body]
pub(crate) fn is_regular_file(p: &str) -> (r: bool) {
    std::path::Path::new(p).is_file()
}

/// Relies on std::path::Path::is_dir: whether a directory is reachable at
/// the path now. Nothing is known in advance of the answer.
#[verifier::external_body]
pub(crate) fn is_directory(p: &str) -> (r: bool) {
    std::path::Path::new(p).is_dir()
}

} // verus!
