//! Path syntax, taken from `std::path`.
//!
//! Paths travel through the library as text. How a path splits into
//! components is the business of `std::path`, under the syntax of the
//! platform that the library is built for, so the results of its calls are
//! named here rather than spelled out. Each of them depends on the text of
//! the path alone: none looks at the file system.

use vstd::prelude::*;

verus! {

/// The result of `std::path::Path::parent` on the path written `path`.
pub uninterp spec fn path_parent(path: Seq<char>) -> Option<Seq<char>>;

/// The result of `std::path::Path::join` on the path written `base` and `name`.
pub uninterp spec fn path_join(base: Seq<char>, name: Seq<char>) -> Seq<char>;

/// The result of `std::path::Path::file_name` on the path written `path`.
pub uninterp spec fn path_file_name(path: Seq<char>) -> Option<Seq<char>>;

/// How `std::path::Path` prints the path written `path` with `{:?}`.
pub uninterp spec fn path_debug(path: Seq<char>) -> Seq<char>;

/// `std::path::Path::parent`: the path without its final component, if
/// there is one. The result is `path_parent` of the argument.
#[verifier::external_body]
pub(crate) fn parent(path: &str) -> (r: Option<String>)
    ensures
        r.deep_view() == path_parent(path@),
{
    match std::path::Path::new(path).parent() {
        Some(p) => Some(p.to_string_lossy().into_owned()),
        None => None,
    }
}

/// `std::path::Path::join`: `name` adjoined to `base`. The result is
/// `path_join` of the arguments.
#[verifier::external_body]
pub(crate) fn join(base: &str, name: &str) -> (r: String)
    ensures
        r@ == path_join(base@, name@),
{
    std::path::Path::new(base).join(name).to_string_lossy().into_owned()
}

/// `std::path::Path::file_name`: the final component of the path, if there
/// is one. The result is `path_file_name` of the argument.
#[verifier::external_body]
pub(crate) fn file_name(path: &str) -> (r: Option<String>)
    ensures
        r.deep_view() == path_file_name(path@),
{
    match std::path::Path::new(path).file_name() {
        Some(name) => Some(name.to_string_lossy().into_owned()),
        None => None,
    }
}

/// The `Debug` form of `std::path::Path`, as `format!("{:?}", ..)` prints it.
/// The result is `path_debug` of the argument.
#[verifier::external_body]
pub(crate) fn debug(path: &str) -> (r: String)
    ensures
        r@ == path_debug(path@),
{
    format!("{:?}", std::path::Path::new(path))
}

} // verus!
