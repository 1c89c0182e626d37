//! Paths, as the platform that the library is built for writes them. The
//! library puts paths together and takes them apart with `std::path` and
//! looks no further into them.

use vstd::prelude::*;

verus! {

/// The path of `name` in the directory `base`: what `std::path::Path::join`
/// gives.
pub uninterp spec fn joined_path(base: Seq<char>, name: Seq<char>) -> Seq<char>;

/// The last component of `path`, the name of the file that it leads to, or
/// `None` where the path has no component: what the last step of
/// `std::path::Path::iter` gives.
pub uninterp spec fn last_component_of(path: Seq<char>) -> Option<Seq<char>>;

/// Adjoins `name` to the directory `base` with `std::path::Path::join`.
///
/// Trusted: the result is a function of the two paths alone. Which separator
/// is put between them, and what counts as an absolute `name`, is the
/// platform's matter, and nothing is claimed of it.
#[verifier::external_body]
pub(crate) fn join_path(base: &str, name: &str) -> (joined: String)
    ensures
        joined@ == joined_path(base@, name@),
{
    std::path::Path::new(base).join(name).to_string_lossy().into_owned()
}

/// Walks the components of `path` with `std::path::Path::iter` and hands out
/// the last.
///
/// Trusted: the result is a function of the path alone. Where the components
/// part is the platform's matter, and nothing is claimed of it.
#[verifier::external_body]
pub(crate) fn last_component(path: &str) -> (name: Option<String>)
    ensures
        match name {
            Some(name) => last_component_of(path@) == Some(name@),
            None => last_component_of(path@) is None,
        },
{
    match std::path::Path::new(path).iter().last() {
        Some(name) => Some(name.to_string_lossy().into_owned()),
        None => None,
    }
}

} // verus!
