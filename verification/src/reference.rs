//! The module reference: the path or bare file name that the operator gives
//! for the module to load or unload.

use vstd::prelude::*;

use crate::error::module_name_unavailable;
use crate::error::ErrorView;
use crate::error::OperationError;
use crate::text::optional_text;

verus! {

/// The two readings of a module reference when a loaded module is looked for.
#[derive(Debug, Clone, Copy, PartialEq, Eq, Structural)]
pub enum ReferenceKind {
    /// A place on disk: the module is looked for by its full path.
    Path,
    /// A bare name: the module is looked for by its file name.
    Name,
}

/// The reading of a module reference: a path where it leads to something on
/// the local disk, a name otherwise.
pub open spec fn kind_of_reference(exists_locally: bool) -> ReferenceKind {
    if exists_locally {
        ReferenceKind::Path
    } else {
        ReferenceKind::Name
    }
}

/// Reads a module reference as a path or as a name, from whether it leads to
/// something on the local disk.
pub fn reference_kind(exists_locally: bool) -> (kind: ReferenceKind)
    ensures
        kind == kind_of_reference(exists_locally),
{
    if exists_locally {
        ReferenceKind::Path
    } else {
        ReferenceKind::Name
    }
}

/// The final component of a path as `std::path::Path::file_name` finds it,
/// in the path syntax of the platform that the crate is built for.
pub uninterp spec fn path_file_name(path: Seq<char>) -> Option<Seq<char>>;

/// Whether `std::path::Path::is_absolute` holds of a path, in the path
/// syntax of the platform that the crate is built for.
pub uninterp spec fn path_is_absolute(path: Seq<char>) -> bool;

/// The path that `std::path::Path::join` makes of a base and a path, in the
/// path syntax of the platform that the crate is built for.
pub uninterp spec fn path_join(base: Seq<char>, path: Seq<char>) -> Seq<char>;

/// The path without its final component as `std::path::Path::parent` finds
/// it, in the path syntax of the platform that the crate is built for.
pub uninterp spec fn path_parent(path: Seq<char>) -> Option<Seq<char>>;

/// Calls `std::path::Path::file_name` on the path that the text spells.
///
/// Nothing is proved of the result: it is taken to be `path_file_name` of the
/// text. The component of a path given as text is text again, so turning it
/// back into a string changes nothing.
#[verifier::external_body]
fn file_name_of(path: &str) -> (name: Option<String>)
    ensures
        optional_text(name) == path_file_name(path@),
{
    match std::path::Path::new(path).file_name() {
        Some(name) => Some(name.to_string_lossy().into_owned()),
        None => None,
    }
}

/// Calls `std::path::Path::is_absolute` on the path that the text spells.
///
/// Nothing is proved of the result: it is taken to be `path_is_absolute` of
/// the text.
#[verifier::external_body]
pub(crate) fn is_absolute_path(path: &str) -> (absolute: bool)
    ensures
        absolute == path_is_absolute(path@),
{
    std::path::Path::new(path).is_absolute()
}

/// Calls `std::path::Path::join` on the paths that the two texts spell.
///
/// Nothing is proved of the result: it is taken to be `path_join` of the two
/// texts. Both paths are given as text, so the joined path is text too.
#[verifier::external_body]
pub(crate) fn join_paths(base: &str, path: &str) -> (joined: String)
    ensures
        joined@ == path_join(base@, path@),
{
    std::path::Path::new(base).join(path).to_string_lossy().into_owned()
}

/// Calls `std::path::Path::parent` on the path that the text spells.
///
/// Nothing is proved of the result: it is taken to be `path_parent` of the
/// text. The parent of a path given as text is text again, so turning it
/// back into a string changes nothing.
#[verifier::external_body]
pub(crate) fn parent_of(path: &str) -> (parent: Option<String>)
    ensures
        optional_text(parent) == path_parent(path@),
{
    match std::path::Path::new(path).parent() {
        Some(parent) => Some(parent.to_string_lossy().into_owned()),
        None => None,
    }
}

/// The outcome of naming a module as a mathematical value.
pub open spec fn naming_view(outcome: Result<String, OperationError>) -> Result<
    Seq<char>,
    ErrorView,
> {
    match outcome {
        Ok(name) => Ok(name@),
        Err(error) => Err(error@),
    }
}

/// The name of a module whose reference has the given final component: the
/// component itself, and an error where there is none.
pub open spec fn named_or_error(component: Option<Seq<char>>) -> Result<Seq<char>, ErrorView> {
    match component {
        Some(name) => Ok(name),
        None => Err(module_name_unavailable()),
    }
}

/// Takes the final component of a module reference as the module's name, and
/// fails where the reference has none.
pub fn file_name_or_error(component: Option<String>) -> (outcome: Result<String, OperationError>)
    ensures
        naming_view(outcome) == named_or_error(optional_text(component)),
{
    match component {
        Some(name) => Ok(name),
        None => Err(OperationError::module_name_unavailable()),
    }
}

/// The bare file name of a module reference, which the messages about the
/// module show. Fails where the reference has no final component.
pub fn get_file_name(path: &str) -> (outcome: Result<String, OperationError>)
    ensures
        naming_view(outcome) == named_or_error(path_file_name(path@)),
{
    file_name_or_error(file_name_of(path))
}

} // verus!
