//! Paths, as `std::path` has them.

use std::path::PathBuf;

use vstd::prelude::*;

verus! {

/// `std::path::PathBuf`: a path.
#[verifier::external_type_specification]
#[verifier::external_body]
pub struct ExPathBuf(std::path::PathBuf);

/// One component of a path, as `std::path::Component` tells them apart.
#[derive(Debug, PartialEq)]
pub enum PathPart {
    /// A prefix such as a drive; only some systems have them.
    Prefix(PathBuf),
    /// The root directory.
    RootDir,
    /// `.`
    CurDir,
    /// `..`
    ParentDir,
    /// A name.
    Normal(PathBuf),
}

/// The components of a path.
pub uninterp spec fn path_parts(path: PathBuf) -> Seq<PathPart>;

/// The path that a sequence of components adds up to.
pub uninterp spec fn built_path(parts: Seq<PathPart>) -> PathBuf;

/// A path extended by another.
pub uninterp spec fn joined_path(base: PathBuf, path: PathBuf) -> PathBuf;

/// The path that a text spells.
pub uninterp spec fn text_path(text: Seq<char>) -> PathBuf;

/// A path with another last component.
pub uninterp spec fn renamed_path(path: PathBuf, name: PathBuf) -> PathBuf;

/// The text of a path, with replacement characters for what is no Unicode.
pub uninterp spec fn lossy_text(path: PathBuf) -> Seq<char>;

/// The text of a path, when it is Unicode.
pub uninterp spec fn exact_text(path: PathBuf) -> Option<Seq<char>>;

/// A path that is a single name: it is its own only component.
pub open spec fn is_name(path: PathBuf) -> bool {
    path_parts(path) == seq![PathPart::Normal(path)]
}

/// Every name among the components is a single name.
pub open spec fn proper_names(parts: Seq<PathPart>) -> bool {
    forall|i: int|
        0 <= i < parts.len() ==> (#[trigger] parts[i] matches PathPart::Normal(name) ==> is_name(
            name,
        ))
}

/// Components without dots: names, below the root directory or below nothing.
pub open spec fn dotless(parts: Seq<PathPart>) -> bool {
    forall|i: int|
        0 <= i < parts.len() ==> match #[trigger] parts[i] {
            PathPart::RootDir => i == 0,
            PathPart::Normal(name) => is_name(name),
            _ => false,
        }
}

/// `std::path::Path::components`, each component by its kind, with the text of prefixes and names
/// as a path of its own. A name is a path that is just that name.
#[verifier::external_body]
pub(crate) fn components(path: &PathBuf) -> (parts: Vec<PathPart>)
    ensures
        parts@ == path_parts(*path),
        proper_names(parts@),
{
    path.components().map(|part| match part {
        std::path::Component::Prefix(prefix) => PathPart::Prefix(PathBuf::from(prefix.as_os_str())),
        std::path::Component::RootDir => PathPart::RootDir,
        std::path::Component::CurDir => PathPart::CurDir,
        std::path::Component::ParentDir => PathPart::ParentDir,
        std::path::Component::Normal(name) => PathPart::Normal(PathBuf::from(name)),
    }).collect()
}

/// `PathBuf::from_iter` over components: the path that they add up to. Components without dots
/// are then its components.
#[verifier::external_body]
pub(crate) fn build_path(parts: &Vec<PathPart>) -> (path: PathBuf)
    ensures
        path == built_path(parts@),
        dotless(parts@) ==> path_parts(path) == parts@,
{
    parts.iter().map(|part| match part {
        PathPart::Prefix(prefix) => prefix.as_path(),
        PathPart::RootDir => std::path::Path::new(std::path::Component::RootDir.as_os_str()),
        PathPart::CurDir => std::path::Path::new(std::path::Component::CurDir.as_os_str()),
        PathPart::ParentDir => std::path::Path::new(std::path::Component::ParentDir.as_os_str()),
        PathPart::Normal(name) => name.as_path(),
    }).collect()
}

/// `std::path::Path::join`: the path extended by another. A name becomes its last component.
#[verifier::external_body]
pub(crate) fn join_path(base: &PathBuf, path: &PathBuf) -> (joined: PathBuf)
    ensures
        joined == joined_path(*base, *path),
        is_name(*path) ==> path_parts(joined) == path_parts(*base).push(PathPart::Normal(*path)),
{
    base.join(path)
}

/// `PathBuf::from(&str)`: the path that the text spells.
#[verifier::external_body]
pub(crate) fn path_from_text(text: &str) -> (path: PathBuf)
    ensures
        path == text_path(text@),
{
    PathBuf::from(text)
}

/// `std::path::Path::with_file_name`: the path with another last component.
#[verifier::external_body]
pub(crate) fn rename_path(path: &PathBuf, name: &PathBuf) -> (renamed: PathBuf)
    ensures
        renamed == renamed_path(*path, *name),
{
    path.with_file_name(name)
}

/// `std::path::Path::to_string_lossy`: the text of the path, with replacement characters for what
/// is no Unicode.
#[verifier::external_body]
pub(crate) fn path_lossy(path: &PathBuf) -> (text: String)
    ensures
        text@ == lossy_text(*path),
{
    path.to_string_lossy().into_owned()
}

/// `std::path::Path::to_str`: the text of the path, when it is Unicode.
#[verifier::external_body]
pub(crate) fn path_exact(path: &PathBuf) -> (text: Option<String>)
    ensures
        match text {
            Some(text) => exact_text(*path) == Some(text@),
            None => exact_text(*path) is None,
        },
{
    path.to_str().map(str::to_owned)
}

/// `PathBuf::clone`: the same path.
#[verifier::external_body]
pub(crate) fn copy_path(path: &PathBuf) -> (copy: PathBuf)
    ensures
        copy == *path,
{
    path.clone()
}

} // verus!
