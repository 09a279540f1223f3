//! Paths of files, as `std::path` joins them.
use std::path::PathBuf;
use vstd::prelude::*;

verus! {

/// `std::path::PathBuf`.
#[verifier::external_type_specification]
#[verifier::external_body]
pub struct ExPathBuf(std::path::PathBuf);

/// The components that `std::path::Path::components` finds in a path, each as
/// text, with what is not Unicode replaced.
pub uninterp spec fn path_components(path: std::path::PathBuf) -> Seq<Seq<char>>;

/// A name of lower-case letters, hyphens and dots that does not start with a
/// dot. By itself it is a path of one component, on every system, and not a step
/// within the tree.
pub open spec fn is_plain_name(name: Seq<char>) -> bool {
    &&& name.len() > 0
    &&& name[0] != '.'
    &&& forall|i: int|
        0 <= i < name.len() ==> ('a' <= #[trigger] name[i] && name[i] <= 'z') || name[i] == '-'
            || name[i] == '.'
}

/// A directory whose path is read as before once a name stands behind it. What is
/// left out is left out for Windows, where a path may start with a prefix of
/// several parts, such as `\\server\share` or `\\?\C:`:
///
/// - the start of a prefix alone: with a name behind it, `\\server` is a share and
///   not a directory of that name. Such a path has fewer than three components,
///   the first of which starts with a separator and is not the root that other
///   systems write `/`;
/// - a path behind a verbatim prefix, one that starts with `\\?\`: it is
///   normalized when a name is put behind it, and loses each `.` and `..`.
pub open spec fn takes_names(dir: Seq<Seq<char>>) -> bool {
    ||| dir.len() == 0
    ||| dir.len() >= 3 && !(dir[0].len() >= 4 && dir[0].take(4) == r"\\?\"@)
    ||| dir[0].len() > 0 && dir[0][0] != '\\' && (dir[0][0] != '/' || dir[0].len() == 1)
}

/// `dirs::config_dir` looks up where the user's configuration is kept. The
/// answer lies with the environment, so nothing is claimed of it.
pub assume_specification[ dirs::config_dir ]() -> (dir: Option<std::path::PathBuf>)
;

/// Calls `std::path::PathBuf::from` with a dot or a plain name, which makes a
/// path of that one component.
#[verifier::external_body]
pub(crate) fn path_of(name: &str) -> (path: PathBuf)
    requires
        name@ == "."@ || is_plain_name(name@),
    ensures
        path_components(path) == seq![name@],
{
    PathBuf::from(name)
}

/// Calls `std::path::Path::join` with a plain name, which becomes the last
/// component. Nothing is claimed of a directory that does not take names.
#[verifier::external_body]
pub(crate) fn join(dir: &PathBuf, name: &str) -> (path: PathBuf)
    requires
        is_plain_name(name@),
    ensures
        takes_names(path_components(*dir)) ==> path_components(path) == path_components(*dir).push(
            name@,
        ),
{
    dir.join(name)
}

/// Calls `std::path::Path::with_extension` with a plain extension: where the path
/// ends in a plain name, what follows the last dot of the name is replaced.
/// Nothing is claimed of a name without a dot.
#[verifier::external_body]
pub(crate) fn with_extension(path: &PathBuf, extension: &str) -> (renamed: PathBuf)
    requires
        is_plain_name(extension@),
    ensures
        forall|stem: Seq<char>, replaced: Seq<char>|
            path_components(*path).len() > 0 && path_components(*path).last() == #[trigger] (stem
                + "."@ + replaced) && is_plain_name(stem + "."@ + replaced) && stem.len() > 0
                && !replaced.contains('.') ==> path_components(renamed) == path_components(
                *path,
            ).drop_last().push(stem + "."@ + extension@),
{
    path.with_extension(extension)
}

} // verus!
