//! Working directories: what looking one up on disk gave, and what it
//! resolves to.

use crate::error::{outcome, StartupError};
use crate::name_map::{lookup, NameMap};
use crate::paths::Platform;
use vstd::prelude::*;
use vstd::string::*;

verus! {

/// What was found when a working directory was looked up on disk.
#[derive(Clone, Debug, PartialEq, Eq)]
pub enum DirectoryInspection {
    /// The path is relative and the current directory could not be read.
    NoCurrentDirectory { error: String },
    /// The path could not be made canonical.
    Unresolvable { error: String },
    /// Something other than a directory has this canonical path.
    NotADirectory { canonical: String },
    /// A directory has this canonical path.
    Directory { canonical: String },
}

/// A [`DirectoryInspection`] as mathematical values.
#[verifier::ext_equal]
pub enum DirectoryInspectionView {
    NoCurrentDirectory { error: Seq<char> },
    Unresolvable { error: Seq<char> },
    NotADirectory { canonical: Seq<char> },
    Directory { canonical: Seq<char> },
}

impl DeepView for DirectoryInspection {
    type V = DirectoryInspectionView;

    open spec fn deep_view(&self) -> DirectoryInspectionView {
        match self {
            DirectoryInspection::NoCurrentDirectory {
                error,
            } => DirectoryInspectionView::NoCurrentDirectory { error: error@ },
            DirectoryInspection::Unresolvable { error } => DirectoryInspectionView::Unresolvable {
                error: error@,
            },
            DirectoryInspection::NotADirectory {
                canonical,
            } => DirectoryInspectionView::NotADirectory { canonical: canonical@ },
            DirectoryInspection::Directory { canonical } => DirectoryInspectionView::Directory {
                canonical: canonical@,
            },
        }
    }
}

/// What was found for each working directory that was looked up, by the text
/// it was asked for with.
pub type WorkingDirectories = NameMap<DirectoryInspection>;

/// The working directories that were looked up, as mathematical values.
pub type Inspections = Seq<(Seq<char>, DirectoryInspectionView)>;

/// The canonical path of a working directory, given what was found for it.
pub open spec fn resolved_by(input: Seq<char>, inspection: DirectoryInspectionView) -> Result<
    Seq<char>,
    Seq<Seq<char>>,
> {
    match inspection {
        DirectoryInspectionView::NoCurrentDirectory { error } => Err(
            seq!["failed to read the current directory"@, error],
        ),
        DirectoryInspectionView::Unresolvable { error } => Err(
            seq!["failed to resolve working directory "@ + input, error],
        ),
        DirectoryInspectionView::NotADirectory { canonical } => Err(
            seq!["working directory is not a directory: "@ + canonical],
        ),
        DirectoryInspectionView::Directory { canonical } => Ok(canonical),
    }
}

/// The canonical path of a working directory, given what was found for every
/// directory that was looked up.
pub open spec fn resolved(input: Seq<char>, directories: Inspections) -> Result<
    Seq<char>,
    Seq<Seq<char>>,
> {
    match lookup(directories, input) {
        Some(inspection) => resolved_by(input, inspection),
        None => Err(seq!["working directory was not looked up: "@ + input]),
    }
}

/// The canonical path of an optional working directory.
pub open spec fn resolved_option(input: Option<Seq<char>>, directories: Inspections) -> Result<
    Option<Seq<char>>,
    Seq<Seq<char>>,
> {
    match input {
        Some(input) => match resolved(input, directories) {
            Ok(canonical) => Ok(Some(canonical)),
            Err(messages) => Err(messages),
        },
        None => Ok(None),
    }
}

/// Decides what the working directory `input` resolves to, given what was
/// found for it.
pub fn resolve_inspected_directory(input: &str, inspection: &DirectoryInspection) -> (r: Result<
    String,
    StartupError,
>)
    ensures
        outcome(r) == resolved_by(input@, inspection.deep_view()),
{
    match inspection {
        DirectoryInspection::NoCurrentDirectory { error } => {
            let cause = StartupError::new(error.clone());
            let failure = cause.context("failed to read the current directory".to_owned());
            proof {
                assert(failure@ =~= seq!["failed to read the current directory"@, error@]);
            }
            Err(failure)
        },
        DirectoryInspection::Unresolvable { error } => {
            let cause = StartupError::new(error.clone());
            let message = "failed to resolve working directory ".to_owned().concat(input);
            let failure = cause.context(message);
            proof {
                assert(failure@ =~= seq!["failed to resolve working directory "@ + input@, error@]);
            }
            Err(failure)
        },
        DirectoryInspection::NotADirectory { canonical } => Err(
            StartupError::new(
                "working directory is not a directory: ".to_owned().concat(canonical.as_str()),
            ),
        ),
        DirectoryInspection::Directory { canonical } => Ok(canonical.clone()),
    }
}

/// Where to look for a working directory whose leading `~` is expanded
/// already: at its path if the system takes that for an absolute one, else
/// below the current directory. `below_current` is the path that the system
/// gives `expanded` there, or why the current directory cannot be read. Without
/// a place to look at, that is what was found.
pub fn directory_to_inspect(
    expanded: String,
    is_absolute: bool,
    below_current: Result<String, String>,
) -> (r: Result<String, DirectoryInspection>)
    ensures
        if is_absolute {
            r matches Ok(place) && place@ == expanded@
        } else {
            match below_current {
                Ok(below) => r matches Ok(place) && place@ == below@,
                Err(error) => r matches Err(found) && found.deep_view()
                    == (DirectoryInspectionView::NoCurrentDirectory { error: error@ }),
            }
        },
{
    if is_absolute {
        return Ok(expanded);
    }
    match below_current {
        Ok(below) => Ok(below),
        Err(error) => Err(DirectoryInspection::NoCurrentDirectory { error }),
    }
}

/// Resolves the working directory `input` from what was found on disk.
pub fn resolve_working_directory(input: &str, directories: &WorkingDirectories) -> (r: Result<
    String,
    StartupError,
>)
    ensures
        outcome(r) == resolved(input@, directories.entries()),
{
    match directories.get(input) {
        Some(inspection) => resolve_inspected_directory(input, inspection),
        None => Err(
            StartupError::new("working directory was not looked up: ".to_owned().concat(input)),
        ),
    }
}

/// Resolves a working directory if there is one.
pub fn resolve_optional_directory(
    input: Option<&str>,
    directories: &WorkingDirectories,
) -> (r: Result<Option<String>, StartupError>)
    ensures
        outcome(r) == resolved_option(input.deep_view(), directories.entries()),
{
    match input {
        Some(input) => match resolve_working_directory(input, directories) {
            Ok(canonical) => Ok(Some(canonical)),
            Err(error) => Err(error),
        },
        None => Ok(None),
    }
}

/// Whether a path is `~` followed by a backslash, which divides the parts of a
/// path on Windows alone.
pub open spec fn has_backslash_after_tilde(path: Seq<char>) -> bool {
    path.len() >= 2 && path[0] == '~' && path[1] == '\\'
}

/// Whether a path begins with the home directory's mark: `~` alone or `~` and
/// a path separator.
pub open spec fn begins_at_home(path: Seq<char>, platform: Platform) -> bool {
    &&& path.len() > 0
    &&& path[0] == '~'
    &&& path.len() == 1 || path[1] == '/' || platform is Windows && path[1] == '\\'
}

/// `path` with the home directory, where it is known, in place of the `~` that
/// it begins with.
pub open spec fn tilde_expanded(
    path: Seq<char>,
    home: Option<Seq<char>>,
    platform: Platform,
) -> Seq<char> {
    match home {
        Some(home) => if begins_at_home(path, platform) {
            home + path.skip(1)
        } else {
            path
        },
        None => path,
    }
}

/// `shellexpand::tilde_with_context`: a `~` that stands alone or before a slash
/// gives way to the home directory, if there is one, and every other path is
/// left as it is. A `~` before a backslash is left out: what becomes of it
/// depends on the system that the crate was built for.
#[verifier::external_body]
fn shellexpand_tilde(path: &str, home: Option<&str>) -> (r: String)
    requires
        !has_backslash_after_tilde(path@),
    ensures
        r@ == (match home {
            Some(home) => if path@.len() > 0 && path@[0] == '~' && (path@.len() == 1 || path@[1]
                == '/') {
                home@ + path@.skip(1)
            } else {
                path@
            },
            None => path@,
        }),
{
    shellexpand::tilde_with_context(path, || home).into_owned()
}

/// `path` with the home directory, where it is known, in place of the `~` that
/// it begins with.
pub fn expand_tilde(path: &str, home: Option<&str>, platform: Platform) -> (r: String)
    ensures
        r@ == tilde_expanded(path@, home.deep_view(), platform),
{
    let len: usize = path.unicode_len();
    if len >= 2 && path.get_char(0) == '~' && path.get_char(1) == '\\' {
        if platform == Platform::Windows {
            proof {
                reveal_strlit("~");
            }
            let mut expanded = shellexpand_tilde("~", home);
            proof {
                assert("~"@.skip(1) =~= Seq::empty());
                assert("~"@ + path@.skip(1) =~= path@);
                if home is Some {
                    assert(home->0@ + Seq::<char>::empty() =~= home->0@);
                }
            }
            expanded.append(path.substring_char(1, len));
            proof {
                assert(path@.subrange(1, len as int) =~= path@.skip(1));
            }
            expanded
        } else {
            path.to_owned()
        }
    } else {
        shellexpand_tilde(path, home)
    }
}

} // verus!
