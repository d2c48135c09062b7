//! Changing the default profile in the startup configuration file.

use crate::config::{ConfigFile, ConfigFileView, ConfigView, TerminalStartupConfig};
use crate::directory::{Inspections, WorkingDirectories};
use crate::error::{in_context, outcome, StartupError};
use crate::report::{labelled_line, or_default, push_line, text_or};
use crate::text::{copy_text, trim, trimmed};
use crate::validation::{reference_problem, validated};
use vstd::prelude::*;
use vstd::string::*;

verus! {

/// A change of the default profile.
#[derive(Clone, Debug, PartialEq, Eq)]
pub struct TerminalDefaultProfileUpdate {
    /// The startup configuration file.
    pub path: String,
    pub previous_profile: Option<String>,
    pub default_profile: Option<String>,
    pub changed: bool,
}

/// A [`TerminalDefaultProfileUpdate`] as mathematical values.
#[verifier::ext_equal]
pub struct UpdateView {
    pub path: Seq<char>,
    pub previous_profile: Option<Seq<char>>,
    pub default_profile: Option<Seq<char>>,
    pub changed: bool,
}

impl View for TerminalDefaultProfileUpdate {
    type V = UpdateView;

    open spec fn view(&self) -> UpdateView {
        UpdateView {
            path: self.path@,
            previous_profile: self.previous_profile.deep_view(),
            default_profile: self.default_profile.deep_view(),
            changed: self.changed,
        }
    }
}

impl DeepView for TerminalDefaultProfileUpdate {
    type V = UpdateView;

    open spec fn deep_view(&self) -> UpdateView {
        self@
    }
}

/// What changing the default profile comes to.
#[derive(Clone, Debug, PartialEq, Eq)]
pub enum DefaultProfileStep {
    /// There is no file and so no default profile: nothing is to be written.
    Unchanged(TerminalDefaultProfileUpdate),
    /// The file's `default_profile` is to be set to that of the update.
    Rewrite(TerminalDefaultProfileUpdate),
    /// The file is left as it is.
    Refused(StartupError),
}

/// A [`DefaultProfileStep`] as mathematical values.
#[verifier::ext_equal]
pub enum ProfileStepView {
    Unchanged(UpdateView),
    Rewrite(UpdateView),
    Refused(Seq<Seq<char>>),
}

impl View for DefaultProfileStep {
    type V = ProfileStepView;

    open spec fn view(&self) -> ProfileStepView {
        match self {
            DefaultProfileStep::Unchanged(update) => ProfileStepView::Unchanged(update@),
            DefaultProfileStep::Rewrite(update) => ProfileStepView::Rewrite(update@),
            DefaultProfileStep::Refused(error) => ProfileStepView::Refused(error@),
        }
    }
}

/// The configuration with another default profile.
pub open spec fn with_default_profile(
    config: ConfigView,
    default_profile: Option<Seq<char>>,
) -> ConfigView {
    ConfigView { default_profile, ..config }
}

/// What setting the default profile of a configuration comes to. A profile
/// that is set must exist, and the configuration must be valid with it.
pub open spec fn config_update(
    path: Seq<char>,
    default_profile: Option<Seq<char>>,
    config: ConfigView,
    directories: Inspections,
) -> ProfileStepView {
    let problem = match default_profile {
        Some(name) => reference_problem(config, "default_profile"@, name),
        None => None,
    };
    match problem {
        Some(problem) => ProfileStepView::Refused(seq![problem]),
        None => match in_context(
            validated(with_default_profile(config, default_profile), directories),
            "refusing to write invalid terminal startup config "@ + path,
        ) {
            Ok(_) => ProfileStepView::Rewrite(
                UpdateView {
                    path,
                    previous_profile: config.default_profile,
                    default_profile,
                    changed: config.default_profile != default_profile,
                },
            ),
            Err(messages) => ProfileStepView::Refused(messages),
        },
    }
}

/// What changing the default profile of a file comes to.
pub open spec fn file_update(
    path: Seq<char>,
    default_profile: Option<Seq<char>>,
    file: ConfigFileView,
    directories: Inspections,
) -> ProfileStepView {
    match file {
        ConfigFileView::Missing { error } => if default_profile is None {
            ProfileStepView::Unchanged(
                UpdateView { path, previous_profile: None, default_profile: None, changed: false },
            )
        } else {
            ProfileStepView::Refused(seq!["failed to read terminal startup config "@ + path, error])
        },
        ConfigFileView::Unreadable { error } => ProfileStepView::Refused(
            seq!["failed to read terminal startup config "@ + path, error],
        ),
        ConfigFileView::Malformed { error } => ProfileStepView::Refused(
            seq!["failed to parse terminal startup config "@ + path, error],
        ),
        ConfigFileView::Parsed(config) => config_update(path, default_profile, config, directories),
    }
}

/// A profile's name without surrounding white space; it may not be blank.
pub open spec fn profile_name(profile: Seq<char>) -> Result<Seq<char>, Seq<Seq<char>>> {
    if trimmed(profile).len() == 0 {
        Err(seq!["startup profile name is empty"@])
    } else {
        Ok(trimmed(profile))
    }
}

/// A profile's name without surrounding white space; it may not be blank.
pub fn normalize_startup_profile_name(profile: &str) -> (r: Result<String, StartupError>)
    ensures
        outcome(r) == profile_name(profile@),
{
    let profile = trim(profile);
    if profile.is_empty() {
        Err(StartupError::from_text("startup profile name is empty"))
    } else {
        Ok(profile.to_owned())
    }
}

fn same_option(a: &Option<String>, b: &Option<String>) -> (r: bool)
    ensures
        r == (a.deep_view() == b.deep_view()),
{
    match (a, b) {
        (Some(a), Some(b)) => *a == *b,
        (None, None) => true,
        _ => false,
    }
}

fn refused(message: &str, path: &str, error: String) -> (r: DefaultProfileStep)
    ensures
        r@ == ProfileStepView::Refused(seq![message@ + path@, error@]),
{
    let failure = StartupError::new(error).context(message.to_owned().concat(path));
    proof {
        assert(failure@ =~= seq![message@ + path@, error@]);
    }
    DefaultProfileStep::Refused(failure)
}

/// What making `profile` the default profile of a file comes to.
pub open spec fn profile_set(
    path: Seq<char>,
    profile: Seq<char>,
    file: ConfigFileView,
    directories: Inspections,
) -> ProfileStepView {
    match profile_name(profile) {
        Ok(name) => file_update(path, Some(name), file, directories),
        Err(messages) => ProfileStepView::Refused(messages),
    }
}

/// Decides what making `profile` the default profile of the file at `path`
/// comes to.
pub fn set_default_startup_profile(
    path: &str,
    profile: &str,
    file: ConfigFile,
    directories: &WorkingDirectories,
) -> (r: DefaultProfileStep)
    ensures
        r@ == profile_set(path@, profile@, file@, directories.entries()),
{
    match normalize_startup_profile_name(profile) {
        Ok(name) => update_default_startup_profile(path, Some(name), file, directories),
        Err(error) => DefaultProfileStep::Refused(error),
    }
}

/// Decides what leaving the file at `path` without a default profile comes to.
pub fn clear_default_startup_profile(
    path: &str,
    file: ConfigFile,
    directories: &WorkingDirectories,
) -> (r: DefaultProfileStep)
    ensures
        r@ == file_update(path@, None, file@, directories.entries()),
{
    update_default_startup_profile(path, None, file, directories)
}

/// Decides what changing the default profile of the file at `path` comes to.
pub fn update_default_startup_profile(
    path: &str,
    default_profile: Option<String>,
    file: ConfigFile,
    directories: &WorkingDirectories,
) -> (r: DefaultProfileStep)
    ensures
        r@ == file_update(path@, default_profile.deep_view(), file@, directories.entries()),
{
    let startup_config = match file {
        ConfigFile::Missing { error } => {
            if default_profile.is_none() {
                return DefaultProfileStep::Unchanged(
                    TerminalDefaultProfileUpdate {
                        path: path.to_owned(),
                        previous_profile: None,
                        default_profile: None,
                        changed: false,
                    },
                );
            }
            return refused("failed to read terminal startup config ", path, error);
        },
        ConfigFile::Unreadable { error } => {
            return refused("failed to read terminal startup config ", path, error);
        },
        ConfigFile::Malformed { error } => {
            return refused("failed to parse terminal startup config ", path, error);
        },
        ConfigFile::Parsed(config) => config,
    };
    if let Some(name) = &default_profile {
        match startup_config.validate_profile_reference("default_profile", name.as_str()) {
            Ok(_) => {},
            Err(error) => {
                return DefaultProfileStep::Refused(error);
            },
        }
    }
    let mut startup_config = startup_config;
    let previous_profile = copy_text(&startup_config.default_profile);
    startup_config.default_profile = copy_text(&default_profile);
    match startup_config.validate(directories) {
        Ok(_) => {},
        Err(error) => {
            return DefaultProfileStep::Refused(
                error.context(
                    "refusing to write invalid terminal startup config ".to_owned().concat(path),
                ),
            );
        },
    }
    DefaultProfileStep::Rewrite(
        TerminalDefaultProfileUpdate {
            path: path.to_owned(),
            changed: !same_option(&previous_profile, &default_profile),
            previous_profile,
            default_profile,
        },
    )
}

/// Why rewritten text may not be written to the file at `path`, if so.
pub open spec fn rewritten_problem(
    path: Seq<char>,
    rewritten: Result<ConfigView, Seq<char>>,
    directories: Inspections,
) -> Option<Seq<Seq<char>>> {
    match rewritten {
        Ok(config) => match in_context(
            validated(config, directories),
            "refusing to write invalid updated terminal startup config "@ + path,
        ) {
            Ok(_) => None,
            Err(messages) => Some(messages),
        },
        Err(error) => Some(
            seq!["failed to parse updated terminal startup config "@ + path, error],
        ),
    }
}

/// Checks what the rewritten text holds, before it is written to the file at
/// `path`: it must be a valid configuration. `rewritten` is what the text was
/// parsed to, or why it could not be.
pub fn check_rewritten_config(
    path: &str,
    rewritten: Result<TerminalStartupConfig, String>,
    directories: &WorkingDirectories,
) -> (r: Result<(), StartupError>)
    ensures
        ({
            let parsed = match rewritten {
                Ok(config) => Ok(config@),
                Err(error) => Err(error@),
            };
            match rewritten_problem(path@, parsed, directories.entries()) {
                Some(messages) => r matches Err(error) && error@ == messages,
                None => r is Ok,
            }
        }),
{
    match rewritten {
        Ok(config) => match config.validate(directories) {
            Ok(_) => Ok(()),
            Err(error) => Err(
                error.context(
                    "refusing to write invalid updated terminal startup config ".to_owned().concat(
                        path,
                    ),
                ),
            ),
        },
        Err(error) => {
            let message = "failed to parse updated terminal startup config ".to_owned().concat(path);
            let failure = StartupError::new(error).context(message);
            proof {
                assert(failure@ =~= seq![message@, error@]);
            }
            Err(failure)
        },
    }
}

/// What a change of the default profile came to, given the error of the write
/// to the file if there was one.
pub fn finish_default_profile_update(
    update: TerminalDefaultProfileUpdate,
    write_error: Option<String>,
) -> (r: Result<TerminalDefaultProfileUpdate, StartupError>)
    ensures
        outcome(r) == (match write_error {
            Some(error) => Err(
                seq!["failed to write terminal startup config "@ + update@.path, error@],
            ),
            None => Ok(update@),
        }),
{
    match write_error {
        Some(error) => {
            let message = "failed to write terminal startup config ".to_owned().concat(
                update.path.as_str(),
            );
            let failure = StartupError::new(error).context(message);
            proof {
                assert(failure@ =~= seq![message@, error@]);
            }
            Err(failure)
        },
        None => Ok(update),
    }
}

/// The report of a change of the default profile.
pub open spec fn update_report(update: UpdateView) -> Seq<char> {
    labelled_line("startup_config_file: "@, update.path) + "status: ok\n"@ + labelled_line(
        "previous_default_profile: "@,
        text_or(update.previous_profile, "none"@),
    ) + labelled_line("default_profile: "@, text_or(update.default_profile, "none"@))
        + labelled_line(
        "changed: "@,
        if update.changed {
            "true"@
        } else {
            "false"@
        },
    )
}

/// The report of a change of the default profile.
pub fn format_default_profile_update(update: &TerminalDefaultProfileUpdate) -> (r: String)
    ensures
        r@ == update_report(update@),
{
    let mut output = String::new();
    push_line(&mut output, "startup_config_file: ", update.path.as_str());
    proof {
        assert(output@ =~= labelled_line("startup_config_file: "@, update.path@));
    }
    output.append("status: ok\n");
    push_line(
        &mut output,
        "previous_default_profile: ",
        or_default(&update.previous_profile, "none"),
    );
    push_line(
        &mut output,
        "default_profile: ",
        or_default(&update.default_profile, "none"),
    );
    let changed = if update.changed {
        "true"
    } else {
        "false"
    };
    push_line(&mut output, "changed: ", changed);
    output
}

} // verus!
