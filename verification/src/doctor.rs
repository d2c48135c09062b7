//! Diagnosing the application's files without changing them.

use crate::config::{
    empty_config, loaded_config, ConfigFile, ConfigFileView, TerminalStartupConfig,
};
use crate::config_files::PathInspection;
use crate::directory::{Inspections, WorkingDirectories};
use crate::error::{outcome, StartupError};
use crate::keymap::{
    keymap_source_name, TerminalKeymapValidation, TerminalUserKeymapSource,
};
use crate::path_parts::{join_path, joined_path};
use crate::paths::{
    startup_config_path, startup_config_schema_path, PathOptionsView,
    TerminalConfigFilePaths, TerminalPathOptions,
};
use crate::report::{
    labelled_line, optional_line, push_line, push_optional_line,
};
use crate::text::{concatenated, decimal, decimal_text, joined, lemma_concatenated_step};
use crate::validation::{validated, TerminalStartupConfigValidation};
use vstd::prelude::*;
use vstd::string::*;

verus! {

/// What a check came to.
#[derive(Clone, Copy, Debug, PartialEq, Eq, Structural)]
pub enum TerminalDoctorCheckStatus {
    Passed,
    Missing,
    Error,
}

/// How a check's status is shown.
pub open spec fn check_status_name(status: TerminalDoctorCheckStatus) -> Seq<char> {
    match status {
        TerminalDoctorCheckStatus::Passed => "ok"@,
        TerminalDoctorCheckStatus::Missing => "missing"@,
        TerminalDoctorCheckStatus::Error => "error"@,
    }
}

impl TerminalDoctorCheckStatus {
    /// How the status is shown.
    pub fn as_str(self) -> (r: &'static str)
        ensures
            r@ == check_status_name(self),
    {
        match self {
            TerminalDoctorCheckStatus::Passed => "ok",
            TerminalDoctorCheckStatus::Missing => "missing",
            TerminalDoctorCheckStatus::Error => "error",
        }
    }
}

/// Where a checked configuration comes from.
#[derive(Clone, Copy, Debug, PartialEq, Eq, Structural)]
pub enum TerminalDoctorConfigSource {
    /// The file.
    File,
    /// What holds where there is no file.
    Initial,
}

/// How a configuration's source is shown.
pub open spec fn config_source_name(source: TerminalDoctorConfigSource) -> Seq<char> {
    match source {
        TerminalDoctorConfigSource::File => "file"@,
        TerminalDoctorConfigSource::Initial => "initial"@,
    }
}

impl TerminalDoctorConfigSource {
    /// How the source is shown.
    pub fn as_str(self) -> (r: &'static str)
        ensures
            r@ == config_source_name(self),
    {
        match self {
            TerminalDoctorConfigSource::File => "file",
            TerminalDoctorConfigSource::Initial => "initial",
        }
    }
}

/// What is to be at a path.
#[derive(Clone, Copy, Debug, PartialEq, Eq, Structural)]
pub enum TerminalDoctorPathKind {
    Directory,
    File,
}

/// The check of a path.
#[derive(Clone, Debug, PartialEq, Eq)]
pub struct TerminalDoctorPathCheck {
    pub label: &'static str,
    pub path: String,
    pub status: TerminalDoctorCheckStatus,
    pub message: Option<String>,
}

/// A [`TerminalDoctorPathCheck`] as mathematical values.
#[verifier::ext_equal]
pub struct PathCheckView {
    pub label: Seq<char>,
    pub path: Seq<char>,
    pub status: TerminalDoctorCheckStatus,
    pub message: Option<Seq<char>>,
}

impl View for TerminalDoctorPathCheck {
    type V = PathCheckView;

    open spec fn view(&self) -> PathCheckView {
        PathCheckView {
            label: self.label@,
            path: self.path@,
            status: self.status,
            message: self.message.deep_view(),
        }
    }
}

impl DeepView for TerminalDoctorPathCheck {
    type V = PathCheckView;

    open spec fn deep_view(&self) -> PathCheckView {
        self@
    }
}

/// The check of a path where this is found.
pub open spec fn path_check(
    label: Seq<char>,
    path: Seq<char>,
    kind: TerminalDoctorPathKind,
    found: PathInspection,
) -> PathCheckView {
    let (status, message) = match (found, kind) {
        (PathInspection::Directory, TerminalDoctorPathKind::Directory) => (
            TerminalDoctorCheckStatus::Passed,
            None,
        ),
        (PathInspection::File, TerminalDoctorPathKind::File) => (
            TerminalDoctorCheckStatus::Passed,
            None,
        ),
        (PathInspection::Missing { .. }, _) => (TerminalDoctorCheckStatus::Missing, None),
        (PathInspection::Failed { error }, _) => (
            TerminalDoctorCheckStatus::Error,
            Some("failed to inspect path: "@ + error@),
        ),
        (_, TerminalDoctorPathKind::Directory) => (
            TerminalDoctorCheckStatus::Error,
            Some("expected a directory"@),
        ),
        (_, TerminalDoctorPathKind::File) => (
            TerminalDoctorCheckStatus::Error,
            Some("expected a file"@),
        ),
    };
    PathCheckView { label, path, status, message }
}

fn matches_expected_path_kind(found: &PathInspection, expected_kind: TerminalDoctorPathKind) -> (r:
    bool)
    ensures
        r == match expected_kind {
            TerminalDoctorPathKind::Directory => found is Directory,
            TerminalDoctorPathKind::File => found is File,
        },
{
    match (found, expected_kind) {
        (PathInspection::Directory, TerminalDoctorPathKind::Directory) => true,
        (PathInspection::File, TerminalDoctorPathKind::File) => true,
        _ => false,
    }
}

/// Checks what was found at a path.
pub fn diagnose_path(
    label: &'static str,
    path: String,
    expected_kind: TerminalDoctorPathKind,
    found: PathInspection,
) -> (r: TerminalDoctorPathCheck)
    ensures
        r@ == path_check(label@, path@, expected_kind, found),
{
    if matches_expected_path_kind(&found, expected_kind) {
        return TerminalDoctorPathCheck {
            label,
            path,
            status: TerminalDoctorCheckStatus::Passed,
            message: None,
        };
    }
    match found {
        PathInspection::Missing { .. } => TerminalDoctorPathCheck {
            label,
            path,
            status: TerminalDoctorCheckStatus::Missing,
            message: None,
        },
        PathInspection::Failed { error } => TerminalDoctorPathCheck {
            label,
            path,
            status: TerminalDoctorCheckStatus::Error,
            message: Some("failed to inspect path: ".to_owned().concat(error.as_str())),
        },
        _ => TerminalDoctorPathCheck {
            label,
            path,
            status: TerminalDoctorCheckStatus::Error,
            message: Some(
                match expected_kind {
                    TerminalDoctorPathKind::Directory => "expected a directory".to_owned(),
                    TerminalDoctorPathKind::File => "expected a file".to_owned(),
                },
            ),
        },
    }
}

/// The directories that are checked.
#[derive(Clone, Debug, PartialEq, Eq)]
pub struct TerminalDirectoryPaths {
    pub data_dir: String,
    pub config_dir: String,
    pub logs_dir: String,
    pub themes_dir: String,
}

impl TerminalDirectoryPaths {
    /// The directories to check.
    pub fn from_path_options(path_options: &TerminalPathOptions) -> (r: Self)
        ensures
            r.data_dir@ == path_options@.data_dir,
            r.config_dir@ == path_options@.config_dir,
            r.logs_dir@ == joined_path(path_options@.platform, path_options@.data_dir, "logs"@),
            r.themes_dir@ == joined_path(
                path_options@.platform,
                path_options@.config_dir,
                "themes"@,
            ),
    {
        TerminalDirectoryPaths {
            data_dir: path_options.data_dir.clone(),
            config_dir: path_options.config_dir.clone(),
            logs_dir: join_path(path_options.platform, path_options.data_dir.as_str(), "logs"),
            themes_dir: join_path(
                path_options.platform,
                path_options.config_dir.as_str(),
                "themes",
            ),
        }
    }
}

/// What was found at the directories that are checked.
#[derive(Clone, Debug, PartialEq, Eq)]
pub struct FoundDirectories {
    pub data_dir: PathInspection,
    pub config_dir: PathInspection,
    pub logs_dir: PathInspection,
    pub themes_dir: PathInspection,
}

/// The checks of the directories.
pub open spec fn directory_checks(
    path_options: PathOptionsView,
    found: FoundDirectories,
) -> Seq<PathCheckView> {
    seq![
        path_check(
            "data_dir"@,
            path_options.data_dir,
            TerminalDoctorPathKind::Directory,
            found.data_dir,
        ),
        path_check(
            "config_dir"@,
            path_options.config_dir,
            TerminalDoctorPathKind::Directory,
            found.config_dir,
        ),
        path_check(
            "logs_dir"@,
            joined_path(path_options.platform, path_options.data_dir, "logs"@),
            TerminalDoctorPathKind::Directory,
            found.logs_dir,
        ),
        path_check(
            "themes_dir"@,
            joined_path(path_options.platform, path_options.config_dir, "themes"@),
            TerminalDoctorPathKind::Directory,
            found.themes_dir,
        ),
    ]
}

/// Checks the directories.
pub fn diagnose_terminal_directories(
    path_options: &TerminalPathOptions,
    found: FoundDirectories,
) -> (r: Vec<TerminalDoctorPathCheck>)
    ensures
        r.deep_view() == directory_checks(path_options@, found),
{
    let paths = TerminalDirectoryPaths::from_path_options(path_options);
    vec![
        diagnose_path(
            "data_dir",
            paths.data_dir,
            TerminalDoctorPathKind::Directory,
            found.data_dir,
        ),
        diagnose_path(
            "config_dir",
            paths.config_dir,
            TerminalDoctorPathKind::Directory,
            found.config_dir,
        ),
        diagnose_path(
            "logs_dir",
            paths.logs_dir,
            TerminalDoctorPathKind::Directory,
            found.logs_dir,
        ),
        diagnose_path(
            "themes_dir",
            paths.themes_dir,
            TerminalDoctorPathKind::Directory,
            found.themes_dir,
        ),
    ]
}

/// What was found at the configuration files.
#[derive(Clone, Debug, PartialEq, Eq)]
pub struct FoundConfigFiles {
    pub settings_file: PathInspection,
    pub global_settings_file: PathInspection,
    pub keymap_file: PathInspection,
    pub startup_config_file: PathInspection,
    pub startup_config_schema_file: PathInspection,
}

/// The checks of the configuration files at these paths.
pub open spec fn config_file_checks(
    settings_file: Seq<char>,
    global_settings_file: Seq<char>,
    keymap_file: Seq<char>,
    startup_config_file: Seq<char>,
    startup_config_schema_file: Seq<char>,
    found: FoundConfigFiles,
) -> Seq<PathCheckView> {
    seq![
        path_check(
            "settings_file"@,
            settings_file,
            TerminalDoctorPathKind::File,
            found.settings_file,
        ),
        path_check(
            "global_settings_file"@,
            global_settings_file,
            TerminalDoctorPathKind::File,
            found.global_settings_file,
        ),
        path_check(
            "keymap_file"@,
            keymap_file,
            TerminalDoctorPathKind::File,
            found.keymap_file,
        ),
        path_check(
            "startup_config_file"@,
            startup_config_file,
            TerminalDoctorPathKind::File,
            found.startup_config_file,
        ),
        path_check(
            "startup_config_schema_file"@,
            startup_config_schema_file,
            TerminalDoctorPathKind::File,
            found.startup_config_schema_file,
        ),
    ]
}

/// Checks the configuration files.
pub fn diagnose_terminal_config_files(
    file_paths: TerminalConfigFilePaths,
    found: FoundConfigFiles,
) -> (r: Vec<TerminalDoctorPathCheck>)
    ensures
        r.deep_view() == config_file_checks(
            file_paths.settings_file@,
            file_paths.global_settings_file@,
            file_paths.keymap_file@,
            file_paths.startup_config_file@,
            file_paths.startup_config_schema_file@,
            found,
        ),
{
    vec![
        diagnose_path(
            "settings_file",
            file_paths.settings_file,
            TerminalDoctorPathKind::File,
            found.settings_file,
        ),
        diagnose_path(
            "global_settings_file",
            file_paths.global_settings_file,
            TerminalDoctorPathKind::File,
            found.global_settings_file,
        ),
        diagnose_path(
            "keymap_file",
            file_paths.keymap_file,
            TerminalDoctorPathKind::File,
            found.keymap_file,
        ),
        diagnose_path(
            "startup_config_file",
            file_paths.startup_config_file,
            TerminalDoctorPathKind::File,
            found.startup_config_file,
        ),
        diagnose_path(
            "startup_config_schema_file",
            file_paths.startup_config_schema_file,
            TerminalDoctorPathKind::File,
            found.startup_config_schema_file,
        ),
    ]
}

/// The check of the startup configuration.
#[derive(Clone, Debug, PartialEq, Eq)]
pub struct TerminalDoctorStartupConfigCheck {
    pub path: String,
    pub status: TerminalDoctorCheckStatus,
    pub source: Option<TerminalDoctorConfigSource>,
    pub validation: Option<TerminalStartupConfigValidation>,
    pub message: Option<String>,
}

/// A [`TerminalDoctorStartupConfigCheck`] as mathematical values.
#[verifier::ext_equal]
pub struct ConfigCheckView {
    pub path: Seq<char>,
    pub status: TerminalDoctorCheckStatus,
    pub source: Option<TerminalDoctorConfigSource>,
    pub validation: Option<TerminalStartupConfigValidation>,
    pub message: Option<Seq<char>>,
}

impl View for TerminalDoctorStartupConfigCheck {
    type V = ConfigCheckView;

    open spec fn view(&self) -> ConfigCheckView {
        ConfigCheckView {
            path: self.path@,
            status: self.status,
            source: self.source,
            validation: self.validation,
            message: self.message.deep_view(),
        }
    }
}

/// A check that could not look into the configuration.
pub open spec fn unread_config(path: Seq<char>, message: Seq<char>) -> ConfigCheckView {
    ConfigCheckView {
        path,
        status: TerminalDoctorCheckStatus::Error,
        source: None,
        validation: None,
        message: Some(message),
    }
}

/// The check of the startup configuration, where this is found at its path
/// and this is what the file holds.
pub open spec fn config_check(
    path: Seq<char>,
    found: PathInspection,
    file: ConfigFileView,
    directories: Inspections,
) -> ConfigCheckView {
    match found {
        PathInspection::File => {
            let validation = match loaded_config(path, file) {
                Ok(config) => validated(config, directories),
                Err(messages) => Err(messages),
            };
            match validation {
                Ok(validation) => ConfigCheckView {
                    path,
                    status: TerminalDoctorCheckStatus::Passed,
                    source: Some(TerminalDoctorConfigSource::File),
                    validation: Some(validation),
                    message: None,
                },
                Err(messages) => ConfigCheckView {
                    path,
                    status: TerminalDoctorCheckStatus::Error,
                    source: Some(TerminalDoctorConfigSource::File),
                    validation: None,
                    message: Some(joined(messages, ": "@)),
                },
            }
        },
        PathInspection::Missing { .. } => ConfigCheckView {
            path,
            status: TerminalDoctorCheckStatus::Missing,
            source: Some(TerminalDoctorConfigSource::Initial),
            validation: Some(TerminalStartupConfigValidation { layout_count: 1, tab_count: 1 }),
            message: None,
        },
        PathInspection::Failed { error } => unread_config(
            path,
            "failed to inspect startup config: "@ + error@,
        ),
        _ => unread_config(path, "expected a file"@),
    }
}

/// The configuration that sets nothing is valid: one layout with one tab.
pub proof fn law_empty_config_is_valid(directories: Inspections)
    ensures
        validated(empty_config(), directories) == Ok::<
            TerminalStartupConfigValidation,
            Seq<Seq<char>>,
        >(TerminalStartupConfigValidation { layout_count: 1, tab_count: 1 }),
{
}

/// Checks the startup configuration, given what was found at its path and
/// what the file holds.
pub fn diagnose_startup_config_file(
    path: String,
    found: PathInspection,
    file: ConfigFile,
    directories: &WorkingDirectories,
) -> (r: TerminalDoctorStartupConfigCheck)
    ensures
        r@ == config_check(path@, found, file@, directories.entries()),
{
    match found {
        PathInspection::File => {
            let validation = match TerminalStartupConfig::load(path.as_str(), file) {
                Ok(config) => config.validate(directories),
                Err(error) => Err(error),
            };
            match validation {
                Ok(validation) => TerminalDoctorStartupConfigCheck {
                    path,
                    status: TerminalDoctorCheckStatus::Passed,
                    source: Some(TerminalDoctorConfigSource::File),
                    validation: Some(validation),
                    message: None,
                },
                Err(error) => TerminalDoctorStartupConfigCheck {
                    path,
                    status: TerminalDoctorCheckStatus::Error,
                    source: Some(TerminalDoctorConfigSource::File),
                    validation: None,
                    message: Some(error.chain()),
                },
            }
        },
        PathInspection::Missing { .. } => {
            let validation = TerminalStartupConfig::default().validate(directories);
            proof {
                law_empty_config_is_valid(directories.entries());
            }
            TerminalDoctorStartupConfigCheck {
                path,
                status: TerminalDoctorCheckStatus::Missing,
                source: Some(TerminalDoctorConfigSource::Initial),
                validation: validation.ok(),
                message: None,
            }
        },
        PathInspection::Failed { error } => TerminalDoctorStartupConfigCheck {
            path,
            status: TerminalDoctorCheckStatus::Error,
            source: None,
            validation: None,
            message: Some("failed to inspect startup config: ".to_owned().concat(error.as_str())),
        },
        _ => TerminalDoctorStartupConfigCheck {
            path,
            status: TerminalDoctorCheckStatus::Error,
            source: None,
            validation: None,
            message: Some("expected a file".to_owned()),
        },
    }
}

/// The check of the keymaps.
#[derive(Clone, Debug, PartialEq, Eq)]
pub struct TerminalDoctorKeymapCheck {
    pub path: String,
    pub status: TerminalDoctorCheckStatus,
    pub source: Option<TerminalUserKeymapSource>,
    pub validation: Option<TerminalKeymapValidation>,
    pub message: Option<String>,
}

/// A [`TerminalDoctorKeymapCheck`] as mathematical values.
#[verifier::ext_equal]
pub struct KeymapCheckView {
    pub path: Seq<char>,
    pub status: TerminalDoctorCheckStatus,
    pub source: Option<TerminalUserKeymapSource>,
    pub validation: Option<TerminalKeymapValidation>,
    pub message: Option<Seq<char>>,
}

impl View for TerminalDoctorKeymapCheck {
    type V = KeymapCheckView;

    open spec fn view(&self) -> KeymapCheckView {
        KeymapCheckView {
            path: self.path@,
            status: self.status,
            source: self.source,
            validation: self.validation,
            message: self.message.deep_view(),
        }
    }
}

/// The check of the keymaps, where this is found at the user's keymap and
/// validating them gave this.
pub open spec fn keymap_check(
    path: Seq<char>,
    found: PathInspection,
    validation: Result<TerminalKeymapValidation, Seq<Seq<char>>>,
) -> KeymapCheckView {
    let unread = |message: Seq<char>|
        KeymapCheckView {
            path,
            status: TerminalDoctorCheckStatus::Error,
            source: None,
            validation: None,
            message: Some(message),
        };
    match found {
        PathInspection::File | PathInspection::Missing { .. } => {
            let source = if found is File {
                TerminalUserKeymapSource::File
            } else {
                TerminalUserKeymapSource::Initial
            };
            match validation {
                Ok(validation) => KeymapCheckView {
                    path,
                    status: if validation.user_keymap_source == TerminalUserKeymapSource::Initial {
                        TerminalDoctorCheckStatus::Missing
                    } else {
                        TerminalDoctorCheckStatus::Passed
                    },
                    source: Some(source),
                    validation: Some(validation),
                    message: None,
                },
                Err(messages) => KeymapCheckView {
                    path,
                    status: TerminalDoctorCheckStatus::Error,
                    source: Some(source),
                    validation: None,
                    message: Some(joined(messages, ": "@)),
                },
            }
        },
        PathInspection::Failed { error } => unread("failed to inspect keymap: "@ + error@),
        _ => unread("expected a file"@),
    }
}

/// Checks the keymaps, given what was found at the user's keymap and what
/// validating them gave.
pub fn diagnose_keymap(
    path: String,
    found: PathInspection,
    validation: Result<TerminalKeymapValidation, StartupError>,
) -> (r: TerminalDoctorKeymapCheck)
    ensures
        r@ == keymap_check(path@, found, outcome(validation)),
{
    let source = match found {
        PathInspection::File => TerminalUserKeymapSource::File,
        PathInspection::Missing { .. } => TerminalUserKeymapSource::Initial,
        PathInspection::Failed { error } => {
            return TerminalDoctorKeymapCheck {
                path,
                status: TerminalDoctorCheckStatus::Error,
                source: None,
                validation: None,
                message: Some("failed to inspect keymap: ".to_owned().concat(error.as_str())),
            };
        },
        _ => {
            return TerminalDoctorKeymapCheck {
                path,
                status: TerminalDoctorCheckStatus::Error,
                source: None,
                validation: None,
                message: Some("expected a file".to_owned()),
            };
        },
    };
    match validation {
        Ok(validation) => TerminalDoctorKeymapCheck {
            path,
            status: if validation.user_keymap_source == TerminalUserKeymapSource::Initial {
                TerminalDoctorCheckStatus::Missing
            } else {
                TerminalDoctorCheckStatus::Passed
            },
            source: Some(source),
            validation: Some(validation),
            message: None,
        },
        Err(error) => TerminalDoctorKeymapCheck {
            path,
            status: TerminalDoctorCheckStatus::Error,
            source: Some(source),
            validation: None,
            message: Some(error.chain()),
        },
    }
}

/// All checks of the application's files.
#[derive(Clone, Debug, PartialEq, Eq)]
pub struct TerminalDoctorReport {
    pub directories: Vec<TerminalDoctorPathCheck>,
    pub config_files: Vec<TerminalDoctorPathCheck>,
    pub startup_config: TerminalDoctorStartupConfigCheck,
    pub keymap: TerminalDoctorKeymapCheck,
}

/// A [`TerminalDoctorReport`] as mathematical values.
#[verifier::ext_equal]
pub struct DoctorReportView {
    pub directories: Seq<PathCheckView>,
    pub config_files: Seq<PathCheckView>,
    pub startup_config: ConfigCheckView,
    pub keymap: KeymapCheckView,
}

impl View for TerminalDoctorReport {
    type V = DoctorReportView;

    open spec fn view(&self) -> DoctorReportView {
        DoctorReportView {
            directories: self.directories.deep_view(),
            config_files: self.config_files.deep_view(),
            startup_config: self.startup_config@,
            keymap: self.keymap@,
        }
    }
}

/// Whether one of these checks failed.
pub open spec fn some_failed(checks: Seq<PathCheckView>) -> bool {
    exists|i: int|
        0 <= i < checks.len() && (#[trigger] checks[i]).status == TerminalDoctorCheckStatus::Error
}

/// Whether some check of a report failed. What is missing does not count.
pub open spec fn report_failed(report: DoctorReportView) -> bool {
    ||| some_failed(report.directories)
    ||| some_failed(report.config_files)
    ||| report.startup_config.status == TerminalDoctorCheckStatus::Error
    ||| report.keymap.status == TerminalDoctorCheckStatus::Error
}

impl TerminalDoctorPathCheck {
    /// Whether the check failed.
    pub fn has_error(&self) -> (r: bool)
        ensures
            r == (self@.status == TerminalDoctorCheckStatus::Error),
    {
        self.status == TerminalDoctorCheckStatus::Error
    }
}

fn any_failed(checks: &Vec<TerminalDoctorPathCheck>) -> (r: bool)
    ensures
        r == some_failed(checks.deep_view()),
{
    let mut i: usize = 0;
    while i < checks.len()
        invariant
            i <= checks@.len(),
            forall|j: int|
                0 <= j < i ==> (#[trigger] checks.deep_view()[j]).status
                    != TerminalDoctorCheckStatus::Error,
        decreases checks@.len() - i,
    {
        if checks[i].has_error() {
            proof {
                assert(checks.deep_view()[i as int].status == TerminalDoctorCheckStatus::Error);
            }
            return true;
        }
        i = i + 1;
    }
    false
}

impl TerminalDoctorReport {
    /// Whether some check failed. What is missing does not count.
    pub fn has_errors(&self) -> (r: bool)
        ensures
            r == report_failed(self@),
    {
        any_failed(&self.directories) || any_failed(&self.config_files)
            || self.startup_config.status == TerminalDoctorCheckStatus::Error || self.keymap.status
            == TerminalDoctorCheckStatus::Error
    }
}

/// What was found at the application's files.
pub struct DoctorFindings {
    pub directories: FoundDirectories,
    pub config_files: FoundConfigFiles,
    pub startup_config_path: PathInspection,
    pub startup_config: ConfigFile,
    pub keymap_path: PathInspection,
    pub keymap: Result<TerminalKeymapValidation, StartupError>,
}

/// Checks everything that was found.
pub fn diagnose_terminal(
    path_options: &TerminalPathOptions,
    findings: DoctorFindings,
    directories: &WorkingDirectories,
) -> (r: TerminalDoctorReport)
    ensures
        ({
            let platform = path_options@.platform;
            let config_dir = path_options@.config_dir;
            &&& r@.startup_config == config_check(
                startup_config_path(platform, config_dir),
                findings.startup_config_path,
                findings.startup_config@,
                directories.entries(),
            )
            &&& r@.keymap == keymap_check(
                joined_path(platform, config_dir, "keymap.json"@),
                findings.keymap_path,
                outcome(findings.keymap),
            )
            &&& r@.directories == directory_checks(path_options@, findings.directories)
            &&& r@.config_files == config_file_checks(
                joined_path(platform, config_dir, "settings.json"@),
                joined_path(platform, config_dir, "global_settings.json"@),
                joined_path(platform, config_dir, "keymap.json"@),
                startup_config_path(platform, config_dir),
                startup_config_schema_path(platform, config_dir),
                findings.config_files,
            )
        }),
{
    let file_paths = TerminalConfigFilePaths::from_path_options(path_options);
    let startup_config_file = file_paths.startup_config_file.clone();
    let keymap_file = file_paths.keymap_file.clone();
    TerminalDoctorReport {
        directories: diagnose_terminal_directories(path_options, findings.directories),
        config_files: diagnose_terminal_config_files(file_paths, findings.config_files),
        startup_config: diagnose_startup_config_file(
            startup_config_file,
            findings.startup_config_path,
            findings.startup_config,
            directories,
        ),
        keymap: diagnose_keymap(keymap_file, findings.keymap_path, findings.keymap),
    }
}

/// The lines of a report about one path.
pub open spec fn path_check_lines(check: PathCheckView) -> Seq<char> {
    labelled_line(
        "  "@ + check.label + ": "@,
        check_status_name(check.status) + " "@ + check.path,
    ) + optional_line("    message: "@, check.message)
}

/// The lines of a report about paths.
pub open spec fn path_checks_lines(checks: Seq<PathCheckView>) -> Seq<char> {
    concatenated(checks.map_values(|check: PathCheckView| path_check_lines(check)))
}

/// The name of an optional source.
pub open spec fn config_source_option(source: Option<TerminalDoctorConfigSource>) -> Option<
    Seq<char>,
> {
    match source {
        Some(source) => Some(config_source_name(source)),
        None => None,
    }
}

/// The lines of a report about the startup configuration.
pub open spec fn config_check_lines(check: ConfigCheckView) -> Seq<char> {
    labelled_line("  startup_config_file: "@, check_status_name(check.status) + " "@ + check.path)
        + optional_line("  source: "@, config_source_option(check.source)) + (
    match check.validation {
        Some(validation) => labelled_line(
            "  layouts: "@,
            decimal(validation.layout_count as nat),
        ) + labelled_line("  tabs: "@, decimal(validation.tab_count as nat)),
        None => Seq::empty(),
    }) + optional_line("  message: "@, check.message)
}

/// The lines of a report about the keymaps.
pub open spec fn keymap_check_lines(check: KeymapCheckView) -> Seq<char> {
    labelled_line("  keymap_file: "@, check_status_name(check.status) + " "@ + check.path)
        + optional_line(
        "  source: "@,
        match check.source {
            Some(source) => Some(keymap_source_name(source)),
            None => None,
        },
    ) + (match check.validation {
        Some(validation) => labelled_line(
            "  default_bindings: "@,
            decimal(validation.default_binding_count as nat),
        ) + labelled_line("  user_bindings: "@, decimal(validation.user_binding_count as nat)),
        None => Seq::empty(),
    }) + optional_line("  message: "@, check.message)
}

/// The text of a report.
pub open spec fn report_text(report: DoctorReportView) -> Seq<char> {
    labelled_line(
        "status: "@,
        if report_failed(report) {
            "error"@
        } else {
            "ok"@
        },
    ) + "directories:\n"@ + path_checks_lines(report.directories) + "config_files:\n"@
        + path_checks_lines(report.config_files) + "startup_config:\n"@ + config_check_lines(
        report.startup_config,
    ) + "keymap:\n"@ + keymap_check_lines(report.keymap)
}

fn status_and_path(status: TerminalDoctorCheckStatus, path: &String) -> (r: String)
    ensures
        r@ == check_status_name(status) + " "@ + path@,
{
    let mut text = status.as_str().to_owned();
    text.append(" ");
    text.append(path.as_str());
    text
}

/// Adds the lines about one path.
pub fn format_doctor_path_check(output: &mut String, check: &TerminalDoctorPathCheck)
    ensures
        final(output)@ == old(output)@ + path_check_lines(check@),
{
    let ghost before = output@;
    let mut label = "  ".to_owned();
    label.append(check.label);
    label.append(": ");
    push_line(output, label.as_str(), status_and_path(check.status, &check.path).as_str());
    push_optional_line(output, "    message: ", &check.message);
    proof {
        assert(output@ =~= before + path_check_lines(check@));
    }
}

fn push_path_checks(output: &mut String, checks: &Vec<TerminalDoctorPathCheck>)
    ensures
        final(output)@ == old(output)@ + path_checks_lines(checks.deep_view()),
{
    let ghost head = output@;
    let ghost parts = checks.deep_view().map_values(
        |check: PathCheckView| path_check_lines(check),
    );
    let mut i: usize = 0;
    proof {
        assert(parts.take(0) =~= Seq::empty());
        assert(output@ =~= head + concatenated(parts.take(0)));
    }
    while i < checks.len()
        invariant
            i <= checks@.len(),
            parts == checks.deep_view().map_values(|check: PathCheckView| path_check_lines(check)),
            output@ == head + concatenated(parts.take(i as int)),
        decreases checks@.len() - i,
    {
        format_doctor_path_check(output, &checks[i]);
        proof {
            assert(parts[i as int] == path_check_lines(checks@[i as int]@));
            lemma_concatenated_step(head, parts, i as int);
        }
        i = i + 1;
    }
    proof {
        assert(parts.take(parts.len() as int) =~= parts);
    }
}

fn format_config_check(check: &TerminalDoctorStartupConfigCheck) -> (r: String)
    ensures
        r@ == config_check_lines(check@),
{
    let mut output = String::new();
    push_line(
        &mut output,
        "  startup_config_file: ",
        status_and_path(check.status, &check.path).as_str(),
    );
    let source = match check.source {
        Some(source) => Some(source.as_str().to_owned()),
        None => None,
    };
    push_optional_line(&mut output, "  source: ", &source);
    if let Some(validation) = check.validation {
        push_line(
            &mut output,
            "  layouts: ",
            decimal_text(validation.layout_count as u128).as_str(),
        );
        push_line(&mut output, "  tabs: ", decimal_text(validation.tab_count as u128).as_str());
    }
    push_optional_line(&mut output, "  message: ", &check.message);
    proof {
        assert(output@ =~= config_check_lines(check@));
    }
    output
}

fn format_keymap_check(check: &TerminalDoctorKeymapCheck) -> (r: String)
    ensures
        r@ == keymap_check_lines(check@),
{
    let mut output = String::new();
    push_line(
        &mut output,
        "  keymap_file: ",
        status_and_path(check.status, &check.path).as_str(),
    );
    let source = match check.source {
        Some(source) => Some(source.as_str().to_owned()),
        None => None,
    };
    push_optional_line(&mut output, "  source: ", &source);
    if let Some(validation) = check.validation {
        push_line(
            &mut output,
            "  default_bindings: ",
            decimal_text(validation.default_binding_count as u128).as_str(),
        );
        push_line(
            &mut output,
            "  user_bindings: ",
            decimal_text(validation.user_binding_count as u128).as_str(),
        );
    }
    push_optional_line(&mut output, "  message: ", &check.message);
    proof {
        assert(output@ =~= keymap_check_lines(check@));
    }
    output
}

/// The text of a report.
pub fn format_doctor_report(report: &TerminalDoctorReport) -> (r: String)
    ensures
        r@ == report_text(report@),
{
    let mut output = String::new();
    let status = if report.has_errors() {
        "error"
    } else {
        "ok"
    };
    push_line(&mut output, "status: ", status);
    proof {
        assert(output@ =~= labelled_line("status: "@, status@));
    }
    output.append("directories:\n");
    push_path_checks(&mut output, &report.directories);
    output.append("config_files:\n");
    push_path_checks(&mut output, &report.config_files);
    output.append("startup_config:\n");
    output.append(format_config_check(&report.startup_config).as_str());
    output.append("keymap:\n");
    output.append(format_keymap_check(&report.keymap).as_str());
    output
}

} // verus!
