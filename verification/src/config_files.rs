//! Creating the configuration files that are missing.

use crate::error::StartupError;
use crate::path_parts::joined_path;
use crate::paths::{
    startup_config_path, startup_config_schema_path, terminal_startup_config_file,
    Platform, TerminalConfigFilePaths, TerminalPathOptions,
};
use crate::report::{labelled_line, push_line};
use crate::text::{concatenated, lemma_concatenated_step};
use vstd::prelude::*;
use vstd::string::*;

verus! {

/// What the startup configuration file holds at first: comments, and a
/// configuration that sets nothing.
pub const INITIAL_STARTUP_CONFIG: &'static str = r#"// Zed Terminal startup layout.
// Command strings use the same shell-like quoting rules as --new-tab-command.
// Environment variables apply to command-backed startup tabs only.
// tabs[].split may be "right", "down", "left", or "up" to open that tab as a startup split pane.
// tabs[].profile may reference a named profile and may be combined with title and split only.
// Profiles may include display_name, description, icon, color, and hidden metadata.
{
  "working_directory": null,
  "command": null,
  "title": null,
  "shell": null,
  "env": {},
  "tabs": [],
  "default_profile": null,
  "profiles": {}
}
"#;

/// What the startup configuration file holds at first.
pub fn initial_terminal_startup_config_content() -> (r: &'static str)
    ensures
        r@ == INITIAL_STARTUP_CONFIG@,
{
    INITIAL_STARTUP_CONFIG
}

/// A configuration file and what it is to hold if it is missing.
#[derive(Clone, Debug, PartialEq, Eq)]
pub struct PlannedConfigFile {
    pub label: &'static str,
    pub path: String,
    pub content: String,
}

/// A [`PlannedConfigFile`] as mathematical values.
#[verifier::ext_equal]
pub struct PlannedFileView {
    pub label: Seq<char>,
    pub path: Seq<char>,
    pub content: Seq<char>,
}

impl View for PlannedConfigFile {
    type V = PlannedFileView;

    open spec fn view(&self) -> PlannedFileView {
        PlannedFileView { label: self.label@, path: self.path@, content: self.content@ }
    }
}

impl DeepView for PlannedConfigFile {
    type V = PlannedFileView;

    open spec fn deep_view(&self) -> PlannedFileView {
        self@
    }
}

/// What the configuration files that this library does not write itself hold
/// at first.
#[derive(Clone, Debug, PartialEq, Eq)]
pub struct InitialContents {
    pub settings: String,
    pub keymap: String,
    pub startup_config_schema: String,
}

/// The configuration files to create, in order.
pub open spec fn planned_files(
    settings_file: Seq<char>,
    global_settings_file: Seq<char>,
    keymap_file: Seq<char>,
    startup_config_file: Seq<char>,
    startup_config_schema_file: Seq<char>,
    contents: InitialContents,
) -> Seq<PlannedFileView> {
    seq![
        PlannedFileView {
            label: "settings_file"@,
            path: settings_file,
            content: contents.settings@,
        },
        PlannedFileView {
            label: "global_settings_file"@,
            path: global_settings_file,
            content: "{}\n"@,
        },
        PlannedFileView { label: "keymap_file"@, path: keymap_file, content: contents.keymap@ },
        PlannedFileView {
            label: "startup_config_file"@,
            path: startup_config_file,
            content: INITIAL_STARTUP_CONFIG@,
        },
        PlannedFileView {
            label: "startup_config_schema_file"@,
            path: startup_config_schema_file,
            content: contents.startup_config_schema@,
        },
    ]
}

/// The configuration files to create, in order.
pub fn initialize_terminal_config_files_at(
    file_paths: TerminalConfigFilePaths,
    contents: InitialContents,
) -> (r: Vec<PlannedConfigFile>)
    ensures
        r.deep_view() == planned_files(
            file_paths.settings_file@,
            file_paths.global_settings_file@,
            file_paths.keymap_file@,
            file_paths.startup_config_file@,
            file_paths.startup_config_schema_file@,
            contents,
        ),
{
    vec![
        PlannedConfigFile {
            label: "settings_file",
            path: file_paths.settings_file,
            content: contents.settings,
        },
        PlannedConfigFile {
            label: "global_settings_file",
            path: file_paths.global_settings_file,
            content: "{}\n".to_owned(),
        },
        PlannedConfigFile {
            label: "keymap_file",
            path: file_paths.keymap_file,
            content: contents.keymap,
        },
        PlannedConfigFile {
            label: "startup_config_file",
            path: file_paths.startup_config_file,
            content: initial_terminal_startup_config_content().to_owned(),
        },
        PlannedConfigFile {
            label: "startup_config_schema_file",
            path: file_paths.startup_config_schema_file,
            content: contents.startup_config_schema,
        },
    ]
}

/// The configuration files to create below the directories in use, in order.
pub fn initialize_terminal_config_files(
    path_options: &TerminalPathOptions,
    contents: InitialContents,
) -> (r: Vec<PlannedConfigFile>)
    ensures
        r.deep_view() == planned_files(
            joined_path(path_options@.platform, path_options@.config_dir, "settings.json"@),
            joined_path(path_options@.platform, path_options@.config_dir, "global_settings.json"@),
            joined_path(path_options@.platform, path_options@.config_dir, "keymap.json"@),
            startup_config_path(path_options@.platform, path_options@.config_dir),
            startup_config_schema_path(path_options@.platform, path_options@.config_dir),
            contents,
        ),
{
    initialize_terminal_config_files_at(
        TerminalConfigFilePaths::from_path_options(path_options),
        contents,
    )
}

/// The startup configuration file on its own, as it is created before it is
/// opened in an editor.
pub fn startup_config_file_to_ensure(platform: Platform, config_dir: &str) -> (r: PlannedConfigFile)
    ensures
        r@ == (PlannedFileView {
            label: "startup_config_file"@,
            path: startup_config_path(platform, config_dir@),
            content: INITIAL_STARTUP_CONFIG@,
        }),
{
    PlannedConfigFile {
        label: "startup_config_file",
        path: terminal_startup_config_file(platform, config_dir),
        content: initial_terminal_startup_config_content().to_owned(),
    }
}

/// Whether a configuration file was created or was there before.
#[derive(Clone, Copy, Debug, PartialEq, Eq, Structural)]
pub enum TerminalConfigFileInitializationStatus {
    Created,
    Existing,
}

/// How a status is shown.
pub open spec fn status_name(status: TerminalConfigFileInitializationStatus) -> Seq<char> {
    match status {
        TerminalConfigFileInitializationStatus::Created => "created"@,
        TerminalConfigFileInitializationStatus::Existing => "existing"@,
    }
}

impl TerminalConfigFileInitializationStatus {
    /// How the status is shown.
    pub fn as_str(self) -> (r: &'static str)
        ensures
            r@ == status_name(self),
    {
        match self {
            TerminalConfigFileInitializationStatus::Created => "created",
            TerminalConfigFileInitializationStatus::Existing => "existing",
        }
    }
}

/// A configuration file that is in place.
#[derive(Clone, Debug, PartialEq, Eq)]
pub struct TerminalConfigFileInitialization {
    pub label: &'static str,
    pub path: String,
    pub status: TerminalConfigFileInitializationStatus,
}

/// A [`TerminalConfigFileInitialization`] as mathematical values.
#[verifier::ext_equal]
pub struct InitializedFileView {
    pub label: Seq<char>,
    pub path: Seq<char>,
    pub status: TerminalConfigFileInitializationStatus,
}

impl View for TerminalConfigFileInitialization {
    type V = InitializedFileView;

    open spec fn view(&self) -> InitializedFileView {
        InitializedFileView { label: self.label@, path: self.path@, status: self.status }
    }
}

impl DeepView for TerminalConfigFileInitialization {
    type V = InitializedFileView;

    open spec fn deep_view(&self) -> InitializedFileView {
        self@
    }
}

/// What is at a path.
#[derive(Clone, Debug, PartialEq, Eq)]
pub enum PathInspection {
    File,
    Directory,
    /// Neither a file nor a directory.
    Special,
    /// Nothing; `error` is how the system says so.
    Missing { error: String },
    Failed { error: String },
}

/// What came of the last thing done to put a configuration file in place.
#[derive(Clone, Debug, PartialEq, Eq)]
pub enum InitializationEvent {
    /// The path was inspected.
    Inspected(PathInspection),
    /// The directory that holds the file is there, or the path names none.
    ParentReady,
    /// The directory that holds the file could not be created.
    ParentFailed { parent: String, error: String },
    /// The file did not exist and was created empty.
    FileCreated,
    /// Something exists at the path after all.
    FileExists,
    /// The file could not be created.
    CreateFailed { error: String },
    /// The content was written to the file.
    Written,
    /// The content could not be written.
    WriteFailed { error: String },
    /// The path was inspected once more.
    Reinspected(PathInspection),
}

/// What to do next to put a configuration file in place.
#[derive(Clone, Debug, PartialEq, Eq)]
pub enum InitializationStep {
    /// Create the directory that holds the file.
    CreateParent,
    /// Create the file, unless something exists at its path.
    CreateFile,
    /// Write the content to the file that was just created.
    WriteContent,
    /// Inspect the path once more.
    Reinspect,
    /// The file is in place.
    Done(TerminalConfigFileInitialization),
    /// The file could not be put in place.
    Failed(StartupError),
}

/// An [`InitializationStep`] as mathematical values.
#[verifier::ext_equal]
pub enum StepView {
    CreateParent,
    CreateFile,
    WriteContent,
    Reinspect,
    Done(InitializedFileView),
    Failed(Seq<Seq<char>>),
}

impl View for InitializationStep {
    type V = StepView;

    open spec fn view(&self) -> StepView {
        match self {
            InitializationStep::CreateParent => StepView::CreateParent,
            InitializationStep::CreateFile => StepView::CreateFile,
            InitializationStep::WriteContent => StepView::WriteContent,
            InitializationStep::Reinspect => StepView::Reinspect,
            InitializationStep::Done(file) => StepView::Done(file@),
            InitializationStep::Failed(error) => StepView::Failed(error@),
        }
    }
}

/// What to do next to put the file at `path` in place. It begins with an
/// inspection of the path.
pub open spec fn next_step(label: Seq<char>, path: Seq<char>, event: InitializationEvent) -> StepView {
    let existing = StepView::Done(
        InitializedFileView {
            label,
            path,
            status: TerminalConfigFileInitializationStatus::Existing,
        },
    );
    let created = StepView::Done(
        InitializedFileView {
            label,
            path,
            status: TerminalConfigFileInitializationStatus::Created,
        },
    );
    match event {
        InitializationEvent::Inspected(found) => match found {
            PathInspection::File => existing,
            PathInspection::Missing { .. } => StepView::CreateParent,
            PathInspection::Failed { error } => StepView::Failed(
                seq!["failed to inspect "@ + path, error@],
            ),
            _ => StepView::Failed(seq![path + " exists but is not a file"@]),
        },
        InitializationEvent::ParentReady => StepView::CreateFile,
        InitializationEvent::ParentFailed { parent, error } => StepView::Failed(
            seq!["failed to create config directory "@ + parent@, error@],
        ),
        InitializationEvent::FileCreated => StepView::WriteContent,
        InitializationEvent::FileExists => StepView::Reinspect,
        InitializationEvent::CreateFailed { error } => StepView::Failed(
            seq!["failed to create "@ + path, error@],
        ),
        InitializationEvent::Written => created,
        InitializationEvent::WriteFailed { error } => StepView::Failed(
            seq!["failed to write "@ + path, error@],
        ),
        InitializationEvent::Reinspected(found) => match found {
            PathInspection::File => existing,
            PathInspection::Missing { error } => StepView::Failed(
                seq!["failed to inspect "@ + path, error@],
            ),
            PathInspection::Failed { error } => StepView::Failed(
                seq!["failed to inspect "@ + path, error@],
            ),
            _ => StepView::Failed(seq![path + " exists but is not a file"@]),
        },
    }
}

fn failed_step(message: String, error: String) -> (r: InitializationStep)
    ensures
        r@ == StepView::Failed(seq![message@, error@]),
{
    let failure = StartupError::new(error).context(message);
    proof {
        assert(failure@ =~= seq![message@, error@]);
    }
    InitializationStep::Failed(failure)
}

fn existing_file(label: &'static str, path: &str) -> (r: InitializationStep)
    ensures
        r@ == StepView::Done(
            (InitializedFileView {
                label: label@,
                path: path@,
                status: TerminalConfigFileInitializationStatus::Existing,
            }),
        ),
{
    InitializationStep::Done(
        TerminalConfigFileInitialization {
            label,
            path: path.to_owned(),
            status: TerminalConfigFileInitializationStatus::Existing,
        },
    )
}

fn not_a_file(path: &str) -> (r: InitializationStep)
    ensures
        r@ == StepView::Failed(seq![path@ + " exists but is not a file"@]),
{
    InitializationStep::Failed(StartupError::new(path.to_owned().concat(" exists but is not a file")))
}

/// Decides what to do next to put the file at `path` in place. It begins with
/// an inspection of the path.
pub fn initialize_terminal_config_file(
    label: &'static str,
    path: &str,
    event: InitializationEvent,
) -> (r: InitializationStep)
    ensures
        r@ == next_step(label@, path@, event),
{
    match event {
        InitializationEvent::Inspected(found) => match found {
            PathInspection::File => existing_file(label, path),
            PathInspection::Missing { .. } => InitializationStep::CreateParent,
            PathInspection::Failed { error } => failed_step(
                "failed to inspect ".to_owned().concat(path),
                error,
            ),
            _ => not_a_file(path),
        },
        InitializationEvent::ParentReady => InitializationStep::CreateFile,
        InitializationEvent::ParentFailed { parent, error } => failed_step(
            "failed to create config directory ".to_owned().concat(parent.as_str()),
            error,
        ),
        InitializationEvent::FileCreated => InitializationStep::WriteContent,
        InitializationEvent::FileExists => InitializationStep::Reinspect,
        InitializationEvent::CreateFailed { error } => failed_step(
            "failed to create ".to_owned().concat(path),
            error,
        ),
        InitializationEvent::Written => InitializationStep::Done(
            TerminalConfigFileInitialization {
                label,
                path: path.to_owned(),
                status: TerminalConfigFileInitializationStatus::Created,
            },
        ),
        InitializationEvent::WriteFailed { error } => failed_step(
            "failed to write ".to_owned().concat(path),
            error,
        ),
        InitializationEvent::Reinspected(found) => match found {
            PathInspection::File => existing_file(label, path),
            PathInspection::Missing { error } => failed_step(
                "failed to inspect ".to_owned().concat(path),
                error,
            ),
            PathInspection::Failed { error } => failed_step(
                "failed to inspect ".to_owned().concat(path),
                error,
            ),
            _ => not_a_file(path),
        },
    }
}

/// Whether the startup configuration file is in place once the attempt to
/// create it is over.
pub fn ensure_startup_config_file(last_step: &InitializationStep) -> (r: bool)
    ensures
        r == (last_step@ is Done),
{
    match last_step {
        InitializationStep::Done(_) => true,
        _ => false,
    }
}

/// The configuration files that are in place.
#[derive(Clone, Debug, PartialEq, Eq)]
pub struct TerminalConfigInitialization {
    pub files: Vec<TerminalConfigFileInitialization>,
}

/// The line of a report about one configuration file.
pub open spec fn initialized_line(file: InitializedFileView) -> Seq<char> {
    labelled_line(file.label + ": "@, status_name(file.status) + " "@ + file.path)
}

/// The report of the configuration files that are in place.
pub fn format_config_initialization(initialization: &TerminalConfigInitialization) -> (r: String)
    ensures
        r@ == "status: ok\n"@ + concatenated(
            initialization.files.deep_view().map_values(
                |file: InitializedFileView| initialized_line(file),
            ),
        ),
{
    let ghost parts = initialization.files.deep_view().map_values(
        |file: InitializedFileView| initialized_line(file),
    );
    let mut output = "status: ok\n".to_owned();
    let mut i: usize = 0;
    proof {
        assert(parts.take(0) =~= Seq::empty());
        assert(output@ =~= "status: ok\n"@ + concatenated(parts.take(0)));
    }
    while i < initialization.files.len()
        invariant
            i <= initialization.files@.len(),
            parts == initialization.files.deep_view().map_values(
                |file: InitializedFileView| initialized_line(file),
            ),
            output@ == "status: ok\n"@ + concatenated(parts.take(i as int)),
        decreases initialization.files@.len() - i,
    {
        let file = &initialization.files[i];
        let mut value = file.status.as_str().to_owned();
        value.append(" ");
        value.append(file.path.as_str());
        push_line(&mut output, file.label.to_owned().concat(": ").as_str(), value.as_str());
        proof {
            assert(parts[i as int] == initialized_line(initialization.files@[i as int]@));
            lemma_concatenated_step("status: ok\n"@, parts, i as int);
        }
        i = i + 1;
    }
    proof {
        assert(parts.take(parts.len() as int) =~= parts);
    }
    output
}

} // verus!
