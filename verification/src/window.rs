//! What a terminal window does to open its tabs.

use crate::command::{runs_command, Shell, SpawnInTerminal};
use crate::config::{
    loaded_config, ConfigFile, ConfigFileView, TerminalStartupConfig, TerminalStartupSplitDirection,
};
use crate::directory::{Inspections, WorkingDirectories};
use crate::error::{in_context, outcome, StartupError};
use crate::launch_tab::{LaunchTab, LaunchTabView};
use crate::layout::profile_tab;
use crate::text::{quote, quoted};
use vstd::prelude::*;
use vstd::string::*;

verus! {

/// The terminal that a tab opens with.
#[derive(Clone, Debug, PartialEq, Eq)]
pub enum TerminalRequest {
    /// One that runs a task.
    Task(SpawnInTerminal),
    /// One that runs a shell: the given one, or the one that the settings
    /// name.
    Shell { working_directory: Option<String>, shell: Option<Shell> },
}

/// How a tab is opened.
#[derive(Clone, Debug, PartialEq, Eq)]
pub struct TabRequest {
    pub terminal: TerminalRequest,
    pub title: Option<String>,
    /// The split that the terminal opens in, if it opens in none of the tabs.
    pub split: Option<TerminalStartupSplitDirection>,
}

/// How the tab is opened: a command as a task with the tab's variables, else a
/// shell.
pub fn add_launch_tab(tab: LaunchTab) -> (r: TabRequest)
    ensures
        r.title.deep_view() == tab@.title,
        r.split == tab@.split,
        match tab@.command {
            Some(command) => r.terminal matches TerminalRequest::Task(task) && runs_command(
                task,
                command,
                tab@.working_directory,
                tab@.env,
            ),
            None => r.terminal matches TerminalRequest::Shell { working_directory, shell }
                && working_directory.deep_view() == tab@.working_directory && shell.deep_view()
                == tab@.shell,
        },
{
    let terminal = match tab.command {
        Some(command) => TerminalRequest::Task(
            command.into_spawn_task(tab.working_directory, tab.env),
        ),
        None => TerminalRequest::Shell {
            working_directory: tab.working_directory,
            shell: tab.shell,
        },
    };
    TabRequest { terminal, title: tab.title, split: tab.split }
}

/// A tab in `directory`, unless it names a working directory itself.
pub open spec fn tab_or_in(tab: LaunchTabView, directory: Option<Seq<char>>) -> LaunchTabView {
    if tab.working_directory is Some {
        tab
    } else {
        LaunchTabView { working_directory: directory, ..tab }
    }
}

/// The tab that is opened on request: `tab`, in the window's default working
/// directory unless it names one itself.
pub fn add_new_terminal_tab(tab: LaunchTab, default_directory: Option<String>) -> (r: LaunchTab)
    ensures
        r@ == tab_or_in(tab@, default_directory.deep_view()),
{
    let mut tab = tab;
    if tab.working_directory.is_none() {
        tab.working_directory = default_directory;
    }
    tab
}

/// The terminal that is active when a tab is duplicated.
#[derive(Clone, Debug, PartialEq, Eq)]
pub struct ActiveTerminal {
    pub working_directory: Option<String>,
    pub custom_title: Option<String>,
}

/// How a tab is duplicated.
#[derive(Clone, Debug, PartialEq, Eq)]
pub enum DuplicateRequest {
    /// The active terminal is cloned.
    Clone { working_directory: Option<String>, custom_title: Option<String> },
    /// No terminal is active: a new tab is opened.
    Open(LaunchTab),
}

/// How the active tab is duplicated: its terminal is cloned where it is, or in
/// the window's default working directory where that is not known. Without an
/// active terminal `fallback_tab` is opened.
pub fn duplicate_terminal_tab(
    active: Option<ActiveTerminal>,
    fallback_tab: LaunchTab,
    default_directory: Option<String>,
) -> (r: DuplicateRequest)
    ensures
        match active {
            Some(active) => r matches DuplicateRequest::Clone { working_directory, custom_title }
                && custom_title.deep_view() == active.custom_title.deep_view()
                && working_directory.deep_view() == (if active.working_directory is Some {
                active.working_directory.deep_view()
            } else {
                default_directory.deep_view()
            }),
            None => r matches DuplicateRequest::Open(tab) && tab@ == tab_or_in(
                fallback_tab@,
                default_directory.deep_view(),
            ),
        },
{
    match active {
        Some(active) => {
            let working_directory = match active.working_directory {
                Some(directory) => Some(directory),
                None => default_directory,
            };
            DuplicateRequest::Clone { working_directory, custom_title: active.custom_title }
        },
        None => DuplicateRequest::Open(add_new_terminal_tab(fallback_tab, default_directory)),
    }
}

/// The tabs that a window opens with, in the order in which they are opened.
pub fn add_launch_tabs(initial_tab: LaunchTab, additional_tabs: Vec<LaunchTab>) -> (r: Vec<
    LaunchTab,
>)
    ensures
        r.deep_view() == seq![initial_tab@] + additional_tabs.deep_view(),
{
    let ghost further = additional_tabs.deep_view();
    let mut additional_tabs = additional_tabs;
    let mut tabs: Vec<LaunchTab> = Vec::new();
    tabs.push(initial_tab);
    tabs.append(&mut additional_tabs);
    proof {
        assert(tabs.deep_view() =~= seq![initial_tab@] + further);
    }
    tabs
}

/// The tab for a profile of the startup configuration file at `path`, given
/// what the file holds.
pub open spec fn profile_tab_of_file(
    profile: Seq<char>,
    split: Option<TerminalStartupSplitDirection>,
    path: Seq<char>,
    file: ConfigFileView,
    directories: Inspections,
) -> Result<LaunchTabView, Seq<Seq<char>>> {
    match loaded_config(path, file) {
        Ok(config) => in_context(
            profile_tab(config, profile, split, directories),
            "failed to resolve startup profile "@ + quoted(profile),
        ),
        Err(messages) => Err(messages),
    }
}

/// The tab for a profile of the startup configuration file at `path`, given
/// what the file holds.
pub fn launch_tab_for_profile(
    profile: &str,
    split: Option<TerminalStartupSplitDirection>,
    path: &str,
    file: ConfigFile,
    directories: &WorkingDirectories,
) -> (r: Result<LaunchTab, StartupError>)
    ensures
        outcome(r) == profile_tab_of_file(profile@, split, path@, file@, directories.entries()),
{
    let startup_config = match TerminalStartupConfig::load(path, file) {
        Ok(config) => config,
        Err(error) => {
            return Err(error);
        },
    };
    let tab = match split {
        Some(split) => startup_config.profile_launch_tab(profile, Some(split), directories),
        None => startup_config.profile_initial_tab(profile, directories),
    };
    match tab {
        Ok(tab) => Ok(tab),
        Err(error) => Err(
            error.context(
                "failed to resolve startup profile ".to_owned().concat(quote(profile).as_str()),
            ),
        ),
    }
}

/// What is done with the directory that holds the user's themes.
#[derive(Clone, Debug, PartialEq, Eq)]
pub enum ThemesDirectory {
    /// The themes in it are read.
    Read,
    /// It is created first.
    Create,
    /// It cannot be used.
    Refused(StartupError),
}

/// Decides what is done with the directory at `path` that holds the user's
/// themes: `is_directory` says whether what exists there is a directory.
pub fn prepare_themes_directory(path: &str, is_directory: Option<bool>) -> (r: ThemesDirectory)
    ensures
        match is_directory {
            Some(true) => r is Read,
            Some(false) => r matches ThemesDirectory::Refused(error) && error@ == seq![
                "themes path "@ + quoted(path@) + " is not a directory"@,
            ],
            None => r is Create,
        },
{
    match is_directory {
        Some(true) => ThemesDirectory::Read,
        Some(false) => {
            let mut message = "themes path ".to_owned();
            message.append(quote(path).as_str());
            message.append(" is not a directory");
            ThemesDirectory::Refused(StartupError::new(message))
        },
        None => ThemesDirectory::Create,
    }
}

} // verus!
