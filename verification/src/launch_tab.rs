//! Tabs that a terminal window opens with.

use crate::command::{command_from_line, LaunchCommand, LaunchCommandView, Shell, ShellView};
use crate::config::{
    configured_shell, ConfigView, ShellConfigView, TerminalStartupConfig,
    TerminalStartupShellConfig, TerminalStartupSplitDirection,
};
use crate::directory::{
    resolve_optional_directory, resolve_working_directory, resolved, resolved_option, Inspections,
    WorkingDirectories,
};
use crate::error::{collected, in_context, lemma_collected_failure, outcome, StartupError};
use crate::layout::profile_tab;
use crate::name_map::{copy_env, merge_env, EnvVars, NameMap};
use crate::text::{copy_text, decimal, decimal_text, normalize_terminal_title, normalized};
use vstd::prelude::*;
use vstd::string::*;

verus! {

/// A tab that a terminal window opens with.
#[derive(Clone, Debug, PartialEq, Eq)]
pub struct LaunchTab {
    pub working_directory: Option<String>,
    pub command: Option<LaunchCommand>,
    pub env: EnvVars,
    pub title: Option<String>,
    pub shell: Option<Shell>,
    pub split: Option<TerminalStartupSplitDirection>,
}

/// A [`LaunchTab`] as mathematical values.
#[verifier::ext_equal]
pub struct LaunchTabView {
    pub working_directory: Option<Seq<char>>,
    pub command: Option<LaunchCommandView>,
    pub env: Map<Seq<char>, Seq<char>>,
    pub title: Option<Seq<char>>,
    pub shell: Option<ShellView>,
    pub split: Option<TerminalStartupSplitDirection>,
}

impl View for LaunchTab {
    type V = LaunchTabView;

    open spec fn view(&self) -> LaunchTabView {
        LaunchTabView {
            working_directory: self.working_directory.deep_view(),
            command: self.command.deep_view(),
            env: self.env@,
            title: self.title.deep_view(),
            shell: self.shell.deep_view(),
            split: self.split,
        }
    }
}

impl DeepView for LaunchTab {
    type V = LaunchTabView;

    open spec fn deep_view(&self) -> LaunchTabView {
        self@
    }
}

/// The command of an optional command line.
pub open spec fn command_option(line: Option<Seq<char>>) -> Result<
    Option<LaunchCommandView>,
    Seq<Seq<char>>,
> {
    match line {
        Some(line) => match command_from_line(line) {
            Ok(command) => Ok(Some(command)),
            Err(messages) => Err(messages),
        },
        None => Ok(None),
    }
}

/// The command of an optional command line.
pub fn optional_command(line: Option<&str>) -> (r: Result<Option<LaunchCommand>, StartupError>)
    ensures
        outcome(r) == command_option(line.deep_view()),
{
    match line {
        Some(line) => match LaunchCommand::from_command_line(line) {
            Ok(command) => Ok(Some(command)),
            Err(error) => Err(error),
        },
        None => Ok(None),
    }
}

/// A copy of an optional shell.
pub fn copy_shell(shell: Option<&Shell>) -> (r: Option<Shell>)
    ensures
        r.deep_view() == shell.deep_view(),
{
    match shell {
        Some(shell) => Some(shell.copy()),
        None => None,
    }
}

/// The tab that a configured tab stands for, once its working directory and
/// its command are known.
///
/// A command tab runs with the inherited variables and its own, and has no
/// shell. A shell tab has no variables, and its own shell or the inherited one.
pub open spec fn assembled_tab(
    working_directory: Option<Seq<char>>,
    command: Option<LaunchCommandView>,
    inherited_env: Map<Seq<char>, Seq<char>>,
    tab_env: Map<Seq<char>, Seq<char>>,
    title: Option<Seq<char>>,
    inherited_shell: Option<ShellView>,
    tab_shell: Option<ShellConfigView>,
    split: Option<TerminalStartupSplitDirection>,
    label: Seq<char>,
) -> Result<LaunchTabView, Seq<Seq<char>>> {
    match (command, tab_shell) {
        (Some(_), Some(_)) => Err(seq!["shell selection requires a shell tab for "@ + label]),
        (Some(command), None) => Ok(
            LaunchTabView {
                working_directory,
                command: Some(command),
                env: inherited_env.union_prefer_right(tab_env),
                title: normalized(title),
                shell: None,
                split,
            },
        ),
        (None, tab_shell) => if tab_env != Map::<Seq<char>, Seq<char>>::empty() {
            Err(seq!["environment variables require a command for "@ + label])
        } else {
            let shell = match tab_shell {
                Some(config) => match configured_shell(config) {
                    Ok(shell) => Ok(Some(shell)),
                    Err(messages) => Err(seq!["failed to parse shell for "@ + label] + messages),
                },
                None => Ok(inherited_shell),
            };
            match shell {
                Ok(shell) => Ok(
                    LaunchTabView {
                        working_directory,
                        command: None,
                        env: Map::empty(),
                        title: normalized(title),
                        shell,
                        split,
                    },
                ),
                Err(messages) => Err(messages),
            }
        },
    }
}

/// The tab that a configured tab stands for.
pub open spec fn tab_from_fields(
    working_directory: Option<Seq<char>>,
    command: Option<Seq<char>>,
    inherited_env: Map<Seq<char>, Seq<char>>,
    tab_env: Map<Seq<char>, Seq<char>>,
    title: Option<Seq<char>>,
    inherited_shell: Option<ShellView>,
    tab_shell: Option<ShellConfigView>,
    split: Option<TerminalStartupSplitDirection>,
    label: Seq<char>,
    directories: Inspections,
) -> Result<LaunchTabView, Seq<Seq<char>>> {
    match in_context(
        resolved_option(working_directory, directories),
        "failed to resolve working directory for "@ + label,
    ) {
        Ok(working_directory) => match in_context(
            command_option(command),
            "failed to parse command for "@ + label,
        ) {
            Ok(command) => assembled_tab(
                working_directory,
                command,
                inherited_env,
                tab_env,
                title,
                inherited_shell,
                tab_shell,
                split,
                label,
            ),
            Err(messages) => Err(messages),
        },
        Err(messages) => Err(messages),
    }
}

impl LaunchTab {
    /// A copy of this tab.
    pub fn copy(&self) -> (r: Self)
        ensures
            r@ == self@,
    {
        let command = match &self.command {
            Some(command) => Some(command.copy()),
            None => None,
        };
        LaunchTab {
            working_directory: copy_text(&self.working_directory),
            command,
            env: copy_env(&self.env),
            title: copy_text(&self.title),
            shell: copy_shell(self.shell.as_ref()),
            split: self.split,
        }
    }

    /// The tab that a configured tab stands for. `label` names the tab in
    /// errors.
    pub fn from_config(
        working_directory: Option<&str>,
        command: Option<&str>,
        inherited_env: &EnvVars,
        tab_env: &EnvVars,
        title: Option<&str>,
        inherited_shell: Option<&Shell>,
        tab_shell: Option<&TerminalStartupShellConfig>,
        split: Option<TerminalStartupSplitDirection>,
        label: &str,
        directories: &WorkingDirectories,
    ) -> (r: Result<Self, StartupError>)
        ensures
            outcome(r) == tab_from_fields(
                working_directory.deep_view(),
                command.deep_view(),
                inherited_env@,
                tab_env@,
                title.deep_view(),
                inherited_shell.deep_view(),
                tab_shell.deep_view(),
                split,
                label@,
                directories.entries(),
            ),
    {
        let working_directory = match resolve_optional_directory(working_directory, directories) {
            Ok(working_directory) => working_directory,
            Err(error) => {
                return Err(
                    error.context(
                        "failed to resolve working directory for ".to_owned().concat(label),
                    ),
                );
            },
        };
        let command = match optional_command(command) {
            Ok(command) => command,
            Err(error) => {
                return Err(
                    error.context("failed to parse command for ".to_owned().concat(label)),
                );
            },
        };
        if command.is_none() && !tab_env.is_empty() {
            return Err(
                StartupError::new(
                    "environment variables require a command for ".to_owned().concat(label),
                ),
            );
        }
        if command.is_some() && tab_shell.is_some() {
            return Err(
                StartupError::new(
                    "shell selection requires a shell tab for ".to_owned().concat(label),
                ),
            );
        }
        let env = if command.is_some() {
            merge_env(inherited_env, tab_env)
        } else {
            NameMap::new()
        };
        let shell = if command.is_some() {
            None
        } else {
            match tab_shell {
                Some(shell) => match shell.to_shell() {
                    Ok(shell) => Some(shell),
                    Err(error) => {
                        return Err(
                            error.context("failed to parse shell for ".to_owned().concat(label)),
                        );
                    },
                },
                None => copy_shell(inherited_shell),
            }
        };
        Ok(
            LaunchTab {
                working_directory,
                command,
                env,
                title: normalize_terminal_title(title),
                shell,
                split,
            },
        )
    }
}

/// The startup tabs that the command line asks for, as mathematical values.
#[verifier::ext_equal]
pub struct CliTabsView {
    pub directories: Seq<Seq<char>>,
    pub directory_titles: Seq<Seq<char>>,
    pub profiles: Seq<Seq<char>>,
    pub profile_titles: Seq<Seq<char>>,
    pub profile_splits: Seq<TerminalStartupSplitDirection>,
    pub commands: Seq<Seq<char>>,
    pub command_directories: Seq<Seq<char>>,
    pub command_titles: Seq<Seq<char>>,
}

/// The item at `i`, if there is one.
pub open spec fn nth<T>(items: Seq<T>, i: int) -> Option<T> {
    if 0 <= i < items.len() {
        Some(items[i])
    } else {
        None
    }
}

/// The number of the tab that opens for item `i` when `before` tabs were
/// asked for ahead of its kind. The first tab of a window has the number one
/// and is none of these.
pub open spec fn cli_tab_number(before: nat, i: int) -> Seq<char> {
    decimal((before + i + 2) as nat)
}

/// The shell tab for the directory at `i`.
pub open spec fn directory_tab(
    asked: Seq<Seq<char>>,
    titles: Seq<Seq<char>>,
    shell: Option<ShellView>,
    directories: Inspections,
) -> spec_fn(int) -> Result<LaunchTabView, Seq<Seq<char>>> {
    |i: int|
        match in_context(
            resolved(asked[i], directories),
            "failed to resolve startup tab "@ + cli_tab_number(0, i),
        ) {
            Ok(directory) => Ok(
                LaunchTabView {
                    working_directory: Some(directory),
                    command: None,
                    env: Map::empty(),
                    title: normalized(nth(titles, i)),
                    shell,
                    split: None,
                },
            ),
            Err(messages) => Err(messages),
        }
}

/// The tab for the profile at `i`, after `before` tabs.
pub open spec fn named_profile_tab(
    profiles: Seq<Seq<char>>,
    titles: Seq<Seq<char>>,
    splits: Seq<TerminalStartupSplitDirection>,
    before: nat,
    config: ConfigView,
    directories: Inspections,
) -> spec_fn(int) -> Result<LaunchTabView, Seq<Seq<char>>> {
    |i: int|
        match in_context(
            profile_tab(config, profiles[i], nth(splits, i), directories),
            "failed to resolve startup profile tab "@ + cli_tab_number(before, i),
        ) {
            Ok(tab) => match nth(titles, i) {
                Some(title) => Ok(LaunchTabView { title: normalized(Some(title)), ..tab }),
                None => Ok(tab),
            },
            Err(messages) => Err(messages),
        }
}

/// The command tab for the command line at `i`, after `before` tabs.
pub open spec fn command_tab(
    commands: Seq<Seq<char>>,
    command_directories: Seq<Seq<char>>,
    titles: Seq<Seq<char>>,
    before: nat,
    env: Map<Seq<char>, Seq<char>>,
    directories: Inspections,
) -> spec_fn(int) -> Result<LaunchTabView, Seq<Seq<char>>> {
    |i: int|
        match in_context(
            resolved_option(nth(command_directories, i), directories),
            "failed to resolve startup tab "@ + cli_tab_number(before, i) + " working directory"@,
        ) {
            Ok(working_directory) => match in_context(
                command_from_line(commands[i]),
                "failed to parse startup tab "@ + cli_tab_number(before, i),
            ) {
                Ok(command) => Ok(
                    LaunchTabView {
                        working_directory,
                        command: Some(command),
                        env,
                        title: normalized(nth(titles, i)),
                        shell: None,
                        split: None,
                    },
                ),
                Err(messages) => Err(messages),
            },
            Err(messages) => Err(messages),
        }
}

/// Which title, split or directory has no tab to belong to, if one has none.
pub open spec fn unmatched_option(tabs: CliTabsView) -> Option<Seq<char>> {
    if tabs.directory_titles.len() > tabs.directories.len() {
        Some("startup tab title requires a matching --new-tab"@)
    } else if tabs.profile_titles.len() > tabs.profiles.len() {
        Some("startup profile tab title requires a matching --new-tab-profile"@)
    } else if tabs.profile_splits.len() > tabs.profiles.len() {
        Some("startup profile tab split requires a matching --new-tab-profile"@)
    } else if tabs.command_directories.len() > tabs.commands.len() {
        Some("startup command tab directory requires a matching --new-tab-command"@)
    } else if tabs.command_titles.len() > tabs.commands.len() {
        Some("startup command tab title requires a matching --new-tab-command"@)
    } else {
        None
    }
}

/// The startup tabs that the command line asks for: those for directories,
/// then those for profiles, then those for commands.
pub open spec fn cli_tabs(
    tabs: CliTabsView,
    env: Map<Seq<char>, Seq<char>>,
    shell: Option<ShellView>,
    config: ConfigView,
    directories: Inspections,
) -> Result<Seq<LaunchTabView>, Seq<Seq<char>>> {
    match unmatched_option(tabs) {
        Some(problem) => Err(seq![problem]),
        None => match collected(
            tabs.directories.len(),
            directory_tab(tabs.directories, tabs.directory_titles, shell, directories),
        ) {
            Ok(directory_tabs) => match collected(
                tabs.profiles.len(),
                named_profile_tab(
                    tabs.profiles,
                    tabs.profile_titles,
                    tabs.profile_splits,
                    tabs.directories.len(),
                    config,
                    directories,
                ),
            ) {
                Ok(profile_tabs) => match collected(
                    tabs.commands.len(),
                    command_tab(
                        tabs.commands,
                        tabs.command_directories,
                        tabs.command_titles,
                        tabs.directories.len() + tabs.profiles.len(),
                        env,
                        directories,
                    ),
                ) {
                    Ok(command_tabs) => Ok(directory_tabs + profile_tabs + command_tabs),
                    Err(messages) => Err(messages),
                },
                Err(messages) => Err(messages),
            },
            Err(messages) => Err(messages),
        },
    }
}

fn text_at(texts: &Vec<String>, i: usize) -> (r: Option<&str>)
    ensures
        r.deep_view() == nth(texts.deep_view(), i as int),
{
    if i < texts.len() {
        Some(texts[i].as_str())
    } else {
        None
    }
}

fn numbered(message: &str, number: u128) -> (r: String)
    ensures
        r@ == message@ + decimal(number as nat),
{
    message.to_owned().concat(decimal_text(number).as_str())
}

impl LaunchTab {
    /// The shell tabs for directories.
    fn tabs_for_directories(
        asked: &Vec<String>,
        titles: &Vec<String>,
        shell: Option<&Shell>,
        directories: &WorkingDirectories,
    ) -> (r: Result<Vec<Self>, StartupError>)
        ensures
            outcome(r) == collected(
                asked@.len(),
                directory_tab(
                    asked.deep_view(),
                    titles.deep_view(),
                    shell.deep_view(),
                    directories.entries(),
                ),
            ),
    {
        let ghost step = directory_tab(
            asked.deep_view(),
            titles.deep_view(),
            shell.deep_view(),
            directories.entries(),
        );
        let mut tabs: Vec<LaunchTab> = Vec::new();
        let mut i: usize = 0;
        proof {
            assert(tabs.deep_view() =~= Seq::empty());
        }
        while i < asked.len()
            invariant
                i <= asked@.len(),
                step == directory_tab(
                    asked.deep_view(),
                    titles.deep_view(),
                    shell.deep_view(),
                    directories.entries(),
                ),
                collected(i as nat, step) == Ok::<Seq<LaunchTabView>, Seq<Seq<char>>>(
                    tabs.deep_view(),
                ),
            decreases asked@.len() - i,
        {
            let ghost before = tabs.deep_view();
            match resolve_working_directory(asked[i].as_str(), directories) {
                Ok(directory) => {
                    let tab = LaunchTab {
                        working_directory: Some(directory),
                        command: None,
                        env: NameMap::new(),
                        title: normalize_terminal_title(text_at(titles, i)),
                        shell: copy_shell(shell),
                        split: None,
                    };
                    tabs.push(tab);
                    proof {
                        assert(step(i as int) == Ok::<LaunchTabView, Seq<Seq<char>>>(tab@));
                        assert(tabs.deep_view() =~= before.push(tab@));
                    }
                },
                Err(error) => {
                    let number: u128 = i as u128 + 2;
                    let error = error.context(numbered("failed to resolve startup tab ", number));
                    proof {
                        assert(step(i as int) == Err::<LaunchTabView, Seq<Seq<char>>>(error@));
                        lemma_collected_failure((i + 1) as nat, asked@.len(), step);
                    }
                    return Err(error);
                },
            }
            i = i + 1;
        }
        Ok(tabs)
    }

    /// The tabs for profiles, after `before` tabs.
    fn tabs_for_profiles(
        profiles: &Vec<String>,
        titles: &Vec<String>,
        splits: &Vec<TerminalStartupSplitDirection>,
        before: usize,
        config: &TerminalStartupConfig,
        directories: &WorkingDirectories,
    ) -> (r: Result<Vec<Self>, StartupError>)
        ensures
            outcome(r) == collected(
                profiles@.len(),
                named_profile_tab(
                    profiles.deep_view(),
                    titles.deep_view(),
                    splits.deep_view(),
                    before as nat,
                    config@,
                    directories.entries(),
                ),
            ),
    {
        let ghost step = named_profile_tab(
            profiles.deep_view(),
            titles.deep_view(),
            splits.deep_view(),
            before as nat,
            config@,
            directories.entries(),
        );
        let mut tabs: Vec<LaunchTab> = Vec::new();
        let mut i: usize = 0;
        proof {
            assert(tabs.deep_view() =~= Seq::empty());
        }
        while i < profiles.len()
            invariant
                i <= profiles@.len(),
                step == named_profile_tab(
                    profiles.deep_view(),
                    titles.deep_view(),
                    splits.deep_view(),
                    before as nat,
                    config@,
                    directories.entries(),
                ),
                collected(i as nat, step) == Ok::<Seq<LaunchTabView>, Seq<Seq<char>>>(
                    tabs.deep_view(),
                ),
            decreases profiles@.len() - i,
        {
            let ghost earlier = tabs.deep_view();
            let split = if i < splits.len() {
                Some(splits[i])
            } else {
                None
            };
            proof {
                assert(split == nth(splits.deep_view(), i as int));
            }
            match config.profile_launch_tab(profiles[i].as_str(), split, directories) {
                Ok(tab) => {
                    let mut tab = tab;
                    let title = text_at(titles, i);
                    if title.is_some() {
                        tab.title = normalize_terminal_title(title);
                    }
                    tabs.push(tab);
                    proof {
                        assert(step(i as int) == Ok::<LaunchTabView, Seq<Seq<char>>>(tab@));
                        assert(tabs.deep_view() =~= earlier.push(tab@));
                    }
                },
                Err(error) => {
                    let number: u128 = before as u128 + i as u128 + 2;
                    let error = error.context(
                        numbered("failed to resolve startup profile tab ", number),
                    );
                    proof {
                        assert(step(i as int) == Err::<LaunchTabView, Seq<Seq<char>>>(error@));
                        lemma_collected_failure((i + 1) as nat, profiles@.len(), step);
                    }
                    return Err(error);
                },
            }
            i = i + 1;
        }
        Ok(tabs)
    }

    /// The command tabs, after `before` tabs.
    fn tabs_for_commands(
        commands: &Vec<String>,
        command_directories: &Vec<String>,
        titles: &Vec<String>,
        before: u128,
        env: &EnvVars,
        directories: &WorkingDirectories,
    ) -> (r: Result<Vec<Self>, StartupError>)
        requires
            before <= 2 * usize::MAX,
        ensures
            outcome(r) == collected(
                commands@.len(),
                command_tab(
                    commands.deep_view(),
                    command_directories.deep_view(),
                    titles.deep_view(),
                    before as nat,
                    env@,
                    directories.entries(),
                ),
            ),
    {
        let ghost step = command_tab(
            commands.deep_view(),
            command_directories.deep_view(),
            titles.deep_view(),
            before as nat,
            env@,
            directories.entries(),
        );
        let mut tabs: Vec<LaunchTab> = Vec::new();
        let mut i: usize = 0;
        proof {
            assert(tabs.deep_view() =~= Seq::empty());
        }
        while i < commands.len()
            invariant
                i <= commands@.len(),
                before <= 2 * usize::MAX,
                step == command_tab(
                    commands.deep_view(),
                    command_directories.deep_view(),
                    titles.deep_view(),
                    before as nat,
                    env@,
                    directories.entries(),
                ),
                collected(i as nat, step) == Ok::<Seq<LaunchTabView>, Seq<Seq<char>>>(
                    tabs.deep_view(),
                ),
            decreases commands@.len() - i,
        {
            let ghost earlier = tabs.deep_view();
            let number: u128 = before + i as u128 + 2;
            let working_directory = match resolve_optional_directory(
                text_at(command_directories, i),
                directories,
            ) {
                Ok(working_directory) => working_directory,
                Err(error) => {
                    let error = error.context(
                        numbered("failed to resolve startup tab ", number).concat(
                            " working directory",
                        ),
                    );
                    proof {
                        assert(step(i as int) == Err::<LaunchTabView, Seq<Seq<char>>>(error@));
                        lemma_collected_failure((i + 1) as nat, commands@.len(), step);
                    }
                    return Err(error);
                },
            };
            let command = match LaunchCommand::from_command_line(commands[i].as_str()) {
                Ok(command) => command,
                Err(error) => {
                    let error = error.context(numbered("failed to parse startup tab ", number));
                    proof {
                        assert(step(i as int) == Err::<LaunchTabView, Seq<Seq<char>>>(error@));
                        lemma_collected_failure((i + 1) as nat, commands@.len(), step);
                    }
                    return Err(error);
                },
            };
            let tab = LaunchTab {
                working_directory,
                command: Some(command),
                env: copy_env(env),
                title: normalize_terminal_title(text_at(titles, i)),
                shell: None,
                split: None,
            };
            tabs.push(tab);
            proof {
                assert(step(i as int) == Ok::<LaunchTabView, Seq<Seq<char>>>(tab@));
                assert(tabs.deep_view() =~= earlier.push(tab@));
            }
            i = i + 1;
        }
        Ok(tabs)
    }

    /// The startup tabs that the command line asks for. Titles, splits and
    /// directories belong to the tabs of their kind in order.
    pub fn additional_from_cli(
        directories: &Vec<String>,
        directory_titles: &Vec<String>,
        profiles: &Vec<String>,
        profile_titles: &Vec<String>,
        profile_splits: &Vec<TerminalStartupSplitDirection>,
        commands: &Vec<String>,
        command_directories: &Vec<String>,
        command_titles: &Vec<String>,
        inherited_env: &EnvVars,
        inherited_shell: Option<&Shell>,
        startup_config: &TerminalStartupConfig,
        inspected: &WorkingDirectories,
    ) -> (r: Result<Vec<Self>, StartupError>)
        ensures
            outcome(r) == cli_tabs(
                (CliTabsView {
                    directories: directories.deep_view(),
                    directory_titles: directory_titles.deep_view(),
                    profiles: profiles.deep_view(),
                    profile_titles: profile_titles.deep_view(),
                    profile_splits: profile_splits.deep_view(),
                    commands: commands.deep_view(),
                    command_directories: command_directories.deep_view(),
                    command_titles: command_titles.deep_view(),
                }),
                inherited_env@,
                inherited_shell.deep_view(),
                startup_config@,
                inspected.entries(),
            ),
    {
        if directory_titles.len() > directories.len() {
            return Err(
                StartupError::from_text("startup tab title requires a matching --new-tab"),
            );
        }
        if profile_titles.len() > profiles.len() {
            return Err(
                StartupError::from_text(
                    "startup profile tab title requires a matching --new-tab-profile",
                ),
            );
        }
        if profile_splits.len() > profiles.len() {
            return Err(
                StartupError::from_text(
                    "startup profile tab split requires a matching --new-tab-profile",
                ),
            );
        }
        if command_directories.len() > commands.len() {
            return Err(
                StartupError::from_text(
                    "startup command tab directory requires a matching --new-tab-command",
                ),
            );
        }
        if command_titles.len() > commands.len() {
            return Err(
                StartupError::from_text(
                    "startup command tab title requires a matching --new-tab-command",
                ),
            );
        }
        let mut tabs = match Self::tabs_for_directories(
            directories,
            directory_titles,
            inherited_shell,
            inspected,
        ) {
            Ok(tabs) => tabs,
            Err(error) => {
                return Err(error);
            },
        };
        let mut profile_tabs = match Self::tabs_for_profiles(
            profiles,
            profile_titles,
            profile_splits,
            directories.len(),
            startup_config,
            inspected,
        ) {
            Ok(tabs) => tabs,
            Err(error) => {
                return Err(error);
            },
        };
        let mut command_tabs = match Self::tabs_for_commands(
            commands,
            command_directories,
            command_titles,
            directories.len() as u128 + profiles.len() as u128,
            inherited_env,
            inspected,
        ) {
            Ok(tabs) => tabs,
            Err(error) => {
                return Err(error);
            },
        };
        let ghost first = tabs.deep_view();
        let ghost second = profile_tabs.deep_view();
        let ghost third = command_tabs.deep_view();
        tabs.append(&mut profile_tabs);
        tabs.append(&mut command_tabs);
        proof {
            assert(tabs.deep_view() =~= first + second + third);
        }
        Ok(tabs)
    }
}

} // verus!
