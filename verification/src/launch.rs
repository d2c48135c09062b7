//! What a run of the application does: the window it opens, or what it does
//! in place of opening one.

use crate::cli::{Cli, CliView};
use crate::command::{command_of, LaunchCommand, LaunchCommandView};
use crate::config::{
    empty_config, loaded_config, ConfigFile, ConfigFileView, ConfigView, TerminalStartupConfig,
};
use crate::directory::{
    resolve_optional_directory, resolved_option, Inspections, WorkingDirectories,
};
use crate::error::{in_context, outcome, StartupError};
use crate::launch_tab::{cli_tabs, CliTabsView, LaunchTab, LaunchTabView};
use crate::layout::{chosen_env, chosen_first_tab, chosen_further_tabs, chosen_shell};
use crate::path_parts::{is_same_path, same_path};
use crate::paths::{
    asked_directories, startup_config_path, terminal_startup_config_file,
    PathOptionsView, Platform, SystemDirectories, TerminalPathOptions,
};
use crate::text::{normalize_terminal_title, normalized, option_str};
use vstd::prelude::*;
use vstd::string::*;

verus! {

/// The window that a run of the application opens.
#[derive(Clone, Debug, PartialEq, Eq)]
pub struct LaunchOptions {
    pub path_options: TerminalPathOptions,
    /// The first tab.
    pub initial_tab: LaunchTab,
    /// The tabs that are open from the start beside the first.
    pub additional_tabs: Vec<LaunchTab>,
    /// What a tab that is opened later starts from.
    pub new_terminal_tab: LaunchTab,
}

/// A [`LaunchOptions`] as mathematical values.
#[verifier::ext_equal]
pub struct LaunchOptionsView {
    pub path_options: PathOptionsView,
    pub initial_tab: LaunchTabView,
    pub additional_tabs: Seq<LaunchTabView>,
    pub new_terminal_tab: LaunchTabView,
}

impl View for LaunchOptions {
    type V = LaunchOptionsView;

    open spec fn view(&self) -> LaunchOptionsView {
        LaunchOptionsView {
            path_options: self.path_options@,
            initial_tab: self.initial_tab@,
            additional_tabs: self.additional_tabs.deep_view(),
            new_terminal_tab: self.new_terminal_tab@,
        }
    }
}

impl DeepView for LaunchOptions {
    type V = LaunchOptionsView;

    open spec fn deep_view(&self) -> LaunchOptionsView {
        self@
    }
}

/// The configuration that a command line works with.
pub open spec fn effective_config(cli: CliView, config: ConfigView) -> ConfigView {
    if cli.no_startup_config {
        empty_config()
    } else {
        config
    }
}

/// The profile that a command line asks for.
pub open spec fn effective_profile(cli: CliView) -> Option<Seq<char>> {
    if cli.no_startup_config {
        None
    } else {
        cli.profile
    }
}

/// The working directory that a command line asks for.
pub open spec fn asked_directory(cli: CliView) -> Option<Seq<char>> {
    if cli.working_directory is Some {
        cli.working_directory
    } else {
        cli.directory
    }
}

/// The startup tabs that a command line asks for.
pub open spec fn asked_tabs(cli: CliView) -> CliTabsView {
    CliTabsView {
        directories: cli.new_tabs,
        directory_titles: cli.new_tab_titles,
        profiles: cli.new_tab_profiles,
        profile_titles: cli.new_tab_profile_titles,
        profile_splits: cli.new_tab_profile_splits,
        commands: cli.new_tab_commands,
        command_directories: cli.new_tab_command_directories,
        command_titles: cli.new_tab_command_titles,
    }
}

/// The configured first tab in the working directory that was asked for, if
/// one was.
pub open spec fn in_directory(tab: LaunchTabView, directory: Option<Seq<char>>) -> LaunchTabView {
    match directory {
        Some(directory) => LaunchTabView { working_directory: Some(directory), ..tab },
        None => tab,
    }
}

/// The configured first tab with the command and the title that were asked
/// for, if they were.
pub open spec fn with_command_and_title(
    tab: LaunchTabView,
    command: Option<LaunchCommandView>,
    env: Map<Seq<char>, Seq<char>>,
    title: Option<Seq<char>>,
) -> LaunchTabView {
    let tab = match command {
        Some(command) => LaunchTabView { command: Some(command), env, shell: None, ..tab },
        None => tab,
    };
    match title {
        Some(title) => LaunchTabView { title: normalized(Some(title)), ..tab },
        None => tab,
    }
}

/// The window to open, once the working directory that was asked for is known.
pub open spec fn window_in(
    cli: CliView,
    config: ConfigView,
    path_options: PathOptionsView,
    directory: Option<Seq<char>>,
    directories: Inspections,
) -> Result<LaunchOptionsView, Seq<Seq<char>>> {
    let config = effective_config(cli, config);
    let profile = effective_profile(cli);
    match in_context(
        chosen_env(config, profile),
        "failed to resolve configured startup environment"@,
    ) {
        Ok(env) => match in_context(
            chosen_shell(config, profile),
            "failed to resolve configured startup shell"@,
        ) {
            Ok(shell) => match in_context(
                chosen_first_tab(config, profile, directories),
                "failed to resolve configured new terminal tab"@,
            ) {
                Ok(tab) => match in_context(
                    chosen_further_tabs(config, profile, directories),
                    "failed to resolve configured startup tabs"@,
                ) {
                    Ok(configured_tabs) => match cli_tabs(
                        asked_tabs(cli),
                        env,
                        shell,
                        config,
                        directories,
                    ) {
                        Ok(asked_tabs) => Ok(
                            LaunchOptionsView {
                                path_options,
                                initial_tab: with_command_and_title(
                                    in_directory(tab, directory),
                                    command_of(cli.command),
                                    env,
                                    cli.title,
                                ),
                                additional_tabs: configured_tabs + asked_tabs,
                                new_terminal_tab: in_directory(tab, directory),
                            },
                        ),
                        Err(messages) => Err(messages),
                    },
                    Err(messages) => Err(messages),
                },
                Err(messages) => Err(messages),
            },
            Err(messages) => Err(messages),
        },
        Err(messages) => Err(messages),
    }
}

/// The window that a command line asks for.
pub open spec fn window(
    cli: CliView,
    config: ConfigView,
    path_options: PathOptionsView,
    directories: Inspections,
) -> Result<LaunchOptionsView, Seq<Seq<char>>> {
    match resolved_option(asked_directory(cli), directories) {
        Ok(directory) => window_in(cli, config, path_options, directory, directories),
        Err(messages) => Err(messages),
    }
}

impl LaunchOptions {
    /// The window that a command line asks for.
    pub fn from_cli_parts(
        cli: Cli,
        startup_config: TerminalStartupConfig,
        path_options: TerminalPathOptions,
        directories: &WorkingDirectories,
    ) -> (r: Result<Self, StartupError>)
        ensures
            outcome(r) == window(cli@, startup_config@, path_options@, directories.entries()),
    {
        let ghost asked = cli@;
        let asked_directory = match &cli.working_directory {
            Some(directory) => Some(directory.as_str()),
            None => option_str(&cli.directory),
        };
        let working_directory = match resolve_optional_directory(asked_directory, directories) {
            Ok(directory) => directory,
            Err(error) => {
                return Err(error);
            },
        };
        let startup_config = if cli.no_startup_config {
            TerminalStartupConfig::default()
        } else {
            startup_config
        };
        let profile = if cli.no_startup_config {
            None
        } else {
            option_str(&cli.profile)
        };
        let inherited_env = match startup_config.inherited_env(profile) {
            Ok(env) => env,
            Err(error) => {
                return Err(
                    error.context("failed to resolve configured startup environment".to_owned()),
                );
            },
        };
        let inherited_shell = match startup_config.inherited_shell(profile) {
            Ok(shell) => shell,
            Err(error) => {
                return Err(error.context("failed to resolve configured startup shell".to_owned()));
            },
        };
        let mut new_terminal_tab = match startup_config.initial_tab(profile, directories) {
            Ok(tab) => tab,
            Err(error) => {
                return Err(
                    error.context("failed to resolve configured new terminal tab".to_owned()),
                );
            },
        };
        if let Some(directory) = working_directory {
            new_terminal_tab.working_directory = Some(directory);
        }
        let mut additional_tabs = match startup_config.additional_tabs(profile, directories) {
            Ok(tabs) => tabs,
            Err(error) => {
                return Err(error.context("failed to resolve configured startup tabs".to_owned()));
            },
        };
        let mut asked_tabs = match LaunchTab::additional_from_cli(
            &cli.new_tabs,
            &cli.new_tab_titles,
            &cli.new_tab_profiles,
            &cli.new_tab_profile_titles,
            &cli.new_tab_profile_splits,
            &cli.new_tab_commands,
            &cli.new_tab_command_directories,
            &cli.new_tab_command_titles,
            &inherited_env,
            inherited_shell.as_ref(),
            &startup_config,
            directories,
        ) {
            Ok(tabs) => tabs,
            Err(error) => {
                return Err(error);
            },
        };
        let mut initial_tab = new_terminal_tab.copy();
        if cli.title.is_some() {
            initial_tab.title = normalize_terminal_title(option_str(&cli.title));
        }
        if let Some(command) = LaunchCommand::from_args(cli.command) {
            initial_tab.command = Some(command);
            initial_tab.env = inherited_env;
            initial_tab.shell = None;
        }
        let ghost configured = additional_tabs.deep_view();
        let ghost further = asked_tabs.deep_view();
        additional_tabs.append(&mut asked_tabs);
        proof {
            assert(additional_tabs.deep_view() =~= configured + further);
        }
        Ok(LaunchOptions { path_options, initial_tab, additional_tabs, new_terminal_tab })
    }

    /// The working directories that the window's tabs start in, each once, in
    /// the order in which the tabs name them.
    pub fn startup_working_directories(&self) -> (r: Vec<String>)
        ensures
            r.deep_view() == distinct_directories(self@.path_options.platform, startup_tabs(self@)),
    {
        let platform = self.path_options.platform;
        let ghost tabs = startup_tabs(self@);
        let mut directories: Vec<String> = Vec::new();
        proof {
            assert(directories.deep_view() =~= Seq::empty());
            assert(tabs.take(0) =~= Seq::empty());
            assert(distinct_directories(platform, tabs.take(0)) == Seq::<Seq<char>>::empty());
            assert(tabs.take(1).drop_last() =~= tabs.take(0));
            assert(tabs.take(1).last() == self.initial_tab@);
            assert(distinct_directories(platform, tabs.take(1)) == with_directory(
                platform,
                Seq::empty(),
                self.initial_tab@,
            ));
            assert(tabs.take(2).drop_last() =~= tabs.take(1));
            assert(tabs.take(2).last() == self.new_terminal_tab@);
        }
        add_directory(platform, &mut directories, &self.initial_tab);
        add_directory(platform, &mut directories, &self.new_terminal_tab);
        let mut i: usize = 0;
        while i < self.additional_tabs.len()
            invariant
                i <= self.additional_tabs@.len(),
                tabs == startup_tabs(self@),
                platform == self.path_options.platform,
                directories.deep_view() == distinct_directories(platform, tabs.take(i + 2)),
            decreases self.additional_tabs@.len() - i,
        {
            proof {
                assert(tabs.take(i + 3).drop_last() =~= tabs.take(i + 2));
                assert(tabs.take(i + 3).last() == self.additional_tabs@[i as int]@);
            }
            add_directory(platform, &mut directories, &self.additional_tabs[i]);
            i = i + 1;
        }
        proof {
            assert(tabs.take(tabs.len() as int) =~= tabs);
        }
        directories
    }

    /// A window that is opened later: its one tab is what new tabs start from.
    pub fn runtime_new_window_options(&self) -> (r: Self)
        ensures
            r@ == runtime_window(self@),
    {
        let mut initial_tab = self.new_terminal_tab.copy();
        initial_tab.split = None;
        let r = LaunchOptions {
            path_options: self.path_options.copy(),
            initial_tab: initial_tab.copy(),
            additional_tabs: Vec::new(),
            new_terminal_tab: initial_tab,
        };
        proof {
            assert(r.additional_tabs.deep_view() =~= Seq::empty());
        }
        r
    }
}

/// All tabs that a window's options hold.
pub open spec fn startup_tabs(options: LaunchOptionsView) -> Seq<LaunchTabView> {
    seq![options.initial_tab, options.new_terminal_tab] + options.additional_tabs
}

/// The working directories of tabs, each once, where it first occurs. Paths
/// that are the same part by part are one directory.
pub open spec fn distinct_directories(
    platform: Platform,
    tabs: Seq<LaunchTabView>,
) -> Seq<Seq<char>>
    decreases tabs.len(),
{
    if tabs.len() == 0 {
        Seq::empty()
    } else {
        with_directory(platform, distinct_directories(platform, tabs.drop_last()), tabs.last())
    }
}

/// Whether a directory is the same as one of these.
pub open spec fn lists_directory(
    platform: Platform,
    directories: Seq<Seq<char>>,
    directory: Seq<char>,
) -> bool {
    exists|i: int|
        0 <= i < directories.len() && same_path(platform, #[trigger] directories[i], directory)
}

/// `directories` with the working directory of `tab`, unless it is there.
pub open spec fn with_directory(
    platform: Platform,
    directories: Seq<Seq<char>>,
    tab: LaunchTabView,
) -> Seq<Seq<char>> {
    match tab.working_directory {
        Some(directory) => if lists_directory(platform, directories, directory) {
            directories
        } else {
            directories.push(directory)
        },
        None => directories,
    }
}

/// The window that is opened later, while one with `options` runs.
pub open spec fn runtime_window(options: LaunchOptionsView) -> LaunchOptionsView {
    let tab = LaunchTabView { split: None, ..options.new_terminal_tab };
    LaunchOptionsView {
        path_options: options.path_options,
        initial_tab: tab,
        additional_tabs: Seq::empty(),
        new_terminal_tab: tab,
    }
}

fn contains_directory(platform: Platform, directories: &Vec<String>, directory: &String) -> (r:
    bool)
    ensures
        r == lists_directory(platform, directories.deep_view(), directory@),
{
    let mut i: usize = 0;
    while i < directories.len()
        invariant
            i <= directories@.len(),
            forall|j: int|
                0 <= j < i ==> !same_path(
                    platform,
                    #[trigger] directories.deep_view()[j],
                    directory@,
                ),
        decreases directories@.len() - i,
    {
        if is_same_path(platform, directories[i].as_str(), directory.as_str()) {
            proof {
                assert(same_path(platform, directories.deep_view()[i as int], directory@));
            }
            return true;
        }
        i = i + 1;
    }
    false
}

fn add_directory(platform: Platform, directories: &mut Vec<String>, tab: &LaunchTab)
    ensures
        final(directories).deep_view() == with_directory(
            platform,
            old(directories).deep_view(),
            tab@,
        ),
{
    let ghost before = directories.deep_view();
    if let Some(directory) = &tab.working_directory {
        if !contains_directory(platform, directories, directory) {
            directories.push(directory.clone());
            proof {
                assert(directories.deep_view() =~= before.push(directory@));
            }
        }
    }
}

/// What a run of the application does.
#[derive(Clone, Debug, PartialEq, Eq)]
pub enum TerminalCliCommand {
    PrintPaths(TerminalPathOptions),
    ListProfiles {
        path_options: TerminalPathOptions,
        startup_config: TerminalStartupConfig,
        include_hidden: bool,
    },
    SetDefaultProfile { path_options: TerminalPathOptions, profile: String },
    ClearDefaultProfile { path_options: TerminalPathOptions },
    ValidateStartupConfig {
        path_options: TerminalPathOptions,
        startup_config: TerminalStartupConfig,
    },
    PrintStartupLayout(LaunchOptions),
    PrintStartupConfigSchema { path_options: TerminalPathOptions },
    InitConfig { path_options: TerminalPathOptions },
    Doctor { path_options: TerminalPathOptions },
    ValidateKeymap { path_options: TerminalPathOptions },
    Launch(LaunchOptions),
}

/// A [`TerminalCliCommand`] as mathematical values.
#[verifier::ext_equal]
pub enum CliCommandView {
    PrintPaths(PathOptionsView),
    ListProfiles {
        path_options: PathOptionsView,
        startup_config: ConfigView,
        include_hidden: bool,
    },
    SetDefaultProfile { path_options: PathOptionsView, profile: Seq<char> },
    ClearDefaultProfile { path_options: PathOptionsView },
    ValidateStartupConfig { path_options: PathOptionsView, startup_config: ConfigView },
    PrintStartupLayout(LaunchOptionsView),
    PrintStartupConfigSchema { path_options: PathOptionsView },
    InitConfig { path_options: PathOptionsView },
    Doctor { path_options: PathOptionsView },
    ValidateKeymap { path_options: PathOptionsView },
    Launch(LaunchOptionsView),
}

impl View for TerminalCliCommand {
    type V = CliCommandView;

    open spec fn view(&self) -> CliCommandView {
        match self {
            TerminalCliCommand::PrintPaths(path_options) => CliCommandView::PrintPaths(
                path_options@,
            ),
            TerminalCliCommand::ListProfiles {
                path_options,
                startup_config,
                include_hidden,
            } => CliCommandView::ListProfiles {
                path_options: path_options@,
                startup_config: startup_config@,
                include_hidden: *include_hidden,
            },
            TerminalCliCommand::SetDefaultProfile {
                path_options,
                profile,
            } => CliCommandView::SetDefaultProfile {
                path_options: path_options@,
                profile: profile@,
            },
            TerminalCliCommand::ClearDefaultProfile {
                path_options,
            } => CliCommandView::ClearDefaultProfile { path_options: path_options@ },
            TerminalCliCommand::ValidateStartupConfig {
                path_options,
                startup_config,
            } => CliCommandView::ValidateStartupConfig {
                path_options: path_options@,
                startup_config: startup_config@,
            },
            TerminalCliCommand::PrintStartupLayout(options) => CliCommandView::PrintStartupLayout(
                options@,
            ),
            TerminalCliCommand::PrintStartupConfigSchema {
                path_options,
            } => CliCommandView::PrintStartupConfigSchema { path_options: path_options@ },
            TerminalCliCommand::InitConfig { path_options } => CliCommandView::InitConfig {
                path_options: path_options@,
            },
            TerminalCliCommand::Doctor { path_options } => CliCommandView::Doctor {
                path_options: path_options@,
            },
            TerminalCliCommand::ValidateKeymap { path_options } => CliCommandView::ValidateKeymap {
                path_options: path_options@,
            },
            TerminalCliCommand::Launch(options) => CliCommandView::Launch(options@),
        }
    }
}

impl DeepView for TerminalCliCommand {
    type V = CliCommandView;

    open spec fn deep_view(&self) -> CliCommandView {
        self@
    }
}

/// What a command line asks for. Of the modes that do not open a window the
/// first that is given decides.
pub open spec fn asked_command(
    cli: CliView,
    config: ConfigView,
    path_options: PathOptionsView,
    directories: Inspections,
) -> Result<CliCommandView, Seq<Seq<char>>> {
    if cli.print_paths {
        Ok(CliCommandView::PrintPaths(path_options))
    } else if cli.list_profiles {
        Ok(
            CliCommandView::ListProfiles {
                path_options,
                startup_config: config,
                include_hidden: cli.all_profiles,
            },
        )
    } else if cli.print_startup_layout {
        match window(cli, config, path_options, directories) {
            Ok(options) => Ok(CliCommandView::PrintStartupLayout(options)),
            Err(messages) => Err(messages),
        }
    } else if cli.set_default_profile is Some {
        Ok(
            CliCommandView::SetDefaultProfile {
                path_options,
                profile: cli.set_default_profile->0,
            },
        )
    } else if cli.clear_default_profile {
        Ok(CliCommandView::ClearDefaultProfile { path_options })
    } else if cli.validate_startup_config {
        Ok(CliCommandView::ValidateStartupConfig { path_options, startup_config: config })
    } else if cli.print_startup_config_schema {
        Ok(CliCommandView::PrintStartupConfigSchema { path_options })
    } else if cli.init_config {
        Ok(CliCommandView::InitConfig { path_options })
    } else if cli.doctor {
        Ok(CliCommandView::Doctor { path_options })
    } else if cli.validate_keymap {
        Ok(CliCommandView::ValidateKeymap { path_options })
    } else {
        match window(cli, config, path_options, directories) {
            Ok(options) => Ok(CliCommandView::Launch(options)),
            Err(messages) => Err(messages),
        }
    }
}

/// Whether what a command line asks for depends on the startup configuration
/// file.
pub open spec fn reads_startup_config(cli: CliView) -> bool {
    !(cli.print_paths || cli.no_startup_config || cli.set_default_profile is Some
        || cli.clear_default_profile || cli.validate_keymap || cli.print_startup_config_schema
        || cli.init_config || cli.doctor)
}

/// What a command line asks for, given what the startup configuration file
/// holds. Where the file plays no part its content does not matter.
pub open spec fn asked_with_file(
    cli: CliView,
    path_options: PathOptionsView,
    file: ConfigFileView,
    directories: Inspections,
) -> Result<CliCommandView, Seq<Seq<char>>> {
    if reads_startup_config(cli) {
        match loaded_config(
            startup_config_path(path_options.platform, path_options.config_dir),
            file,
        ) {
            Ok(config) => asked_command(cli, config, path_options, directories),
            Err(messages) => Err(messages),
        }
    } else {
        asked_command(cli, empty_config(), path_options, directories)
    }
}

/// The directories that a command's files are in.
pub open spec fn command_paths(command: CliCommandView) -> PathOptionsView {
    match command {
        CliCommandView::PrintPaths(path_options) => path_options,
        CliCommandView::ListProfiles { path_options, .. } => path_options,
        CliCommandView::SetDefaultProfile { path_options, .. } => path_options,
        CliCommandView::ClearDefaultProfile { path_options } => path_options,
        CliCommandView::ValidateStartupConfig { path_options, .. } => path_options,
        CliCommandView::PrintStartupLayout(options) => options.path_options,
        CliCommandView::PrintStartupConfigSchema { path_options } => path_options,
        CliCommandView::InitConfig { path_options } => path_options,
        CliCommandView::Doctor { path_options } => path_options,
        CliCommandView::ValidateKeymap { path_options } => path_options,
        CliCommandView::Launch(options) => options.path_options,
    }
}

impl Cli {
    /// Whether what this asks for depends on the startup configuration file.
    pub fn needs_startup_config(&self) -> (r: bool)
        ensures
            r == reads_startup_config(self@),
    {
        !(self.print_paths || self.no_startup_config || self.set_default_profile.is_some()
            || self.clear_default_profile || self.validate_keymap
            || self.print_startup_config_schema || self.init_config || self.doctor)
    }

    /// The directories that this asks to keep files in.
    pub fn path_options(&self, system: &SystemDirectories) -> (r: Result<
        TerminalPathOptions,
        StartupError,
    >)
        ensures
            outcome(r) == in_context(
                asked_directories(self@.user_data_dir, self@.config_dir, system@),
                "failed to resolve terminal paths"@,
            ),
    {
        match TerminalPathOptions::from_cli(
            option_str(&self.user_data_dir),
            option_str(&self.config_dir),
            system,
        ) {
            Ok(path_options) => Ok(path_options),
            Err(error) => Err(error.context("failed to resolve terminal paths".to_owned())),
        }
    }
}

impl TerminalCliCommand {
    /// What a command line asks for, given what the startup configuration
    /// file holds. Where the file plays no part its content does not matter.
    pub fn from_cli_and_config_file(
        cli: Cli,
        path_options: TerminalPathOptions,
        file: ConfigFile,
        directories: &WorkingDirectories,
    ) -> (r: Result<Self, StartupError>)
        ensures
            outcome(r) == asked_with_file(cli@, path_options@, file@, directories.entries()),
    {
        let startup_config = if cli.needs_startup_config() {
            let path = terminal_startup_config_file(
                path_options.platform,
                path_options.config_dir.as_str(),
            );
            match TerminalStartupConfig::load(path.as_str(), file) {
                Ok(config) => config,
                Err(error) => {
                    return Err(error);
                },
            }
        } else {
            TerminalStartupConfig::default()
        };
        Self::from_cli_parts(cli, startup_config, path_options, directories)
    }

    /// What a command line asks for.
    #[verifier::rlimit(40)]
    pub fn from_cli_parts(
        cli: Cli,
        startup_config: TerminalStartupConfig,
        path_options: TerminalPathOptions,
        directories: &WorkingDirectories,
    ) -> (r: Result<Self, StartupError>)
        ensures
            outcome(r) == asked_command(
                cli@,
                startup_config@,
                path_options@,
                directories.entries(),
            ),
    {
        if cli.print_paths {
            return Ok(TerminalCliCommand::PrintPaths(path_options));
        }
        if cli.list_profiles {
            return Ok(
                TerminalCliCommand::ListProfiles {
                    path_options,
                    startup_config,
                    include_hidden: cli.all_profiles,
                },
            );
        }
        if cli.print_startup_layout {
            return match LaunchOptions::from_cli_parts(
                cli,
                startup_config,
                path_options,
                directories,
            ) {
                Ok(options) => Ok(TerminalCliCommand::PrintStartupLayout(options)),
                Err(error) => Err(error),
            };
        }
        if let Some(profile) = cli.set_default_profile {
            return Ok(TerminalCliCommand::SetDefaultProfile { path_options, profile });
        }
        if cli.clear_default_profile {
            return Ok(TerminalCliCommand::ClearDefaultProfile { path_options });
        }
        if cli.validate_startup_config {
            return Ok(TerminalCliCommand::ValidateStartupConfig { path_options, startup_config });
        }
        if cli.print_startup_config_schema {
            return Ok(TerminalCliCommand::PrintStartupConfigSchema { path_options });
        }
        if cli.init_config {
            return Ok(TerminalCliCommand::InitConfig { path_options });
        }
        if cli.doctor {
            return Ok(TerminalCliCommand::Doctor { path_options });
        }
        if cli.validate_keymap {
            return Ok(TerminalCliCommand::ValidateKeymap { path_options });
        }
        match LaunchOptions::from_cli_parts(cli, startup_config, path_options, directories) {
            Ok(options) => Ok(TerminalCliCommand::Launch(options)),
            Err(error) => Err(error),
        }
    }

    /// The directories that the command's files are in.
    pub fn path_options(&self) -> (r: &TerminalPathOptions)
        ensures
            r@ == command_paths(self@),
    {
        match self {
            TerminalCliCommand::PrintPaths(path_options) => path_options,
            TerminalCliCommand::ListProfiles { path_options, .. } => path_options,
            TerminalCliCommand::SetDefaultProfile { path_options, .. } => path_options,
            TerminalCliCommand::ClearDefaultProfile { path_options } => path_options,
            TerminalCliCommand::ValidateStartupConfig { path_options, .. } => path_options,
            TerminalCliCommand::PrintStartupLayout(options) => &options.path_options,
            TerminalCliCommand::PrintStartupConfigSchema { path_options } => path_options,
            TerminalCliCommand::InitConfig { path_options } => path_options,
            TerminalCliCommand::Doctor { path_options } => path_options,
            TerminalCliCommand::ValidateKeymap { path_options } => path_options,
            TerminalCliCommand::Launch(options) => &options.path_options,
        }
    }
}

} // verus!
