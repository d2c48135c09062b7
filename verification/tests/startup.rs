//! Startup: the command line, the startup configuration and the window that
//! they open.

use clap::{Arg, ArgAction, ArgMatches, Command};
use zed_terminal::cli::{Cli, CliArgument};
use zed_terminal::command::{
    HideStrategy, LaunchCommand, RevealStrategy, RevealTarget, SaveStrategy, Shell,
};
use zed_terminal::config::{
    ConfigFile, TerminalStartupConfig, TerminalStartupProfileConfig, TerminalStartupShellConfig,
    TerminalStartupShellWithArgumentsConfig, TerminalStartupSplitDirection,
    TerminalStartupTabConfig,
};
use zed_terminal::directory::{
    resolve_working_directory, DirectoryInspection, WorkingDirectories,
};
use zed_terminal::error::StartupError;
use zed_terminal::launch::{LaunchOptions, TerminalCliCommand};
use zed_terminal::launch_tab::LaunchTab;
use zed_terminal::name_map::{EnvVars, NameMap};
use zed_terminal::paths::{Platform, SystemDirectories, TerminalPathOptions};
use zed_terminal::profiles::{TerminalStartupProfileMenuEntry, TerminalStartupProfileSummary};
use zed_terminal::report::{
    format_startup_config_validation, format_startup_layout, format_startup_profiles,
};
use zed_terminal::validation::TerminalStartupConfigValidation;

fn temp_test_dir() -> String {
    format!("/tmp/zed-terminal-test-{}", uuid::Uuid::new_v4())
}

/// The path of something that is no directory.
fn plain_file_path() -> String {
    format!("/tmp/zed-terminal-file-{}", uuid::Uuid::new_v4())
}

/// What looking up these directories gives: all exist but the plain files.
fn looked_up(directories: Vec<String>) -> WorkingDirectories {
    let mut found = NameMap::new();
    for directory in directories {
        let inspection = if directory.contains("zed-terminal-file-") {
            DirectoryInspection::NotADirectory {
                canonical: directory.clone(),
            }
        } else {
            DirectoryInspection::Directory {
                canonical: directory.clone(),
            }
        };
        found.insert(directory, inspection);
    }
    found
}

fn system_directories() -> SystemDirectories {
    SystemDirectories {
        platform: Platform::Linux,
        home_dir: "/home/user".into(),
        tilde_home: Some("/home/user".into()),
        config_dir: Some("/home/user/.config".into()),
        data_local_dir: Some("/home/user/.local/share".into()),
        flatpak_config_home: None,
        flatpak_data_home: None,
    }
}

trait Outermost {
    fn to_string(&self) -> String;
}

impl Outermost for StartupError {
    fn to_string(&self) -> String {
        self.summary().into()
    }
}

trait LookedUp {
    fn validated(&self) -> Result<TerminalStartupConfigValidation, StartupError>;
    fn initial_tab_of(&self, profile: &str) -> Result<LaunchTab, StartupError>;
    fn launch_tab_of(
        &self,
        profile: &str,
        split: Option<TerminalStartupSplitDirection>,
    ) -> Result<LaunchTab, StartupError>;
}

impl LookedUp for TerminalStartupConfig {
    fn validated(&self) -> Result<TerminalStartupConfigValidation, StartupError> {
        self.validate(&looked_up(self.named_directories()))
    }

    fn initial_tab_of(&self, profile: &str) -> Result<LaunchTab, StartupError> {
        self.profile_initial_tab(profile, &looked_up(self.named_directories()))
    }

    fn launch_tab_of(
        &self,
        profile: &str,
        split: Option<TerminalStartupSplitDirection>,
    ) -> Result<LaunchTab, StartupError> {
        self.profile_launch_tab(profile, split, &looked_up(self.named_directories()))
    }
}

fn named_by(cli: &Cli, config: &TerminalStartupConfig) -> WorkingDirectories {
    let mut directories = cli.named_directories();
    directories.extend(config.named_directories());
    looked_up(directories)
}

fn options_from(cli: Cli, config: TerminalStartupConfig) -> Result<LaunchOptions, StartupError> {
    let directories = named_by(&cli, &config);
    let path_options = cli.path_options(&system_directories())?;
    LaunchOptions::from_cli_parts(cli, config, path_options, &directories)
}

fn command_from(
    cli: Cli,
    config: TerminalStartupConfig,
) -> Result<TerminalCliCommand, StartupError> {
    let directories = named_by(&cli, &config);
    let path_options = cli.path_options(&system_directories())?;
    TerminalCliCommand::from_cli_parts(cli, config, path_options, &directories)
}

fn command_from_file(cli: Cli, file: ConfigFile) -> Result<TerminalCliCommand, StartupError> {
    let mut directories = cli.named_directories();
    if let ConfigFile::Parsed(config) = &file {
        directories.extend(config.named_directories());
    }
    let path_options = cli.path_options(&system_directories())?;
    TerminalCliCommand::from_cli_and_config_file(cli, path_options, file, &looked_up(directories))
}

fn broken_config_file() -> ConfigFile {
    ConfigFile::Malformed {
        error: "key must be a string at line 1 column 3".into(),
    }
}

fn flag(id: &'static str, long: &'static str) -> Arg {
    Arg::new(id).long(long).action(ArgAction::SetTrue)
}

fn one(id: &'static str, long: &'static str) -> Arg {
    Arg::new(id).long(long).action(ArgAction::Set)
}

fn many(id: &'static str, long: &'static str, alias: &'static str) -> Arg {
    Arg::new(id)
        .long(long)
        .visible_alias(alias)
        .action(ArgAction::Append)
}

/// The command line with its arguments, but not which of them go together.
fn command_line() -> Command {
    Command::new("zed-terminal").args([
        one("user_data_dir", "user-data-dir"),
        one("config_dir", "config-dir"),
        flag("print_paths", "paths"),
        flag("list_profiles", "list-profiles"),
        flag("all_profiles", "all-profiles"),
        flag("no_startup_config", "no-startup-config"),
        flag("print_startup_layout", "print-startup-layout"),
        one("set_default_profile", "set-default-profile"),
        flag("clear_default_profile", "clear-default-profile"),
        flag("validate_startup_config", "validate-startup-config"),
        flag("print_startup_config_schema", "print-startup-config-schema"),
        flag("init_config", "init-config"),
        flag("doctor", "doctor"),
        flag("validate_keymap", "validate-keymap"),
        one("profile", "profile"),
        one("working_directory", "working-directory")
            .short('d')
            .visible_aliases(["cwd", "starting-directory", "startingDirectory"]),
        Arg::new("directory"),
        one("title", "title"),
        many("new_tabs", "new-tab", "tab"),
        many("new_tab_titles", "new-tab-title", "tab-title"),
        many("new_tab_profiles", "new-tab-profile", "tab-profile"),
        many(
            "new_tab_profile_titles",
            "new-tab-profile-title",
            "tab-profile-title",
        ),
        many(
            "new_tab_profile_splits",
            "new-tab-profile-split",
            "tab-profile-split",
        )
        .value_parser(["up", "down", "left", "right"]),
        many("new_tab_commands", "new-tab-command", "tab-command").allow_hyphen_values(true),
        many(
            "new_tab_command_directories",
            "new-tab-command-directory",
            "tab-command-directory",
        ),
        many(
            "new_tab_command_titles",
            "new-tab-command-title",
            "tab-command-title",
        ),
        Arg::new("command")
            .last(true)
            .num_args(1..)
            .allow_hyphen_values(true),
    ])
}

/// The command line with the rules on which arguments go together.
fn command_line_with_rules() -> Command {
    let mut command = command_line();
    for argument in CliArgument::all() {
        let conflicts = CliArgument::all()
            .into_iter()
            .filter(|other| argument.conflicts_with(*other))
            .map(|other| other.id());
        command = command.mut_arg(argument.id(), |mut arg| {
            if let Some(needed) = argument.needs() {
                arg = arg.requires(needed.id());
            }
            arg.conflicts_with_all(conflicts)
        });
    }
    command
}

/// The command line that these arguments make, if they go together.
fn try_parse_from<'a>(args: impl IntoIterator<Item = &'a str>) -> Result<Cli, String> {
    let matches = command_line_with_rules()
        .try_get_matches_from(args)
        .map_err(|error| error.to_string())?;
    let cli = cli_from(&matches);
    assert!(cli.arguments_go_together());
    Ok(cli)
}

fn cli_from(matches: &ArgMatches) -> Cli {
    let one = |id: &str| matches.get_one::<String>(id).cloned();
    let many = |id: &str| -> Vec<String> {
        matches
            .get_many::<String>(id)
            .map(|values| values.cloned().collect())
            .unwrap_or_default()
    };
    Cli {
        user_data_dir: one("user_data_dir"),
        config_dir: one("config_dir"),
        print_paths: matches.get_flag("print_paths"),
        list_profiles: matches.get_flag("list_profiles"),
        all_profiles: matches.get_flag("all_profiles"),
        no_startup_config: matches.get_flag("no_startup_config"),
        print_startup_layout: matches.get_flag("print_startup_layout"),
        set_default_profile: one("set_default_profile"),
        clear_default_profile: matches.get_flag("clear_default_profile"),
        validate_startup_config: matches.get_flag("validate_startup_config"),
        print_startup_config_schema: matches.get_flag("print_startup_config_schema"),
        init_config: matches.get_flag("init_config"),
        doctor: matches.get_flag("doctor"),
        validate_keymap: matches.get_flag("validate_keymap"),
        profile: one("profile"),
        working_directory: one("working_directory"),
        directory: one("directory"),
        title: one("title"),
        new_tabs: many("new_tabs"),
        new_tab_titles: many("new_tab_titles"),
        new_tab_profiles: many("new_tab_profiles"),
        new_tab_profile_titles: many("new_tab_profile_titles"),
        new_tab_profile_splits: many("new_tab_profile_splits")
            .iter()
            .map(|direction| match direction.as_str() {
                "up" => TerminalStartupSplitDirection::Up,
                "down" => TerminalStartupSplitDirection::Down,
                "left" => TerminalStartupSplitDirection::Left,
                _ => TerminalStartupSplitDirection::Right,
            })
            .collect(),
        new_tab_commands: many("new_tab_commands"),
        new_tab_command_directories: many("new_tab_command_directories"),
        new_tab_command_titles: many("new_tab_command_titles"),
        command: many("command"),
    }
}

fn assert_initial_working_directory(options: &LaunchOptions, dir: &str) {
    assert_eq!(options.initial_tab.working_directory.as_deref(), Some(dir));
}

fn assert_tab_working_directory(tab: &LaunchTab, dir: &str) {
    assert_eq!(tab.working_directory.as_deref(), Some(dir));
}

fn test_env(entries: &[(&str, &str)]) -> EnvVars {
    let mut env = NameMap::new();
    for (key, value) in entries {
        env.insert((*key).into(), (*value).into());
    }
    env
}

fn shell_with_args(program: &str, args: &[&str]) -> Shell {
    Shell::WithArguments {
        program: program.into(),
        args: args.iter().map(|arg| (*arg).into()).collect(),
        title_override: None,
    }
}

fn assert_cli_conflict(args: &[&str], reason: &str) {
    let error = try_parse_from(args.iter().copied()).expect_err(reason);
    assert!(error.contains("cannot be used with"));
}

/// Each argument as it may be written.
fn written(argument: CliArgument) -> Vec<&'static str> {
    match argument {
        CliArgument::UserDataDir => vec!["--user-data-dir", "/data"],
        CliArgument::ConfigDir => vec!["--config-dir", "/config"],
        CliArgument::PrintPaths => vec!["--paths"],
        CliArgument::ListProfiles => vec!["--list-profiles"],
        CliArgument::AllProfiles => vec!["--all-profiles"],
        CliArgument::NoStartupConfig => vec!["--no-startup-config"],
        CliArgument::PrintStartupLayout => vec!["--print-startup-layout"],
        CliArgument::SetDefaultProfile => vec!["--set-default-profile", "work"],
        CliArgument::ClearDefaultProfile => vec!["--clear-default-profile"],
        CliArgument::ValidateStartupConfig => vec!["--validate-startup-config"],
        CliArgument::PrintStartupConfigSchema => vec!["--print-startup-config-schema"],
        CliArgument::InitConfig => vec!["--init-config"],
        CliArgument::Doctor => vec!["--doctor"],
        CliArgument::ValidateKeymap => vec!["--validate-keymap"],
        CliArgument::Profile => vec!["--profile", "work"],
        CliArgument::WorkingDirectory => vec!["--working-directory", "/a"],
        CliArgument::Directory => vec!["/b"],
        CliArgument::Title => vec!["--title", "t"],
        CliArgument::NewTabs => vec!["--new-tab", "/c"],
        CliArgument::NewTabTitles => vec!["--new-tab-title", "t"],
        CliArgument::NewTabProfiles => vec!["--new-tab-profile", "work"],
        CliArgument::NewTabProfileTitles => vec!["--new-tab-profile-title", "t"],
        CliArgument::NewTabProfileSplits => vec!["--new-tab-profile-split", "up"],
        CliArgument::NewTabCommands => vec!["--new-tab-command", "ls"],
        CliArgument::NewTabCommandDirectories => vec!["--new-tab-command-directory", "/d"],
        CliArgument::NewTabCommandTitles => vec!["--new-tab-command-title", "t"],
        CliArgument::Command => vec!["--", "ls"],
    }
}

#[test]
fn accepts_the_arguments_that_go_together() {
    for first in CliArgument::all() {
        for second in CliArgument::all() {
            if first == CliArgument::Command {
                continue;
            }
            let mut args = vec!["zed-terminal"];
            args.extend(written(first));
            if second != first {
                args.extend(written(second));
            }
            let cli = cli_from(
                &command_line()
                    .try_get_matches_from(args.iter().copied())
                    .expect("every argument should be known"),
            );
            assert!(cli.is_given(first) && cli.is_given(second));
            assert_eq!(
                try_parse_from(args.iter().copied()).is_ok(),
                cli.arguments_go_together(),
                "{args:?}"
            );
        }
    }
}

#[test]
fn names_the_first_argument_of_a_conflict_and_all_that_it_conflicts_with() {
    let error = try_parse_from(["zed-terminal", "--title", "x", "--doctor", "--init-config"])
        .expect_err("a title should conflict with both modes");

    assert!(error.contains("the argument '--title <title>' cannot be used with:"));
    assert!(error.contains("--doctor\n"));
    assert!(error.contains("--init-config\n"));
}

#[test]
fn parses_path_options() {
    let data_dir = temp_test_dir();
    let cli = try_parse_from([
        "zed-terminal",
        "--paths",
        "--user-data-dir",
        data_dir.as_str(),
    ])
    .expect("failed to parse cli args");
    let command =
        command_from(cli, TerminalStartupConfig::default())
            .expect("failed to build cli command");
    let TerminalCliCommand::PrintPaths(path_options) = command else {
        panic!("expected paths mode");
    };

    assert_eq!(path_options.data_dir, data_dir);
    assert_eq!(
        path_options.config_dir,
        format!("{}/config", path_options.data_dir)
    );
}

#[test]
fn parses_config_dir_override() {
    let data_dir = temp_test_dir();
    let config_dir = temp_test_dir();
    let cli = try_parse_from([
        "zed-terminal",
        "--user-data-dir",
        data_dir.as_str(),
        "--config-dir",
        config_dir.as_str(),
    ])
    .expect("failed to parse cli args");
    let options = options_from(cli, TerminalStartupConfig::default()).expect("failed to build launch options");

    assert_eq!(options.path_options.data_dir, data_dir);
    assert_eq!(options.path_options.config_dir, config_dir);
}

#[test]
fn profile_initial_tab_resolves_selected_profile_only() {
    let initial_dir = temp_test_dir();
    let extra_tab_dir = temp_test_dir();
    let mut profiles = NameMap::new();
    profiles.insert(
        "work".into(),
        TerminalStartupProfileConfig {
            working_directory: Some(initial_dir.clone()),
            command: Some("cmd /C work".into()),
            title: Some("Work".into()),
            env: test_env(&[("ZED_TERMINAL_PROFILE", "work")]),
            tabs: vec![TerminalStartupTabConfig {
                working_directory: Some(extra_tab_dir.clone()),
                command: Some("cmd /C logs".into()),
                title: Some("Logs".into()),
                ..TerminalStartupTabConfig::default()
            }],
            ..TerminalStartupProfileConfig::default()
        },
    );
    let config = TerminalStartupConfig {
        profiles,
        ..TerminalStartupConfig::default()
    };

    let tab = config
        .initial_tab_of("work")
        .expect("profile initial tab should resolve");

    assert_tab_working_directory(&tab, &initial_dir);
    assert_ne!(
        tab.working_directory.as_deref(),
        Some(extra_tab_dir.as_str())
    );
    assert_eq!(
        tab.command,
        Some(LaunchCommand {
            program: "cmd".into(),
            args: vec!["/C".into(), "work".into()],
        })
    );
    assert_eq!(tab.env, test_env(&[("ZED_TERMINAL_PROFILE", "work")]));
    assert_eq!(tab.title.as_deref(), Some("Work"));
    assert_eq!(tab.shell, None);
}

#[test]
fn profile_initial_tab_allows_hidden_profiles_for_direct_actions() {
    let secret_dir = temp_test_dir();
    let mut profiles = NameMap::new();
    profiles.insert(
        "secret".into(),
        TerminalStartupProfileConfig {
            hidden: true,
            working_directory: Some(secret_dir.clone()),
            title: Some("Secret".into()),
            ..TerminalStartupProfileConfig::default()
        },
    );
    let config = TerminalStartupConfig {
        profiles,
        ..TerminalStartupConfig::default()
    };

    assert_eq!(config.profile_menu_entries(), Vec::new());

    let tab = config
        .initial_tab_of("secret")
        .expect("hidden profiles should still be directly invokable");

    assert_tab_working_directory(&tab, &secret_dir);
    assert_eq!(tab.title.as_deref(), Some("Secret"));
}

#[test]
fn profile_launch_tab_applies_runtime_split_without_replaying_profile_tabs() {
    let initial_dir = temp_test_dir();
    let extra_tab_dir = temp_test_dir();
    let mut profiles = NameMap::new();
    profiles.insert(
        "work".into(),
        TerminalStartupProfileConfig {
            working_directory: Some(initial_dir.clone()),
            title: Some("Work".into()),
            tabs: vec![TerminalStartupTabConfig {
                working_directory: Some(extra_tab_dir.clone()),
                title: Some("Logs".into()),
                split: Some(TerminalStartupSplitDirection::Down),
                ..TerminalStartupTabConfig::default()
            }],
            ..TerminalStartupProfileConfig::default()
        },
    );
    let config = TerminalStartupConfig {
        profiles,
        ..TerminalStartupConfig::default()
    };

    let tab = config
        .launch_tab_of(" work ", Some(TerminalStartupSplitDirection::Right))
        .expect("profile split tab should resolve");

    assert_tab_working_directory(&tab, &initial_dir);
    assert_ne!(
        tab.working_directory.as_deref(),
        Some(extra_tab_dir.as_str())
    );
    assert_eq!(tab.title.as_deref(), Some("Work"));
    assert_eq!(tab.split, Some(TerminalStartupSplitDirection::Right));
}

#[test]
fn rejects_mixed_profile_startup_tab_fields() {
    let tab_dir = temp_test_dir();
    let mut profiles = NameMap::new();
    profiles.insert("work".into(), TerminalStartupProfileConfig::default());

    for (tab, expected_field) in [
        (
            TerminalStartupTabConfig {
                profile: Some("work".into()),
                working_directory: Some(tab_dir.clone()),
                ..TerminalStartupTabConfig::default()
            },
            "working_directory",
        ),
        (
            TerminalStartupTabConfig {
                profile: Some("work".into()),
                command: Some("cmd /C mixed".into()),
                ..TerminalStartupTabConfig::default()
            },
            "command",
        ),
        (
            TerminalStartupTabConfig {
                profile: Some("work".into()),
                shell: Some(TerminalStartupShellConfig::Program("pwsh.exe".into())),
                ..TerminalStartupTabConfig::default()
            },
            "shell",
        ),
        (
            TerminalStartupTabConfig {
                profile: Some("work".into()),
                env: test_env(&[("MIXED", "1")]),
                ..TerminalStartupTabConfig::default()
            },
            "env",
        ),
    ] {
        let config = TerminalStartupConfig {
            tabs: vec![tab],
            profiles: profiles.clone(),
            ..TerminalStartupConfig::default()
        };

        let error = config
            .validated()
            .expect_err("mixed profile startup tab fields should be rejected");
        let message = error.chain();
        assert!(message.contains("profile startup tab cannot include"));
        assert!(message.contains(expected_field));
        assert!(message.contains("tab 2 for root startup layout"));
    }
}

#[test]
fn rejects_missing_startup_profile_tab_reference() {
    let mut profiles = NameMap::new();
    profiles.insert("work".into(), TerminalStartupProfileConfig::default());
    let config = TerminalStartupConfig {
        tabs: vec![TerminalStartupTabConfig {
            profile: Some("missing".into()),
            ..TerminalStartupTabConfig::default()
        }],
        profiles,
        ..TerminalStartupConfig::default()
    };

    let error = config
        .validated()
        .expect_err("missing profile tab reference should fail validation");
    let message = error.chain();

    assert!(message.contains("failed to resolve profile for tab 2 for root startup layout"));
    assert!(message.contains("startup profile not found: missing"));
    assert!(message.contains("Available profiles: work"));
}

#[test]
fn formats_startup_profile_list() {
    let mut profiles = NameMap::new();
    profiles.insert(
        "secret".into(),
        TerminalStartupProfileConfig {
            display_name: Some("Secret".into()),
            hidden: true,
            ..TerminalStartupProfileConfig::default()
        },
    );
    profiles.insert(
        "work".into(),
        TerminalStartupProfileConfig {
            display_name: Some("Work Shell".into()),
            description: Some("Project startup shell".into()),
            icon: Some("terminal".into()),
            color: Some("#0f766e".into()),
            tabs: vec![TerminalStartupTabConfig::default()],
            ..TerminalStartupProfileConfig::default()
        },
    );
    let config = TerminalStartupConfig {
        default_profile: Some("work".into()),
        profiles,
        ..TerminalStartupConfig::default()
    };

    let visible = format_startup_profiles(&config, "terminal.json", false);

    assert!(visible.contains("startup_config_file: terminal.json"));
    assert!(visible.contains("profiles: 1 visible, 1 hidden"));
    assert!(visible.contains("- work (default)"));
    assert!(visible.contains("  display_name: Work Shell"));
    assert!(visible.contains("  description: Project startup shell"));
    assert!(visible.contains("  icon: terminal"));
    assert!(visible.contains("  color: #0f766e"));
    assert!(visible.contains("  tabs: 2"));
    assert!(!visible.contains("- secret"));

    let all = format_startup_profiles(&config, "terminal.json", true);

    assert!(all.contains("- secret (hidden)"));
    assert!(all.contains("  display_name: Secret"));
}

#[test]
fn formats_resolved_startup_layout_without_env_values() {
    let initial_dir = temp_test_dir();
    let command_dir = temp_test_dir();
    let mut profiles = NameMap::new();
    profiles.insert(
        "work".into(),
        TerminalStartupProfileConfig {
            working_directory: Some(initial_dir.clone()),
            title: Some("Configured".into()),
            shell: Some(TerminalStartupShellConfig::WithArguments(
                TerminalStartupShellWithArgumentsConfig {
                    program: "pwsh.exe".into(),
                    args: vec!["-NoLogo".into()],
                },
            )),
            env: test_env(&[
                ("ZED_TERMINAL_PROFILE", "work"),
                ("ZED_TERMINAL_SECRET", "do-not-print"),
            ]),
            ..TerminalStartupProfileConfig::default()
        },
    );
    let config = TerminalStartupConfig {
        profiles,
        ..TerminalStartupConfig::default()
    };
    let cli = try_parse_from([
        "zed-terminal",
        "--profile",
        "work",
        "--title",
        "CLI",
        "--new-tab-command",
        "cmd /C \"echo build\"",
        "--new-tab-command-directory",
        command_dir.as_str(),
        "--new-tab-command-title",
        "Build",
    ])
    .expect("failed to parse cli args");
    let options = options_from(cli, config)
        .expect("failed to build launch options");

    let output = format_startup_layout(&options, "terminal.json");

    assert!(output.contains("startup_config_file: terminal.json"));
    assert!(output.contains("status: ok"));
    assert!(output.contains("tabs: 2"));
    assert!(output.contains("new_terminal_tab:"));
    assert!(output.contains("  title: Configured"));
    assert!(output.contains("  shell: pwsh.exe -NoLogo"));
    assert!(output.contains("- tab 1"));
    assert!(output.contains("  kind: shell"));
    assert!(output.contains("  placement: tab"));
    assert!(output.contains("  title: CLI"));
    assert!(output.contains(&format!(
        "  working_directory: {}",
        initial_dir
    )));
    assert!(output.contains("  shell: pwsh.exe -NoLogo"));
    assert!(output.contains("- tab 2"));
    assert!(output.contains("  kind: command"));
    assert!(output.contains("  placement: tab"));
    assert!(output.contains("  title: Build"));
    assert!(output.contains(&format!(
        "  working_directory: {}",
        command_dir
    )));
    assert!(output.contains("  command: cmd /C \"echo build\""));
    assert!(output.contains("  env: 2 variables"));
    assert!(!output.contains("ZED_TERMINAL_SECRET"));
    assert!(!output.contains("do-not-print"));
}

#[test]
fn resolves_configured_startup_split_tabs() {
    let right_dir = temp_test_dir();
    let down_dir = temp_test_dir();
    let config = TerminalStartupConfig {
        tabs: vec![
            TerminalStartupTabConfig {
                working_directory: Some(right_dir.clone()),
                title: Some("Right".into()),
                split: Some(TerminalStartupSplitDirection::Right),
                ..TerminalStartupTabConfig::default()
            },
            TerminalStartupTabConfig {
                working_directory: Some(down_dir.clone()),
                command: Some("cmd /C split".into()),
                title: Some("Down".into()),
                split: Some(TerminalStartupSplitDirection::Down),
                ..TerminalStartupTabConfig::default()
            },
        ],
        ..TerminalStartupConfig::default()
    };
    let cli = try_parse_from(["zed-terminal"]).expect("failed to parse cli args");
    let options = options_from(cli, config)
        .expect("failed to build launch options");

    assert_eq!(options.initial_tab.split, None);
    assert_eq!(options.additional_tabs.len(), 2);
    assert_tab_working_directory(&options.additional_tabs[0], &right_dir);
    assert_eq!(
        options.additional_tabs[0].split,
        Some(TerminalStartupSplitDirection::Right)
    );
    assert_eq!(options.additional_tabs[0].title.as_deref(), Some("Right"));
    assert_tab_working_directory(&options.additional_tabs[1], &down_dir);
    assert_eq!(
        options.additional_tabs[1].command,
        Some(LaunchCommand {
            program: "cmd".into(),
            args: vec!["/C".into(), "split".into()],
        })
    );
    assert_eq!(
        options.additional_tabs[1].split,
        Some(TerminalStartupSplitDirection::Down)
    );

    let output = format_startup_layout(&options, "terminal.json");
    assert!(output.contains("- tab 1"));
    assert!(output.contains("  placement: tab"));
    assert!(output.contains("- tab 2"));
    assert!(output.contains("  placement: split right"));
    assert!(output.contains("- tab 3"));
    assert!(output.contains("  placement: split down"));
}

#[test]
fn cli_appended_tabs_do_not_inherit_configured_startup_split() {
    let configured_dir = temp_test_dir();
    let cli_dir = temp_test_dir();
    let config = TerminalStartupConfig {
        tabs: vec![TerminalStartupTabConfig {
            working_directory: Some(configured_dir.clone()),
            split: Some(TerminalStartupSplitDirection::Right),
            ..TerminalStartupTabConfig::default()
        }],
        ..TerminalStartupConfig::default()
    };
    let cli = try_parse_from([
        "zed-terminal",
        "--new-tab",
        cli_dir.as_str(),
        "--new-tab-command",
        "cmd /C cli",
    ])
    .expect("failed to parse cli args");
    let options = options_from(cli, config)
        .expect("failed to build launch options");

    assert_eq!(options.additional_tabs.len(), 3);
    assert_eq!(
        options.additional_tabs[0].split,
        Some(TerminalStartupSplitDirection::Right)
    );
    assert_eq!(options.additional_tabs[1].split, None);
    assert_eq!(options.additional_tabs[2].split, None);
}

#[test]
fn validates_startup_config_layouts() {
    let root_dir = temp_test_dir();
    let root_tab_dir = temp_test_dir();
    let profile_dir = temp_test_dir();
    let profile_tab_dir = temp_test_dir();
    let mut profiles = NameMap::new();
    profiles.insert(
        "work".into(),
        TerminalStartupProfileConfig {
            working_directory: Some(profile_dir.clone()),
            shell: Some(TerminalStartupShellConfig::Program("pwsh.exe".into())),
            tabs: vec![TerminalStartupTabConfig {
                working_directory: Some(profile_tab_dir.clone()),
                command: Some("cmd /C profile-tab".into()),
                env: test_env(&[("ZED_TERMINAL_PROFILE", "work")]),
                ..TerminalStartupTabConfig::default()
            }],
            ..TerminalStartupProfileConfig::default()
        },
    );
    let config = TerminalStartupConfig {
        working_directory: Some(root_dir.clone()),
        tabs: vec![TerminalStartupTabConfig {
            working_directory: Some(root_tab_dir.clone()),
            ..TerminalStartupTabConfig::default()
        }],
        default_profile: Some("work".into()),
        profiles,
        ..TerminalStartupConfig::default()
    };

    assert_eq!(
        config
            .validated()
            .expect("startup config should validate successfully"),
        TerminalStartupConfigValidation {
            layout_count: 2,
            tab_count: 4,
        }
    );
}

#[test]
fn validate_startup_config_rejects_missing_default_profile() {
    let mut profiles = NameMap::new();
    profiles.insert("work".into(), TerminalStartupProfileConfig::default());
    let config = TerminalStartupConfig {
        default_profile: Some("missing".into()),
        profiles,
        ..TerminalStartupConfig::default()
    };

    let error = config
        .validated()
        .expect_err("missing default profile should fail validation");
    let message = error.chain();

    assert!(message.contains("default_profile references missing startup profile: missing"));
    assert!(message.contains("Available profiles: work"));
}

#[test]
fn validate_startup_config_checks_hidden_profiles() {
    let mut profiles = NameMap::new();
    profiles.insert(
        "secret".into(),
        TerminalStartupProfileConfig {
            hidden: true,
            tabs: vec![TerminalStartupTabConfig {
                env: test_env(&[("SECRET", "1")]),
                ..TerminalStartupTabConfig::default()
            }],
            ..TerminalStartupProfileConfig::default()
        },
    );
    let config = TerminalStartupConfig {
        profiles,
        ..TerminalStartupConfig::default()
    };

    let error = config
        .validated()
        .expect_err("hidden profile tab errors should fail validation");
    let message = error.chain();

    assert!(message.contains("failed to validate startup profile \"secret\""));
    assert!(message.contains("environment variables require a command"));
    assert!(message.contains("tab 2 for startup profile \"secret\""));
}

#[test]
fn formats_startup_config_validation() {
    let output = format_startup_config_validation(
        "terminal.json",
        &TerminalStartupConfigValidation {
            layout_count: 2,
            tab_count: 4,
        },
    );

    assert_eq!(
        output,
        "startup_config_file: terminal.json\nstatus: ok\nlayouts: 2\ntabs: 4\n"
    );
}

#[test]
fn validate_startup_config_mode_does_not_launch() {
    let cli = try_parse_from(["zed-terminal", "--validate-startup-config"])
        .expect("failed to parse cli args");
    let command =
        command_from(cli, TerminalStartupConfig::default())
            .expect("failed to build cli command");

    let TerminalCliCommand::ValidateStartupConfig { startup_config, .. } = command else {
        panic!("expected startup config validation mode");
    };

    assert_eq!(
        startup_config
            .validated()
            .expect("default startup config should validate"),
        TerminalStartupConfigValidation {
            layout_count: 1,
            tab_count: 1,
        }
    );
}

#[test]
fn print_startup_layout_mode_resolves_launch_options_without_launching() {
    let tab_dir = temp_test_dir();
    let cli = try_parse_from([
        "zed-terminal",
        "--print-startup-layout",
        "--title",
        "Preview",
        "--new-tab",
        tab_dir.as_str(),
        "--new-tab-title",
        "Logs",
    ])
    .expect("failed to parse cli args");
    let command =
        command_from(cli, TerminalStartupConfig::default())
            .expect("failed to build cli command");

    let TerminalCliCommand::PrintStartupLayout(options) = command else {
        panic!("expected startup layout printing mode");
    };

    assert_eq!(options.initial_tab.title.as_deref(), Some("Preview"));
    assert_eq!(options.additional_tabs.len(), 1);
    assert_tab_working_directory(&options.additional_tabs[0], &tab_dir);
    assert_eq!(options.additional_tabs[0].title.as_deref(), Some("Logs"));
}

#[test]
fn validate_keymap_mode_does_not_resolve_startup_layout() {
    let config = TerminalStartupConfig {
        default_profile: Some("missing".into()),
        ..TerminalStartupConfig::default()
    };
    let cli = try_parse_from(["zed-terminal", "--validate-keymap"])
        .expect("failed to parse cli args");
    let command = command_from(cli, config)
        .expect("keymap validation should not resolve startup layout");

    assert!(matches!(command, TerminalCliCommand::ValidateKeymap { .. }));
}

#[test]
fn set_default_profile_rejects_startup_only_arguments() {
    let error = try_parse_from([
        "zed-terminal",
        "--set-default-profile",
        "work",
        "--profile",
        "admin",
    ])
    .expect_err("profile selection should conflict with default profile updates");
    assert!(error.to_string().contains("cannot be used with"));

    let dir = temp_test_dir();
    let error = try_parse_from([
        "zed-terminal",
        "--set-default-profile",
        "work",
        "-d",
        dir.as_str(),
    ])
    .expect_err("startup directory should conflict with default profile updates");
    assert!(error.to_string().contains("cannot be used with"));

    let error = try_parse_from([
        "zed-terminal",
        "--set-default-profile",
        "work",
        "--new-tab-command",
        "cmd /C echo tab",
    ])
    .expect_err("startup tab command should conflict with default profile updates");
    assert!(error.to_string().contains("cannot be used with"));

    let error = try_parse_from([
        "zed-terminal",
        "--set-default-profile",
        "work",
        "--all-profiles",
    ])
    .expect_err("hidden profile listing should conflict with default profile updates");
    assert!(error.to_string().contains("cannot be used with"));

    let error =
        try_parse_from(["zed-terminal", "--paths", "--set-default-profile", "work"])
            .expect_err("path inspection should conflict with default profile updates");
    assert!(error.to_string().contains("cannot be used with"));
}

#[test]
fn clear_default_profile_rejects_startup_only_arguments() {
    let error = try_parse_from([
        "zed-terminal",
        "--clear-default-profile",
        "--profile",
        "admin",
    ])
    .expect_err("profile selection should conflict with default profile clearing");
    assert!(error.to_string().contains("cannot be used with"));

    let dir = temp_test_dir();
    let error = try_parse_from([
        "zed-terminal",
        "--clear-default-profile",
        "-d",
        dir.as_str(),
    ])
    .expect_err("startup directory should conflict with default profile clearing");
    assert!(error.to_string().contains("cannot be used with"));

    let error = try_parse_from([
        "zed-terminal",
        "--clear-default-profile",
        "--new-tab-command",
        "cmd /C echo tab",
    ])
    .expect_err("startup tab command should conflict with default profile clearing");
    assert!(error.to_string().contains("cannot be used with"));

    let error =
        try_parse_from(["zed-terminal", "--clear-default-profile", "--all-profiles"])
            .expect_err("hidden profile listing should conflict with default profile clearing");
    assert!(error.to_string().contains("cannot be used with"));

    let error = try_parse_from(["zed-terminal", "--paths", "--clear-default-profile"])
        .expect_err("path inspection should conflict with default profile clearing");
    assert!(error.to_string().contains("cannot be used with"));
}

#[test]
fn init_config_rejects_startup_only_arguments() {
    let error = try_parse_from(["zed-terminal", "--init-config", "--profile", "work"])
        .expect_err("profile selection should conflict with config initialization");
    assert!(error.to_string().contains("cannot be used with"));

    let dir = temp_test_dir();
    let error =
        try_parse_from(["zed-terminal", "--init-config", "-d", dir.as_str()])
            .expect_err("startup directory should conflict with config initialization");
    assert!(error.to_string().contains("cannot be used with"));

    let error = try_parse_from([
        "zed-terminal",
        "--init-config",
        "--new-tab-command",
        "cmd /C echo tab",
    ])
    .expect_err("startup tab command should conflict with config initialization");
    assert!(error.to_string().contains("cannot be used with"));

    let error = try_parse_from([
        "zed-terminal",
        "--init-config",
        "--new-tab-command-directory",
        dir.as_str(),
    ])
    .expect_err("startup tab command directory should conflict with config initialization");
    assert!(error.to_string().contains("cannot be used with"));

    let error = try_parse_from(["zed-terminal", "--init-config", "--", "cmd"])
        .expect_err("startup command should conflict with config initialization");
    assert!(error.to_string().contains("cannot be used with"));

    let error = try_parse_from(["zed-terminal", "--paths", "--init-config"])
        .expect_err("path inspection should conflict with config initialization");
    assert!(error.to_string().contains("cannot be used with"));

    let error = try_parse_from([
        "zed-terminal",
        "--list-profiles",
        "--all-profiles",
        "--init-config",
    ])
    .expect_err("hidden profile listing should conflict with config initialization");
    assert!(error.to_string().contains("cannot be used with"));
}

#[test]
fn doctor_rejects_startup_only_arguments() {
    let error = try_parse_from(["zed-terminal", "--doctor", "--profile", "work"])
        .expect_err("profile selection should conflict with doctor");
    assert!(error.to_string().contains("cannot be used with"));

    let dir = temp_test_dir();
    let error = try_parse_from(["zed-terminal", "--doctor", "-d", dir.as_str()])
        .expect_err("startup directory should conflict with doctor");
    assert!(error.to_string().contains("cannot be used with"));

    let error = try_parse_from([
        "zed-terminal",
        "--doctor",
        "--new-tab-command",
        "cmd /C echo tab",
    ])
    .expect_err("startup tab command should conflict with doctor");
    assert!(error.to_string().contains("cannot be used with"));

    let error = try_parse_from([
        "zed-terminal",
        "--doctor",
        "--new-tab-command-directory",
        dir.as_str(),
    ])
    .expect_err("startup tab command directory should conflict with doctor");
    assert!(error.to_string().contains("cannot be used with"));

    let error = try_parse_from(["zed-terminal", "--doctor", "--", "cmd"])
        .expect_err("startup command should conflict with doctor");
    assert!(error.to_string().contains("cannot be used with"));

    let error = try_parse_from(["zed-terminal", "--paths", "--doctor"])
        .expect_err("path inspection should conflict with doctor");
    assert!(error.to_string().contains("cannot be used with"));

    let error = try_parse_from(["zed-terminal", "--list-profiles", "--doctor"])
        .expect_err("profile listing should conflict with doctor");
    assert!(error.to_string().contains("cannot be used with"));
}

#[test]
fn validate_startup_config_rejects_startup_only_arguments() {
    let error = try_parse_from([
        "zed-terminal",
        "--validate-startup-config",
        "--profile",
        "work",
    ])
    .expect_err("profile selection should conflict with config validation");
    assert!(error.to_string().contains("cannot be used with"));

    let dir = temp_test_dir();
    let error = try_parse_from([
        "zed-terminal",
        "--validate-startup-config",
        "-d",
        dir.as_str(),
    ])
    .expect_err("startup directory should conflict with config validation");
    assert!(error.to_string().contains("cannot be used with"));

    let error = try_parse_from([
        "zed-terminal",
        "--validate-startup-config",
        "--new-tab-command",
        "cmd /C echo tab",
    ])
    .expect_err("startup tab command should conflict with config validation");
    assert!(error.to_string().contains("cannot be used with"));

    let error = try_parse_from([
        "zed-terminal",
        "--validate-startup-config",
        "--new-tab-command-directory",
        dir.as_str(),
    ])
    .expect_err("startup tab command directory should conflict with config validation");
    assert!(error.to_string().contains("cannot be used with"));

    let error = try_parse_from(["zed-terminal", "--validate-startup-config", "--", "cmd"])
        .expect_err("startup command should conflict with config validation");
    assert!(error.to_string().contains("cannot be used with"));

    let error = try_parse_from(["zed-terminal", "--paths", "--validate-startup-config"])
        .expect_err("path inspection should conflict with config validation");
    assert!(error.to_string().contains("cannot be used with"));

    let error = try_parse_from([
        "zed-terminal",
        "--validate-startup-config",
        "--all-profiles",
    ])
    .expect_err("hidden profile listing should conflict with config validation");
    assert!(error.to_string().contains("cannot be used with"));
}

#[test]
fn print_startup_config_schema_rejects_startup_only_arguments() {
    let error = try_parse_from([
        "zed-terminal",
        "--print-startup-config-schema",
        "--profile",
        "work",
    ])
    .expect_err("profile selection should conflict with schema printing");
    assert!(error.to_string().contains("cannot be used with"));

    let dir = temp_test_dir();
    let error = try_parse_from([
        "zed-terminal",
        "--print-startup-config-schema",
        "-d",
        dir.as_str(),
    ])
    .expect_err("startup directory should conflict with schema printing");
    assert!(error.to_string().contains("cannot be used with"));

    let error = try_parse_from([
        "zed-terminal",
        "--print-startup-config-schema",
        "--new-tab-command",
        "cmd /C echo tab",
    ])
    .expect_err("startup tab command should conflict with schema printing");
    assert!(error.to_string().contains("cannot be used with"));

    let error = try_parse_from([
        "zed-terminal",
        "--print-startup-config-schema",
        "--new-tab-command-directory",
        dir.as_str(),
    ])
    .expect_err("startup tab command directory should conflict with schema printing");
    assert!(error.to_string().contains("cannot be used with"));

    let error =
        try_parse_from(["zed-terminal", "--print-startup-config-schema", "--", "cmd"])
            .expect_err("startup command should conflict with schema printing");
    assert!(error.to_string().contains("cannot be used with"));

    let error =
        try_parse_from(["zed-terminal", "--paths", "--print-startup-config-schema"])
            .expect_err("path inspection should conflict with schema printing");
    assert!(error.to_string().contains("cannot be used with"));

    let error = try_parse_from([
        "zed-terminal",
        "--print-startup-config-schema",
        "--all-profiles",
    ])
    .expect_err("hidden profile listing should conflict with schema printing");
    assert!(error.to_string().contains("cannot be used with"));
}

#[test]
fn validate_keymap_rejects_startup_only_arguments() {
    let error = try_parse_from(["zed-terminal", "--validate-keymap", "--profile", "work"])
        .expect_err("profile selection should conflict with keymap validation");
    assert!(error.to_string().contains("cannot be used with"));

    let dir = temp_test_dir();
    let error = try_parse_from([
        "zed-terminal",
        "--validate-keymap",
        "-d",
        dir.as_str(),
    ])
    .expect_err("startup directory should conflict with keymap validation");
    assert!(error.to_string().contains("cannot be used with"));

    let error = try_parse_from([
        "zed-terminal",
        "--validate-keymap",
        "--new-tab-command",
        "cmd /C echo tab",
    ])
    .expect_err("startup tab command should conflict with keymap validation");
    assert!(error.to_string().contains("cannot be used with"));

    let error = try_parse_from([
        "zed-terminal",
        "--validate-keymap",
        "--new-tab-command-directory",
        dir.as_str(),
    ])
    .expect_err("startup tab command directory should conflict with keymap validation");
    assert!(error.to_string().contains("cannot be used with"));

    let error = try_parse_from(["zed-terminal", "--validate-keymap", "--", "cmd"])
        .expect_err("startup command should conflict with keymap validation");
    assert!(error.to_string().contains("cannot be used with"));

    let error = try_parse_from(["zed-terminal", "--paths", "--validate-keymap"])
        .expect_err("path inspection should conflict with keymap validation");
    assert!(error.to_string().contains("cannot be used with"));

    let error = try_parse_from(["zed-terminal", "--validate-keymap", "--all-profiles"])
        .expect_err("hidden profile listing should conflict with keymap validation");
    assert!(error.to_string().contains("cannot be used with"));
}

#[test]
fn non_launch_modes_reject_startup_title_arguments() {
    for mode in [
        "--init-config",
        "--doctor",
        "--validate-startup-config",
        "--print-startup-config-schema",
        "--validate-keymap",
        "--list-profiles",
        "--set-default-profile",
        "--clear-default-profile",
    ] {
        let mode_args = if mode == "--set-default-profile" {
            vec!["zed-terminal", mode, "work"]
        } else {
            vec!["zed-terminal", mode]
        };

        let args = if mode == "--set-default-profile" {
            vec!["zed-terminal", mode, "work", "--title", "Production"]
        } else {
            let mut args = mode_args.clone();
            args.extend(["--title", "Production"]);
            args
        };
        assert_cli_conflict(&args, "initial title should conflict with non-launch modes");

        let args = if mode == "--set-default-profile" {
            vec!["zed-terminal", mode, "work", "--new-tab-title", "Logs"]
        } else {
            let mut args = mode_args.clone();
            args.extend(["--new-tab-title", "Logs"]);
            args
        };
        assert_cli_conflict(
            &args,
            "startup tab title should conflict with non-launch modes",
        );

        let args = if mode == "--set-default-profile" {
            vec![
                "zed-terminal",
                mode,
                "work",
                "--new-tab-profile-title",
                "Work",
            ]
        } else {
            let mut args = mode_args.clone();
            args.extend(["--new-tab-profile-title", "Work"]);
            args
        };
        assert_cli_conflict(
            &args,
            "startup profile tab title should conflict with non-launch modes",
        );

        let args = if mode == "--set-default-profile" {
            vec![
                "zed-terminal",
                mode,
                "work",
                "--new-tab-profile-split",
                "right",
            ]
        } else {
            let mut args = mode_args.clone();
            args.extend(["--new-tab-profile-split", "right"]);
            args
        };
        assert_cli_conflict(
            &args,
            "startup profile tab split should conflict with non-launch modes",
        );

        let args = if mode == "--set-default-profile" {
            vec![
                "zed-terminal",
                mode,
                "work",
                "--new-tab-command-title",
                "Build",
            ]
        } else {
            let mut args = mode_args;
            args.extend(["--new-tab-command-title", "Build"]);
            args
        };
        assert_cli_conflict(
            &args,
            "startup command tab title should conflict with non-launch modes",
        );
    }
}

#[test]
fn list_profiles_mode_does_not_resolve_startup_layout() {
    let mut profiles = NameMap::new();
    profiles.insert(
        "work".into(),
        TerminalStartupProfileConfig {
            display_name: Some("Work".into()),
            hidden: true,
            ..TerminalStartupProfileConfig::default()
        },
    );
    let config = TerminalStartupConfig {
        default_profile: Some("missing".into()),
        profiles,
        ..TerminalStartupConfig::default()
    };
    let cli = try_parse_from(["zed-terminal", "--list-profiles", "--all-profiles"])
        .expect("failed to parse cli args");
    let command = command_from(cli, config)
        .expect("profile listing should not resolve startup layout");

    let TerminalCliCommand::ListProfiles {
        startup_config,
        include_hidden,
        ..
    } = command
    else {
        panic!("expected profile listing mode");
    };

    assert!(include_hidden);
    assert_eq!(
        startup_config.profile_summaries(include_hidden),
        vec![TerminalStartupProfileSummary {
            name: "work".into(),
            display_name: "Work".into(),
            description: None,
            icon: None,
            color: None,
            hidden: true,
            is_default: false,
            tab_count: 1,
        }]
    );
}

#[test]
fn list_profiles_rejects_startup_only_arguments() {
    let error = try_parse_from(["zed-terminal", "--list-profiles", "--profile", "work"])
        .expect_err("profile selection should conflict with profile listing");
    assert!(error.to_string().contains("cannot be used with"));

    let dir = temp_test_dir();
    let error = try_parse_from([
        "zed-terminal",
        "--list-profiles",
        "-d",
        dir.as_str(),
    ])
    .expect_err("startup directory should conflict with profile listing");
    assert!(error.to_string().contains("cannot be used with"));

    let error = try_parse_from([
        "zed-terminal",
        "--list-profiles",
        "--new-tab-command",
        "cmd /C echo tab",
    ])
    .expect_err("startup tab command should conflict with profile listing");
    assert!(error.to_string().contains("cannot be used with"));

    let error = try_parse_from([
        "zed-terminal",
        "--list-profiles",
        "--new-tab-command-directory",
        dir.as_str(),
    ])
    .expect_err("startup tab command directory should conflict with profile listing");
    assert!(error.to_string().contains("cannot be used with"));

    let error = try_parse_from(["zed-terminal", "--list-profiles", "--", "cmd"])
        .expect_err("startup command should conflict with profile listing");
    assert!(error.to_string().contains("cannot be used with"));
}

#[test]
fn applies_configured_startup_tabs() {
    let initial_dir = temp_test_dir();
    let second_dir = temp_test_dir();
    let config = TerminalStartupConfig {
        working_directory: Some(initial_dir.clone()),
        command: Some("cmd /C \"echo configured\"".into()),
        title: Some("Configured".into()),
        tabs: vec![TerminalStartupTabConfig {
            working_directory: Some(second_dir.clone()),
            command: Some("pwsh -NoLogo".into()),
            title: Some("PowerShell".into()),
            ..TerminalStartupTabConfig::default()
        }],
        ..TerminalStartupConfig::default()
    };
    let cli = try_parse_from(["zed-terminal"]).expect("failed to parse cli args");
    let options = options_from(cli, config)
        .expect("failed to build launch options");

    assert_initial_working_directory(&options, &initial_dir);
    assert_eq!(
        options.initial_tab.command,
        Some(LaunchCommand {
            program: "cmd".into(),
            args: vec!["/C".into(), "echo configured".into()],
        })
    );
    assert_eq!(options.initial_tab.title.as_deref(), Some("Configured"));
    assert_tab_working_directory(&options.new_terminal_tab, &initial_dir);
    assert_eq!(
        options.new_terminal_tab.command,
        options.initial_tab.command
    );
    assert_eq!(options.new_terminal_tab.title, options.initial_tab.title);
    assert_eq!(options.additional_tabs.len(), 1);
    assert_tab_working_directory(&options.additional_tabs[0], &second_dir);
    assert_eq!(
        options.additional_tabs[0].command,
        Some(LaunchCommand {
            program: "pwsh".into(),
            args: vec!["-NoLogo".into()],
        })
    );
    assert_eq!(
        options.additional_tabs[0].title.as_deref(),
        Some("PowerShell")
    );
}

#[test]
fn cli_overrides_configured_initial_startup_tab() {
    let configured_dir = temp_test_dir();
    let cli_dir = temp_test_dir();
    let config = TerminalStartupConfig {
        working_directory: Some(configured_dir.clone()),
        command: Some("cmd /C configured".into()),
        title: Some("Configured".into()),
        tabs: Vec::new(),
        ..TerminalStartupConfig::default()
    };
    let cli = try_parse_from([
        "zed-terminal",
        "-d",
        cli_dir.as_str(),
        "--",
        "pwsh",
        "-NoLogo",
    ])
    .expect("failed to parse cli args");
    let options = options_from(cli, config)
        .expect("failed to build launch options");

    assert_initial_working_directory(&options, &cli_dir);
    assert_eq!(
        options.initial_tab.command,
        Some(LaunchCommand {
            program: "pwsh".into(),
            args: vec!["-NoLogo".into()],
        })
    );
    assert_eq!(options.initial_tab.title.as_deref(), Some("Configured"));
    assert_tab_working_directory(&options.new_terminal_tab, &cli_dir);
    assert_eq!(
        options.new_terminal_tab.command,
        Some(LaunchCommand {
            program: "cmd".into(),
            args: vec!["/C".into(), "configured".into()],
        })
    );
    assert_eq!(
        options.new_terminal_tab.title.as_deref(),
        Some("Configured")
    );
    assert!(options.additional_tabs.is_empty());
}

#[test]
fn cli_startup_title_and_command_do_not_replace_new_terminal_tab_template() {
    let config = TerminalStartupConfig {
        command: Some("cmd /C configured".into()),
        title: Some("Configured".into()),
        ..TerminalStartupConfig::default()
    };
    let cli = try_parse_from(["zed-terminal", "--title", "CLI", "--", "pwsh", "-NoLogo"])
        .expect("failed to parse cli args");
    let options = options_from(cli, config)
        .expect("failed to build launch options");

    assert_eq!(options.initial_tab.title.as_deref(), Some("CLI"));
    assert_eq!(
        options.initial_tab.command,
        Some(LaunchCommand {
            program: "pwsh".into(),
            args: vec!["-NoLogo".into()],
        })
    );
    assert_eq!(
        options.new_terminal_tab.title.as_deref(),
        Some("Configured")
    );
    assert_eq!(
        options.new_terminal_tab.command,
        Some(LaunchCommand {
            program: "cmd".into(),
            args: vec!["/C".into(), "configured".into()],
        })
    );
}

#[test]
fn cli_overrides_configured_initial_startup_tab_title() {
    let config = TerminalStartupConfig {
        title: Some("Configured".into()),
        ..TerminalStartupConfig::default()
    };
    let cli = try_parse_from(["zed-terminal", "--title", "CLI"])
        .expect("failed to parse cli args");
    let options = options_from(cli, config)
        .expect("failed to build launch options");

    assert_eq!(options.initial_tab.title.as_deref(), Some("CLI"));
    assert_eq!(
        options.new_terminal_tab.title.as_deref(),
        Some("Configured")
    );
}

#[test]
fn cli_appends_tabs_after_configured_startup_tabs() {
    let configured_dir = temp_test_dir();
    let cli_dir = temp_test_dir();
    let config = TerminalStartupConfig {
        working_directory: None,
        command: None,
        tabs: vec![TerminalStartupTabConfig {
            working_directory: Some(configured_dir.clone()),
            command: None,
            ..TerminalStartupTabConfig::default()
        }],
        ..TerminalStartupConfig::default()
    };
    let cli = try_parse_from([
        "zed-terminal",
        "--new-tab",
        cli_dir.as_str(),
        "--new-tab-command",
        "cmd /C \"echo appended\"",
    ])
    .expect("failed to parse cli args");
    let options = options_from(cli, config)
        .expect("failed to build launch options");

    assert_eq!(options.additional_tabs.len(), 3);
    assert_tab_working_directory(&options.additional_tabs[0], &configured_dir);
    assert_eq!(options.additional_tabs[0].command, None);
    assert_tab_working_directory(&options.additional_tabs[1], &cli_dir);
    assert_eq!(options.additional_tabs[1].command, None);
    assert_eq!(options.additional_tabs[2].working_directory, None);
    assert_eq!(
        options.additional_tabs[2].command,
        Some(LaunchCommand {
            program: "cmd".into(),
            args: vec!["/C".into(), "echo appended".into()],
        })
    );
}

#[test]
fn applies_startup_titles_to_shell_tabs() {
    let config = TerminalStartupConfig {
        title: Some("Shell".into()),
        tabs: vec![TerminalStartupTabConfig {
            title: Some("Logs".into()),
            ..TerminalStartupTabConfig::default()
        }],
        ..TerminalStartupConfig::default()
    };
    let cli = try_parse_from(["zed-terminal"]).expect("failed to parse cli args");
    let options = options_from(cli, config)
        .expect("failed to build launch options");

    assert_eq!(options.initial_tab.command, None);
    assert_eq!(options.initial_tab.title.as_deref(), Some("Shell"));
    assert_eq!(options.additional_tabs.len(), 1);
    assert_eq!(options.additional_tabs[0].command, None);
    assert_eq!(options.additional_tabs[0].title.as_deref(), Some("Logs"));
}

#[test]
fn applies_root_shell_to_shell_tabs() {
    let cli_dir = temp_test_dir();
    let config = TerminalStartupConfig {
        shell: Some(TerminalStartupShellConfig::Program("pwsh.exe".into())),
        tabs: vec![TerminalStartupTabConfig {
            title: Some("Inherited".into()),
            ..TerminalStartupTabConfig::default()
        }],
        ..TerminalStartupConfig::default()
    };
    let cli = try_parse_from([
        "zed-terminal",
        "--new-tab",
        cli_dir.as_str(),
        "--new-tab-command",
        "cmd /C cli-tab",
    ])
    .expect("failed to parse cli args");
    let options = options_from(cli, config)
        .expect("failed to build launch options");

    assert_eq!(
        options.new_terminal_tab.shell,
        Some(Shell::Program("pwsh.exe".into()))
    );
    assert_eq!(options.new_terminal_tab.command, None);
    assert_eq!(options.initial_tab.command, None);
    assert_eq!(
        options.initial_tab.shell,
        Some(Shell::Program("pwsh.exe".into()))
    );
    assert_eq!(options.additional_tabs.len(), 3);
    assert_eq!(
        options.additional_tabs[0].shell,
        Some(Shell::Program("pwsh.exe".into()))
    );
    assert_eq!(
        options.additional_tabs[1].shell,
        Some(Shell::Program("pwsh.exe".into()))
    );
    assert_eq!(
        options.additional_tabs[2].command.as_ref().unwrap().program,
        "cmd"
    );
    assert_eq!(options.additional_tabs[2].shell, None);
}

#[test]
fn tab_shell_overrides_inherited_shell() {
    let config = TerminalStartupConfig {
        shell: Some(TerminalStartupShellConfig::Program("pwsh.exe".into())),
        tabs: vec![TerminalStartupTabConfig {
            shell: Some(TerminalStartupShellConfig::WithArguments(
                TerminalStartupShellWithArgumentsConfig {
                    program: "cmd.exe".into(),
                    args: vec!["/K".into()],
                },
            )),
            ..TerminalStartupTabConfig::default()
        }],
        ..TerminalStartupConfig::default()
    };
    let cli = try_parse_from(["zed-terminal"]).expect("failed to parse cli args");
    let options = options_from(cli, config)
        .expect("failed to build launch options");

    assert_eq!(
        options.initial_tab.shell,
        Some(Shell::Program("pwsh.exe".into()))
    );
    assert_eq!(options.additional_tabs.len(), 1);
    assert_eq!(
        options.additional_tabs[0].shell,
        Some(shell_with_args("cmd.exe", &["/K"]))
    );
}

#[test]
fn profile_initial_tab_is_selected_for_shell_tabs_and_new_terminal_tabs() {
    let mut profiles = NameMap::new();
    profiles.insert(
        "work".into(),
        TerminalStartupProfileConfig {
            title: Some("Work".into()),
            shell: Some(TerminalStartupShellConfig::WithArguments(
                TerminalStartupShellWithArgumentsConfig {
                    program: "pwsh.exe".into(),
                    args: vec!["-NoLogo".into()],
                },
            )),
            tabs: vec![TerminalStartupTabConfig::default()],
            ..TerminalStartupProfileConfig::default()
        },
    );
    let config = TerminalStartupConfig {
        profiles,
        ..TerminalStartupConfig::default()
    };
    let cli = try_parse_from(["zed-terminal", "--profile", "work"])
        .expect("failed to parse cli args");
    let options = options_from(cli, config)
        .expect("failed to build launch options");

    assert_eq!(
        options.new_terminal_tab.shell,
        Some(shell_with_args("pwsh.exe", &["-NoLogo"]))
    );
    assert_eq!(options.new_terminal_tab.title.as_deref(), Some("Work"));
    assert_eq!(options.new_terminal_tab.command, None);
    assert_eq!(
        options.initial_tab.shell,
        Some(shell_with_args("pwsh.exe", &["-NoLogo"]))
    );
    assert_eq!(options.additional_tabs.len(), 1);
    assert_eq!(
        options.additional_tabs[0].shell,
        Some(shell_with_args("pwsh.exe", &["-NoLogo"]))
    );
}

#[test]
fn cli_startup_command_does_not_inherit_profile_shell() {
    let mut profiles = NameMap::new();
    profiles.insert(
        "work".into(),
        TerminalStartupProfileConfig {
            shell: Some(TerminalStartupShellConfig::Program("pwsh.exe".into())),
            ..TerminalStartupProfileConfig::default()
        },
    );
    let config = TerminalStartupConfig {
        profiles,
        ..TerminalStartupConfig::default()
    };
    let cli = try_parse_from([
        "zed-terminal",
        "--profile",
        "work",
        "--",
        "cmd",
        "/C",
        "cli",
    ])
    .expect("failed to parse cli args");
    let options = options_from(cli, config)
        .expect("failed to build launch options");

    assert_eq!(
        options.new_terminal_tab.shell,
        Some(Shell::Program("pwsh.exe".into()))
    );
    assert_eq!(options.new_terminal_tab.command, None);
    assert_eq!(
        options.initial_tab.command,
        Some(LaunchCommand {
            program: "cmd".into(),
            args: vec!["/C".into(), "cli".into()],
        })
    );
    assert_eq!(options.initial_tab.shell, None);
}

#[test]
fn rejects_empty_startup_shell_program() {
    let config = TerminalStartupConfig {
        shell: Some(TerminalStartupShellConfig::Program("   ".into())),
        ..TerminalStartupConfig::default()
    };
    let cli = try_parse_from(["zed-terminal"]).expect("failed to parse cli args");

    let error = options_from(cli, config)
        .expect_err("empty startup shell should be rejected");
    let message = error.chain();

    assert!(message.contains("failed to resolve configured startup shell"));
    assert!(message.contains("shell program is empty"));
}

#[test]
fn rejects_tab_shell_on_command_tab() {
    let config = TerminalStartupConfig {
        tabs: vec![TerminalStartupTabConfig {
            command: Some("cmd /C tab".into()),
            shell: Some(TerminalStartupShellConfig::Program("pwsh.exe".into())),
            ..TerminalStartupTabConfig::default()
        }],
        ..TerminalStartupConfig::default()
    };
    let cli = try_parse_from(["zed-terminal"]).expect("failed to parse cli args");

    let error = options_from(cli, config)
        .expect_err("tab shell on command tab should be rejected");
    let message = error.chain();

    assert!(message.contains("failed to resolve configured startup tabs"));
    assert!(message.contains("shell selection requires a shell tab"));
}

#[test]
fn no_startup_config_ignores_configured_startup_tabs() {
    let configured_dir = temp_test_dir();
    let config = TerminalStartupConfig {
        working_directory: Some(configured_dir.clone()),
        command: Some("cmd /C configured".into()),
        title: Some("Configured".into()),
        shell: Some(TerminalStartupShellConfig::Program("pwsh.exe".into())),
        tabs: vec![TerminalStartupTabConfig {
            working_directory: Some(configured_dir.clone()),
            command: Some("cmd /C tab".into()),
            title: Some("Tab".into()),
            ..TerminalStartupTabConfig::default()
        }],
        ..TerminalStartupConfig::default()
    };
    let cli = try_parse_from(["zed-terminal", "--no-startup-config"])
        .expect("failed to parse cli args");
    let options = options_from(cli, config)
        .expect("failed to build launch options");

    assert_eq!(options.initial_tab.working_directory, None);
    assert_eq!(options.initial_tab.command, None);
    assert_eq!(options.initial_tab.title, None);
    assert_eq!(options.initial_tab.shell, None);
    assert_eq!(options.new_terminal_tab.working_directory, None);
    assert_eq!(options.new_terminal_tab.command, None);
    assert_eq!(options.new_terminal_tab.title, None);
    assert_eq!(options.new_terminal_tab.shell, None);
    assert!(options.additional_tabs.is_empty());
}

#[test]
fn rejects_profile_with_no_startup_config() {
    let error =
        try_parse_from(["zed-terminal", "--profile", "work", "--no-startup-config"])
            .expect_err("profile and no-startup-config should conflict");

    assert!(error.to_string().contains("cannot be used with"));
}

#[test]
fn applies_root_env_to_configured_startup_command() {
    let env = test_env(&[("ZED_TERMINAL_ROOT", "1"), ("COMMON", "root")]);
    let config = TerminalStartupConfig {
        command: Some("cmd /C configured".into()),
        env: env.clone(),
        ..TerminalStartupConfig::default()
    };
    let cli = try_parse_from(["zed-terminal"]).expect("failed to parse cli args");
    let options = options_from(cli, config)
        .expect("failed to build launch options");

    assert_eq!(
        options.initial_tab.command,
        Some(LaunchCommand {
            program: "cmd".into(),
            args: vec!["/C".into(), "configured".into()],
        })
    );
    assert_eq!(options.initial_tab.env, env);
    assert!(options.additional_tabs.is_empty());
}

#[test]
fn normalizes_blank_startup_titles() {
    let config = TerminalStartupConfig {
        title: Some("   ".into()),
        command: Some("cmd /C configured".into()),
        tabs: vec![TerminalStartupTabConfig {
            title: Some("\t".into()),
            command: Some("cmd /C tab".into()),
            ..TerminalStartupTabConfig::default()
        }],
        ..TerminalStartupConfig::default()
    };
    let cli = try_parse_from(["zed-terminal"]).expect("failed to parse cli args");
    let options = options_from(cli, config)
        .expect("failed to build launch options");

    assert_eq!(options.initial_tab.title, None);
    assert_eq!(options.additional_tabs.len(), 1);
    assert_eq!(options.additional_tabs[0].title, None);
}

#[test]
fn profile_env_is_inherited_by_profile_command_tabs() {
    let profile_env = test_env(&[("ZED_TERMINAL_PROFILE", "work"), ("COMMON", "profile")]);
    let mut profiles = NameMap::new();
    profiles.insert(
        "work".into(),
        TerminalStartupProfileConfig {
            command: Some("cmd /C profile".into()),
            title: Some("Work".into()),
            env: profile_env.clone(),
            tabs: vec![TerminalStartupTabConfig {
                command: Some("pwsh -NoLogo".into()),
                title: Some("Profile Tab".into()),
                ..TerminalStartupTabConfig::default()
            }],
            ..TerminalStartupProfileConfig::default()
        },
    );
    let config = TerminalStartupConfig {
        default_profile: Some("work".into()),
        profiles,
        ..TerminalStartupConfig::default()
    };
    let cli = try_parse_from(["zed-terminal"]).expect("failed to parse cli args");
    let options = options_from(cli, config)
        .expect("failed to build launch options");

    assert_eq!(options.initial_tab.env, profile_env);
    assert_eq!(options.initial_tab.title.as_deref(), Some("Work"));
    assert_eq!(options.new_terminal_tab.env, options.initial_tab.env);
    assert_eq!(
        options.new_terminal_tab.command,
        Some(LaunchCommand {
            program: "cmd".into(),
            args: vec!["/C".into(), "profile".into()],
        })
    );
    assert_eq!(options.new_terminal_tab.title.as_deref(), Some("Work"));
    assert_eq!(options.additional_tabs.len(), 1);
    assert_eq!(options.additional_tabs[0].env, options.initial_tab.env);
    assert_eq!(
        options.additional_tabs[0].title.as_deref(),
        Some("Profile Tab")
    );
}

#[test]
fn tab_env_overrides_inherited_env() {
    let config = TerminalStartupConfig {
        env: test_env(&[("COMMON", "root"), ("ROOT_ONLY", "yes")]),
        tabs: vec![TerminalStartupTabConfig {
            command: Some("cmd /C tab".into()),
            env: test_env(&[("COMMON", "tab"), ("TAB_ONLY", "yes")]),
            ..TerminalStartupTabConfig::default()
        }],
        ..TerminalStartupConfig::default()
    };
    let cli = try_parse_from(["zed-terminal"]).expect("failed to parse cli args");
    let options = options_from(cli, config)
        .expect("failed to build launch options");

    assert_eq!(options.initial_tab.env, NameMap::new());
    assert_eq!(options.additional_tabs.len(), 1);
    assert_eq!(
        options.additional_tabs[0].env,
        test_env(&[("COMMON", "tab"), ("ROOT_ONLY", "yes"), ("TAB_ONLY", "yes"),])
    );
}

#[test]
fn cli_startup_command_inherits_selected_profile_env() {
    let profile_env = test_env(&[("ZED_TERMINAL_PROFILE", "work")]);
    let mut profiles = NameMap::new();
    profiles.insert(
        "work".into(),
        TerminalStartupProfileConfig {
            env: profile_env.clone(),
            title: Some("Work".into()),
            ..TerminalStartupProfileConfig::default()
        },
    );
    let config = TerminalStartupConfig {
        profiles,
        ..TerminalStartupConfig::default()
    };
    let cli = try_parse_from([
        "zed-terminal",
        "--profile",
        "work",
        "--",
        "cmd",
        "/C",
        "cli",
    ])
    .expect("failed to parse cli args");
    let options = options_from(cli, config)
        .expect("failed to build launch options");

    assert_eq!(
        options.initial_tab.command,
        Some(LaunchCommand {
            program: "cmd".into(),
            args: vec!["/C".into(), "cli".into()],
        })
    );
    assert_eq!(options.initial_tab.env, profile_env);
    assert_eq!(options.initial_tab.title.as_deref(), Some("Work"));
}

#[test]
fn cli_additional_command_tabs_inherit_selected_profile_env() {
    let profile_env = test_env(&[("ZED_TERMINAL_PROFILE", "work")]);
    let mut profiles = NameMap::new();
    profiles.insert(
        "work".into(),
        TerminalStartupProfileConfig {
            env: profile_env.clone(),
            title: Some("Work".into()),
            ..TerminalStartupProfileConfig::default()
        },
    );
    let config = TerminalStartupConfig {
        profiles,
        ..TerminalStartupConfig::default()
    };
    let cli = try_parse_from([
        "zed-terminal",
        "--profile",
        "work",
        "--new-tab-command",
        "cmd /C cli-tab",
    ])
    .expect("failed to parse cli args");
    let options = options_from(cli, config)
        .expect("failed to build launch options");

    assert_eq!(options.additional_tabs.len(), 1);
    assert_eq!(options.initial_tab.title.as_deref(), Some("Work"));
    assert_eq!(options.additional_tabs[0].env, profile_env);
    assert_eq!(options.additional_tabs[0].title, None);
}

#[test]
fn configured_shell_tabs_do_not_inherit_layout_env() {
    let config = TerminalStartupConfig {
        env: test_env(&[("ZED_TERMINAL_ROOT", "1")]),
        tabs: vec![TerminalStartupTabConfig {
            working_directory: None,
            command: None,
            ..TerminalStartupTabConfig::default()
        }],
        ..TerminalStartupConfig::default()
    };
    let cli = try_parse_from(["zed-terminal"]).expect("failed to parse cli args");
    let options = options_from(cli, config)
        .expect("failed to build launch options");

    assert_eq!(options.initial_tab.env, NameMap::new());
    assert_eq!(options.initial_tab.title, None);
    assert_eq!(options.initial_tab.shell, None);
    assert_eq!(options.additional_tabs.len(), 1);
    assert_eq!(options.additional_tabs[0].command, None);
    assert_eq!(options.additional_tabs[0].env, NameMap::new());
    assert_eq!(options.additional_tabs[0].title, None);
    assert_eq!(options.additional_tabs[0].shell, None);
}

#[test]
fn rejects_env_on_configured_shell_tab() {
    let config = TerminalStartupConfig {
        tabs: vec![TerminalStartupTabConfig {
            env: test_env(&[("ZED_TERMINAL_TAB", "1")]),
            ..TerminalStartupTabConfig::default()
        }],
        ..TerminalStartupConfig::default()
    };
    let cli = try_parse_from(["zed-terminal"]).expect("failed to parse cli args");

    let error = options_from(cli, config)
        .expect_err("tab-level env without a command should be rejected");
    let message = error.chain();

    assert!(message.contains("failed to resolve configured startup tabs"));
    assert!(message.contains("environment variables require a command"));
}

#[test]
fn applies_default_startup_profile() {
    let profile_dir = temp_test_dir();
    let profile_tab_dir = temp_test_dir();
    let mut profiles = NameMap::new();
    profiles.insert(
        "work".into(),
        TerminalStartupProfileConfig {
            working_directory: Some(profile_dir.clone()),
            command: Some("cmd /C \"echo profile\"".into()),
            tabs: vec![TerminalStartupTabConfig {
                working_directory: Some(profile_tab_dir.clone()),
                command: Some("pwsh -NoLogo".into()),
                ..TerminalStartupTabConfig::default()
            }],
            ..TerminalStartupProfileConfig::default()
        },
    );
    let config = TerminalStartupConfig {
        working_directory: None,
        command: None,
        tabs: Vec::new(),
        default_profile: Some("work".into()),
        profiles,
        ..TerminalStartupConfig::default()
    };
    let cli = try_parse_from(["zed-terminal"]).expect("failed to parse cli args");
    let options = options_from(cli, config)
        .expect("failed to build launch options");

    assert_initial_working_directory(&options, &profile_dir);
    assert_eq!(
        options.initial_tab.command,
        Some(LaunchCommand {
            program: "cmd".into(),
            args: vec!["/C".into(), "echo profile".into()],
        })
    );
    assert_eq!(options.additional_tabs.len(), 1);
    assert_tab_working_directory(&options.additional_tabs[0], &profile_tab_dir);
    assert_eq!(
        options.additional_tabs[0].command,
        Some(LaunchCommand {
            program: "pwsh".into(),
            args: vec!["-NoLogo".into()],
        })
    );
}

#[test]
fn cli_selects_startup_profile() {
    let root_dir = temp_test_dir();
    let work_dir = temp_test_dir();
    let admin_dir = temp_test_dir();
    let mut profiles = NameMap::new();
    profiles.insert(
        "work".into(),
        TerminalStartupProfileConfig {
            working_directory: Some(work_dir.clone()),
            command: Some("cmd /C work".into()),
            tabs: Vec::new(),
            ..TerminalStartupProfileConfig::default()
        },
    );
    profiles.insert(
        "admin".into(),
        TerminalStartupProfileConfig {
            working_directory: Some(admin_dir.clone()),
            command: Some("cmd /C admin".into()),
            tabs: vec![TerminalStartupTabConfig {
                working_directory: None,
                command: Some("pwsh -NoLogo".into()),
                ..TerminalStartupTabConfig::default()
            }],
            ..TerminalStartupProfileConfig::default()
        },
    );
    let config = TerminalStartupConfig {
        working_directory: Some(root_dir.clone()),
        command: Some("cmd /C root".into()),
        tabs: Vec::new(),
        default_profile: Some("work".into()),
        profiles,
        ..TerminalStartupConfig::default()
    };
    let cli = try_parse_from(["zed-terminal", "--profile", "admin"])
        .expect("failed to parse cli args");
    let options = options_from(cli, config)
        .expect("failed to build launch options");

    assert_initial_working_directory(&options, &admin_dir);
    assert_eq!(
        options.initial_tab.command,
        Some(LaunchCommand {
            program: "cmd".into(),
            args: vec!["/C".into(), "admin".into()],
        })
    );
    assert_eq!(options.additional_tabs.len(), 1);
    assert_eq!(
        options.additional_tabs[0].command,
        Some(LaunchCommand {
            program: "pwsh".into(),
            args: vec!["-NoLogo".into()],
        })
    );
}

#[test]
fn cli_overrides_selected_startup_profile_initial_tab() {
    let profile_dir = temp_test_dir();
    let cli_dir = temp_test_dir();
    let mut profiles = NameMap::new();
    profiles.insert(
        "work".into(),
        TerminalStartupProfileConfig {
            working_directory: Some(profile_dir.clone()),
            command: Some("cmd /C profile".into()),
            tabs: Vec::new(),
            ..TerminalStartupProfileConfig::default()
        },
    );
    let config = TerminalStartupConfig {
        profiles,
        ..TerminalStartupConfig::default()
    };
    let cli = try_parse_from([
        "zed-terminal",
        "--profile",
        "work",
        "-d",
        cli_dir.as_str(),
        "--",
        "pwsh",
        "-NoLogo",
    ])
    .expect("failed to parse cli args");
    let options = options_from(cli, config)
        .expect("failed to build launch options");

    assert_initial_working_directory(&options, &cli_dir);
    assert_eq!(
        options.initial_tab.command,
        Some(LaunchCommand {
            program: "pwsh".into(),
            args: vec!["-NoLogo".into()],
        })
    );
}

#[test]
fn rejects_missing_startup_profile() {
    let mut profiles = NameMap::new();
    profiles.insert(
        "work".into(),
        TerminalStartupProfileConfig {
            working_directory: None,
            command: None,
            tabs: Vec::new(),
            ..TerminalStartupProfileConfig::default()
        },
    );
    let config = TerminalStartupConfig {
        profiles,
        ..TerminalStartupConfig::default()
    };
    let cli = try_parse_from(["zed-terminal", "--profile", "missing"])
        .expect("failed to parse cli args");

    let error = options_from(cli, config)
        .expect_err("missing profile should be rejected");
    let message = error.chain();

    assert!(message.contains("startup profile not found: missing"));
    assert!(message.contains("Available profiles: work"));
}

#[test]
fn paths_mode_ignores_requested_startup_profile() {
    let config = TerminalStartupConfig {
        default_profile: Some("missing".into()),
        ..TerminalStartupConfig::default()
    };
    let cli = try_parse_from(["zed-terminal", "--paths", "--profile", "missing"])
        .expect("failed to parse cli args");
    let command = command_from(cli, config)
        .expect("paths mode should not resolve startup profiles");

    assert!(matches!(command, TerminalCliCommand::PrintPaths(_)));
}

#[test]
fn rejects_empty_configured_startup_command() {
    let config = TerminalStartupConfig {
        working_directory: None,
        command: Some("".into()),
        tabs: Vec::new(),
        ..TerminalStartupConfig::default()
    };
    let cli = try_parse_from(["zed-terminal"]).expect("failed to parse cli args");

    let error = options_from(cli, config)
        .expect_err("empty startup command should be rejected");

    assert!(
        error
            .to_string()
            .contains("failed to resolve configured new terminal tab")
    );
}

#[test]
fn parses_short_working_directory_flag() {
    let dir = temp_test_dir();
    let cli = try_parse_from(["zed-terminal", "-d", dir.as_str()])
        .expect("failed to parse cli args");
    let options = options_from(cli, TerminalStartupConfig::default()).expect("failed to build launch options");

    assert_eq!(
        options.initial_tab.working_directory.as_deref(),
        Some(dir.as_str())
    );
}

#[test]
fn parses_cwd_alias() {
    let dir = temp_test_dir();
    let cli = try_parse_from(["zed-terminal", "--cwd", dir.as_str()])
        .expect("failed to parse cli args");
    let options = options_from(cli, TerminalStartupConfig::default()).expect("failed to build launch options");

    assert_initial_working_directory(&options, &dir);
}

#[test]
fn parses_windows_terminal_starting_directory_alias() {
    let dir = temp_test_dir();
    let cli =
        try_parse_from(["zed-terminal", "--startingDirectory", dir.as_str()])
            .expect("failed to parse cli args");
    let options = options_from(cli, TerminalStartupConfig::default()).expect("failed to build launch options");

    assert_initial_working_directory(&options, &dir);
}

#[test]
fn parses_positional_working_directory() {
    let dir = temp_test_dir();
    let cli = try_parse_from(["zed-terminal", dir.as_str()])
        .expect("failed to parse cli args");
    let options = options_from(cli, TerminalStartupConfig::default()).expect("failed to build launch options");

    assert_initial_working_directory(&options, &dir);
}

#[test]
fn parses_additional_startup_tabs() {
    let initial_dir = temp_test_dir();
    let second_dir = temp_test_dir();
    let third_dir = temp_test_dir();
    let cli = try_parse_from([
        "zed-terminal",
        "-d",
        initial_dir.as_str(),
        "--new-tab",
        second_dir.as_str(),
        "--tab",
        third_dir.as_str(),
    ])
    .expect("failed to parse cli args");
    let options = options_from(cli, TerminalStartupConfig::default()).expect("failed to build launch options");

    assert_initial_working_directory(&options, &initial_dir);
    assert_eq!(options.additional_tabs.len(), 2);
    assert_eq!(
        options.additional_tabs[0].working_directory.as_deref(),
        Some(second_dir.as_str())
    );
    assert_eq!(
        options.additional_tabs[1].working_directory.as_deref(),
        Some(third_dir.as_str())
    );
    assert_eq!(options.additional_tabs[0].command, None);
    assert_eq!(options.additional_tabs[1].command, None);
}

#[test]
fn parses_additional_startup_tab_titles() {
    let first_dir = temp_test_dir();
    let second_dir = temp_test_dir();
    let cli = try_parse_from([
        "zed-terminal",
        "--new-tab",
        first_dir.as_str(),
        "--new-tab-title",
        "Logs",
        "--tab",
        second_dir.as_str(),
        "--tab-title",
        "Shell",
    ])
    .expect("failed to parse cli args");
    let options = options_from(cli, TerminalStartupConfig::default()).expect("failed to build launch options");

    assert_eq!(options.additional_tabs.len(), 2);
    assert_tab_working_directory(&options.additional_tabs[0], &first_dir);
    assert_eq!(options.additional_tabs[0].title.as_deref(), Some("Logs"));
    assert_tab_working_directory(&options.additional_tabs[1], &second_dir);
    assert_eq!(options.additional_tabs[1].title.as_deref(), Some("Shell"));
}

#[test]
fn parses_additional_startup_profile_tabs() {
    let directory_tab_dir = temp_test_dir();
    let profile_dir = temp_test_dir();
    let profile_extra_dir = temp_test_dir();
    let mut profiles = NameMap::new();
    profiles.insert(
        "work".into(),
        TerminalStartupProfileConfig {
            working_directory: Some(profile_dir.clone()),
            command: Some("cmd /C work".into()),
            title: Some("Work".into()),
            env: test_env(&[("ZED_TERMINAL_PROFILE", "work")]),
            tabs: vec![TerminalStartupTabConfig {
                working_directory: Some(profile_extra_dir.clone()),
                title: Some("Logs".into()),
                ..TerminalStartupTabConfig::default()
            }],
            ..TerminalStartupProfileConfig::default()
        },
    );
    let config = TerminalStartupConfig {
        profiles,
        ..TerminalStartupConfig::default()
    };
    let cli = try_parse_from([
        "zed-terminal",
        "--new-tab",
        directory_tab_dir.as_str(),
        "--new-tab-profile",
        "work",
        "--new-tab-profile-title",
        "Work Override",
        "--new-tab-profile-split",
        "left",
        "--new-tab-command",
        "cmd /C build",
    ])
    .expect("failed to parse cli args");
    let options = options_from(cli, config)
        .expect("failed to build launch options");

    assert_eq!(options.additional_tabs.len(), 3);
    assert_tab_working_directory(&options.additional_tabs[0], &directory_tab_dir);
    assert_eq!(options.additional_tabs[0].command, None);

    let profile_tab = &options.additional_tabs[1];
    assert_tab_working_directory(profile_tab, &profile_dir);
    assert_ne!(
        profile_tab.working_directory.as_deref(),
        Some(profile_extra_dir.as_str())
    );
    assert_eq!(
        profile_tab.command,
        Some(LaunchCommand {
            program: "cmd".into(),
            args: vec!["/C".into(), "work".into()],
        })
    );
    assert_eq!(
        profile_tab.env,
        test_env(&[("ZED_TERMINAL_PROFILE", "work")])
    );
    assert_eq!(profile_tab.title.as_deref(), Some("Work Override"));
    assert_eq!(profile_tab.split, Some(TerminalStartupSplitDirection::Left));

    assert_eq!(
        options.additional_tabs[2].command,
        Some(LaunchCommand {
            program: "cmd".into(),
            args: vec!["/C".into(), "build".into()],
        })
    );
}

#[test]
fn parses_additional_startup_tab_commands() {
    let first_dir = temp_test_dir();
    let second_dir = temp_test_dir();
    let cli = try_parse_from([
        "zed-terminal",
        "--new-tab",
        first_dir.as_str(),
        "--new-tab-command",
        "cmd /C \"echo one\"",
        "--tab",
        second_dir.as_str(),
        "--tab-command",
        "pwsh -NoLogo",
    ])
    .expect("failed to parse cli args");
    let options = options_from(cli, TerminalStartupConfig::default()).expect("failed to build launch options");

    assert_eq!(options.additional_tabs.len(), 4);
    assert_eq!(
        options.additional_tabs[0].working_directory.as_deref(),
        Some(first_dir.as_str())
    );
    assert_eq!(options.additional_tabs[0].command, None);
    assert_eq!(
        options.additional_tabs[1].working_directory.as_deref(),
        Some(second_dir.as_str())
    );
    assert_eq!(options.additional_tabs[1].command, None);
    assert_eq!(options.additional_tabs[2].working_directory, None);
    assert_eq!(
        options.additional_tabs[2].command,
        Some(LaunchCommand {
            program: "cmd".into(),
            args: vec!["/C".into(), "echo one".into()],
        })
    );
    assert_eq!(options.additional_tabs[3].working_directory, None);
    assert_eq!(
        options.additional_tabs[3].command,
        Some(LaunchCommand {
            program: "pwsh".into(),
            args: vec!["-NoLogo".into()],
        })
    );
}

#[test]
fn parses_additional_startup_tab_command_directories() {
    let first_dir = temp_test_dir();
    let command_dir = temp_test_dir();
    let cli = try_parse_from([
        "zed-terminal",
        "--new-tab",
        first_dir.as_str(),
        "--new-tab-command",
        "cmd /C \"echo one\"",
        "--new-tab-command-directory",
        command_dir.as_str(),
    ])
    .expect("failed to parse cli args");
    let options = options_from(cli, TerminalStartupConfig::default()).expect("failed to build launch options");

    assert_eq!(options.additional_tabs.len(), 2);
    assert_tab_working_directory(&options.additional_tabs[0], &first_dir);
    assert_eq!(options.additional_tabs[0].command, None);
    assert_tab_working_directory(&options.additional_tabs[1], &command_dir);
    assert_eq!(
        options.additional_tabs[1].command,
        Some(LaunchCommand {
            program: "cmd".into(),
            args: vec!["/C".into(), "echo one".into()],
        })
    );
}

#[test]
fn parses_additional_startup_tab_command_titles() {
    let command_dir = temp_test_dir();
    let cli = try_parse_from([
        "zed-terminal",
        "--new-tab-command",
        "cmd /C \"echo one\"",
        "--new-tab-command-directory",
        command_dir.as_str(),
        "--new-tab-command-title",
        "Build",
        "--tab-command",
        "pwsh -NoLogo",
        "--tab-command-title",
        "Shell Command",
    ])
    .expect("failed to parse cli args");
    let options = options_from(cli, TerminalStartupConfig::default()).expect("failed to build launch options");

    assert_eq!(options.additional_tabs.len(), 2);
    assert_eq!(
        options.additional_tabs[0].command,
        Some(LaunchCommand {
            program: "cmd".into(),
            args: vec!["/C".into(), "echo one".into()],
        })
    );
    assert_tab_working_directory(&options.additional_tabs[0], &command_dir);
    assert_eq!(options.additional_tabs[0].title.as_deref(), Some("Build"));
    assert_eq!(options.additional_tabs[1].working_directory, None);
    assert_eq!(
        options.additional_tabs[1].command,
        Some(LaunchCommand {
            program: "pwsh".into(),
            args: vec!["-NoLogo".into()],
        })
    );
    assert_eq!(
        options.additional_tabs[1].title.as_deref(),
        Some("Shell Command")
    );
}

#[test]
fn maps_fewer_command_directories_to_first_command_tabs() {
    let command_dir = temp_test_dir();
    let cli = try_parse_from([
        "zed-terminal",
        "--new-tab-command",
        "cmd /C one",
        "--new-tab-command-directory",
        command_dir.as_str(),
        "--new-tab-command",
        "pwsh -NoLogo",
    ])
    .expect("failed to parse cli args");
    let options = options_from(cli, TerminalStartupConfig::default()).expect("failed to build launch options");

    assert_eq!(options.additional_tabs.len(), 2);
    assert_tab_working_directory(&options.additional_tabs[0], &command_dir);
    assert_eq!(
        options.additional_tabs[0].command,
        Some(LaunchCommand {
            program: "cmd".into(),
            args: vec!["/C".into(), "one".into()],
        })
    );
    assert_eq!(options.additional_tabs[1].working_directory, None);
    assert_eq!(
        options.additional_tabs[1].command,
        Some(LaunchCommand {
            program: "pwsh".into(),
            args: vec!["-NoLogo".into()],
        })
    );
}

#[test]
fn normalizes_blank_cli_startup_tab_titles() {
    let tab_dir = temp_test_dir();
    let cli = try_parse_from([
        "zed-terminal",
        "--title",
        "  ",
        "--new-tab",
        tab_dir.as_str(),
        "--new-tab-title",
        "\t",
        "--new-tab-command",
        "cmd /C one",
        "--new-tab-command-title",
        "",
    ])
    .expect("failed to parse cli args");
    let options = options_from(cli, TerminalStartupConfig::default()).expect("failed to build launch options");

    assert_eq!(options.initial_tab.title, None);
    assert_eq!(options.additional_tabs.len(), 2);
    assert_eq!(options.additional_tabs[0].title, None);
    assert_eq!(options.additional_tabs[1].title, None);
}

#[test]
fn parses_command_only_additional_startup_tab() {
    let cli = try_parse_from(["zed-terminal", "--new-tab-command", "cargo --version"])
        .expect("failed to parse cli args");
    let options = options_from(cli, TerminalStartupConfig::default()).expect("failed to build launch options");

    assert_eq!(
        options.additional_tabs,
        vec![LaunchTab {
            working_directory: None,
            command: Some(LaunchCommand {
                program: "cargo".into(),
                args: vec!["--version".into()],
            }),
            env: NameMap::new(),
            title: None,
            shell: None,
            split: None,
        }]
    );
}

#[test]
fn rejects_empty_additional_startup_tab_command() {
    let cli = try_parse_from(["zed-terminal", "--new-tab-command", ""])
        .expect("failed to parse cli args");

    let error = options_from(cli, TerminalStartupConfig::default()).expect_err("empty command should be rejected");

    assert!(error.to_string().contains("failed to parse startup tab 2"));
}

#[test]
fn rejects_unmatched_additional_startup_tab_title() {
    let cli = try_parse_from(["zed-terminal", "--new-tab-title", "Logs"])
        .expect("failed to parse cli args");

    let error = options_from(cli, TerminalStartupConfig::default()).expect_err("unmatched tab title should fail");

    assert!(
        error
            .to_string()
            .contains("startup tab title requires a matching --new-tab")
    );
}

#[test]
fn rejects_unmatched_additional_startup_profile_tab_title() {
    let cli = try_parse_from(["zed-terminal", "--new-tab-profile-title", "Work"])
        .expect("failed to parse cli args");

    let error =
        options_from(cli, TerminalStartupConfig::default()).expect_err("unmatched profile tab title should fail");

    assert!(
        error
            .to_string()
            .contains("startup profile tab title requires a matching --new-tab-profile")
    );
}

#[test]
fn rejects_unmatched_additional_startup_profile_tab_split() {
    let cli = try_parse_from(["zed-terminal", "--new-tab-profile-split", "down"])
        .expect("failed to parse cli args");

    let error =
        options_from(cli, TerminalStartupConfig::default()).expect_err("unmatched profile tab split should fail");

    assert!(
        error
            .to_string()
            .contains("startup profile tab split requires a matching --new-tab-profile")
    );
}

#[test]
fn rejects_additional_startup_profile_tab_with_no_startup_config() {
    let error = try_parse_from([
        "zed-terminal",
        "--no-startup-config",
        "--new-tab-profile",
        "work",
    ])
    .expect_err("profile tabs should require startup config");

    assert!(error.to_string().contains("cannot be used with"));
}

#[test]
fn rejects_unmatched_additional_startup_tab_command_directory() {
    let command_dir = temp_test_dir();
    let cli = try_parse_from([
        "zed-terminal",
        "--new-tab-command-directory",
        command_dir.as_str(),
    ])
    .expect("failed to parse cli args");

    let error =
        options_from(cli, TerminalStartupConfig::default()).expect_err("unmatched command directory should fail");

    assert!(
        error
            .to_string()
            .contains("startup command tab directory requires a matching --new-tab-command")
    );
}

#[test]
fn rejects_unmatched_additional_startup_tab_command_title() {
    let cli = try_parse_from(["zed-terminal", "--new-tab-command-title", "Build"])
        .expect("failed to parse cli args");

    let error = options_from(cli, TerminalStartupConfig::default()).expect_err("unmatched command title should fail");

    assert!(
        error
            .to_string()
            .contains("startup command tab title requires a matching --new-tab-command")
    );
}

#[test]
fn rejects_unclosed_additional_startup_tab_command_quote() {
    let cli = try_parse_from(["zed-terminal", "--new-tab-command", "\"unterminated"])
        .expect("failed to parse cli args");

    let error =
        options_from(cli, TerminalStartupConfig::default()).expect_err("unterminated quote should be rejected");

    assert!(error.to_string().contains("failed to parse startup tab 2"));
}

#[test]
fn collects_unique_startup_working_directories() {
    let initial_dir = temp_test_dir();
    let second_dir = temp_test_dir();
    let cli = try_parse_from([
        "zed-terminal",
        initial_dir.as_str(),
        "--new-tab",
        second_dir.as_str(),
        "--new-tab",
        initial_dir.as_str(),
    ])
    .expect("failed to parse cli args");
    let options = options_from(cli, TerminalStartupConfig::default()).expect("failed to build launch options");

    assert_eq!(
        options.startup_working_directories(),
        vec![
            initial_dir.clone(),
            second_dir.clone()
        ]
    );
}

#[test]
fn startup_working_directories_include_new_terminal_tab_template() {
    let initial_dir = temp_test_dir();
    let new_terminal_dir = temp_test_dir();
    let additional_dir = temp_test_dir();
    let options = LaunchOptions {
        path_options: TerminalPathOptions {
            platform: Platform::Linux,
            data_dir: "data".into(),
            config_dir: "config".into(),
        },
        initial_tab: LaunchTab {
            working_directory: Some(initial_dir.clone()),
            command: None,
            env: NameMap::new(),
            title: None,
            shell: None,
            split: None,
        },
        additional_tabs: vec![LaunchTab {
            working_directory: Some(additional_dir.clone()),
            command: None,
            env: NameMap::new(),
            title: None,
            shell: None,
            split: None,
        }],
        new_terminal_tab: LaunchTab {
            working_directory: Some(new_terminal_dir.clone()),
            command: None,
            env: NameMap::new(),
            title: None,
            shell: None,
            split: None,
        },
    };

    assert_eq!(
        options.startup_working_directories(),
        vec![
            initial_dir.clone(),
            new_terminal_dir.clone(),
            additional_dir.clone()
        ]
    );
}

#[test]
fn runtime_new_window_uses_new_tab_template_without_replaying_startup_tabs() {
    let configured_dir = temp_test_dir();
    let cli_dir = temp_test_dir();
    let additional_dir = temp_test_dir();
    let config = TerminalStartupConfig {
        working_directory: Some(configured_dir.clone()),
        command: Some("configured-task".into()),
        title: Some("Configured".into()),
        tabs: vec![TerminalStartupTabConfig {
            working_directory: Some(additional_dir.clone()),
            title: Some("Extra".into()),
            ..TerminalStartupTabConfig::default()
        }],
        ..TerminalStartupConfig::default()
    };
    let cli = try_parse_from([
        "zed-terminal",
        "-d",
        cli_dir.as_str(),
        "--title",
        "CLI",
        "--",
        "pwsh",
    ])
    .expect("cli should parse");
    let launch_options = options_from(cli, config)
        .expect("failed to build launch options");

    let window_options = launch_options.runtime_new_window_options();

    assert!(window_options.additional_tabs.is_empty());
    assert_eq!(window_options.initial_tab, launch_options.new_terminal_tab);
    assert_eq!(
        window_options.new_terminal_tab,
        launch_options.new_terminal_tab
    );
    assert_eq!(
        window_options.initial_tab.command,
        Some(LaunchCommand {
            program: "configured-task".into(),
            args: Vec::new()
        })
    );
    assert_eq!(
        window_options.initial_tab.title.as_deref(),
        Some("Configured")
    );
    assert_initial_working_directory(&window_options, &cli_dir);
    assert_eq!(
        window_options.startup_working_directories(),
        vec![cli_dir.clone()]
    );
}

#[test]
fn parses_startup_command_after_separator() {
    let cli = try_parse_from(["zed-terminal", "--", "echo", "hello"])
        .expect("failed to parse cli args");
    let options = options_from(cli, TerminalStartupConfig::default()).expect("failed to build launch options");

    assert_eq!(options.initial_tab.working_directory, None);
    assert_eq!(
        options.initial_tab.command,
        Some(LaunchCommand {
            program: "echo".into(),
            args: vec!["hello".into()],
        })
    );
}

#[test]
fn parses_directory_and_startup_command() {
    let dir = temp_test_dir();
    let cli = try_parse_from([
        "zed-terminal",
        dir.as_str(),
        "--",
        "pwsh",
        "-NoLogo",
    ])
    .expect("failed to parse cli args");
    let options = options_from(cli, TerminalStartupConfig::default()).expect("failed to build launch options");

    assert_initial_working_directory(&options, &dir);
    assert_eq!(
        options.initial_tab.command,
        Some(LaunchCommand {
            program: "pwsh".into(),
            args: vec!["-NoLogo".into()],
        })
    );
}

#[test]
fn parses_flag_directory_and_startup_command() {
    let dir = temp_test_dir();
    let cli = try_parse_from([
        "zed-terminal",
        "-d",
        dir.as_str(),
        "--",
        "cargo",
        "--version",
    ])
    .expect("failed to parse cli args");
    let options = options_from(cli, TerminalStartupConfig::default()).expect("failed to build launch options");

    assert_initial_working_directory(&options, &dir);
    assert_eq!(
        options.initial_tab.command,
        Some(LaunchCommand {
            program: "cargo".into(),
            args: vec!["--version".into()],
        })
    );
}

#[test]
fn maps_launch_command_to_spawn_task() {
    let dir = temp_test_dir();
    let command = LaunchCommand {
        program: "cmd".into(),
        args: vec!["/C".into(), "echo hello".into()],
    };

    let env = test_env(&[("ZED_TERMINAL_TEST", "1")]);

    let task = command.into_spawn_task(Some(dir.clone()), env.clone());

    assert_eq!(task.id, "zed-terminal:cmd /C \"echo hello\"");
    assert_eq!(task.full_label, "cmd /C \"echo hello\"");
    assert_eq!(task.label, "cmd /C \"echo hello\"");
    assert_eq!(task.command, Some("cmd".into()));
    assert_eq!(task.args, vec!["/C", "echo hello"]);
    assert_eq!(task.command_label, "cmd /C \"echo hello\"");
    assert_eq!(task.cwd.as_deref(), Some(dir.as_str()));
    assert_eq!(task.env, env);
    assert!(task.use_new_terminal);
    assert!(task.allow_concurrent_runs);
    assert_eq!(task.reveal, RevealStrategy::Always);
    assert_eq!(task.reveal_target, RevealTarget::Center);
    assert_eq!(task.hide, HideStrategy::Never);
    assert_eq!(task.shell, Shell::System);
    assert!(task.show_summary);
    assert!(task.show_command);
    assert!(!task.show_rerun);
    assert_eq!(task.save, SaveStrategy::Nothing);
}

#[test]
fn profile_menu_entries_use_visible_profiles() {
    let mut profiles = NameMap::new();
    profiles.insert(
        "secret".into(),
        TerminalStartupProfileConfig {
            display_name: Some("Secret".into()),
            hidden: true,
            ..TerminalStartupProfileConfig::default()
        },
    );
    profiles.insert(
        "work".into(),
        TerminalStartupProfileConfig {
            display_name: Some("Work Shell".into()),
            ..TerminalStartupProfileConfig::default()
        },
    );
    let config = TerminalStartupConfig {
        default_profile: Some("work".into()),
        profiles,
        ..TerminalStartupConfig::default()
    };

    assert_eq!(
        config.profile_menu_entries(),
        vec![TerminalStartupProfileMenuEntry {
            profile: "work".into(),
            label: "Work Shell (work) - Default".into(),
        }]
    );
}

#[test]
fn print_startup_layout_with_no_startup_config_does_not_load_startup_config_file() {
    let data_dir = temp_test_dir();
    let config_dir = format!("{data_dir}/config");

    let cli = try_parse_from([
        "zed-terminal",
        "--user-data-dir",
        data_dir.as_str(),
        "--no-startup-config",
        "--print-startup-layout",
    ])
    .expect("failed to parse cli args");
    let command = command_from_file(cli, broken_config_file())
        .expect("layout preview should not load terminal.json when startup config is disabled");

    let TerminalCliCommand::PrintStartupLayout(options) = command else {
        panic!("expected startup layout printing mode");
    };

    assert_eq!(options.path_options.data_dir, data_dir);
    assert_eq!(options.path_options.config_dir, config_dir);
    assert_eq!(options.initial_tab.working_directory, None);
    assert_eq!(options.initial_tab.command, None);
    assert_eq!(options.initial_tab.env, NameMap::new());
    assert_eq!(options.initial_tab.title, None);
    assert_eq!(options.initial_tab.shell, None);
    assert!(options.additional_tabs.is_empty());
}

#[test]
fn print_startup_config_schema_mode_does_not_load_startup_config_file() {
    let data_dir = temp_test_dir();

    let cli = try_parse_from([
        "zed-terminal",
        "--user-data-dir",
        data_dir.as_str(),
        "--print-startup-config-schema",
    ])
    .expect("failed to parse cli args");
    let command = command_from_file(cli, broken_config_file())
        .expect("schema printing should not load terminal.json");

    assert!(matches!(
        command,
        TerminalCliCommand::PrintStartupConfigSchema { .. }
    ));
}

#[test]
fn init_config_mode_does_not_load_startup_config_file() {
    let data_dir = temp_test_dir();

    let cli = try_parse_from([
        "zed-terminal",
        "--user-data-dir",
        data_dir.as_str(),
        "--init-config",
    ])
    .expect("failed to parse cli args");
    let command = command_from_file(cli, broken_config_file())
        .expect("config initialization should not load terminal.json");

    assert!(matches!(command, TerminalCliCommand::InitConfig { .. }));
}

#[test]
fn doctor_mode_does_not_load_startup_config_file_during_cli_resolution() {
    let data_dir = temp_test_dir();

    let cli = try_parse_from([
        "zed-terminal",
        "--user-data-dir",
        data_dir.as_str(),
        "--doctor",
    ])
    .expect("failed to parse cli args");
    let command = command_from_file(cli, broken_config_file())
        .expect("doctor mode should not load terminal.json during cli resolution");

    assert!(matches!(command, TerminalCliCommand::Doctor { .. }));
}

#[test]
fn set_default_profile_mode_does_not_load_startup_config_during_cli_resolution() {
    let data_dir = temp_test_dir();
    let config_dir = format!("{data_dir}/config");

    let cli = try_parse_from([
        "zed-terminal",
        "--user-data-dir",
        data_dir.as_str(),
        "--set-default-profile",
        "work",
    ])
    .expect("failed to parse cli args");
    let command = command_from_file(cli, broken_config_file())
        .expect("set-default-profile mode should not load terminal.json during cli resolution");

    let TerminalCliCommand::SetDefaultProfile {
        path_options,
        profile,
    } = command
    else {
        panic!("expected set default profile mode");
    };

    assert_eq!(path_options.data_dir, data_dir);
    assert_eq!(path_options.config_dir, config_dir);
    assert_eq!(profile, "work");
}

#[test]
fn clear_default_profile_mode_does_not_load_startup_config_during_cli_resolution() {
    let data_dir = temp_test_dir();
    let config_dir = format!("{data_dir}/config");

    let cli = try_parse_from([
        "zed-terminal",
        "--user-data-dir",
        data_dir.as_str(),
        "--clear-default-profile",
    ])
    .expect("failed to parse cli args");
    let command = command_from_file(cli, broken_config_file()).expect(
        "clear-default-profile mode should not load terminal.json during cli resolution",
    );

    let TerminalCliCommand::ClearDefaultProfile { path_options } = command else {
        panic!("expected clear default profile mode");
    };

    assert_eq!(path_options.data_dir, data_dir);
    assert_eq!(path_options.config_dir, config_dir);
}

#[test]
fn parses_startup_profile_tabs_from_config() {
    let profile_dir = temp_test_dir();
    let profile_extra_dir = temp_test_dir();
    let mut profiles = NameMap::new();
    profiles.insert(
        "work".into(),
        TerminalStartupProfileConfig {
            working_directory: Some(profile_dir.clone()),
            command: Some("cmd /C work".into()),
            title: Some("Work".into()),
            env: test_env(&[("ZED_TERMINAL_PROFILE", "work")]),
            tabs: vec![TerminalStartupTabConfig {
                working_directory: Some(profile_extra_dir.clone()),
                title: Some("Logs".into()),
                ..TerminalStartupTabConfig::default()
            }],
            ..TerminalStartupProfileConfig::default()
        },
    );
    let config = TerminalStartupConfig {
        tabs: vec![TerminalStartupTabConfig {
            profile: Some("work".into()),
            title: Some("Profile Tab".into()),
            split: Some(TerminalStartupSplitDirection::Right),
            ..TerminalStartupTabConfig::default()
        }],
        profiles,
        ..TerminalStartupConfig::default()
    };

    assert_eq!(config.tabs[0].profile.as_deref(), Some("work"));
    assert_eq!(
        config.tabs[0].split,
        Some(TerminalStartupSplitDirection::Right)
    );
    assert_eq!(
        config
            .validated()
            .expect("startup config should validate profile tabs"),
        TerminalStartupConfigValidation {
            layout_count: 2,
            tab_count: 4,
        }
    );

    let cli = try_parse_from(["zed-terminal"]).expect("failed to parse cli args");
    let options = options_from(cli, config)
        .expect("failed to build launch options");

    assert_eq!(options.additional_tabs.len(), 1);
    let tab = &options.additional_tabs[0];
    assert_tab_working_directory(tab, &profile_dir);
    assert_ne!(
        tab.working_directory.as_deref(),
        Some(profile_extra_dir.as_str())
    );
    assert_eq!(
        tab.command,
        Some(LaunchCommand {
            program: "cmd".into(),
            args: vec!["/C".into(), "work".into()],
        })
    );
    assert_eq!(tab.env, test_env(&[("ZED_TERMINAL_PROFILE", "work")]));
    assert_eq!(tab.title.as_deref(), Some("Profile Tab"));
    assert_eq!(tab.split, Some(TerminalStartupSplitDirection::Right));

    let output = format_startup_layout(&options, "terminal.json");
    assert!(output.contains("- tab 2"));
    assert!(output.contains("  placement: split right"));
    assert!(output.contains("  title: Profile Tab"));
    assert!(output.contains("  command: cmd /C work"));
}

#[test]
fn loads_startup_config_from_config_file() {
    let data_dir = temp_test_dir();
    let configured_dir = temp_test_dir();
    let file = ConfigFile::Parsed(TerminalStartupConfig {
        working_directory: Some(configured_dir.clone()),
        command: Some("cmd /C configured".into()),
        ..TerminalStartupConfig::default()
    });
    let cli = try_parse_from([
        "zed-terminal",
        "--user-data-dir",
        data_dir.as_str(),
    ])
    .expect("failed to parse cli args");
    let command =
        command_from_file(cli, file).expect("failed to build cli command");
    let TerminalCliCommand::Launch(options) = command else {
        panic!("expected launch mode");
    };

    assert_initial_working_directory(&options, &configured_dir);
    assert_eq!(
        options.initial_tab.command,
        Some(LaunchCommand {
            program: "cmd".into(),
            args: vec!["/C".into(), "configured".into()],
        })
    );
}

#[test]
fn parses_startup_profile_metadata() {
    let mut profiles = NameMap::new();
    profiles.insert(
        "work".into(),
        TerminalStartupProfileConfig {
            display_name: Some(" Work Shell ".into()),
            description: Some(" Project startup shell ".into()),
            icon: Some(" terminal ".into()),
            color: Some(" #0f766e ".into()),
            tabs: vec![TerminalStartupTabConfig {
                title: Some("Logs".into()),
                ..TerminalStartupTabConfig::default()
            }],
            ..TerminalStartupProfileConfig::default()
        },
    );
    profiles.insert(
        "hidden".into(),
        TerminalStartupProfileConfig {
            display_name: Some("   ".into()),
            hidden: true,
            ..TerminalStartupProfileConfig::default()
        },
    );
    let config = TerminalStartupConfig {
        default_profile: Some("work".into()),
        profiles,
        ..TerminalStartupConfig::default()
    };

    assert_eq!(
        config.profile_summaries(false),
        vec![TerminalStartupProfileSummary {
            name: "work".into(),
            display_name: "Work Shell".into(),
            description: Some("Project startup shell".into()),
            icon: Some("terminal".into()),
            color: Some("#0f766e".into()),
            hidden: false,
            is_default: true,
            tab_count: 2,
        }]
    );
    assert_eq!(
        config
            .profile_summaries(true)
            .into_iter()
            .map(|profile| (profile.name, profile.display_name, profile.hidden))
            .collect::<Vec<_>>(),
        vec![
            ("hidden".into(), "hidden".into(), true),
            ("work".into(), "Work Shell".into(), false),
        ]
    );
}

#[test]
fn rejects_invalid_additional_startup_tab_command_directory() {
    let file = plain_file_path();
    let cli = try_parse_from([
        "zed-terminal",
        "--new-tab-command",
        "cmd /C one",
        "--new-tab-command-directory",
        file.as_str(),
    ])
    .expect("failed to parse cli args");

    let error =
        options_from(cli, TerminalStartupConfig::default()).expect_err("non-directory command cwd should fail");
    let message = error.chain();

    assert!(message.contains("failed to resolve startup tab 2 working directory"));
    assert!(message.contains("working directory is not a directory"));
}

#[test]
fn rejects_non_directory_working_directory() {
    let file = plain_file_path();

    let error = resolve_working_directory(&file, &looked_up(vec![file.clone()]))
        .expect_err("file path should be rejected");

    assert!(
        error
            .to_string()
            .contains("working directory is not a directory")
    );
}
