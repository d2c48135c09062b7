//! The library's laws on concrete values.

use zed_terminal::cli::{Cli, CliArgument};
use zed_terminal::config::{
    ConfigFile, TerminalStartupConfig, TerminalStartupProfileConfig, TerminalStartupShellConfig,
    TerminalStartupTabConfig,
};
use zed_terminal::config_files::{
    initialize_terminal_config_file, initialize_terminal_config_files, InitialContents,
    InitializationEvent, InitializationStep, PathInspection,
};
use zed_terminal::default_profile::{
    clear_default_startup_profile, set_default_startup_profile, DefaultProfileStep,
};
use zed_terminal::directory::{DirectoryInspection, WorkingDirectories};
use zed_terminal::doctor::{
    diagnose_terminal_config_files, FoundConfigFiles, TerminalDoctorCheckStatus,
};
use zed_terminal::launch::{LaunchOptions, TerminalCliCommand};
use zed_terminal::launch_tab::LaunchTab;
use zed_terminal::name_map::NameMap;
use zed_terminal::path_parts::is_same_path;
use zed_terminal::paths::{Platform, TerminalConfigFilePaths, TerminalPathOptions};
use zed_terminal::report::format_startup_layout;
use zed_terminal::terminal_tab::TerminalTab;
use zed_terminal::text::{normalize_terminal_title, trim};
use zed_terminal::validation::TerminalStartupConfigValidation;

fn paths() -> TerminalPathOptions {
    TerminalPathOptions {
        platform: Platform::Linux,
        data_dir: "/data".into(),
        config_dir: "/config".into(),
    }
}

/// What is found for directories that all exist.
fn existing(directories: &[&str]) -> WorkingDirectories {
    let mut found = NameMap::new();
    for directory in directories {
        found.insert(
            (*directory).into(),
            DirectoryInspection::Directory {
                canonical: (*directory).into(),
            },
        );
    }
    found
}

/// A root layout with a command, two tabs and a shell profile.
fn config() -> TerminalStartupConfig {
    let mut config = TerminalStartupConfig {
        working_directory: Some("/srv".into()),
        command: Some("make watch".into()),
        title: Some("Root".into()),
        tabs: vec![
            TerminalStartupTabConfig {
                title: Some("Second".into()),
                ..TerminalStartupTabConfig::default()
            },
            TerminalStartupTabConfig {
                profile: Some("work".into()),
                ..TerminalStartupTabConfig::default()
            },
        ],
        ..TerminalStartupConfig::default()
    };
    config.env.insert("LEVEL".into(), "root".into());
    config.profiles.insert(
        "work".into(),
        TerminalStartupProfileConfig {
            shell: Some(TerminalStartupShellConfig::Program("zsh".into())),
            tabs: vec![TerminalStartupTabConfig::default()],
            ..TerminalStartupProfileConfig::default()
        },
    );
    config
}

fn window(cli: Cli) -> LaunchOptions {
    LaunchOptions::from_cli_parts(cli, config(), paths(), &existing(&["/srv", "/a", "/b"]))
        .expect("the window should open")
}

fn busy_cli() -> Cli {
    Cli {
        title: Some("First".into()),
        command: vec!["htop".into()],
        new_tabs: vec!["/a".into(), "/b".into()],
        new_tab_profiles: vec!["work".into()],
        new_tab_commands: vec!["tail -f log".into()],
        ..Cli::default()
    }
}

#[test]
fn trimming_is_final() {
    for text in ["", " \t\n", " a b ", "\u{3000}x\u{a0}", "plain"] {
        let once = trim(text);
        assert_eq!(once, text.trim());
        assert_eq!(trim(once), once);
    }
}

#[test]
fn normalizing_is_final() {
    assert_eq!(normalize_terminal_title(None), None);
    assert_eq!(normalize_terminal_title(Some("  ")), None);
    let once = normalize_terminal_title(Some(" Logs "));
    assert_eq!(once.as_deref(), Some("Logs"));
    assert_eq!(normalize_terminal_title(once.as_deref()), once);
}

#[test]
fn tabs_are_of_one_kind() {
    let options = window(busy_cli());
    let tabs = [&options.initial_tab, &options.new_terminal_tab]
        .into_iter()
        .chain(&options.additional_tabs);
    for tab in tabs {
        if tab.command.is_some() {
            assert_eq!(tab.shell, None);
        } else {
            assert!(tab.env.is_empty());
        }
    }
}

#[test]
fn asked_tabs_follow_configured_tabs() {
    let options = window(busy_cli());

    assert_eq!(options.additional_tabs.len(), 6);
    assert_eq!(
        options.additional_tabs[..2],
        window(Cli::default()).additional_tabs[..]
    );
    assert_eq!(
        options.additional_tabs[2].working_directory.as_deref(),
        Some("/a")
    );
    assert_eq!(
        options.additional_tabs[5]
            .command
            .as_ref()
            .map(|command| command.args.clone()),
        Some(vec!["-f".into(), "log".into()])
    );
}

#[test]
fn command_and_title_are_for_the_first_tab() {
    let options = window(busy_cli());
    let bare = window(Cli {
        title: None,
        command: Vec::new(),
        ..busy_cli()
    });

    assert_eq!(bare.initial_tab, options.new_terminal_tab);
    assert_eq!(bare.new_terminal_tab, options.new_terminal_tab);
    assert_eq!(bare.additional_tabs, options.additional_tabs);
    assert_eq!(options.initial_tab.title.as_deref(), Some("First"));
}

#[test]
fn printed_layout_is_what_opens() {
    let directories = existing(&["/srv", "/a", "/b"]);
    let command = |cli| TerminalCliCommand::from_cli_parts(cli, config(), paths(), &directories);
    let Ok(TerminalCliCommand::Launch(launched)) = command(busy_cli()) else {
        panic!("expected a window");
    };
    let Ok(TerminalCliCommand::PrintStartupLayout(printed)) = command(Cli {
        print_startup_layout: true,
        ..busy_cli()
    }) else {
        panic!("expected a printed layout");
    };

    assert_eq!(launched, printed);
}

#[test]
fn no_startup_config_ignores_it() {
    let cli = Cli {
        no_startup_config: true,
        ..Cli::default()
    };
    let with = LaunchOptions::from_cli_parts(cli.clone(), config(), paths(), &existing(&[]));
    let without = LaunchOptions::from_cli_parts(
        cli,
        TerminalStartupConfig::default(),
        paths(),
        &existing(&[]),
    );

    assert!(with.is_ok());
    assert_eq!(with, without);
}

#[test]
fn unread_config_plays_no_part() {
    let cli = Cli {
        doctor: true,
        ..Cli::default()
    };
    assert!(!cli.needs_startup_config());
    let command = |file| {
        TerminalCliCommand::from_cli_and_config_file(cli.clone(), paths(), file, &existing(&[]))
    };

    assert_eq!(
        command(ConfigFile::Parsed(config())),
        command(ConfigFile::Malformed {
            error: "bad".into()
        })
    );
}

#[test]
fn conflicts_are_mutual() {
    let cli = Cli {
        validate_keymap: true,
        title: Some("x".into()),
        ..Cli::default()
    };

    assert!(!cli.arguments_go_together());
    assert!(busy_cli().arguments_go_together());
    assert!(Cli::default().arguments_go_together());
    for a in CliArgument::all() {
        for b in CliArgument::all() {
            assert_eq!(a.conflicts_with(b), b.conflicts_with(a));
        }
        assert!(!a.conflicts_with(a));
    }
}

#[test]
fn modes_exclude_each_other() {
    let modes = [
        CliArgument::PrintPaths,
        CliArgument::ListProfiles,
        CliArgument::PrintStartupLayout,
        CliArgument::SetDefaultProfile,
        CliArgument::ClearDefaultProfile,
        CliArgument::ValidateStartupConfig,
        CliArgument::PrintStartupConfigSchema,
        CliArgument::InitConfig,
        CliArgument::Doctor,
        CliArgument::ValidateKeymap,
    ];
    for a in modes {
        for b in modes {
            assert_eq!(a.conflicts_with(b), a != b, "{a:?} and {b:?}");
        }
    }
    assert!(!CliArgument::PrintPaths.conflicts_with(CliArgument::Title));
    assert!(!CliArgument::PrintStartupLayout.conflicts_with(CliArgument::NewTabProfiles));
    assert!(CliArgument::Doctor.conflicts_with(CliArgument::NewTabProfiles));
}

#[test]
fn all_profiles_needs_a_list_unless_that_is_ruled_out() {
    let alone = Cli {
        all_profiles: true,
        ..Cli::default()
    };
    assert!(!alone.arguments_go_together());
    assert_eq!(
        CliArgument::AllProfiles.needs(),
        Some(CliArgument::ListProfiles)
    );
    assert_eq!(CliArgument::ListProfiles.needs(), None);

    let listed = Cli {
        list_profiles: true,
        ..alone.clone()
    };
    assert!(listed.arguments_go_together());
    let with_paths = Cli {
        print_paths: true,
        ..alone
    };
    assert!(with_paths.arguments_go_together());
}

#[test]
fn startup_directories_are_distinct_and_complete() {
    let options = window(Cli {
        working_directory: Some("/a".into()),
        ..busy_cli()
    });

    assert_eq!(options.startup_working_directories(), ["/a", "/b"]);
}

#[test]
fn same_path_is_an_equivalence() {
    let same = |a, b| is_same_path(Platform::Linux, a, b);

    assert!(same("/a/b", "/a/b"));
    assert!(same("/a/b", "/a//b") && same("/a//b", "/a/b"));
    assert!(same("/a//b", "/a/./b/") && same("/a/b", "/a/./b/"));
}

#[test]
fn final_slash_makes_no_difference() {
    for path in ["/", "/a", "a", ".", "..", "a/b", "//"] {
        for platform in [Platform::Linux, Platform::MacOs, Platform::Other] {
            assert!(is_same_path(platform, path, &format!("{path}/")));
        }
    }
    assert!(!is_same_path(Platform::Linux, "", "/"));
}

#[test]
fn startup_directories_are_held_against_each_other_part_by_part() {
    let tab = |directory: &str| LaunchTab {
        working_directory: Some(directory.into()),
        ..window(busy_cli()).initial_tab
    };
    let directories = |platform, names: &[&str]| {
        let mut options = window(busy_cli());
        options.path_options.platform = platform;
        options.initial_tab = tab(names[0]);
        options.new_terminal_tab = tab(names[1]);
        options.additional_tabs = names[2..].iter().map(|name| tab(name)).collect();
        options.startup_working_directories()
    };

    assert_eq!(
        directories(Platform::Linux, &["/a", "/a/", "/a/./b", "/a//b", "/A"]),
        ["/a", "/a/./b", "/A"]
    );
    assert_eq!(
        directories(Platform::Windows, &["C:\\a", "c:/a/", "D:\\a", "C:a"]),
        ["C:\\a", "D:\\a", "C:a"]
    );
}

#[test]
fn later_windows_have_one_tab() {
    let later = window(busy_cli()).runtime_new_window_options();

    assert!(later.additional_tabs.is_empty());
    assert_eq!(later.initial_tab, later.new_terminal_tab);
    assert_eq!(later.initial_tab.split, None);
    assert_eq!(later.runtime_new_window_options(), later);
}

#[test]
fn profile_tab_ignores_further_tabs() {
    let with = config().profile_initial_tab("work", &existing(&[]));
    let mut stripped = config();
    stripped.tabs.clear();
    stripped.profiles.insert(
        "work".into(),
        TerminalStartupProfileConfig {
            shell: Some(TerminalStartupShellConfig::Program("zsh".into())),
            ..TerminalStartupProfileConfig::default()
        },
    );

    assert!(with.is_ok());
    assert_eq!(
        with,
        stripped.profile_initial_tab(" work ", &existing(&[]))
    );
}

#[test]
fn own_variables_override_inherited_ones() {
    let mut inherited = NameMap::new();
    inherited.insert("A".into(), "1".to_string());
    inherited.insert("B".into(), "1".into());
    let mut own = NameMap::new();
    own.insert("B".into(), "2".to_string());
    own.insert("C".into(), "2".into());

    let tab = LaunchTab::from_config(
        None,
        Some("env"),
        &inherited,
        &own,
        None,
        None,
        None,
        None,
        "the tab",
        &existing(&[]),
    )
    .expect("the tab should resolve");

    assert_eq!(tab.env.len(), 3);
    assert_eq!(tab.env.get("A").map(String::as_str), Some("1"));
    assert_eq!(tab.env.get("B").map(String::as_str), Some("2"));
    assert_eq!(tab.env.get("C").map(String::as_str), Some("2"));
}

#[test]
fn empty_config_is_valid() {
    assert_eq!(
        TerminalStartupConfig::default().validate(&existing(&[])),
        Ok(TerminalStartupConfigValidation {
            layout_count: 1,
            tab_count: 1,
        })
    );
}

#[test]
fn valid_layouts_open() {
    let config = config();
    let directories = existing(&["/srv"]);
    assert_eq!(
        config.validate(&directories),
        Ok(TerminalStartupConfigValidation {
            layout_count: 2,
            tab_count: 5,
        })
    );

    for requested in [None, Some("work")] {
        assert!(config.initial_tab(requested, &directories).is_ok());
        assert!(config.additional_tabs(requested, &directories).is_ok());
    }
}

#[test]
fn valid_config_opens_a_window() {
    let options = window(Cli {
        profile: Some("work".into()),
        directory: Some("/a".into()),
        ..Cli::default()
    });

    assert_eq!(options.initial_tab.working_directory.as_deref(), Some("/a"));
    assert_eq!(options.additional_tabs.len(), 1);
}

#[test]
fn default_profile_opens() {
    let directories = existing(&["/srv"]);
    let step = set_default_startup_profile(
        "terminal.json",
        "work",
        ConfigFile::Parsed(config()),
        &directories,
    );
    let DefaultProfileStep::Rewrite(update) = step else {
        panic!("expected a rewrite: {step:?}");
    };
    assert!(update.changed);

    let mut updated = config();
    updated.default_profile = update.default_profile;
    assert_eq!(
        updated.initial_tab(None, &directories),
        config().initial_tab(Some("work"), &directories)
    );
}

#[test]
fn clearing_repairs_the_default_profile() {
    let directories = existing(&["/srv"]);
    let mut broken = config();
    broken.default_profile = Some("gone".into());
    assert!(broken.validate(&directories).is_err());

    let step = clear_default_startup_profile(
        "terminal.json",
        ConfigFile::Parsed(broken.clone()),
        &directories,
    );
    let DefaultProfileStep::Rewrite(update) = step else {
        panic!("expected a rewrite: {step:?}");
    };
    assert_eq!(update.previous_profile.as_deref(), Some("gone"));
    broken.default_profile = update.default_profile;
    assert_eq!(broken, config());
}

#[test]
fn changed_means_another_profile() {
    for (before, profile, changed) in [(None, "work", true), (Some("work"), "work", false)] {
        let mut config = config();
        config.default_profile = before.map(String::from);
        let step = set_default_startup_profile(
            "terminal.json",
            profile,
            ConfigFile::Parsed(config),
            &existing(&["/srv"]),
        );
        let DefaultProfileStep::Rewrite(update) = step else {
            panic!("expected a rewrite: {step:?}");
        };
        assert_eq!(update.changed, changed);
    }
}

#[test]
fn summaries_are_ordered_and_hide_hidden_profiles() {
    let mut config = config();
    for (name, hidden) in [("zeta", false), ("alpha", false), ("mid", true)] {
        config.profiles.insert(
            name.into(),
            TerminalStartupProfileConfig {
                hidden,
                ..TerminalStartupProfileConfig::default()
            },
        );
    }
    let names = |include_hidden| -> Vec<String> {
        config
            .profile_summaries(include_hidden)
            .into_iter()
            .map(|profile| profile.name)
            .collect()
    };

    assert_eq!(names(false), ["alpha", "work", "zeta"]);
    assert_eq!(names(true), ["alpha", "mid", "work", "zeta"]);
}

#[test]
fn layout_report_keeps_variables_private() {
    let options = window(busy_cli());
    let mut other = options.clone();
    let mut env = NameMap::new();
    env.insert("TOKEN".into(), "hunter2".to_string());
    assert_eq!(other.initial_tab.env.len(), env.len());
    other.initial_tab.env = env;

    let report = format_startup_layout(&other, "terminal.json");
    assert_eq!(report, format_startup_layout(&options, "terminal.json"));
    assert!(!report.contains("TOKEN"));
    assert!(!report.contains("hunter2"));
}

#[test]
fn created_files_are_diagnosed() {
    let planned = initialize_terminal_config_files(
        &paths(),
        InitialContents {
            settings: "".into(),
            keymap: "".into(),
            startup_config_schema: "".into(),
        },
    );
    let checks = diagnose_terminal_config_files(
        TerminalConfigFilePaths::from_path_options(&paths()),
        FoundConfigFiles {
            settings_file: PathInspection::File,
            global_settings_file: PathInspection::File,
            keymap_file: PathInspection::File,
            startup_config_file: PathInspection::File,
            startup_config_schema_file: PathInspection::File,
        },
    );

    assert_eq!(planned.len(), checks.len());
    for (file, check) in planned.iter().zip(&checks) {
        assert_eq!(file.label, check.label);
        assert_eq!(file.path, check.path);
        assert_eq!(check.status, TerminalDoctorCheckStatus::Passed);
    }
}

#[test]
fn existing_files_are_never_written() {
    for event in [
        InitializationEvent::Inspected(PathInspection::File),
        InitializationEvent::Reinspected(PathInspection::File),
    ] {
        assert!(matches!(
            initialize_terminal_config_file("settings_file", "a", event),
            InitializationStep::Done(_)
        ));
    }
    assert_eq!(
        initialize_terminal_config_file("settings_file", "a", InitializationEvent::FileCreated),
        InitializationStep::WriteContent
    );
}

#[test]
fn named_directories_are_all_that_is_looked_up() {
    let config = config();
    assert_eq!(config.named_directories(), ["/srv"]);
    let cli = Cli {
        working_directory: Some("/a".into()),
        new_tabs: vec!["/b".into(), "/a".into()],
        new_tab_commands: vec!["true".into()],
        new_tab_command_directories: vec!["/c".into()],
        ..Cli::default()
    };
    assert_eq!(cli.named_directories(), ["/a", "/b", "/c"]);

    let few = existing(&["/srv", "/a", "/b", "/c"]);
    let many = existing(&["/srv", "/a", "/b", "/c", "/elsewhere"]);
    assert_eq!(config.validate(&few), config.validate(&many));
    assert_eq!(
        LaunchOptions::from_cli_parts(cli.clone(), config.clone(), paths(), &few),
        LaunchOptions::from_cli_parts(cli.clone(), config.clone(), paths(), &many)
    );

    let error = LaunchOptions::from_cli_parts(cli, config, paths(), &existing(&["/srv"]))
        .expect_err("a directory that was not looked up cannot be resolved");
    assert_eq!(error.chain(), "working directory was not looked up: /a");
}

#[test]
fn previous_pane_undoes_next_pane() {
    let panes = vec![3, 1, 2];
    for pane in panes.clone() {
        let mut tab = TerminalTab::new(pane);
        assert!(tab.activate_next_pane(&panes).is_some());
        assert_ne!(tab.active_pane, pane);
        assert_eq!(tab.activate_previous_pane(&panes), Some(pane));
        assert_eq!(tab.activate_previous_pane(&panes), Some(tab.active_pane));
        assert_eq!(tab.activate_next_pane(&panes), Some(pane));
    }
    let mut tab = TerminalTab::new(2);
    assert_eq!(tab.activate_next_pane(&panes), Some(3));
    assert_eq!(tab.activate_previous_pane(&panes), Some(2));

    let mut lost = TerminalTab::new(9);
    assert_eq!(lost.activate_next_pane(&panes), None);
    assert_eq!(lost.activate_previous_pane(&panes), None);
    assert_eq!(lost.active_pane, 9);
}
