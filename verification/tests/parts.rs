//! The library's smaller parts: texts, names, paths, commands, panes and the
//! requests of a window.

use std::path::Path;

use zed_terminal::command::{
    format_command_part, normalize_terminal_shell_program, LaunchCommand, Shell,
};
use zed_terminal::config::{
    ConfigFile, TerminalStartupConfig, TerminalStartupProfileConfig, TerminalStartupSplitDirection,
};
use zed_terminal::default_profile::normalize_startup_profile_name;
use zed_terminal::directory::{
    directory_to_inspect, expand_tilde, resolve_inspected_directory, resolve_working_directory,
    DirectoryInspection,
};
use zed_terminal::error::StartupError;
use zed_terminal::launch_tab::LaunchTab;
use zed_terminal::name_map::{merge_env, NameMap};
use zed_terminal::path_parts::is_same_path;
use zed_terminal::paths::{
    default_terminal_config_dir, default_terminal_data_dir, terminal_log_file,
    terminal_old_log_file, terminal_startup_config_file, terminal_startup_config_schema_file,
    Platform, SystemDirectories, TerminalPathOptions,
};
use zed_terminal::report::{
    format_optional_shell, format_shell, format_terminal_paths, TerminalPaths,
};
use zed_terminal::terminal_tab::{PaneEvent, TabReaction, TerminalTab};
use zed_terminal::text::{comes_before, decimal_text, join};
use zed_terminal::window::{
    add_launch_tab, add_launch_tabs, add_new_terminal_tab, duplicate_terminal_tab,
    launch_tab_for_profile, prepare_themes_directory, ActiveTerminal, DuplicateRequest,
    TerminalRequest, ThemesDirectory,
};

fn system(platform: Platform) -> SystemDirectories {
    SystemDirectories {
        platform,
        home_dir: "/home/user".into(),
        tilde_home: Some("/home/user".into()),
        config_dir: Some("/xdg/config".into()),
        data_local_dir: Some("/xdg/data".into()),
        flatpak_config_home: None,
        flatpak_data_home: None,
    }
}

fn shell_tab() -> LaunchTab {
    LaunchTab {
        working_directory: None,
        command: None,
        env: NameMap::new(),
        title: None,
        shell: None,
        split: None,
    }
}

#[test]
fn numbers_are_decimal() {
    for number in [0, 7, 10, 409, 1_000_000, u128::MAX] {
        assert_eq!(decimal_text(number), number.to_string());
    }
}

#[test]
fn texts_are_joined_with_a_separator() {
    assert_eq!(join(&Vec::new(), ", "), "");
    assert_eq!(join(&vec!["a".into()], ", "), "a");
    assert_eq!(join(&vec!["a".into(), "".into(), "c".into()], ", "), "a, , c");
}

#[test]
fn names_are_ordered_like_strings() {
    let names = ["", "A", "a", "ab", "b", "\u{e9}", "\u{10000}", "\u{ffff}"];
    for a in names {
        for b in names {
            assert_eq!(comes_before(a, b), a < b, "{a:?} and {b:?}");
        }
    }
}

#[test]
fn name_maps_keep_the_last_value_in_order_of_names() {
    let mut map = NameMap::new();
    assert!(map.is_empty());
    for (name, value) in [("b", "1"), ("a", "2"), ("b", "3"), ("c", "4")] {
        map.insert(name.into(), value.to_string());
    }

    assert_eq!(map.len(), 3);
    let entries: Vec<(&str, &str)> = (0..map.len())
        .map(|i| (map.name_at(i).as_str(), map.value_at(i).as_str()))
        .collect();
    assert_eq!(entries, [("a", "2"), ("b", "3"), ("c", "4")]);
    assert!(map.contains_name("b"));
    assert_eq!(map.get("d"), None);
    assert_eq!(map.clone(), map);
    assert_eq!(merge_env(&map, &NameMap::new()), map);
}

#[test]
fn errors_chain_from_the_outermost_message() {
    let error = StartupError::from_text("root")
        .context("middle".into())
        .context("outer".into());

    assert_eq!(error.summary(), "outer");
    assert_eq!(error.chain(), "outer: middle: root");
}

#[test]
fn names_are_joined_as_the_platform_writes_them() {
    let file = |directory| terminal_startup_config_file(Platform::Linux, directory);
    assert_eq!(file("/config"), "/config/terminal.json");
    assert_eq!(file("/config/"), "/config/terminal.json");
    assert_eq!(file("/config\\"), "/config\\/terminal.json");
    assert_eq!(file(""), "terminal.json");
    assert_eq!(file("C:"), "C:/terminal.json");

    let file = |directory| terminal_startup_config_file(Platform::Windows, directory);
    assert_eq!(file("C:\\config"), "C:\\config\\terminal.json");
    assert_eq!(file("C:\\config\\"), "C:\\config\\terminal.json");
    assert_eq!(file("C:/config/"), "C:/config/terminal.json");
    assert_eq!(file("C:/config"), "C:/config\\terminal.json");
    assert_eq!(file("C:"), "C:terminal.json");
    assert_eq!(file("\\\\?\\C:\\config"), "\\\\?\\C:\\config\\terminal.json");
    assert_eq!(file("config"), "config\\terminal.json");
    assert_eq!(file("\\\\?\\C:\\a\\\\b\\\\"), "\\\\?\\C:\\a\\b\\terminal.json");
    assert_eq!(file("\\\\?\\C:"), "\\\\?\\C:\\terminal.json");
    assert_eq!(file("\\\\?\\C:\\"), "\\\\?\\C:\\terminal.json");
    assert_eq!(file("\\\\?\\c:/a/b"), "\\\\?\\c:\\a/b\\terminal.json");
    assert_eq!(file("\\\\?\\C:\\.\\a/"), "\\\\?\\C:\\.\\a/\\terminal.json");
    assert_eq!(file("\\\\?\\UNC\\host\\share\\\\a"), "\\\\?\\UNC\\host\\share\\a\\terminal.json");
    assert_eq!(file("\\\\?\\UNC\\host\\"), "\\\\?\\UNC\\host\\terminal.json");
    assert_eq!(file("\\\\?\\volume\\a"), "\\\\?\\volume\\a\\terminal.json");
    assert_eq!(file("\\\\.\\COM1/"), "\\\\.\\COM1/terminal.json");
    assert_eq!(file("\\\\host\\share\\\\a"), "\\\\host\\share\\\\a\\terminal.json");

    assert_eq!(
        terminal_startup_config_schema_file(Platform::MacOs, "/config"),
        "/config/terminal.schema.json"
    );
    assert_eq!(
        terminal_log_file(Platform::Linux, "/logs"),
        "/logs/Zed Terminal.log"
    );
    assert_eq!(
        terminal_old_log_file(Platform::Windows, "C:\\logs"),
        "C:\\logs\\Zed Terminal.log.old"
    );
}

#[test]
fn joined_names_are_those_of_the_standard_library() {
    for directory in ["/config", "/config/", "", "config", ".", "/", "a\\"] {
        assert_eq!(
            terminal_startup_config_file(Platform::Linux, directory),
            Path::new(directory).join("terminal.json").to_string_lossy()
        );
    }
}

#[test]
fn paths_are_the_same_part_by_part() {
    let names = [
        "", ".", "./", "./.", "/", "//", "/.", "a", "a/", "./a", "a/.", "/a", "/a/", "/a/.", "/./a",
        "//a", "/a/b", "/a//b", "/a/./b", "/a/../b", "/a/b/..", "a/b", "a/./b/", ".a", "a\\b", "..",
        "../", "/..", "/A", "C:", "C:/a", "c:/a",
    ];
    for a in names {
        for b in names {
            assert_eq!(
                is_same_path(Platform::Linux, a, b),
                Path::new(a) == Path::new(b),
                "{a:?} and {b:?}"
            );
        }
    }

    let same = |a, b| is_same_path(Platform::Windows, a, b);
    assert!(same("C:\\a\\b", "c:/a//b/"));
    assert!(same("a\\.\\b", "a/b"));
    assert!(same("\\\\host\\share\\a", "//host/share/a/"));
    assert!(!same("\\\\host\\.\\a", "\\\\host\\a"));
    assert!(same("\\\\.\\COM1", "//./COM1/"));
    assert!(!same("\\\\.\\COM1\\a", "\\\\COM1\\a"));
    assert!(!same("C:\\a", "D:\\a"));
    assert!(!same("C:\\a", "C:a"));
    assert!(!same("C:\\a", "\\a"));
    assert!(!same("\\\\host\\share", "\\host\\share"));
    assert!(!same("C:\\a", "C:\\A"));
    assert!(!same("\\\\?\\C:\\a", "C:\\a"));
    assert!(same("\\\\?\\C:\\a", "\\\\?\\C:\\a"));
    assert!(same("\\\\?\\C:\\a", "\\\\?\\c:\\a\\"));
    assert!(same("\\\\?\\C:\\a", "\\\\?\\C:\\\\a"));
    assert!(same("\\\\?\\C:\\a", "\\\\?\\C:/a"));
    assert!(!same("\\\\?\\C:\\a", "\\\\?\\C:\\.\\a"));
    assert!(!same("\\\\?\\C:\\a\\b", "\\\\?\\C:\\a/b"));
    assert!(!same("\\\\?\\C:", "\\\\?\\C:\\"));
    assert!(!same("\\\\?\\C:\\a", "\\\\?\\D:\\a"));
    assert!(!same("\\\\?\\C:\\a", "\\\\?\\C:\\A"));
    assert!(same("\\\\?\\UNC\\h\\s\\a", "\\\\?\\UNC\\h\\s\\\\a\\"));
    assert!(!same("\\\\?\\UNC\\h\\s\\a", "\\\\h\\s\\a"));
    assert!(!same("\\\\?\\UNC\\h\\s\\a", "\\\\?\\UNC\\h\\t\\a"));
    assert!(same("\\\\?\\v\\a", "\\\\?\\v\\a\\"));
    assert!(!same("\\\\?\\v\\a", "\\\\?\\V\\a"));
    assert!(!same("\\\\?\\C:\\a", "//?/C:/a"));
    assert!(same("//?/C:/a", "\\/?/C:\\a\\"));
    assert!(same("C:\\\\h\\s", "C:\\h\\s"));
    assert!(same("\\\\h\\s", "\\\\h\\s\\"));
    assert!(same("\\.\\a", "\\a"));
    assert!(!same(".\\a", "a"));
    assert!(!same("C:.", "C:"));
}

#[test]
fn default_directories_depend_on_the_platform() {
    let directories = |platform| {
        let system = system(platform);
        (
            default_terminal_config_dir(&system).expect("a config directory"),
            default_terminal_data_dir(&system).expect("a data directory"),
        )
    };

    assert_eq!(
        directories(Platform::Linux),
        (
            "/xdg/config/zed-terminal".into(),
            "/xdg/data/zed-terminal".into()
        )
    );
    assert_eq!(
        directories(Platform::Windows),
        (
            "/xdg/config\\Zed Terminal".into(),
            "/xdg/data\\Zed Terminal".into()
        )
    );
    assert_eq!(
        directories(Platform::MacOs),
        (
            "/home/user/.config/zed-terminal".into(),
            "/home/user/Library/Application Support/Zed Terminal".into()
        )
    );
    assert_eq!(
        directories(Platform::Other),
        (
            "/home/user/.config/zed-terminal".into(),
            "/home/user/.config/zed-terminal".into()
        )
    );

    let mut flatpak = system(Platform::Linux);
    flatpak.flatpak_config_home = Some("/flatpak/config".into());
    flatpak.flatpak_data_home = Some("/flatpak/data".into());
    assert_eq!(
        TerminalPathOptions::from_cli(None, None, &flatpak),
        Ok(TerminalPathOptions {
            platform: Platform::Linux,
            data_dir: "/flatpak/data/zed-terminal".into(),
            config_dir: "/flatpak/config/zed-terminal".into(),
        })
    );
}

#[test]
fn unknown_system_directories_are_errors() {
    let problem = |platform| {
        let mut system = system(platform);
        system.config_dir = None;
        system.data_local_dir = None;
        (
            default_terminal_config_dir(&system).map_err(|error| error.chain()),
            default_terminal_data_dir(&system).map_err(|error| error.chain()),
        )
    };

    assert_eq!(
        problem(Platform::Linux),
        (
            Err("failed to determine XDG_CONFIG_HOME directory".into()),
            Err("failed to determine XDG_DATA_HOME directory".into())
        )
    );
    assert_eq!(
        problem(Platform::Windows),
        (
            Err("failed to determine RoamingAppData directory".into()),
            Err("failed to determine LocalAppData directory".into())
        )
    );

    let mut system = system(Platform::Linux);
    system.data_local_dir = None;
    assert!(TerminalPathOptions::from_cli(Some("/data"), Some("/config"), &system).is_err());
}

#[test]
fn tilde_stands_for_the_home_directory() {
    let home = dirs::home_dir().and_then(|home| home.into_os_string().into_string().ok());
    for path in ["~", "~/work", "~user/work", "/srv/~", "", "work", "~~", "~\\work"] {
        assert_eq!(
            expand_tilde(path, home.as_deref(), Platform::Linux),
            shellexpand::tilde(path)
        );
    }

    let expand = |path, platform| expand_tilde(path, Some("/home/user"), platform);
    assert_eq!(expand("~", Platform::Linux), "/home/user");
    assert_eq!(expand("~/work", Platform::MacOs), "/home/user/work");
    assert_eq!(expand("~user/work", Platform::Linux), "~user/work");
    assert_eq!(expand("~\\work", Platform::Linux), "~\\work");
    assert_eq!(expand("~\\work", Platform::Windows), "/home/user\\work");
    assert_eq!(expand_tilde("~/work", None, Platform::Linux), "~/work");
    assert_eq!(expand_tilde("~\\work", None, Platform::Windows), "~\\work");
}

#[test]
fn directories_of_the_command_line_may_begin_at_home() {
    let system = system(Platform::Linux);
    assert_eq!(
        TerminalPathOptions::from_cli(Some("~/data"), None, &system),
        Ok(TerminalPathOptions {
            platform: Platform::Linux,
            data_dir: "/home/user/data".into(),
            config_dir: "/home/user/data/config".into(),
        })
    );
    assert_eq!(
        TerminalPathOptions::from_cli(None, Some("~"), &system),
        Ok(TerminalPathOptions {
            platform: Platform::Linux,
            data_dir: "/xdg/data/zed-terminal".into(),
            config_dir: "/home/user".into(),
        })
    );
}

#[test]
fn relative_directories_lie_below_the_current_one() {
    let below = |path: &str, is_absolute, below: Result<&str, &str>| {
        directory_to_inspect(
            path.into(),
            is_absolute,
            below.map(String::from).map_err(String::from),
        )
    };

    assert_eq!(below("/srv", true, Ok("/home/srv")), Ok("/srv".into()));
    assert_eq!(below("/srv", true, Err("gone")), Ok("/srv".into()));
    assert_eq!(below("srv", false, Ok("/home/srv")), Ok("/home/srv".into()));
    assert_eq!(
        below("srv", false, Err("gone")),
        Err(DirectoryInspection::NoCurrentDirectory {
            error: "gone".into()
        })
    );
}

#[test]
fn directories_resolve_to_what_was_found() {
    let resolved = |inspection| {
        resolve_inspected_directory("work", &inspection).map_err(|error| error.chain())
    };

    assert_eq!(
        resolved(DirectoryInspection::Directory {
            canonical: "/home/work".into()
        }),
        Ok("/home/work".into())
    );
    assert_eq!(
        resolved(DirectoryInspection::NotADirectory {
            canonical: "/home/work".into()
        }),
        Err("working directory is not a directory: /home/work".into())
    );
    assert_eq!(
        resolved(DirectoryInspection::Unresolvable {
            error: "missing".into()
        }),
        Err("failed to resolve working directory work: missing".into())
    );
    assert_eq!(
        resolved(DirectoryInspection::NoCurrentDirectory {
            error: "gone".into()
        }),
        Err("failed to read the current directory: gone".into())
    );
    assert_eq!(
        resolve_working_directory("work", &NameMap::new()).map_err(|error| error.chain()),
        Err("working directory was not looked up: work".into())
    );
}

#[test]
fn command_lines_follow_shell_quoting() {
    let command = LaunchCommand::from_command_line(r#"git commit -m "two words" 'it'\''s'"#)
        .expect("the line should parse");
    assert_eq!(command.program, "git");
    assert_eq!(command.args, ["commit", "-m", "two words", "it's"]);
    assert_eq!(
        command.display_label(),
        r#"git commit -m "two words" it's"#
    );

    let error = LaunchCommand::from_command_line("say \"hi\n").expect_err("an open quote");
    assert_eq!(
        error.chain(),
        r#"could not parse command line: "say \"hi\n""#
    );
    let error = LaunchCommand::from_command_line("  ").expect_err("no words");
    assert_eq!(error.chain(), "command line is empty");
    assert_eq!(LaunchCommand::from_args(Vec::new()), None);
}

#[test]
fn command_parts_are_quoted_where_they_hold_white_space() {
    assert_eq!(format_command_part("plain\"quote"), "plain\"quote");
    assert_eq!(format_command_part(""), "\"\"");
    assert_eq!(format_command_part("a \"b\""), "\"a \\\"b\\\"\"");
    assert_eq!(format_command_part("a\u{2003}b"), "\"a\u{2003}b\"");
}

#[test]
fn shells_are_shown_like_commands() {
    assert_eq!(format_optional_shell(None), "default");
    assert_eq!(format_shell(&Shell::System), "system");
    assert_eq!(format_shell(&Shell::Program("my shell".into())), "\"my shell\"");
    assert_eq!(
        format_optional_shell(Some(&Shell::WithArguments {
            program: "bash".into(),
            args: vec!["-l".into()],
            title_override: Some("ignored".into()),
        })),
        "bash -l"
    );
}

#[test]
fn blank_names_are_refused() {
    assert_eq!(
        normalize_terminal_shell_program(" zsh ").map_err(|error| error.chain()),
        Ok("zsh".into())
    );
    assert_eq!(
        normalize_terminal_shell_program("\t").map_err(|error| error.chain()),
        Err("shell program is empty".into())
    );
    assert_eq!(
        normalize_startup_profile_name(" work ").map_err(|error| error.chain()),
        Ok("work".into())
    );
    assert_eq!(
        normalize_startup_profile_name("").map_err(|error| error.chain()),
        Err("startup profile name is empty".into())
    );
}

#[test]
fn terminal_paths_are_printed_one_per_line() {
    let text = format_terminal_paths(&TerminalPaths {
        config_dir: "1".into(),
        data_dir: "2".into(),
        logs_dir: "3".into(),
        settings_file: "4".into(),
        startup_config_file: "5".into(),
        startup_config_schema_file: "6".into(),
        global_settings_file: "7".into(),
        keymap_file: "8".into(),
        themes_dir: "9".into(),
        log_file: "10".into(),
    });

    assert_eq!(
        text,
        "config_dir: 1\ndata_dir: 2\nlogs_dir: 3\nsettings_file: 4\nstartup_config_file: 5\n\
         startup_config_schema_file: 6\nglobal_settings_file: 7\nkeymap_file: 8\nthemes_dir: 9\n\
         log_file: 10\n"
    );
}

#[test]
fn launch_tabs_become_tasks_or_shells() {
    let mut env = NameMap::new();
    env.insert("A".into(), "1".to_string());
    let request = add_launch_tab(LaunchTab {
        working_directory: Some("/srv".into()),
        command: LaunchCommand::from_args(vec!["make".into(), "all targets".into()]),
        env: env.clone(),
        title: Some("Build".into()),
        split: Some(TerminalStartupSplitDirection::Down),
        ..shell_tab()
    });
    assert_eq!(request.title.as_deref(), Some("Build"));
    assert_eq!(request.split, Some(TerminalStartupSplitDirection::Down));
    let TerminalRequest::Task(task) = request.terminal else {
        panic!("expected a task");
    };
    assert_eq!(task.id, "zed-terminal:make \"all targets\"");
    assert_eq!(task.cwd.as_deref(), Some("/srv"));
    assert_eq!(task.env, env);
    assert!(task.use_new_terminal);

    let request = add_launch_tab(LaunchTab {
        shell: Some(Shell::Program("zsh".into())),
        ..shell_tab()
    });
    assert_eq!(
        request.terminal,
        TerminalRequest::Shell {
            working_directory: None,
            shell: Some(Shell::Program("zsh".into())),
        }
    );
}

#[test]
fn new_tabs_open_in_the_default_directory_unless_they_name_one() {
    let tab = add_new_terminal_tab(shell_tab(), Some("/default".into()));
    assert_eq!(tab.working_directory.as_deref(), Some("/default"));
    let tab = add_new_terminal_tab(tab, Some("/other".into()));
    assert_eq!(tab.working_directory.as_deref(), Some("/default"));

    let tabs = add_launch_tabs(tab.clone(), vec![shell_tab()]);
    assert_eq!(tabs, vec![tab, shell_tab()]);
}

#[test]
fn duplicates_clone_the_active_terminal() {
    let active = |working_directory: Option<&str>| {
        Some(ActiveTerminal {
            working_directory: working_directory.map(String::from),
            custom_title: Some("Mine".into()),
        })
    };
    let clone = |working_directory: &str| DuplicateRequest::Clone {
        working_directory: Some(working_directory.into()),
        custom_title: Some("Mine".into()),
    };

    assert_eq!(
        duplicate_terminal_tab(active(Some("/here")), shell_tab(), Some("/default".into())),
        clone("/here")
    );
    assert_eq!(
        duplicate_terminal_tab(active(None), shell_tab(), Some("/default".into())),
        clone("/default")
    );
    assert_eq!(
        duplicate_terminal_tab(None, shell_tab(), Some("/default".into())),
        DuplicateRequest::Open(add_new_terminal_tab(shell_tab(), Some("/default".into())))
    );
}

#[test]
fn profiles_are_opened_from_the_startup_config_file() {
    let mut config = TerminalStartupConfig::default();
    config.profiles.insert(
        "work".into(),
        TerminalStartupProfileConfig {
            title: Some("Work".into()),
            ..TerminalStartupProfileConfig::default()
        },
    );
    let open = |profile: &str, file| {
        launch_tab_for_profile(
            profile,
            Some(TerminalStartupSplitDirection::Left),
            "terminal.json",
            file,
            &NameMap::new(),
        )
        .map_err(|error| error.chain())
    };

    let tab = open("work", ConfigFile::Parsed(config.clone())).expect("the profile should open");
    assert_eq!(tab.title.as_deref(), Some("Work"));
    assert_eq!(tab.split, Some(TerminalStartupSplitDirection::Left));
    assert_eq!(
        open("play", ConfigFile::Parsed(config)),
        Err(
            "failed to resolve startup profile \"play\": startup profile not found: play. \
             Available profiles: work"
                .into()
        )
    );
    assert_eq!(
        open("work", ConfigFile::Missing { error: "".into() }),
        Err("failed to resolve startup profile \"work\": startup profile not found: work".into())
    );
}

#[test]
fn themes_are_read_from_a_directory() {
    assert_eq!(
        prepare_themes_directory("/themes", Some(true)),
        ThemesDirectory::Read
    );
    assert_eq!(
        prepare_themes_directory("/themes", None),
        ThemesDirectory::Create
    );
    let ThemesDirectory::Refused(error) = prepare_themes_directory("/themes", Some(false)) else {
        panic!("a file should be refused");
    };
    assert_eq!(error.chain(), "themes path \"/themes\" is not a directory");
}

#[test]
fn panes_answer_events() {
    let mut tab = TerminalTab::new(1);
    let right = TerminalStartupSplitDirection::Right;
    let cases = [
        (PaneEvent::AddItem, TabReaction::AnnounceItem),
        (PaneEvent::ChangeItemTitle, TabReaction::UpdateTab),
        (PaneEvent::RemovedItem, TabReaction::UpdateTab),
        (PaneEvent::JoinAll, TabReaction::Propagate),
        (PaneEvent::JoinIntoNext, TabReaction::Propagate),
        (PaneEvent::ZoomIn, TabReaction::Redraw),
        (PaneEvent::ZoomOut, TabReaction::Redraw),
        (PaneEvent::UserSavedItem, TabReaction::Nothing),
        (PaneEvent::ItemPinned, TabReaction::Nothing),
        (PaneEvent::ItemUnpinned, TabReaction::Nothing),
        (
            PaneEvent::Split {
                direction: right,
                move_pane: true,
            },
            TabReaction::Propagate,
        ),
        (
            PaneEvent::Split {
                direction: right,
                move_pane: false,
            },
            TabReaction::DuplicateIntoSplit { direction: right },
        ),
    ];
    for (event, reaction) in cases {
        assert_eq!(tab.handle_pane_event(2, event, 2), reaction);
        assert_eq!(tab.active_pane, 1);
    }
    for event in [PaneEvent::Focus, PaneEvent::ActivateItem] {
        tab.focus_pane(1);
        assert_eq!(tab.handle_pane_event(2, event, 2), TabReaction::UpdateTab);
        assert_eq!(tab.active_pane, 2);
    }
}

#[test]
fn removing_the_last_pane_closes_the_tab() {
    let mut tab = TerminalTab::new(1);
    let remove = PaneEvent::Remove {
        focus_on_pane: Some(3),
    };
    assert_eq!(tab.handle_pane_event(1, remove, 1), TabReaction::CloseTab);
    assert_eq!(
        tab.handle_pane_event(1, remove, 2),
        TabReaction::RemovePane {
            focus_on_pane: Some(3)
        }
    );

    assert_eq!(tab.pane_removed(Some(3), &vec![2, 3, 4]), Some(3));
    assert_eq!(tab.pane_removed(None, &vec![2, 3, 4]), Some(4));
    assert_eq!(tab.active_pane, 4);
    assert_eq!(tab.pane_removed(None, &Vec::new()), None);
    assert_eq!(tab.active_pane, 4);
}

#[test]
fn splits_and_directions_move_the_focus() {
    let mut tab = TerminalTab::new(1);
    assert_eq!(tab.split_terminal(5), 1);
    assert_eq!(tab.active_pane, 5);
    assert_eq!(tab.activate_pane_in_direction(None), None);
    assert_eq!(tab.active_pane, 5);
    assert_eq!(tab.activate_pane_in_direction(Some(1)), Some(1));
    assert_eq!(tab.active_pane, 1);
}

#[test]
fn tabs_are_named_after_their_terminal() {
    assert_eq!(TerminalTab::tab_content_text(Some("zsh".into())), "zsh");
    assert_eq!(TerminalTab::tab_content_text(None), "Terminal");
}
