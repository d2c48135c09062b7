//! Menus and the command palette.

use std::collections::BTreeSet;
use zed_terminal::actions::{ActionKind, TerminalAction};
use zed_terminal::config::{
    ConfigFile, TerminalStartupConfig, TerminalStartupProfileConfig, TerminalStartupSplitDirection,
};
use zed_terminal::menu::{
    app_menu_items, app_menus, shell_menu_items, terminal_menu_items, window_menu_items, MenuItem,
};
use zed_terminal::name_map::NameMap;
use zed_terminal::palette::{
    match_positions_of_forms, terminal_command_palette_hidden_namespaces,
    terminal_command_palette_match_positions,
    terminal_command_palette_visible_action_types, terminal_profile_command_palette_result,
    terminal_profile_command_palette_result_from_summaries, CommandInterceptItem,
};
use zed_terminal::profiles::{
    profile_menu_label, startup_profile_menu_entries, terminal_profile_split_direction_entries,
    TerminalStartupProfileMenuEntry, TerminalStartupProfileSummary,
};

fn assert_menu_action(menu_items: &[MenuItem], label: &str, action_name: &str) {
    let action = menu_items
        .iter()
        .find_map(|item| match item {
            MenuItem::Action { label: name, action } if name == label => Some(action),
            _ => None,
        })
        .unwrap_or_else(|| panic!("missing menu action {label:?}"));
    assert_eq!(action.kind().name(), action_name);
}

fn assert_profile_split_submenu_action(
    menu_items: &[MenuItem],
    submenu_label: &str,
    action_label: &str,
    expected_profile: &str,
    expected_direction: TerminalStartupSplitDirection,
) {
    let items = menu_items
        .iter()
        .find_map(|item| match item {
            MenuItem::Submenu { label, items } if label == submenu_label => Some(items),
            _ => None,
        })
        .unwrap_or_else(|| panic!("missing submenu {submenu_label:?}"));
    let item = items
        .iter()
        .find(|item| item.label == action_label)
        .unwrap_or_else(|| panic!("missing submenu action {action_label:?} in {submenu_label:?}"));
    assert_eq!(
        item.action,
        TerminalAction::NewTerminalSplitWithProfile {
            profile: expected_profile.into(),
            direction: expected_direction,
        }
    );
}

fn assert_profile_tab_action(item: &CommandInterceptItem, expected_profile: &str) {
    assert_eq!(
        item.action,
        TerminalAction::NewTerminalTabWithProfile {
            profile: expected_profile.into(),
        }
    );
}

fn assert_profile_split_action(
    item: &CommandInterceptItem,
    expected_profile: &str,
    expected_direction: TerminalStartupSplitDirection,
) {
    assert_eq!(
        item.action,
        TerminalAction::NewTerminalSplitWithProfile {
            profile: expected_profile.into(),
            direction: expected_direction,
        }
    );
}

fn assert_set_default_profile_action(item: &CommandInterceptItem, expected_profile: &str) {
    assert_eq!(
        item.action,
        TerminalAction::SetDefaultStartupProfile {
            profile: expected_profile.into(),
        }
    );
}

/// Whether the palette hides the action with this name: its namespace is
/// hidden and it is not offered by itself.
fn is_hidden(name: &str) -> bool {
    let namespace = name.split("::").next().unwrap_or_default();
    terminal_command_palette_hidden_namespaces().contains(&namespace)
        && !terminal_command_palette_visible_action_types()
            .iter()
            .any(|kind| kind.name() == name)
}

#[test]
fn terminal_command_palette_filter_keeps_terminal_product_actions() {
    for kind in [
        ActionKind::CloseTerminalWindow,
        ActionKind::DuplicateTerminalTab,
        ActionKind::MinimizeTerminalWindow,
        ActionKind::NewTerminalWindow,
        ActionKind::NewTerminalTab,
        TerminalAction::NewTerminalTabWithProfile {
            profile: "work".into(),
        }
        .kind(),
        TerminalAction::NewTerminalSplitWithProfile {
            profile: "work".into(),
            direction: TerminalStartupSplitDirection::Right,
        }
        .kind(),
        TerminalAction::SetDefaultStartupProfile {
            profile: "work".into(),
        }
        .kind(),
        ActionKind::ToggleFullScreen,
        ActionKind::ZoomTerminalWindow,
        ActionKind::ToggleCommandPalette,
        ActionKind::OpenSettingsFile,
        ActionKind::OpenStartupConfigFile,
        ActionKind::OpenStartupConfigSchemaFile,
        ActionKind::CopySelection,
        ActionKind::Paste,
        ActionKind::ClearTerminal,
        ActionKind::RenameTerminal,
        ActionKind::SelectAll,
        ActionKind::DeploySearch,
        ActionKind::IncreaseBufferFontSize,
        ActionKind::ActivatePaneLeft,
        ActionKind::SplitRight,
        ActionKind::CloseActiveItem,
    ] {
        assert!(!is_hidden(kind.name()), "{kind:?} should be visible");
        assert!(terminal_command_palette_visible_action_types().contains(&kind));
    }
}

#[test]
fn terminal_command_palette_filter_hides_non_terminal_product_actions() {
    for name in [
        "editor::ToggleComments",
        "workspace::NewFile",
        "file_finder::Toggle",
        "workspace::ToggleBottomDock",
        "zed::Extensions",
        "agent::Chat",
        "theme::ToggleMode",
        "terminal::SearchTest",
        "terminal::ScrollHalfPageUp",
    ] {
        assert!(is_hidden(name), "{name:?} should be hidden");
    }
}

#[test]
fn terminal_command_palette_filter_hides_broad_mixed_namespaces() {
    let hidden_namespaces = terminal_command_palette_hidden_namespaces()
        .iter()
        .copied()
        .collect::<BTreeSet<_>>();

    for namespace in [
        "buffer_search",
        "command_palette",
        "editor",
        "pane",
        "terminal",
        "workspace",
        "zed",
        "zed_terminal",
    ] {
        assert!(
            hidden_namespaces.contains(namespace),
            "terminal command palette should hide broad namespace {namespace:?}"
        );
    }
}

#[test]
fn terminal_profile_command_palette_exposes_visible_profile_actions() {
    let result = terminal_profile_command_palette_result_from_summaries(
        "work",
        vec![TerminalStartupProfileSummary {
            name: "work".into(),
            display_name: "Work Shell".into(),
            description: Some("Project shell".into()),
            icon: Some("terminal".into()),
            color: Some("#0f766e".into()),
            hidden: false,
            is_default: true,
            tab_count: 2,
        }],
    );

    assert!(!result.exclusive);
    assert_eq!(
        result
            .results
            .iter()
            .map(|item| item.string.as_str())
            .collect::<Vec<_>>(),
        vec![
            "New Tab With Profile: Work Shell (work) - Default",
            "Split Right With Profile: Work Shell (work) - Default",
            "Split Down With Profile: Work Shell (work) - Default",
            "Split Left With Profile: Work Shell (work) - Default",
            "Split Up With Profile: Work Shell (work) - Default",
            "Set Default Profile: Work Shell (work) - Default",
        ]
    );

    assert_profile_tab_action(&result.results[0], "work");
    assert_profile_split_action(
        &result.results[1],
        "work",
        TerminalStartupSplitDirection::Right,
    );
    assert_profile_split_action(
        &result.results[2],
        "work",
        TerminalStartupSplitDirection::Down,
    );
    assert_profile_split_action(
        &result.results[3],
        "work",
        TerminalStartupSplitDirection::Left,
    );
    assert_profile_split_action(
        &result.results[4],
        "work",
        TerminalStartupSplitDirection::Up,
    );
    assert_set_default_profile_action(&result.results[5], "work");
    assert!(result.results.iter().all(|item| !item.positions.is_empty()));
}

#[test]
fn terminal_profile_command_palette_uses_visible_startup_profiles() {
    let mut profiles = NameMap::new();
    profiles.insert(
        "hidden".into(),
        TerminalStartupProfileConfig {
            display_name: Some("Hidden Shell".into()),
            hidden: true,
            ..TerminalStartupProfileConfig::default()
        },
    );
    profiles.insert(
        "work".into(),
        TerminalStartupProfileConfig {
            display_name: Some("Work Shell".into()),
            ..TerminalStartupProfileConfig::default()
        },
    );
    let config = TerminalStartupConfig {
        profiles,
        ..TerminalStartupConfig::default()
    };

    let result = terminal_profile_command_palette_result_from_summaries(
        "",
        config.profile_summaries(false),
    );

    assert_eq!(result.results.len(), 6);
    assert!(
        result
            .results
            .iter()
            .all(|item| item.string.contains("Work Shell"))
    );
    assert!(
        result
            .results
            .iter()
            .all(|item| !item.string.contains("Hidden Shell"))
    );
}

#[test]
fn terminal_profile_command_palette_filters_by_query() {
    let profiles = vec![
        TerminalStartupProfileSummary {
            name: "build".into(),
            display_name: "Build Shell".into(),
            description: None,
            icon: None,
            color: None,
            hidden: false,
            is_default: false,
            tab_count: 1,
        },
        TerminalStartupProfileSummary {
            name: "logs".into(),
            display_name: "Log Tail".into(),
            description: None,
            icon: None,
            color: None,
            hidden: false,
            is_default: false,
            tab_count: 1,
        },
    ];

    let result = terminal_profile_command_palette_result_from_summaries("log", profiles);

    assert_eq!(result.results.len(), 6);
    assert!(
        result
            .results
            .iter()
            .all(|item| item.string.contains("Log Tail"))
    );
}

#[test]
fn terminal_profile_split_directions_cover_full_pane_model() {
    assert_eq!(
        terminal_profile_split_direction_entries()
            .iter()
            .map(|entry| (entry.label, entry.direction))
            .collect::<Vec<_>>(),
        vec![
            ("Right", TerminalStartupSplitDirection::Right),
            ("Down", TerminalStartupSplitDirection::Down),
            ("Left", TerminalStartupSplitDirection::Left),
            ("Up", TerminalStartupSplitDirection::Up),
        ]
    );
}

#[test]
fn terminal_command_palette_match_positions_are_subsequence_matches() {
    assert_eq!(
        terminal_command_palette_match_positions("New Tab With Profile: Work", "ntwp")
            .expect("query should match"),
        vec![0, 4, 8, 13]
    );
    assert!(terminal_command_palette_match_positions("New Tab", "zzz").is_none());
    assert_eq!(
        terminal_command_palette_match_positions("New Tab", "   ")
            .expect("blank query matches"),
        Vec::<usize>::new()
    );
}

#[test]
fn shell_menu_exposes_duplicate_tab_action() {
    let items = shell_menu_items(Vec::new());

    assert_menu_action(
        &items,
        "Duplicate Tab",
        "zed_terminal::DuplicateTerminalTab",
    );
}

#[test]
fn shell_menu_exposes_bulk_tab_close_actions() {
    let items = shell_menu_items(Vec::new());

    assert_menu_action(&items, "Close Tab", "pane::CloseActiveItem");
    assert_menu_action(&items, "Close Other Tabs", "pane::CloseOtherItems");
    assert_menu_action(
        &items,
        "Close Tabs to the Right",
        "pane::CloseItemsToTheRight",
    );
    assert_menu_action(
        &items,
        "Close Tabs to the Left",
        "pane::CloseItemsToTheLeft",
    );
    assert_menu_action(&items, "Close All Tabs", "pane::CloseAllItems");
}

#[test]
fn shell_menu_exposes_tab_reorder_actions() {
    let items = shell_menu_items(Vec::new());

    assert_menu_action(&items, "Move Tab Left", "pane::SwapItemLeft");
    assert_menu_action(&items, "Move Tab Right", "pane::SwapItemRight");
}

#[test]
fn shell_menu_exposes_all_profile_split_directions() {
    let items = shell_menu_items(vec![TerminalStartupProfileMenuEntry {
        profile: "work".into(),
        label: "Work Shell (work)".into(),
    }]);

    assert_profile_split_submenu_action(
        &items,
        "Split Right With Profile",
        "Work Shell (work)",
        "work",
        TerminalStartupSplitDirection::Right,
    );
    assert_profile_split_submenu_action(
        &items,
        "Split Down With Profile",
        "Work Shell (work)",
        "work",
        TerminalStartupSplitDirection::Down,
    );
    assert_profile_split_submenu_action(
        &items,
        "Split Left With Profile",
        "Work Shell (work)",
        "work",
        TerminalStartupSplitDirection::Left,
    );
    assert_profile_split_submenu_action(
        &items,
        "Split Up With Profile",
        "Work Shell (work)",
        "work",
        TerminalStartupSplitDirection::Up,
    );
}

#[test]
fn terminal_menu_exposes_find_action() {
    let items = terminal_menu_items();

    assert_menu_action(&items, "Find", "buffer_search::Deploy");
}

#[test]
fn terminal_menu_exposes_font_zoom_actions() {
    let items = terminal_menu_items();

    assert_menu_action(&items, "Zoom In", "zed::IncreaseBufferFontSize");
    assert_menu_action(&items, "Zoom Out", "zed::DecreaseBufferFontSize");
    assert_menu_action(&items, "Reset Zoom", "zed::ResetBufferFontSize");
}

#[test]
fn app_menu_exposes_command_palette_action() {
    let items = app_menu_items();

    assert_menu_action(&items, "Command Palette...", "command_palette::Toggle");
    assert_menu_action(
        &items,
        "Open Startup Config Schema File",
        "zed_terminal::OpenStartupConfigSchemaFile",
    );
}

#[test]
fn window_menu_exposes_window_lifecycle_actions() {
    let items = window_menu_items();

    assert_menu_action(&items, "New Window", "zed_terminal::NewTerminalWindow");
    assert_menu_action(&items, "Close Window", "zed_terminal::CloseTerminalWindow");
    assert_menu_action(&items, "Minimize", "zed_terminal::MinimizeTerminalWindow");
    assert_menu_action(&items, "Zoom", "zed_terminal::ZoomTerminalWindow");
    assert_menu_action(
        &items,
        "Toggle Full Screen",
        "zed_terminal::ToggleFullScreen",
    );
}

#[test]
fn menus_offer_profiles_only_where_there_are_any() {
    let submenus = |items: &[MenuItem]| {
        items
            .iter()
            .filter_map(|item| match item {
                MenuItem::Submenu { label, items } => Some((label.clone(), items.len())),
                _ => None,
            })
            .collect::<Vec<_>>()
    };
    assert!(submenus(&shell_menu_items(Vec::new())).is_empty());

    let entries = vec![
        TerminalStartupProfileMenuEntry {
            profile: "logs".into(),
            label: "Logs".into(),
        },
        TerminalStartupProfileMenuEntry {
            profile: "work".into(),
            label: "Work".into(),
        },
    ];
    assert_eq!(
        submenus(&shell_menu_items(entries.clone())),
        vec![
            ("New Tab With Profile".into(), 2),
            ("Split Right With Profile".into(), 2),
            ("Split Down With Profile".into(), 2),
            ("Split Left With Profile".into(), 2),
            ("Split Up With Profile".into(), 2),
            ("Set Default Profile".into(), 2),
        ]
    );
    assert_eq!(
        app_menus(entries)
            .iter()
            .map(|menu| (menu.name.as_str(), menu.items.len()))
            .collect::<Vec<_>>(),
        vec![
            ("Zed Terminal", 10),
            ("Shell", 19),
            ("Terminal", 24),
            ("Pane", 19),
            ("Window", 7),
        ]
    );
}

#[test]
fn menu_actions_are_offered_by_the_palette() {
    let visible = terminal_command_palette_visible_action_types();
    for menu in app_menus(Vec::new()) {
        for item in menu.items {
            if let MenuItem::Action { action, .. } = item {
                assert!(visible.contains(&action.kind()));
            }
        }
    }
}

fn summary(name: &str, display_name: &str, is_default: bool) -> TerminalStartupProfileSummary {
    TerminalStartupProfileSummary {
        name: name.into(),
        display_name: display_name.into(),
        description: None,
        icon: None,
        color: None,
        hidden: false,
        is_default,
        tab_count: 1,
    }
}

#[test]
fn menu_labels_name_a_profile_once() {
    assert_eq!(profile_menu_label(&summary("work", "work", false)), "work");
    assert_eq!(
        profile_menu_label(&summary("work", "Work", true)),
        "Work (work) - Default"
    );
}

#[test]
fn profile_menus_are_empty_for_unusable_files() {
    assert!(
        startup_profile_menu_entries(
            "terminal.json",
            ConfigFile::Malformed { error: "bad".into() }
        )
        .is_empty()
    );
    let result = terminal_profile_command_palette_result(
        "",
        "terminal.json",
        ConfigFile::Unreadable { error: "no".into() },
    );
    assert!(result.results.is_empty());
    assert!(!result.exclusive);
}

#[test]
fn palette_results_for_profiles_are_limited() {
    let profiles = (0..20)
        .map(|index| summary(&format!("profile-{index}"), "Shell", false))
        .collect::<Vec<_>>();

    let all = terminal_profile_command_palette_result_from_summaries("", profiles.clone());
    assert_eq!(all.results.len(), 100);

    let splits = terminal_profile_command_palette_result_from_summaries("split", profiles);
    assert!(splits.results.len() <= 100);
    for item in &splits.results {
        assert_eq!(
            terminal_command_palette_match_positions(&item.string, "split"),
            Some(item.positions.clone())
        );
    }
}

#[test]
fn forms_match_one_after_the_other() {
    let forms = |forms: &[&str]| -> Vec<Vec<char>> {
        forms.iter().map(|form| form.chars().collect()).collect()
    };

    // The second character has a form of two characters.
    let entry = forms(&["a", "i\u{307}", "b", "a"]);
    let positions =
        |query: &[&str]| match_positions_of_forms("A\u{130}BA", &entry, &forms(query));
    assert_eq!(positions(&["a", "b"]), Some(vec![0, 3]));
    assert_eq!(positions(&["a", "a"]), Some(vec![0, 4]));
    assert_eq!(positions(&["\u{307}", "a"]), Some(vec![1, 4]));
    assert_eq!(positions(&["i\u{307}"]), None);
    assert_eq!(positions(&["b", "i"]), None);
    assert_eq!(positions(&[]), Some(vec![]));
    assert_eq!(
        terminal_command_palette_match_positions("A\u{130}BA", "aB"),
        Some(vec![0, 3])
    );
}

#[test]
fn match_positions_count_bytes() {
    assert_eq!(
        terminal_command_palette_match_positions("\u{e9}t\u{e9} \u{4e2d}\u{1f600}x", "TX"),
        Some(vec![2, 13])
    );
    assert_eq!(
        terminal_command_palette_match_positions("ABC", "\u{4e2d}"),
        None
    );
}
