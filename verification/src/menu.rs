//! The application's menus.

use crate::actions::{ActionKind, ActionView, TerminalAction};
use crate::config::TerminalStartupSplitDirection;
use crate::profiles::{
    split_entries, split_entry, terminal_profile_split_direction_entries, MenuEntryView,
    TerminalProfileSplitDirectionEntry, TerminalStartupProfileMenuEntry,
};
use vstd::prelude::*;
use vstd::string::*;

verus! {

/// A labelled action in a submenu.
#[derive(Clone, Debug, PartialEq, Eq)]
pub struct SubmenuItem {
    pub label: String,
    pub action: TerminalAction,
}

/// A [`SubmenuItem`] as mathematical values.
#[verifier::ext_equal]
pub struct SubmenuItemView {
    pub label: Seq<char>,
    pub action: ActionView,
}

impl View for SubmenuItem {
    type V = SubmenuItemView;

    open spec fn view(&self) -> SubmenuItemView {
        SubmenuItemView { label: self.label@, action: self.action@ }
    }
}

impl DeepView for SubmenuItem {
    type V = SubmenuItemView;

    open spec fn deep_view(&self) -> SubmenuItemView {
        self@
    }
}

/// An item of a menu.
#[derive(Clone, Debug, PartialEq, Eq)]
pub enum MenuItem {
    Separator,
    Action { label: String, action: TerminalAction },
    Submenu { label: String, items: Vec<SubmenuItem> },
}

/// A [`MenuItem`] as mathematical values.
#[verifier::ext_equal]
pub enum MenuItemView {
    Separator,
    Action { label: Seq<char>, action: ActionView },
    Submenu { label: Seq<char>, items: Seq<SubmenuItemView> },
}

impl View for MenuItem {
    type V = MenuItemView;

    open spec fn view(&self) -> MenuItemView {
        match self {
            MenuItem::Separator => MenuItemView::Separator,
            MenuItem::Action { label, action } => MenuItemView::Action {
                label: label@,
                action: action@,
            },
            MenuItem::Submenu { label, items } => MenuItemView::Submenu {
                label: label@,
                items: items.deep_view(),
            },
        }
    }
}

impl DeepView for MenuItem {
    type V = MenuItemView;

    open spec fn deep_view(&self) -> MenuItemView {
        self@
    }
}

/// A menu item for an action without arguments.
pub open spec fn plain(label: Seq<char>, kind: ActionKind) -> MenuItemView {
    MenuItemView::Action { label, action: ActionView::Plain(kind) }
}

fn plain_item(label: &str, kind: ActionKind) -> (r: MenuItem)
    ensures
        r@ == plain(label@, kind),
{
    MenuItem::Action { label: label.to_owned(), action: TerminalAction::Plain(kind) }
}

/// The items of the Terminal menu.
pub open spec fn terminal_menu() -> Seq<MenuItemView> {
    seq![
        plain("Find"@, ActionKind::DeploySearch),
        MenuItemView::Separator,
        plain("Zoom In"@, ActionKind::IncreaseBufferFontSize),
        plain("Zoom Out"@, ActionKind::DecreaseBufferFontSize),
        plain("Reset Zoom"@, ActionKind::ResetBufferFontSize),
        MenuItemView::Separator,
        plain("Copy"@, ActionKind::CopySelection),
        plain("Paste"@, ActionKind::Paste),
        plain("Paste Text"@, ActionKind::PasteText),
        plain("Select All"@, ActionKind::SelectAll),
        MenuItemView::Separator,
        plain("Clear"@, ActionKind::ClearTerminal),
        plain("Toggle Vi Mode"@, ActionKind::ToggleViMode),
        plain("Show Character Palette"@, ActionKind::ShowCharacterPalette),
        MenuItemView::Separator,
        plain("Scroll Line Up"@, ActionKind::ScrollLineUp),
        plain("Scroll Line Down"@, ActionKind::ScrollLineDown),
        plain("Scroll Page Up"@, ActionKind::ScrollPageUp),
        plain("Scroll Page Down"@, ActionKind::ScrollPageDown),
        plain("Scroll To Top"@, ActionKind::ScrollToTop),
        plain("Scroll To Bottom"@, ActionKind::ScrollToBottom),
        MenuItemView::Separator,
        plain("Rerun Task"@, ActionKind::RerunTask),
        plain("Rename Terminal"@, ActionKind::RenameTerminal),
    ]
}

/// The items of the Terminal menu.
pub fn terminal_menu_items() -> (r: Vec<MenuItem>)
    ensures
        r.deep_view() == terminal_menu(),
{
    let r = vec![
        plain_item("Find", ActionKind::DeploySearch),
        MenuItem::Separator,
        plain_item("Zoom In", ActionKind::IncreaseBufferFontSize),
        plain_item("Zoom Out", ActionKind::DecreaseBufferFontSize),
        plain_item("Reset Zoom", ActionKind::ResetBufferFontSize),
        MenuItem::Separator,
        plain_item("Copy", ActionKind::CopySelection),
        plain_item("Paste", ActionKind::Paste),
        plain_item("Paste Text", ActionKind::PasteText),
        plain_item("Select All", ActionKind::SelectAll),
        MenuItem::Separator,
        plain_item("Clear", ActionKind::ClearTerminal),
        plain_item("Toggle Vi Mode", ActionKind::ToggleViMode),
        plain_item("Show Character Palette", ActionKind::ShowCharacterPalette),
        MenuItem::Separator,
        plain_item("Scroll Line Up", ActionKind::ScrollLineUp),
        plain_item("Scroll Line Down", ActionKind::ScrollLineDown),
        plain_item("Scroll Page Up", ActionKind::ScrollPageUp),
        plain_item("Scroll Page Down", ActionKind::ScrollPageDown),
        plain_item("Scroll To Top", ActionKind::ScrollToTop),
        plain_item("Scroll To Bottom", ActionKind::ScrollToBottom),
        MenuItem::Separator,
        plain_item("Rerun Task", ActionKind::RerunTask),
        plain_item("Rename Terminal", ActionKind::RenameTerminal),
    ];
    proof {
        assert(r.deep_view() =~= terminal_menu());
    }
    r
}

/// The items of the Pane menu.
pub open spec fn pane_menu() -> Seq<MenuItemView> {
    seq![
        plain("Split Right"@, ActionKind::SplitRight),
        plain("Split Down"@, ActionKind::SplitDown),
        plain("Split Left"@, ActionKind::SplitLeft),
        plain("Split Up"@, ActionKind::SplitUp),
        MenuItemView::Separator,
        plain("Focus Left"@, ActionKind::ActivatePaneLeft),
        plain("Focus Right"@, ActionKind::ActivatePaneRight),
        plain("Focus Up"@, ActionKind::ActivatePaneUp),
        plain("Focus Down"@, ActionKind::ActivatePaneDown),
        MenuItemView::Separator,
        plain("Next Pane"@, ActionKind::ActivateNextPane),
        plain("Previous Pane"@, ActionKind::ActivatePreviousPane),
        plain("Toggle Pane Zoom"@, ActionKind::ToggleZoom),
        MenuItemView::Separator,
        plain("Resize Pane Left"@, ActionKind::ResizePaneLeft),
        plain("Resize Pane Right"@, ActionKind::ResizePaneRight),
        plain("Resize Pane Up"@, ActionKind::ResizePaneUp),
        plain("Resize Pane Down"@, ActionKind::ResizePaneDown),
        plain("Reset Pane Sizes"@, ActionKind::ResetPaneSizes),
    ]
}

/// The items of the Pane menu.
pub fn pane_menu_items() -> (r: Vec<MenuItem>)
    ensures
        r.deep_view() == pane_menu(),
{
    let r = vec![
        plain_item("Split Right", ActionKind::SplitRight),
        plain_item("Split Down", ActionKind::SplitDown),
        plain_item("Split Left", ActionKind::SplitLeft),
        plain_item("Split Up", ActionKind::SplitUp),
        MenuItem::Separator,
        plain_item("Focus Left", ActionKind::ActivatePaneLeft),
        plain_item("Focus Right", ActionKind::ActivatePaneRight),
        plain_item("Focus Up", ActionKind::ActivatePaneUp),
        plain_item("Focus Down", ActionKind::ActivatePaneDown),
        MenuItem::Separator,
        plain_item("Next Pane", ActionKind::ActivateNextPane),
        plain_item("Previous Pane", ActionKind::ActivatePreviousPane),
        plain_item("Toggle Pane Zoom", ActionKind::ToggleZoom),
        MenuItem::Separator,
        plain_item("Resize Pane Left", ActionKind::ResizePaneLeft),
        plain_item("Resize Pane Right", ActionKind::ResizePaneRight),
        plain_item("Resize Pane Up", ActionKind::ResizePaneUp),
        plain_item("Resize Pane Down", ActionKind::ResizePaneDown),
        plain_item("Reset Pane Sizes", ActionKind::ResetPaneSizes),
    ];
    proof {
        assert(r.deep_view() =~= pane_menu());
    }
    r
}

/// The items of the menu named after the application.
pub open spec fn app_menu() -> Seq<MenuItemView> {
    seq![
        plain("Command Palette..."@, ActionKind::ToggleCommandPalette),
        MenuItemView::Separator,
        plain("Open Settings File"@, ActionKind::OpenSettingsFile),
        plain("Open Startup Config File"@, ActionKind::OpenStartupConfigFile),
        plain("Open Startup Config Schema File"@, ActionKind::OpenStartupConfigSchemaFile),
        plain("Open Keymap File"@, ActionKind::OpenKeymapFile),
        plain("Open Config Directory"@, ActionKind::OpenConfigDirectory),
        plain("Open Logs Directory"@, ActionKind::OpenLogsDirectory),
        MenuItemView::Separator,
        plain("Quit"@, ActionKind::Quit),
    ]
}

/// The items of the menu named after the application.
pub fn app_menu_items() -> (r: Vec<MenuItem>)
    ensures
        r.deep_view() == app_menu(),
{
    let r = vec![
        plain_item("Command Palette...", ActionKind::ToggleCommandPalette),
        MenuItem::Separator,
        plain_item("Open Settings File", ActionKind::OpenSettingsFile),
        plain_item("Open Startup Config File", ActionKind::OpenStartupConfigFile),
        plain_item("Open Startup Config Schema File", ActionKind::OpenStartupConfigSchemaFile),
        plain_item("Open Keymap File", ActionKind::OpenKeymapFile),
        plain_item("Open Config Directory", ActionKind::OpenConfigDirectory),
        plain_item("Open Logs Directory", ActionKind::OpenLogsDirectory),
        MenuItem::Separator,
        plain_item("Quit", ActionKind::Quit),
    ];
    proof {
        assert(r.deep_view() =~= app_menu());
    }
    r
}

/// The items of the Window menu.
pub open spec fn window_menu() -> Seq<MenuItemView> {
    seq![
        plain("New Window"@, ActionKind::NewTerminalWindow),
        plain("Close Window"@, ActionKind::CloseTerminalWindow),
        MenuItemView::Separator,
        plain("Minimize"@, ActionKind::MinimizeTerminalWindow),
        plain("Zoom"@, ActionKind::ZoomTerminalWindow),
        MenuItemView::Separator,
        plain("Toggle Full Screen"@, ActionKind::ToggleFullScreen),
    ]
}

/// The items of the Window menu.
pub fn window_menu_items() -> (r: Vec<MenuItem>)
    ensures
        r.deep_view() == window_menu(),
{
    let r = vec![
        plain_item("New Window", ActionKind::NewTerminalWindow),
        plain_item("Close Window", ActionKind::CloseTerminalWindow),
        MenuItem::Separator,
        plain_item("Minimize", ActionKind::MinimizeTerminalWindow),
        plain_item("Zoom", ActionKind::ZoomTerminalWindow),
        MenuItem::Separator,
        plain_item("Toggle Full Screen", ActionKind::ToggleFullScreen),
    ];
    proof {
        assert(r.deep_view() =~= window_menu());
    }
    r
}

/// The items at the end of the Shell menu.
pub open spec fn closing_shell_menu() -> Seq<MenuItemView> {
    seq![
        plain("Clear Default Profile"@, ActionKind::ClearDefaultStartupProfile),
        plain("Close Tab"@, ActionKind::CloseActiveItem),
        plain("Close Other Tabs"@, ActionKind::CloseOtherItems),
        plain("Close Tabs to the Right"@, ActionKind::CloseItemsToTheRight),
        plain("Close Tabs to the Left"@, ActionKind::CloseItemsToTheLeft),
        plain("Close All Tabs"@, ActionKind::CloseAllItems),
        MenuItemView::Separator,
        plain("Next Tab"@, ActionKind::ActivateNextItem),
        plain("Previous Tab"@, ActionKind::ActivatePreviousItem),
        plain("Move Tab Left"@, ActionKind::SwapItemLeft),
        plain("Move Tab Right"@, ActionKind::SwapItemRight),
    ]
}

/// The items at the end of the Shell menu.
fn closing_shell_menu_items() -> (r: Vec<MenuItem>)
    ensures
        r.deep_view() == closing_shell_menu(),
{
    let r = vec![
        plain_item("Clear Default Profile", ActionKind::ClearDefaultStartupProfile),
        plain_item("Close Tab", ActionKind::CloseActiveItem),
        plain_item("Close Other Tabs", ActionKind::CloseOtherItems),
        plain_item("Close Tabs to the Right", ActionKind::CloseItemsToTheRight),
        plain_item("Close Tabs to the Left", ActionKind::CloseItemsToTheLeft),
        plain_item("Close All Tabs", ActionKind::CloseAllItems),
        MenuItem::Separator,
        plain_item("Next Tab", ActionKind::ActivateNextItem),
        plain_item("Previous Tab", ActionKind::ActivatePreviousItem),
        plain_item("Move Tab Left", ActionKind::SwapItemLeft),
        plain_item("Move Tab Right", ActionKind::SwapItemRight),
    ];
    proof {
        assert(r.deep_view() =~= closing_shell_menu());
    }
    r
}

/// What a submenu does with the profile of one of its entries.
#[derive(Clone, Copy, Debug, PartialEq, Eq, Structural)]
pub enum ProfileUse {
    NewTab,
    Split(TerminalStartupSplitDirection),
    SetDefault,
}

/// The action that uses a profile.
pub open spec fn profile_action(profile_use: ProfileUse, profile: Seq<char>) -> ActionView {
    match profile_use {
        ProfileUse::NewTab => ActionView::NewTerminalTabWithProfile { profile },
        ProfileUse::Split(direction) => ActionView::NewTerminalSplitWithProfile {
            profile,
            direction,
        },
        ProfileUse::SetDefault => ActionView::SetDefaultStartupProfile { profile },
    }
}

/// The submenu that uses one of these profiles.
pub open spec fn profile_submenu(
    label: Seq<char>,
    profile_use: ProfileUse,
    entries: Seq<MenuEntryView>,
) -> MenuItemView {
    MenuItemView::Submenu {
        label,
        items: entries.map_values(
            |entry: MenuEntryView|
                SubmenuItemView {
                    label: entry.label,
                    action: profile_action(profile_use, entry.profile),
                },
        ),
    }
}

/// The submenus that use one of these profiles.
pub open spec fn profile_submenus(entries: Seq<MenuEntryView>) -> Seq<MenuItemView> {
    seq![profile_submenu("New Tab With Profile"@, ProfileUse::NewTab, entries)]
        + split_entries().map_values(
        |split: (Seq<char>, TerminalStartupSplitDirection)|
            profile_submenu(
                "Split "@ + split.0 + " With Profile"@,
                ProfileUse::Split(split.1),
                entries,
            ),
    ) + seq![profile_submenu("Set Default Profile"@, ProfileUse::SetDefault, entries)]
}

/// The items of the Shell menu. Without profiles it has no submenus.
pub open spec fn shell_menu(entries: Seq<MenuEntryView>) -> Seq<MenuItemView> {
    seq![
        plain("New Tab"@, ActionKind::NewTerminalTab),
        plain("Duplicate Tab"@, ActionKind::DuplicateTerminalTab),
    ] + (if entries.len() == 0 {
        Seq::empty()
    } else {
        profile_submenus(entries)
    }) + closing_shell_menu()
}

/// The action that uses a profile.
pub fn use_profile(profile_use: ProfileUse, profile: &String) -> (r: TerminalAction)
    ensures
        r@ == profile_action(profile_use, profile@),
{
    match profile_use {
        ProfileUse::NewTab => TerminalAction::NewTerminalTabWithProfile {
            profile: profile.clone(),
        },
        ProfileUse::Split(direction) => TerminalAction::NewTerminalSplitWithProfile {
            profile: profile.clone(),
            direction,
        },
        ProfileUse::SetDefault => TerminalAction::SetDefaultStartupProfile {
            profile: profile.clone(),
        },
    }
}

fn profile_submenu_item(
    label: String,
    profile_use: ProfileUse,
    entries: &Vec<TerminalStartupProfileMenuEntry>,
) -> (r: MenuItem)
    ensures
        r@ == profile_submenu(label@, profile_use, entries.deep_view()),
{
    let ghost all = profile_submenu(label@, profile_use, entries.deep_view())->items;
    let mut items: Vec<SubmenuItem> = Vec::new();
    let mut i: usize = 0;
    while i < entries.len()
        invariant
            i <= entries@.len(),
            all == profile_submenu(label@, profile_use, entries.deep_view())->items,
            items.deep_view() == all.take(i as int),
        decreases entries@.len() - i,
    {
        let ghost before = items.deep_view();
        items.push(
            SubmenuItem {
                label: entries[i].label.clone(),
                action: use_profile(profile_use, &entries[i].profile),
            },
        );
        i = i + 1;
        proof {
            assert(entries.deep_view()[i - 1] == entries@[i - 1]@);
            assert(items.deep_view() =~= before.push(all[i - 1]));
            assert(all.take(i as int) =~= all.take(i - 1).push(all[i - 1]));
        }
    }
    proof {
        assert(all.take(all.len() as int) =~= all);
    }
    MenuItem::Submenu { label, items }
}

fn profile_submenu_items(entries: &Vec<TerminalStartupProfileMenuEntry>) -> (r: Vec<MenuItem>)
    ensures
        r.deep_view() == profile_submenus(entries.deep_view()),
{
    let ghost all = profile_submenus(entries.deep_view());
    let splits = terminal_profile_split_direction_entries();
    let mut items: Vec<MenuItem> = Vec::new();
    items.push(
        profile_submenu_item("New Tab With Profile".to_owned(), ProfileUse::NewTab, entries),
    );
    let mut i: usize = 0;
    proof {
        assert(splits@.len() == splits@.map_values(
            |entry: TerminalProfileSplitDirectionEntry| split_entry(entry),
        ).len());
        assert(items.deep_view() =~= all.take(1));
    }
    while i < splits.len()
        invariant
            i <= splits@.len(),
            splits@.len() == 4,
            splits@.map_values(|entry: TerminalProfileSplitDirectionEntry| split_entry(entry))
                == split_entries(),
            all == profile_submenus(entries.deep_view()),
            items.deep_view() == all.take(i + 1),
        decreases splits@.len() - i,
    {
        let ghost before = items.deep_view();
        let mut label = "Split ".to_owned();
        label.append(splits[i].label);
        label.append(" With Profile");
        items.push(profile_submenu_item(label, ProfileUse::Split(splits[i].direction), entries));
        i = i + 1;
        proof {
            assert(split_entries()[i - 1] == split_entry(splits@[i - 1]));
            assert(items.deep_view() =~= before.push(all[i as int]));
            assert(all.take(i + 1) =~= all.take(i as int).push(all[i as int]));
        }
    }
    let ghost before = items.deep_view();
    items.push(
        profile_submenu_item("Set Default Profile".to_owned(), ProfileUse::SetDefault, entries),
    );
    proof {
        assert(items.deep_view() =~= before.push(all[5]));
        assert(all.take(5).push(all[5]) =~= all);
    }
    items
}

/// The items of the Shell menu, with submenus for the profiles if there are
/// any.
pub fn shell_menu_items(profile_entries: Vec<TerminalStartupProfileMenuEntry>) -> (r: Vec<MenuItem>)
    ensures
        r.deep_view() == shell_menu(profile_entries.deep_view()),
{
    let mut shell_items = vec![
        plain_item("New Tab", ActionKind::NewTerminalTab),
        plain_item("Duplicate Tab", ActionKind::DuplicateTerminalTab),
    ];
    let ghost first = shell_items.deep_view();
    let mut submenus: Vec<MenuItem> = if profile_entries.len() == 0 {
        Vec::new()
    } else {
        profile_submenu_items(&profile_entries)
    };
    let ghost second = submenus.deep_view();
    let mut closing = closing_shell_menu_items();
    let ghost third = closing.deep_view();
    shell_items.append(&mut submenus);
    shell_items.append(&mut closing);
    proof {
        assert(first =~= seq![
            plain("New Tab"@, ActionKind::NewTerminalTab),
            plain("Duplicate Tab"@, ActionKind::DuplicateTerminalTab),
        ]);
        if profile_entries@.len() == 0 {
            assert(second =~= Seq::empty());
        }
        assert(shell_items.deep_view() =~= first + second + third);
    }
    shell_items
}

/// A menu of the menu bar.
#[derive(Clone, Debug, PartialEq, Eq)]
pub struct Menu {
    pub name: String,
    pub items: Vec<MenuItem>,
}

/// A [`Menu`] as mathematical values.
#[verifier::ext_equal]
pub struct MenuView {
    pub name: Seq<char>,
    pub items: Seq<MenuItemView>,
}

impl View for Menu {
    type V = MenuView;

    open spec fn view(&self) -> MenuView {
        MenuView { name: self.name@, items: self.items.deep_view() }
    }
}

impl DeepView for Menu {
    type V = MenuView;

    open spec fn deep_view(&self) -> MenuView {
        self@
    }
}

/// The menu bar, with submenus for the profiles if there are any.
pub fn app_menus(profile_entries: Vec<TerminalStartupProfileMenuEntry>) -> (r: Vec<Menu>)
    ensures
        r.deep_view() == seq![
            MenuView { name: "Zed Terminal"@, items: app_menu() },
            MenuView { name: "Shell"@, items: shell_menu(profile_entries.deep_view()) },
            MenuView { name: "Terminal"@, items: terminal_menu() },
            MenuView { name: "Pane"@, items: pane_menu() },
            MenuView { name: "Window"@, items: window_menu() },
        ],
{
    vec![
        Menu { name: "Zed Terminal".to_owned(), items: app_menu_items() },
        Menu { name: "Shell".to_owned(), items: shell_menu_items(profile_entries) },
        Menu { name: "Terminal".to_owned(), items: terminal_menu_items() },
        Menu { name: "Pane".to_owned(), items: pane_menu_items() },
        Menu { name: "Window".to_owned(), items: window_menu_items() },
    ]
}

} // verus!
