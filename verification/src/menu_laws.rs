//! What holds of the profiles that users are shown, in menus and in the command
//! palette.

use crate::actions::{ActionKind, ActionView};
use crate::config::{ConfigView, ProfileConfigView, TerminalStartupSplitDirection};
use crate::laws::{law_summaries_are_ordered_and_hide_hidden_profiles, matches_at};
use crate::menu::{
    app_menu, closing_shell_menu, pane_menu, profile_submenus, shell_menu, terminal_menu,
    window_menu, MenuItemView, ProfileUse,
};
use crate::name_map::in_name_order;
use crate::palette::{
    all_candidates, candidates, first_match, joined_forms, lowercase, lowercase_forms,
    match_positions, matched_places, matching_items, profile_items, CandidateView, PaletteItemView,
    TERMINAL_PROFILE_COMMAND_PALETTE_MAX_RESULTS,
};
use crate::profiles::{
    menu_entries, menu_label, split_entries, summaries_of, summary_of, MenuEntryView, SummaryView,
};
use crate::text::{text_before, trimmed};
use vstd::prelude::*;
use vstd::utf8::encode_utf8;

verus! {

/// Whether a text is the one that was given, without the white space around
/// it, or none where that is blank or was not given.
pub open spec fn is_shown_text(shown: Option<Seq<char>>, given: Option<Seq<char>>) -> bool {
    match given {
        None => shown is None,
        Some(given) => if trimmed(given).len() == 0 {
            shown is None
        } else {
            shown == Some(trimmed(given))
        },
    }
}

/// A summary says of a profile what the configuration says: its name, its
/// texts without the white space around them, whether it is hidden, whether it
/// is the default one, and how many tabs it opens. A profile without a name to
/// show goes by its own.
pub proof fn law_summary_says_what_the_profile_is(
    config: ConfigView,
    name: Seq<char>,
    profile: ProfileConfigView,
)
    ensures
        ({
            let summary = summary_of(config, name, profile);
            &&& summary.name == name
            &&& is_shown_text(Some(summary.display_name), profile.display_name)
                || summary.display_name == name && is_shown_text(None, profile.display_name)
            &&& is_shown_text(summary.description, profile.description)
            &&& is_shown_text(summary.icon, profile.icon)
            &&& is_shown_text(summary.color, profile.color)
            &&& summary.hidden == profile.hidden
            &&& summary.is_default <==> config.default_profile == Some(name)
            &&& 1 + profile.tabs.len() <= usize::MAX ==> summary.tab_count == 1
                + profile.tabs.len()
            &&& 1 + profile.tabs.len() > usize::MAX ==> summary.tab_count == usize::MAX
        }),
{
}

/// At most one profile is the default one.
pub proof fn law_one_default_profile_at_most(
    config: ConfigView,
    a: (Seq<char>, ProfileConfigView),
    b: (Seq<char>, ProfileConfigView),
)
    requires
        summary_of(config, a.0, a.1).is_default,
        summary_of(config, b.0, b.1).is_default,
    ensures
        a.0 == b.0,
{
}

/// Whether the menu has an entry for a profile, under this label.
pub open spec fn has_entry(
    entries: Seq<MenuEntryView>,
    profile: Seq<char>,
    label: Seq<char>,
) -> bool {
    exists|i: int|
        0 <= i < entries.len() && (#[trigger] entries[i]).profile == profile && entries[i].label
            == label
}

/// Whether a profile that is not hidden has this name.
pub open spec fn is_visible(config: ConfigView, name: Seq<char>) -> bool {
    exists|k: int|
        0 <= k < config.profiles.len() && (#[trigger] config.profiles[k]).0 == name
            && !config.profiles[k].1.hidden
}

/// The menu has one entry for each profile that is not hidden and for no other,
/// in the order of names. An entry is for the profile whose label it has.
pub proof fn law_menu_lists_the_visible_profiles(config: ConfigView)
    requires
        in_name_order(config.profiles),
    ensures
        forall|k: int|
            0 <= k < config.profiles.len() && !(#[trigger] config.profiles[k]).1.hidden
                ==> has_entry(
                menu_entries(config),
                config.profiles[k].0,
                menu_label(summary_of(config, config.profiles[k].0, config.profiles[k].1)),
            ),
        forall|i: int|
            0 <= i < menu_entries(config).len() ==> is_visible(
                config,
                (#[trigger] menu_entries(config)[i]).profile,
            ),
        forall|i: int, j: int|
            0 <= i < j < menu_entries(config).len() ==> text_before(
                (#[trigger] menu_entries(config)[i]).profile,
                (#[trigger] menu_entries(config)[j]).profile,
            ),
{
    let entries = menu_entries(config);
    let summaries = summaries_of(config, config.profiles, false);
    law_summaries_are_ordered_and_hide_hidden_profiles(config, config.profiles, false);
    assert forall|k: int|
        0 <= k < config.profiles.len() && !(
        #[trigger] config.profiles[k]).1.hidden implies has_entry(
        menu_entries(config),
        config.profiles[k].0,
        menu_label(summary_of(config, config.profiles[k].0, config.profiles[k].1)),
    ) by {
        let wanted = summary_of(config, config.profiles[k].0, config.profiles[k].1);
        assert(summaries.contains(wanted));
        let i = choose|i: int| 0 <= i < summaries.len() && summaries[i] == wanted;
        assert(entries[i].profile == config.profiles[k].0);
    }
    assert forall|i: int| 0 <= i < menu_entries(config).len() implies is_visible(
        config,
        (#[trigger] menu_entries(config)[i]).profile,
    ) by {
        assert(entries[i].profile == summaries[i].name);
        assert(!summaries[i].hidden);
        let k = choose|k: int|
            0 <= k < config.profiles.len() && summaries[i] == summary_of(
                config,
                (#[trigger] config.profiles[k]).0,
                config.profiles[k].1,
            );
        assert(config.profiles[k].0 == entries[i].profile && !config.profiles[k].1.hidden);
    }
    assert forall|i: int, j: int| 0 <= i < j < menu_entries(config).len() implies text_before(
        (#[trigger] menu_entries(config)[i]).profile,
        (#[trigger] menu_entries(config)[j]).profile,
    ) by {
        assert(text_before(summaries[i].name, summaries[j].name));
    }
}

/// A label is the name to show, with the profile's own name behind it where that
/// is another one; the label of the default profile says so at its end.
pub proof fn law_labels_name_the_profile(profile: SummaryView)
    ensures
        ({
            let plain = SummaryView { is_default: false, ..profile };
            let default = SummaryView { is_default: true, ..profile };
            &&& profile.display_name == profile.name ==> menu_label(plain) == profile.name
            &&& profile.display_name != profile.name ==> menu_label(plain) == profile.display_name
                + " ("@ + profile.name + ")"@
            &&& menu_label(default) == menu_label(plain) + " - Default"@
        }),
{
}

/// Whether a submenu offers one use of each profile, under the profile's label.
pub open spec fn offers_profiles(
    item: MenuItemView,
    label: Seq<char>,
    entries: Seq<MenuEntryView>,
    action: spec_fn(Seq<char>) -> ActionView,
) -> bool {
    item matches MenuItemView::Submenu { label: shown, items } && shown == label && items.len()
        == entries.len() && forall|i: int|
        0 <= i < entries.len() ==> (#[trigger] items[i]).label == entries[i].label
            && items[i].action == action(entries[i].profile)
}

/// The name of a direction as menus have it.
pub open spec fn direction_title(direction: TerminalStartupSplitDirection) -> Seq<char> {
    match direction {
        TerminalStartupSplitDirection::Up => "Up"@,
        TerminalStartupSplitDirection::Down => "Down"@,
        TerminalStartupSplitDirection::Left => "Left"@,
        TerminalStartupSplitDirection::Right => "Right"@,
    }
}

/// The shell menu offers for each profile to open a tab with it, to open a
/// split with it in any direction and to make it the default one; without
/// profiles there are no submenus.
pub proof fn law_shell_menu_offers_every_use(
    entries: Seq<MenuEntryView>,
    direction: TerminalStartupSplitDirection,
)
    ensures
        ({
            let menu = shell_menu(entries);
            &&& entries.len() > 0 ==> exists|j: int|
                0 <= j < menu.len() && offers_profiles(
                    #[trigger] menu[j],
                    "New Tab With Profile"@,
                    entries,
                    |profile: Seq<char>| ActionView::NewTerminalTabWithProfile { profile },
                )
            &&& entries.len() > 0 ==> exists|j: int|
                0 <= j < menu.len() && offers_profiles(
                    #[trigger] menu[j],
                    "Split "@ + direction_title(direction) + " With Profile"@,
                    entries,
                    |profile: Seq<char>|
                        ActionView::NewTerminalSplitWithProfile { profile, direction },
                )
            &&& entries.len() > 0 ==> exists|j: int|
                0 <= j < menu.len() && offers_profiles(
                    #[trigger] menu[j],
                    "Set Default Profile"@,
                    entries,
                    |profile: Seq<char>| ActionView::SetDefaultStartupProfile { profile },
                )
            &&& entries.len() == 0 ==> forall|j: int|
                0 <= j < menu.len() ==> !((#[trigger] menu[j]) is Submenu)
        }),
{
    let menu = shell_menu(entries);
    let submenus = profile_submenus(entries);
    if entries.len() > 0 {
        assert(menu[2] == submenus[0]);
        assert(menu[3] == submenus[1]);
        assert(menu[4] == submenus[2]);
        assert(menu[5] == submenus[3]);
        assert(menu[6] == submenus[4]);
        assert(menu[7] == submenus[5]);
        assert(split_entries()[0] == ("Right"@, TerminalStartupSplitDirection::Right));
        assert(split_entries()[1] == ("Down"@, TerminalStartupSplitDirection::Down));
        assert(split_entries()[2] == ("Left"@, TerminalStartupSplitDirection::Left));
        assert(split_entries()[3] == ("Up"@, TerminalStartupSplitDirection::Up));
        assert(offers_profiles(
            menu[2],
            "New Tab With Profile"@,
            entries,
            |profile: Seq<char>| ActionView::NewTerminalTabWithProfile { profile },
        ));
        assert(offers_profiles(
            menu[7],
            "Set Default Profile"@,
            entries,
            |profile: Seq<char>| ActionView::SetDefaultStartupProfile { profile },
        ));
        let j: int = match direction {
            TerminalStartupSplitDirection::Right => 3,
            TerminalStartupSplitDirection::Down => 4,
            TerminalStartupSplitDirection::Left => 5,
            TerminalStartupSplitDirection::Up => 6,
        };
        assert(offers_profiles(
            menu[j],
            "Split "@ + direction_title(direction) + " With Profile"@,
            entries,
            |profile: Seq<char>| ActionView::NewTerminalSplitWithProfile { profile, direction },
        ));
    } else {
        assert forall|j: int| 0 <= j < menu.len() implies !((#[trigger] menu[j]) is Submenu) by {
            if j >= 2 {
                assert(menu[j] == closing_shell_menu()[j - 2]);
            }
        }
    }
}

/// The action that a menu has under a label, for the labels that there are.
pub open spec fn is_labelled(label: Seq<char>, kind: ActionKind) -> bool {
    match kind {
        ActionKind::DeploySearch => label == "Find"@,
        ActionKind::IncreaseBufferFontSize => label == "Zoom In"@,
        ActionKind::DecreaseBufferFontSize => label == "Zoom Out"@,
        ActionKind::ResetBufferFontSize => label == "Reset Zoom"@,
        ActionKind::CopySelection => label == "Copy"@,
        ActionKind::Paste => label == "Paste"@,
        ActionKind::PasteText => label == "Paste Text"@,
        ActionKind::SelectAll => label == "Select All"@,
        ActionKind::ClearTerminal => label == "Clear"@,
        ActionKind::ToggleViMode => label == "Toggle Vi Mode"@,
        ActionKind::ShowCharacterPalette => label == "Show Character Palette"@,
        ActionKind::ScrollLineUp => label == "Scroll Line Up"@,
        ActionKind::ScrollLineDown => label == "Scroll Line Down"@,
        ActionKind::ScrollPageUp => label == "Scroll Page Up"@,
        ActionKind::ScrollPageDown => label == "Scroll Page Down"@,
        ActionKind::ScrollToTop => label == "Scroll To Top"@,
        ActionKind::ScrollToBottom => label == "Scroll To Bottom"@,
        ActionKind::RerunTask => label == "Rerun Task"@,
        ActionKind::RenameTerminal => label == "Rename Terminal"@,
        ActionKind::SplitRight => label == "Split Right"@,
        ActionKind::SplitDown => label == "Split Down"@,
        ActionKind::SplitLeft => label == "Split Left"@,
        ActionKind::SplitUp => label == "Split Up"@,
        ActionKind::ActivatePaneLeft => label == "Focus Left"@,
        ActionKind::ActivatePaneRight => label == "Focus Right"@,
        ActionKind::ActivatePaneUp => label == "Focus Up"@,
        ActionKind::ActivatePaneDown => label == "Focus Down"@,
        ActionKind::ActivateNextPane => label == "Next Pane"@,
        ActionKind::ActivatePreviousPane => label == "Previous Pane"@,
        ActionKind::ToggleZoom => label == "Toggle Pane Zoom"@,
        ActionKind::ResizePaneLeft => label == "Resize Pane Left"@,
        ActionKind::ResizePaneRight => label == "Resize Pane Right"@,
        ActionKind::ResizePaneUp => label == "Resize Pane Up"@,
        ActionKind::ResizePaneDown => label == "Resize Pane Down"@,
        ActionKind::ResetPaneSizes => label == "Reset Pane Sizes"@,
        ActionKind::ToggleCommandPalette => label == "Command Palette..."@,
        ActionKind::OpenSettingsFile => label == "Open Settings File"@,
        ActionKind::OpenStartupConfigFile => label == "Open Startup Config File"@,
        ActionKind::OpenStartupConfigSchemaFile => label == "Open Startup Config Schema File"@,
        ActionKind::OpenKeymapFile => label == "Open Keymap File"@,
        ActionKind::OpenConfigDirectory => label == "Open Config Directory"@,
        ActionKind::OpenLogsDirectory => label == "Open Logs Directory"@,
        ActionKind::Quit => label == "Quit"@,
        ActionKind::NewTerminalWindow => label == "New Window"@,
        ActionKind::CloseTerminalWindow => label == "Close Window"@,
        ActionKind::MinimizeTerminalWindow => label == "Minimize"@,
        ActionKind::ZoomTerminalWindow => label == "Zoom"@,
        ActionKind::ToggleFullScreen => label == "Toggle Full Screen"@,
        ActionKind::ClearDefaultStartupProfile => label == "Clear Default Profile"@,
        ActionKind::CloseActiveItem => label == "Close Tab"@,
        ActionKind::CloseOtherItems => label == "Close Other Tabs"@,
        ActionKind::CloseItemsToTheRight => label == "Close Tabs to the Right"@,
        ActionKind::CloseItemsToTheLeft => label == "Close Tabs to the Left"@,
        ActionKind::CloseAllItems => label == "Close All Tabs"@,
        ActionKind::ActivateNextItem => label == "Next Tab"@,
        ActionKind::ActivatePreviousItem => label == "Previous Tab"@,
        ActionKind::SwapItemLeft => label == "Move Tab Left"@,
        ActionKind::SwapItemRight => label == "Move Tab Right"@,
        ActionKind::NewTerminalTab => label == "New Tab"@,
        ActionKind::DuplicateTerminalTab => label == "Duplicate Tab"@,
        _ => false,
    }
}

/// Whether an item of a menu does what its label says.
pub open spec fn does_what_it_says(item: MenuItemView) -> bool {
    match item {
        MenuItemView::Action { label, action } => action matches ActionView::Plain(kind)
            && is_labelled(label, kind),
        _ => true,
    }
}

/// Every item of the menus does what its label says.
pub proof fn law_menu_items_do_what_they_say(entries: Seq<MenuEntryView>, i: int)
    ensures
        0 <= i < app_menu().len() ==> does_what_it_says(app_menu()[i]),
        0 <= i < terminal_menu().len() ==> does_what_it_says(terminal_menu()[i]),
        0 <= i < pane_menu().len() ==> does_what_it_says(pane_menu()[i]),
        0 <= i < window_menu().len() ==> does_what_it_says(window_menu()[i]),
        0 <= i < shell_menu(entries).len() ==> does_what_it_says(shell_menu(entries)[i]),
{
    let menu = shell_menu(entries);
    let submenus = if entries.len() == 0 {
        Seq::empty()
    } else {
        profile_submenus(entries)
    };
    if 2 <= i < menu.len() {
        if i < 2 + submenus.len() {
            assert(menu[i] == submenus[i - 2]);
        } else {
            assert(menu[i] == closing_shell_menu()[i - 2 - submenus.len()]);
        }
    }
}

/// The title of an entry of the palette for a use of a profile.
pub open spec fn use_title(profile_use: ProfileUse) -> Seq<char> {
    match profile_use {
        ProfileUse::NewTab => "New Tab With Profile: "@,
        ProfileUse::Split(direction) => "Split "@ + direction_title(direction)
            + " With Profile: "@,
        ProfileUse::SetDefault => "Set Default Profile: "@,
    }
}

/// What a use of a profile does.
pub open spec fn use_action(profile_use: ProfileUse, profile: Seq<char>) -> ActionView {
    match profile_use {
        ProfileUse::NewTab => ActionView::NewTerminalTabWithProfile { profile },
        ProfileUse::Split(direction) => ActionView::NewTerminalSplitWithProfile {
            profile,
            direction,
        },
        ProfileUse::SetDefault => ActionView::SetDefaultStartupProfile { profile },
    }
}

proof fn lemma_candidates(profile: SummaryView)
    ensures
        candidates(profile).len() == 6,
        forall|profile_use: ProfileUse| #[trigger]
            candidates(profile).contains(
                CandidateView {
                    string: use_title(profile_use) + menu_label(profile),
                    action: use_action(profile_use, profile.name),
                },
            ),
        forall|i: int|
            0 <= i < 6 ==> exists|profile_use: ProfileUse| #[trigger]
                candidates(profile)[i] == (CandidateView {
                    string: #[trigger] use_title(profile_use) + menu_label(profile),
                    action: use_action(profile_use, profile.name),
                }),
{
    let all = candidates(profile);
    let wanted = |profile_use: ProfileUse|
        CandidateView {
            string: use_title(profile_use) + menu_label(profile),
            action: use_action(profile_use, profile.name),
        };
    assert(split_entries()[0] == ("Right"@, TerminalStartupSplitDirection::Right));
    assert(split_entries()[1] == ("Down"@, TerminalStartupSplitDirection::Down));
    assert(split_entries()[2] == ("Left"@, TerminalStartupSplitDirection::Left));
    assert(split_entries()[3] == ("Up"@, TerminalStartupSplitDirection::Up));
    assert(all[0] == wanted(ProfileUse::NewTab));
    assert(all[1] == wanted(ProfileUse::Split(TerminalStartupSplitDirection::Right)));
    assert(all[2] == wanted(ProfileUse::Split(TerminalStartupSplitDirection::Down)));
    assert(all[3] == wanted(ProfileUse::Split(TerminalStartupSplitDirection::Left)));
    assert(all[4] == wanted(ProfileUse::Split(TerminalStartupSplitDirection::Up)));
    assert(all[5] == wanted(ProfileUse::SetDefault));
    assert forall|profile_use: ProfileUse| #[trigger] all.contains(
        CandidateView {
            string: use_title(profile_use) + menu_label(profile),
            action: use_action(profile_use, profile.name),
        },
    ) by {
        let i: int = match profile_use {
            ProfileUse::NewTab => 0,
            ProfileUse::Split(TerminalStartupSplitDirection::Right) => 1,
            ProfileUse::Split(TerminalStartupSplitDirection::Down) => 2,
            ProfileUse::Split(TerminalStartupSplitDirection::Left) => 3,
            ProfileUse::Split(TerminalStartupSplitDirection::Up) => 4,
            ProfileUse::SetDefault => 5,
        };
        assert(all[i] == wanted(profile_use));
    }
    assert forall|i: int| 0 <= i < 6 implies exists|profile_use: ProfileUse| #[trigger]
        all[i] == (CandidateView {
            string: #[trigger] use_title(profile_use) + menu_label(profile),
            action: use_action(profile_use, profile.name),
        }) by {
        let profile_use = if i == 0 {
            ProfileUse::NewTab
        } else if i == 1 {
            ProfileUse::Split(TerminalStartupSplitDirection::Right)
        } else if i == 2 {
            ProfileUse::Split(TerminalStartupSplitDirection::Down)
        } else if i == 3 {
            ProfileUse::Split(TerminalStartupSplitDirection::Left)
        } else if i == 4 {
            ProfileUse::Split(TerminalStartupSplitDirection::Up)
        } else {
            ProfileUse::SetDefault
        };
        assert(all[i] == wanted(profile_use));
    }
}

proof fn lemma_all_candidates_contain(profiles: Seq<SummaryView>, k: int, wanted: CandidateView)
    requires
        0 <= k < profiles.len(),
        candidates(profiles[k]).contains(wanted),
    ensures
        all_candidates(profiles).contains(wanted),
    decreases profiles.len(),
{
    let front = all_candidates(profiles.drop_last());
    let all = all_candidates(profiles);
    if k < profiles.len() - 1 {
        lemma_all_candidates_contain(profiles.drop_last(), k, wanted);
        let i = choose|i: int| 0 <= i < front.len() && front[i] == wanted;
        assert(all[i] == wanted);
    } else {
        let last = candidates(profiles.last());
        let i = choose|i: int| 0 <= i < last.len() && last[i] == wanted;
        assert(all[front.len() + i] == wanted);
    }
}

proof fn lemma_matching_items_contain(
    query: Seq<char>,
    all: Seq<CandidateView>,
    wanted: CandidateView,
)
    requires
        all.contains(wanted),
        match_positions(wanted.string, query) is Some,
    ensures
        matching_items(query, all).contains(
            PaletteItemView {
                action: wanted.action,
                string: wanted.string,
                positions: match_positions(wanted.string, query)->0,
            },
        ),
    decreases all.len(),
{
    let item = PaletteItemView {
        action: wanted.action,
        string: wanted.string,
        positions: match_positions(wanted.string, query)->0,
    };
    let front = matching_items(query, all.drop_last());
    let items = matching_items(query, all);
    if all.last() == wanted {
        assert(items.last() == item);
        assert(items[items.len() - 1] == item);
    } else {
        let i = choose|i: int| 0 <= i < all.len() && all[i] == wanted;
        assert(all.drop_last()[i] == wanted);
        lemma_matching_items_contain(query, all.drop_last(), wanted);
        let j = choose|j: int| 0 <= j < front.len() && front[j] == item;
        assert(items[j] == item);
    }
}

/// The palette offers every use of every profile whose entry matches the query,
/// with the bytes that match, unless there are more results than its limit.
pub proof fn law_palette_offers_every_use(
    query: Seq<char>,
    profiles: Seq<SummaryView>,
    k: int,
    profile_use: ProfileUse,
)
    requires
        0 <= k < profiles.len(),
    ensures
        ({
            let string = use_title(profile_use) + menu_label(profiles[k]);
            let items = profile_items(query, profiles);
            match_positions(string, query) matches Some(positions) ==> items.len()
                == TERMINAL_PROFILE_COMMAND_PALETTE_MAX_RESULTS || items.contains(
                PaletteItemView {
                    action: use_action(profile_use, profiles[k].name),
                    string,
                    positions,
                },
            )
        }),
{
    let wanted = CandidateView {
        string: use_title(profile_use) + menu_label(profiles[k]),
        action: use_action(profile_use, profiles[k].name),
    };
    lemma_candidates(profiles[k]);
    assert(candidates(profiles[k]).contains(wanted));
    lemma_all_candidates_contain(profiles, k, wanted);
    if match_positions(wanted.string, query) is Some {
        lemma_matching_items_contain(query, all_candidates(profiles), wanted);
    }
}

/// Whether a result of the palette is for a use of this profile.
pub open spec fn is_for_profile(item: PaletteItemView, profile: SummaryView) -> bool {
    exists|profile_use: ProfileUse|
        item.string == #[trigger] use_title(profile_use) + menu_label(profile) && item.action
            == use_action(profile_use, profile.name)
}

proof fn lemma_candidates_are_for_profiles(profiles: Seq<SummaryView>, i: int)
    requires
        0 <= i < all_candidates(profiles).len(),
    ensures
        exists|k: int, profile_use: ProfileUse|
            0 <= k < profiles.len() && all_candidates(profiles)[i].string == #[trigger] use_title(
                profile_use,
            ) + menu_label(#[trigger] profiles[k]) && all_candidates(profiles)[i].action
                == use_action(profile_use, profiles[k].name),
    decreases profiles.len(),
{
    let all = all_candidates(profiles);
    let front = all_candidates(profiles.drop_last());
    if i < front.len() {
        lemma_candidates_are_for_profiles(profiles.drop_last(), i);
        let (k, profile_use) = choose|k: int, profile_use: ProfileUse|
            0 <= k < profiles.drop_last().len() && front[i].string == #[trigger] use_title(
                profile_use,
            ) + menu_label(#[trigger] profiles.drop_last()[k]) && front[i].action == use_action(
                profile_use,
                profiles.drop_last()[k].name,
            );
        assert(profiles[k] == profiles.drop_last()[k]);
        assert(all[i] == front[i]);
    } else {
        let last = profiles[profiles.len() - 1];
        lemma_candidates(last);
        assert(all[i] == candidates(last)[i - front.len()]);
        let profile_use = choose|profile_use: ProfileUse|
            candidates(last)[i - front.len()] == (CandidateView {
                string: #[trigger] use_title(profile_use) + menu_label(last),
                action: use_action(profile_use, last.name),
            });
        assert(all[i].string == use_title(profile_use) + menu_label(profiles[profiles.len() - 1]));
    }
}

proof fn lemma_items_are_candidates(query: Seq<char>, all: Seq<CandidateView>, i: int)
    requires
        0 <= i < matching_items(query, all).len(),
    ensures
        exists|j: int|
            0 <= j < all.len() && (#[trigger] all[j]).string == matching_items(query, all)[i].string
                && all[j].action == matching_items(query, all)[i].action,
    decreases all.len(),
{
    let front = matching_items(query, all.drop_last());
    let items = matching_items(query, all);
    if i < front.len() {
        lemma_items_are_candidates(query, all.drop_last(), i);
        let j = choose|j: int|
            0 <= j < all.drop_last().len() && (#[trigger] all.drop_last()[j]).string
                == front[i].string && all.drop_last()[j].action == front[i].action;
        assert(all[j] == all.drop_last()[j]);
        assert(items[i] == front[i]);
    } else {
        assert(all[all.len() - 1] == all.last());
    }
}

/// Every result of the palette is for a use of one of the profiles, under the
/// label of that profile.
pub proof fn law_palette_results_are_for_profiles(
    query: Seq<char>,
    profiles: Seq<SummaryView>,
    i: int,
)
    requires
        0 <= i < profile_items(query, profiles).len(),
    ensures
        exists|k: int|
            0 <= k < profiles.len() && is_for_profile(
                profile_items(query, profiles)[i],
                #[trigger] profiles[k],
            ),
{
    let all = all_candidates(profiles);
    let items = matching_items(query, all);
    assert(profile_items(query, profiles)[i] == items[i]);
    lemma_items_are_candidates(query, all, i);
    let j = choose|j: int|
        0 <= j < all.len() && (#[trigger] all[j]).string == items[i].string && all[j].action
            == items[i].action;
    lemma_candidates_are_for_profiles(profiles, j);
    let (k, profile_use) = choose|k: int, profile_use: ProfileUse|
        0 <= k < profiles.len() && all[j].string == #[trigger] use_title(profile_use) + menu_label(
            #[trigger] profiles[k],
        ) && all[j].action == use_action(profile_use, profiles[k].name);
    assert(is_for_profile(items[i], profiles[k]));
}

/// The results for further profiles come after those for the ones before.
pub proof fn law_palette_results_come_in_the_order_of_profiles(
    query: Seq<char>,
    profiles: Seq<SummaryView>,
    more: SummaryView,
)
    ensures
        ({
            let before = profile_items(query, profiles);
            let after = profile_items(query, profiles.push(more));
            &&& before.len() <= after.len()
            &&& after.take(before.len() as int) == before
        }),
{
    assert(profiles.push(more).drop_last() =~= profiles);
    lemma_more_candidates_keep_items(query, all_candidates(profiles), candidates(more));
    let before = matching_items(query, all_candidates(profiles));
    let after = matching_items(query, all_candidates(profiles.push(more)));
    assert(after.take(before.len() as int) == before);
    let shown = profile_items(query, profiles);
    assert forall|i: int| 0 <= i < shown.len() implies profile_items(
        query,
        profiles.push(more),
    )[i] == shown[i] by {
        assert(after[i] == after.take(before.len() as int)[i]);
    }
    assert(profile_items(query, profiles.push(more)).take(shown.len() as int) =~= shown);
}

proof fn lemma_more_candidates_keep_items(
    query: Seq<char>,
    all: Seq<CandidateView>,
    more: Seq<CandidateView>,
)
    ensures
        matching_items(query, all).len() <= matching_items(query, all + more).len(),
        matching_items(query, all + more).take(matching_items(query, all).len() as int)
            == matching_items(query, all),
    decreases more.len(),
{
    let before = matching_items(query, all);
    if more.len() == 0 {
        assert(all + more =~= all);
        assert(before.take(before.len() as int) =~= before);
    } else {
        lemma_more_candidates_keep_items(query, all, more.drop_last());
        assert((all + more).drop_last() =~= all + more.drop_last());
        let front = matching_items(query, all + more.drop_last());
        let after = matching_items(query, all + more);
        assert(after.take(before.len() as int) =~= front.take(before.len() as int));
    }
}

proof fn lemma_first_match_is_first(forms: Seq<Seq<char>>, from: int, query: char, place: int)
    requires
        0 <= from <= place < forms.len(),
        forms[place].contains(query),
    ensures
        first_match(forms, from, query) matches Some(first) && from <= first <= place
            && forms[first].contains(query),
    decreases place - from,
{
    if !forms[from].contains(query) {
        lemma_first_match_is_first(forms, from + 1, query, place);
    }
}

/// The characters of a query are matched as early as they can be: where the
/// forms of an entry hold them at other places too, none of those comes before.
pub proof fn law_matches_are_the_earliest(
    forms: Seq<Seq<char>>,
    from: int,
    query: Seq<char>,
    places: Seq<int>,
    k: int,
)
    requires
        0 <= from,
        matches_at(forms, from, query, places),
        0 <= k < query.len(),
    ensures
        matched_places(forms, from, query) matches Some(earliest) && earliest.len() == query.len()
            && earliest[k] <= places[k],
    decreases query.len(),
{
    assert(from <= places[0] < forms.len() && forms[places[0]].contains(query[0]));
    lemma_first_match_is_first(forms, from, query[0], places[0]);
    let first = first_match(forms, from, query[0])->0;
    let rest = places.drop_first();
    let rest_query = query.drop_first();
    assert forall|j: int| 0 <= j < rest.len() implies first + 1 <= #[trigger] rest[j] < forms.len()
        && forms[rest[j]].contains(rest_query[j]) by {
        assert(rest[j] == places[j + 1]);
        assert(places[0] < places[j + 1]);
    }
    assert forall|i: int, j: int| 0 <= i < j < rest.len() implies rest[i] < rest[j] by {
        assert(places[i + 1] < places[j + 1]);
    }
    assert(matches_at(forms, first + 1, rest_query, rest));
    if rest_query.len() == 0 {
        assert(matched_places(forms, first + 1, rest_query) == Some(Seq::<int>::empty()));
    } else {
        law_matches_are_the_earliest(
            forms,
            first + 1,
            rest_query,
            rest,
            if k > 0 {
                k - 1
            } else {
                0
            },
        );
    }
}

/// A blank query matches every entry, at no place.
pub proof fn law_blank_query_matches_everything(string: Seq<char>, query: Seq<char>)
    requires
        trimmed(query).len() == 0,
    ensures
        match_positions(string, query) matches Some(positions) && positions.len() == 0,
{
    let forms = lowercase_forms(trimmed(query));
    assert(forms.len() == 0);
    assert(joined_forms(forms).len() == 0);
}

/// The matched bytes of an entry are those at which its characters begin whose
/// lowercase forms hold the lowercase characters of the query, one after the
/// other.
pub proof fn law_matched_bytes_begin_matching_characters(
    string: Seq<char>,
    query: Seq<char>,
    places: Seq<int>,
)
    requires
        matched_places(
            lowercase_forms(string),
            0,
            joined_forms(lowercase_forms(trimmed(query))),
        ) == Some(places),
    ensures
        ({
            let wanted = joined_forms(lowercase_forms(trimmed(query)));
            &&& matches_at(lowercase_forms(string), 0, wanted, places)
            &&& match_positions(string, query) matches Some(positions) && positions.len()
                == places.len() && forall|k: int|
                0 <= k < places.len() ==> #[trigger] positions[k] == encode_utf8(
                    string.take(places[k]),
                ).len()
        }),
{
    let forms = lowercase_forms(string);
    let wanted = joined_forms(lowercase_forms(trimmed(query)));
    lemma_places_match(forms, 0, wanted);
}

proof fn lemma_places_match(forms: Seq<Seq<char>>, from: int, query: Seq<char>)
    requires
        0 <= from,
    ensures
        matched_places(forms, from, query) matches Some(places) ==> matches_at(
            forms,
            from,
            query,
            places,
        ),
    decreases query.len(),
{
    if query.len() > 0 && first_match(forms, from, query[0]) is Some {
        let place = first_match(forms, from, query[0])->0;
        lemma_first_match_is_match(forms, from, query[0]);
        lemma_places_match(forms, place + 1, query.drop_first());
        if matched_places(forms, place + 1, query.drop_first()) is Some {
            let rest = matched_places(forms, place + 1, query.drop_first())->0;
            let places = seq![place] + rest;
            assert forall|k: int| 0 <= k < places.len() implies from <= #[trigger] places[k]
                < forms.len() && forms[places[k]].contains(query[k]) by {
                if k > 0 {
                    assert(places[k] == rest[k - 1]);
                    assert(query[k] == query.drop_first()[k - 1]);
                }
            }
            assert forall|k: int, l: int| 0 <= k < l < places.len() implies places[k]
                < places[l] by {
                assert(places[l] == rest[l - 1]);
                if k > 0 {
                    assert(places[k] == rest[k - 1]);
                }
            }
        }
    }
}

proof fn lemma_first_match_is_match(forms: Seq<Seq<char>>, from: int, query: char)
    requires
        0 <= from,
        first_match(forms, from, query) is Some,
    ensures
        from <= first_match(forms, from, query)->0 < forms.len(),
        forms[first_match(forms, from, query)->0].contains(query),
    decreases forms.len() - from,
{
    if from < forms.len() && !forms[from].contains(query) {
        lemma_first_match_is_match(forms, from + 1, query);
    }
}

/// The forms of characters stand in the order of the characters.
pub proof fn law_forms_stand_in_order(first: char, text: Seq<char>)
    ensures
        joined_forms(lowercase_forms(seq![first] + text)) == lowercase(first) + joined_forms(
            lowercase_forms(text),
        ),
    decreases text.len(),
{
    let all = lowercase_forms(seq![first] + text);
    if text.len() == 0 {
        assert(all.drop_last() =~= Seq::empty());
        assert(joined_forms(all.drop_last()) == Seq::<char>::empty());
        assert(joined_forms(lowercase_forms(text)) == Seq::<char>::empty());
        assert(joined_forms(all) =~= lowercase(first) + Seq::empty());
    } else {
        law_forms_stand_in_order(first, text.drop_last());
        assert(all.drop_last() =~= lowercase_forms(seq![first] + text.drop_last()));
        assert(lowercase_forms(text).drop_last() =~= lowercase_forms(text.drop_last()));
        assert(joined_forms(all) =~= lowercase(first) + joined_forms(lowercase_forms(text)));
    }
}

} // verus!
