//! Profiles as lists and menus show them.

use crate::config::{
    loaded_config, ConfigFile, ConfigFileView, ConfigView, ProfileConfigView,
    TerminalStartupConfig, TerminalStartupProfileConfig, TerminalStartupSplitDirection,
};
use crate::text::{normalize_profile_text, normalized, option_str};
use crate::validation::capped;
use vstd::prelude::*;
use vstd::string::*;

verus! {

/// What lists and menus show of a profile.
#[derive(Clone, Debug, PartialEq, Eq)]
pub struct TerminalStartupProfileSummary {
    pub name: String,
    pub display_name: String,
    pub description: Option<String>,
    pub icon: Option<String>,
    pub color: Option<String>,
    pub hidden: bool,
    pub is_default: bool,
    pub tab_count: usize,
}

/// A [`TerminalStartupProfileSummary`] as mathematical values.
#[verifier::ext_equal]
pub struct SummaryView {
    pub name: Seq<char>,
    pub display_name: Seq<char>,
    pub description: Option<Seq<char>>,
    pub icon: Option<Seq<char>>,
    pub color: Option<Seq<char>>,
    pub hidden: bool,
    pub is_default: bool,
    pub tab_count: usize,
}

impl View for TerminalStartupProfileSummary {
    type V = SummaryView;

    open spec fn view(&self) -> SummaryView {
        SummaryView {
            name: self.name@,
            display_name: self.display_name@,
            description: self.description.deep_view(),
            icon: self.icon.deep_view(),
            color: self.color.deep_view(),
            hidden: self.hidden,
            is_default: self.is_default,
            tab_count: self.tab_count,
        }
    }
}

impl DeepView for TerminalStartupProfileSummary {
    type V = SummaryView;

    open spec fn deep_view(&self) -> SummaryView {
        self@
    }
}

/// What lists and menus show of one profile. A profile without a display name
/// goes by its name.
pub open spec fn summary_of(
    config: ConfigView,
    name: Seq<char>,
    profile: ProfileConfigView,
) -> SummaryView {
    SummaryView {
        name,
        display_name: match normalized(profile.display_name) {
            Some(display_name) => display_name,
            None => name,
        },
        description: normalized(profile.description),
        icon: normalized(profile.icon),
        color: normalized(profile.color),
        hidden: profile.hidden,
        is_default: config.default_profile == Some(name),
        tab_count: capped(1 + profile.tabs.len()),
    }
}

/// Whether a profile is listed.
pub open spec fn listed(include_hidden: bool) -> spec_fn((Seq<char>, ProfileConfigView)) -> bool {
    |entry: (Seq<char>, ProfileConfigView)| include_hidden || !entry.1.hidden
}

/// What lists and menus show of these profiles, in their order.
pub open spec fn summaries_of(
    config: ConfigView,
    profiles: Seq<(Seq<char>, ProfileConfigView)>,
    include_hidden: bool,
) -> Seq<SummaryView> {
    profiles.filter(listed(include_hidden)).map_values(
        |entry: (Seq<char>, ProfileConfigView)| summary_of(config, entry.0, entry.1),
    )
}

proof fn lemma_summaries_step(
    config: ConfigView,
    profiles: Seq<(Seq<char>, ProfileConfigView)>,
    include_hidden: bool,
)
    requires
        profiles.len() > 0,
    ensures
        summaries_of(config, profiles, include_hidden) == (if listed(include_hidden)(
            profiles.last(),
        ) {
            summaries_of(config, profiles.drop_last(), include_hidden).push(
                summary_of(config, profiles.last().0, profiles.last().1),
            )
        } else {
            summaries_of(config, profiles.drop_last(), include_hidden)
        }),
{
    reveal(Seq::filter);
    let rest = summaries_of(config, profiles.drop_last(), include_hidden);
    if listed(include_hidden)(profiles.last()) {
        assert(summaries_of(config, profiles, include_hidden) =~= rest.push(
            summary_of(config, profiles.last().0, profiles.last().1),
        ));
    } else {
        assert(summaries_of(config, profiles, include_hidden) =~= rest);
    }
}

/// Whether an optional text is this one.
fn is_text(option: &Option<String>, text: &String) -> (r: bool)
    ensures
        r == (option.deep_view() == Some(text@)),
{
    match option {
        Some(option) => *option == *text,
        None => false,
    }
}

impl TerminalStartupConfig {
    /// What lists and menus show of the profile with this name.
    fn profile_summary(&self, name: &String, profile: &TerminalStartupProfileConfig) -> (r:
        TerminalStartupProfileSummary)
        ensures
            r@ == summary_of(self@, name@, profile@),
    {
        let display_name = match normalize_profile_text(option_str(&profile.display_name)) {
            Some(display_name) => display_name,
            None => name.clone(),
        };
        TerminalStartupProfileSummary {
            name: name.clone(),
            display_name,
            description: normalize_profile_text(option_str(&profile.description)),
            icon: normalize_profile_text(option_str(&profile.icon)),
            color: normalize_profile_text(option_str(&profile.color)),
            hidden: profile.hidden,
            is_default: is_text(&self.default_profile, name),
            tab_count: profile.tabs.len().saturating_add(1),
        }
    }

    /// What lists and menus show of the profiles, in the order of their names.
    pub fn profile_summaries(&self, include_hidden: bool) -> (r: Vec<TerminalStartupProfileSummary>)
        ensures
            r.deep_view() == summaries_of(self@, self@.profiles, include_hidden),
    {
        let ghost all = self@.profiles;
        let mut summaries: Vec<TerminalStartupProfileSummary> = Vec::new();
        let mut i: usize = 0;
        proof {
            reveal(Seq::filter);
            assert(all.take(0) =~= Seq::empty());
            assert(summaries.deep_view() =~= summaries_of(self@, all.take(0), include_hidden));
        }
        while i < self.profiles.len()
            invariant
                i <= all.len(),
                all == self@.profiles,
                summaries.deep_view() == summaries_of(self@, all.take(i as int), include_hidden),
            decreases all.len() - i,
        {
            let ghost before = summaries.deep_view();
            let profile = self.profiles.value_at(i);
            proof {
                assert(all.take(i + 1).drop_last() =~= all.take(i as int));
                lemma_summaries_step(self@, all.take(i + 1), include_hidden);
            }
            if include_hidden || !profile.hidden {
                let summary = self.profile_summary(self.profiles.name_at(i), profile);
                summaries.push(summary);
                proof {
                    assert(summaries.deep_view() =~= before.push(summary@));
                }
            }
            i = i + 1;
        }
        proof {
            assert(all.take(all.len() as int) =~= all);
        }
        summaries
    }
}

/// How menus name a profile: by its display name, with its name where that is
/// another, and marked where it is the default.
pub open spec fn menu_label(profile: SummaryView) -> Seq<char> {
    let named = if profile.display_name != profile.name {
        profile.display_name + " ("@ + profile.name + ")"@
    } else {
        profile.display_name
    };
    if profile.is_default {
        named + " - Default"@
    } else {
        named
    }
}

/// How menus name a profile.
pub fn profile_menu_label(profile: &TerminalStartupProfileSummary) -> (r: String)
    ensures
        r@ == menu_label(profile@),
{
    let mut label = profile.display_name.clone();
    if !(profile.display_name == profile.name) {
        label.append(" (");
        label.append(profile.name.as_str());
        label.append(")");
    }
    if profile.is_default {
        label.append(" - Default");
    }
    label
}

/// A profile in a menu.
#[derive(Clone, Debug, PartialEq, Eq)]
pub struct TerminalStartupProfileMenuEntry {
    pub profile: String,
    pub label: String,
}

/// A [`TerminalStartupProfileMenuEntry`] as mathematical values.
#[verifier::ext_equal]
pub struct MenuEntryView {
    pub profile: Seq<char>,
    pub label: Seq<char>,
}

impl View for TerminalStartupProfileMenuEntry {
    type V = MenuEntryView;

    open spec fn view(&self) -> MenuEntryView {
        MenuEntryView { profile: self.profile@, label: self.label@ }
    }
}

impl DeepView for TerminalStartupProfileMenuEntry {
    type V = MenuEntryView;

    open spec fn deep_view(&self) -> MenuEntryView {
        self@
    }
}

/// The profile in a menu.
pub open spec fn menu_entry(profile: SummaryView) -> MenuEntryView {
    MenuEntryView { profile: profile.name, label: menu_label(profile) }
}

/// The profiles that menus offer.
pub open spec fn menu_entries(config: ConfigView) -> Seq<MenuEntryView> {
    summaries_of(config, config.profiles, false).map_values(
        |profile: SummaryView| menu_entry(profile),
    )
}

impl TerminalStartupConfig {
    /// The profiles that menus offer, in the order of their names.
    pub fn profile_menu_entries(&self) -> (r: Vec<TerminalStartupProfileMenuEntry>)
        ensures
            r.deep_view() == menu_entries(self@),
    {
        let summaries = self.profile_summaries(false);
        let mut entries: Vec<TerminalStartupProfileMenuEntry> = Vec::new();
        let mut i: usize = 0;
        while i < summaries.len()
            invariant
                i <= summaries@.len(),
                summaries.deep_view() == summaries_of(self@, self@.profiles, false),
                entries.deep_view() == menu_entries(self@).take(i as int),
            decreases summaries@.len() - i,
        {
            let ghost before = entries.deep_view();
            entries.push(
                TerminalStartupProfileMenuEntry {
                    label: profile_menu_label(&summaries[i]),
                    profile: summaries[i].name.clone(),
                },
            );
            i = i + 1;
            proof {
                let all = menu_entries(self@);
                assert(summaries.deep_view()[i - 1] == summaries@[i - 1]@);
                assert(entries.deep_view() =~= before.push(all[i - 1]));
                assert(all.take(i as int) =~= all.take(i - 1).push(all[i - 1]));
            }
        }
        proof {
            let all = menu_entries(self@);
            assert(all.take(all.len() as int) =~= all);
        }
        entries
    }
}

/// The entries of the menu for the profiles of the startup configuration file
/// at `path`; none where the file cannot be used.
pub open spec fn menu_entries_of_file(path: Seq<char>, file: ConfigFileView) -> Seq<MenuEntryView> {
    match loaded_config(path, file) {
        Ok(config) => menu_entries(config),
        Err(_) => Seq::empty(),
    }
}

/// The profiles that menus offer, given what the startup configuration file
/// holds. A file that cannot be used offers none.
pub fn startup_profile_menu_entries(path: &str, file: ConfigFile) -> (r: Vec<
    TerminalStartupProfileMenuEntry,
>)
    ensures
        r.deep_view() == menu_entries_of_file(path@, file@),
{
    match TerminalStartupConfig::load(path, file) {
        Ok(config) => config.profile_menu_entries(),
        Err(_) => {
            let r: Vec<TerminalStartupProfileMenuEntry> = Vec::new();
            proof {
                assert(r.deep_view() =~= Seq::empty());
            }
            r
        },
    }
}

/// A split direction in a menu.
#[derive(Clone, Copy, Debug, PartialEq, Eq)]
pub struct TerminalProfileSplitDirectionEntry {
    pub label: &'static str,
    pub direction: TerminalStartupSplitDirection,
}

/// The label and the direction of a menu's split entry.
pub open spec fn split_entry(entry: TerminalProfileSplitDirectionEntry) -> (
    Seq<char>,
    TerminalStartupSplitDirection,
) {
    (entry.label@, entry.direction)
}

/// The split directions that menus offer, with their labels.
pub open spec fn split_entries() -> Seq<(Seq<char>, TerminalStartupSplitDirection)> {
    seq![
        ("Right"@, TerminalStartupSplitDirection::Right),
        ("Down"@, TerminalStartupSplitDirection::Down),
        ("Left"@, TerminalStartupSplitDirection::Left),
        ("Up"@, TerminalStartupSplitDirection::Up),
    ]
}

/// The split directions that menus offer.
pub fn terminal_profile_split_direction_entries() -> (r: Vec<TerminalProfileSplitDirectionEntry>)
    ensures
        r@.map_values(|entry: TerminalProfileSplitDirectionEntry| split_entry(entry))
            == split_entries(),
{
    let r = vec![
        TerminalProfileSplitDirectionEntry {
            label: "Right",
            direction: TerminalStartupSplitDirection::Right,
        },
        TerminalProfileSplitDirectionEntry {
            label: "Down",
            direction: TerminalStartupSplitDirection::Down,
        },
        TerminalProfileSplitDirectionEntry {
            label: "Left",
            direction: TerminalStartupSplitDirection::Left,
        },
        TerminalProfileSplitDirectionEntry {
            label: "Up",
            direction: TerminalStartupSplitDirection::Up,
        },
    ];
    proof {
        assert(r@.map_values(|entry: TerminalProfileSplitDirectionEntry| split_entry(entry))
            =~= split_entries());
    }
    r
}

} // verus!
