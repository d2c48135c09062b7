//! What the command palette offers.

use crate::actions::{ActionKind, ActionView, TerminalAction};
use crate::config::{
    loaded_config, ConfigFile, ConfigFileView, TerminalStartupConfig, TerminalStartupSplitDirection,
};
use crate::menu::{profile_action, use_profile, ProfileUse};
use crate::profiles::{
    menu_label, profile_menu_label, split_entries, split_entry, summaries_of,
    terminal_profile_split_direction_entries, SummaryView, TerminalProfileSplitDirectionEntry,
    TerminalStartupProfileSummary,
};
use crate::text::{characters, trim, trimmed};
use vstd::prelude::*;
use vstd::string::*;
use vstd::utf8::{encode_scalar, encode_utf8};

verus! {

/// How many results for profiles the palette shows at most.
pub const TERMINAL_PROFILE_COMMAND_PALETTE_MAX_RESULTS: usize = 100;

/// The namespaces whose actions the palette hides unless they are offered one
/// by one.
pub open spec fn hidden_namespaces() -> Seq<Seq<char>> {
    seq![
        "agent"@,
        "agents"@,
        "agents_sidebar"@,
        "assistant"@,
        "buffer_search"@,
        "collab"@,
        "command_palette"@,
        "debug_panel"@,
        "dev"@,
        "diagnostics"@,
        "edit_prediction"@,
        "editor"@,
        "feedback"@,
        "file_finder"@,
        "git"@,
        "git_panel"@,
        "icon_theme_selector"@,
        "notebook"@,
        "outline"@,
        "outline_panel"@,
        "preview"@,
        "project_panel"@,
        "project_symbols"@,
        "projects"@,
        "remote_debug"@,
        "search"@,
        "settings_profile_selector"@,
        "pane"@,
        "task"@,
        "terminal"@,
        "theme"@,
        "theme_selector"@,
        "vim"@,
        "welcome"@,
        "workspace"@,
        "zed"@,
        "zed_terminal"@,
        "zed_predict_onboarding"@,
    ]
}

/// The namespaces whose actions the palette hides unless they are offered one
/// by one.
pub fn terminal_command_palette_hidden_namespaces() -> (r: Vec<&'static str>)
    ensures
        r.deep_view() == hidden_namespaces(),
{
    let r = vec![
        "agent",
        "agents",
        "agents_sidebar",
        "assistant",
        "buffer_search",
        "collab",
        "command_palette",
        "debug_panel",
        "dev",
        "diagnostics",
        "edit_prediction",
        "editor",
        "feedback",
        "file_finder",
        "git",
        "git_panel",
        "icon_theme_selector",
        "notebook",
        "outline",
        "outline_panel",
        "preview",
        "project_panel",
        "project_symbols",
        "projects",
        "remote_debug",
        "search",
        "settings_profile_selector",
        "pane",
        "task",
        "terminal",
        "theme",
        "theme_selector",
        "vim",
        "welcome",
        "workspace",
        "zed",
        "zed_terminal",
        "zed_predict_onboarding",
    ];
    proof {
        assert(r.deep_view() =~= hidden_namespaces());
    }
    r
}

/// The actions that the palette offers although their namespace is hidden.
pub open spec fn visible_actions() -> Seq<ActionKind> {
    seq![
        ActionKind::ClearDefaultStartupProfile,
        ActionKind::CloseTerminalWindow,
        ActionKind::DuplicateTerminalTab,
        ActionKind::MinimizeTerminalWindow,
        ActionKind::NewTerminalWindow,
        ActionKind::NewTerminalTab,
        ActionKind::NewTerminalSplitWithProfile,
        ActionKind::NewTerminalTabWithProfile,
        ActionKind::OpenConfigDirectory,
        ActionKind::OpenLogsDirectory,
        ActionKind::OpenStartupConfigFile,
        ActionKind::OpenStartupConfigSchemaFile,
        ActionKind::ResetPaneSizes,
        ActionKind::ResizePaneDown,
        ActionKind::ResizePaneLeft,
        ActionKind::ResizePaneRight,
        ActionKind::ResizePaneUp,
        ActionKind::SetDefaultStartupProfile,
        ActionKind::ToggleFullScreen,
        ActionKind::ZoomTerminalWindow,
        ActionKind::SelectAll,
        ActionKind::ClearTerminal,
        ActionKind::CopySelection,
        ActionKind::Paste,
        ActionKind::PasteText,
        ActionKind::ScrollLineDown,
        ActionKind::ScrollLineUp,
        ActionKind::ScrollPageDown,
        ActionKind::ScrollPageUp,
        ActionKind::ScrollToBottom,
        ActionKind::ScrollToTop,
        ActionKind::ShowCharacterPalette,
        ActionKind::ToggleViMode,
        ActionKind::RenameTerminal,
        ActionKind::RerunTask,
        ActionKind::ActivateNextPane,
        ActionKind::ActivatePaneDown,
        ActionKind::ActivatePaneLeft,
        ActionKind::ActivatePaneRight,
        ActionKind::ActivatePaneUp,
        ActionKind::ActivatePreviousPane,
        ActionKind::FocusCenterPane,
        ActionKind::ToggleZoom,
        ActionKind::ActivateItem,
        ActionKind::ActivateNextItem,
        ActionKind::ActivatePreviousItem,
        ActionKind::CloseActiveItem,
        ActionKind::CloseAllItems,
        ActionKind::CloseItemsToTheLeft,
        ActionKind::CloseItemsToTheRight,
        ActionKind::CloseOtherItems,
        ActionKind::SplitDown,
        ActionKind::SplitLeft,
        ActionKind::SplitRight,
        ActionKind::SplitUp,
        ActionKind::SwapItemLeft,
        ActionKind::SwapItemRight,
        ActionKind::DeploySearch,
        ActionKind::ToggleCommandPalette,
        ActionKind::DecreaseBufferFontSize,
        ActionKind::IncreaseBufferFontSize,
        ActionKind::OpenKeymapFile,
        ActionKind::OpenSettings,
        ActionKind::OpenSettingsFile,
        ActionKind::Quit,
        ActionKind::ResetBufferFontSize,
    ]
}

/// The actions that the palette offers although their namespace is hidden.
pub fn terminal_command_palette_visible_action_types() -> (r: Vec<ActionKind>)
    ensures
        r@ == visible_actions(),
{
    vec![
        ActionKind::ClearDefaultStartupProfile,
        ActionKind::CloseTerminalWindow,
        ActionKind::DuplicateTerminalTab,
        ActionKind::MinimizeTerminalWindow,
        ActionKind::NewTerminalWindow,
        ActionKind::NewTerminalTab,
        ActionKind::NewTerminalSplitWithProfile,
        ActionKind::NewTerminalTabWithProfile,
        ActionKind::OpenConfigDirectory,
        ActionKind::OpenLogsDirectory,
        ActionKind::OpenStartupConfigFile,
        ActionKind::OpenStartupConfigSchemaFile,
        ActionKind::ResetPaneSizes,
        ActionKind::ResizePaneDown,
        ActionKind::ResizePaneLeft,
        ActionKind::ResizePaneRight,
        ActionKind::ResizePaneUp,
        ActionKind::SetDefaultStartupProfile,
        ActionKind::ToggleFullScreen,
        ActionKind::ZoomTerminalWindow,
        ActionKind::SelectAll,
        ActionKind::ClearTerminal,
        ActionKind::CopySelection,
        ActionKind::Paste,
        ActionKind::PasteText,
        ActionKind::ScrollLineDown,
        ActionKind::ScrollLineUp,
        ActionKind::ScrollPageDown,
        ActionKind::ScrollPageUp,
        ActionKind::ScrollToBottom,
        ActionKind::ScrollToTop,
        ActionKind::ShowCharacterPalette,
        ActionKind::ToggleViMode,
        ActionKind::RenameTerminal,
        ActionKind::RerunTask,
        ActionKind::ActivateNextPane,
        ActionKind::ActivatePaneDown,
        ActionKind::ActivatePaneLeft,
        ActionKind::ActivatePaneRight,
        ActionKind::ActivatePaneUp,
        ActionKind::ActivatePreviousPane,
        ActionKind::FocusCenterPane,
        ActionKind::ToggleZoom,
        ActionKind::ActivateItem,
        ActionKind::ActivateNextItem,
        ActionKind::ActivatePreviousItem,
        ActionKind::CloseActiveItem,
        ActionKind::CloseAllItems,
        ActionKind::CloseItemsToTheLeft,
        ActionKind::CloseItemsToTheRight,
        ActionKind::CloseOtherItems,
        ActionKind::SplitDown,
        ActionKind::SplitLeft,
        ActionKind::SplitRight,
        ActionKind::SplitUp,
        ActionKind::SwapItemLeft,
        ActionKind::SwapItemRight,
        ActionKind::DeploySearch,
        ActionKind::ToggleCommandPalette,
        ActionKind::DecreaseBufferFontSize,
        ActionKind::IncreaseBufferFontSize,
        ActionKind::OpenKeymapFile,
        ActionKind::OpenSettings,
        ActionKind::OpenSettingsFile,
        ActionKind::Quit,
        ActionKind::ResetBufferFontSize,
    ]
}

/// The lowercase form of a character, as `char::to_lowercase` gives it.
pub uninterp spec fn lowercase(c: char) -> Seq<char>;

/// `std`'s `char::to_lowercase`: the lowercase form of a character, which may
/// take more than one character. The result is a function of the character
/// alone.
#[verifier::external_body]
fn to_lowercase(c: char) -> (r: Vec<char>)
    ensures
        r@ == lowercase(c),
{
    c.to_lowercase().collect()
}

/// The lowercase forms of the characters of a text.
pub open spec fn lowercase_forms(text: Seq<char>) -> Seq<Seq<char>> {
    text.map_values(|c: char| lowercase(c))
}

/// Forms of characters, one after the other.
pub open spec fn joined_forms(forms: Seq<Seq<char>>) -> Seq<char>
    decreases forms.len(),
{
    if forms.len() == 0 {
        Seq::empty()
    } else {
        joined_forms(forms.drop_last()) + forms.last()
    }
}

/// Forms as mathematical values.
pub open spec fn forms_view(forms: Seq<Vec<char>>) -> Seq<Seq<char>> {
    forms.map_values(|form: Vec<char>| form@)
}

/// The first place from `from` on where the form of a character holds another.
pub open spec fn first_match(forms: Seq<Seq<char>>, from: int, query: char) -> Option<int>
    decreases forms.len() - from,
{
    if from < 0 || from >= forms.len() {
        None
    } else if forms[from].contains(query) {
        Some(from)
    } else {
        first_match(forms, from + 1, query)
    }
}

/// The places from `from` on where the forms hold the characters of a query
/// one after the other, each as early as it can be.
pub open spec fn matched_places(
    forms: Seq<Seq<char>>,
    from: int,
    query: Seq<char>,
) -> Option<Seq<int>>
    decreases query.len(),
{
    if query.len() == 0 {
        Some(Seq::empty())
    } else {
        match first_match(forms, from, query[0]) {
            Some(place) => match matched_places(forms, place + 1, query.drop_first()) {
                Some(rest) => Some(seq![place] + rest),
                None => None,
            },
            None => None,
        }
    }
}

/// The byte at which the character at `place` begins.
pub open spec fn byte_index(string: Seq<char>, place: int) -> nat {
    encode_utf8(string.take(place)).len()
}

/// The bytes at which an entry, whose characters have the forms `forms`,
/// matches a query, whose characters have the forms `query_forms`, or none
/// where it does not.
pub open spec fn form_positions(
    string: Seq<char>,
    forms: Seq<Seq<char>>,
    query_forms: Seq<Seq<char>>,
) -> Option<Seq<nat>> {
    match matched_places(forms, 0, joined_forms(query_forms)) {
        Some(places) => Some(places.map_values(|place: int| byte_index(string, place))),
        None => None,
    }
}

/// The bytes at which an entry matches a query, or none where it does not. A
/// blank query matches every entry.
pub open spec fn match_positions(string: Seq<char>, query: Seq<char>) -> Option<Seq<nat>> {
    form_positions(string, lowercase_forms(string), lowercase_forms(trimmed(query)))
}

/// Positions as mathematical values.
pub open spec fn positions_view(positions: Seq<usize>) -> Seq<nat> {
    positions.map_values(|position: usize| position as nat)
}

proof fn lemma_encode_push(text: Seq<char>, c: char)
    ensures
        encode_utf8(text.push(c)) == encode_utf8(text) + encode_scalar(c as u32),
    decreases text.len(),
{
    if text.len() == 0 {
        assert(text.push(c).drop_first() =~= Seq::<char>::empty());
        assert(encode_utf8(text.push(c).drop_first()) =~= seq![]);
        assert(encode_utf8(text.push(c)) =~= encode_utf8(text) + encode_scalar(c as u32));
    } else {
        assert(text.push(c).drop_first() =~= text.drop_first().push(c));
        lemma_encode_push(text.drop_first(), c);
        assert(encode_utf8(text.push(c)) =~= encode_utf8(text) + encode_scalar(c as u32));
    }
}

proof fn lemma_byte_index_step(string: Seq<char>, place: int)
    requires
        0 <= place < string.len(),
    ensures
        byte_index(string, place + 1) == byte_index(string, place) + encode_scalar(
            string[place] as u32,
        ).len(),
{
    assert(string.take(place + 1) =~= string.take(place).push(string[place]));
    lemma_encode_push(string.take(place), string[place]);
}

proof fn lemma_byte_index_bound(string: Seq<char>, place: int)
    requires
        0 <= place <= string.len(),
    ensures
        byte_index(string, place) <= encode_utf8(string).len(),
    decreases string.len() - place,
{
    if place == string.len() {
        assert(string.take(place) =~= string);
    } else {
        lemma_byte_index_step(string, place);
        lemma_byte_index_bound(string, place + 1);
    }
}

/// A later character begins at a later byte.
pub proof fn lemma_byte_index_increases(string: Seq<char>, a: int, b: int)
    requires
        0 <= a < b <= string.len(),
    ensures
        byte_index(string, a) < byte_index(string, b),
    decreases b - a,
{
    lemma_byte_index_step(string, b - 1);
    if a < b - 1 {
        lemma_byte_index_increases(string, a, b - 1);
    }
}

fn utf8_width(c: char) -> (r: usize)
    ensures
        r == encode_scalar(c as u32).len(),
{
    let code: u32 = c as u32;
    if code <= 0x7f {
        1
    } else if code <= 0x7ff {
        2
    } else if code <= 0xffff {
        3
    } else {
        4
    }
}

fn lower_text(text: &str) -> (r: Vec<Vec<char>>)
    ensures
        forms_view(r@) == lowercase_forms(text@),
{
    let chars = characters(text);
    let mut forms: Vec<Vec<char>> = Vec::new();
    let mut i: usize = 0;
    while i < chars.len()
        invariant
            i <= chars@.len(),
            chars@ == text@,
            forms@.len() == i,
            forall|j: int| 0 <= j < i ==> (#[trigger] forms@[j])@ == lowercase(text@[j]),
        decreases chars@.len() - i,
    {
        forms.push(to_lowercase(chars[i]));
        i = i + 1;
    }
    proof {
        assert(forms_view(forms@) =~= lowercase_forms(text@));
    }
    forms
}

fn join_forms(forms: &Vec<Vec<char>>) -> (r: Vec<char>)
    ensures
        r@ == joined_forms(forms_view(forms@)),
{
    let ghost shapes = forms_view(forms@);
    let mut joined: Vec<char> = Vec::new();
    let mut i: usize = 0;
    proof {
        assert(shapes.take(0) =~= Seq::empty());
    }
    while i < forms.len()
        invariant
            i <= forms@.len(),
            shapes == forms_view(forms@),
            joined@ == joined_forms(shapes.take(i as int)),
        decreases forms@.len() - i,
    {
        joined.extend_from_slice(forms[i].as_slice());
        proof {
            assert(shapes.take(i + 1).drop_last() =~= shapes.take(i as int));
        }
        i = i + 1;
    }
    proof {
        assert(shapes.take(shapes.len() as int) =~= shapes);
    }
    joined
}

fn holds_char(form: &Vec<char>, query: char) -> (r: bool)
    ensures
        r == form@.contains(query),
{
    let mut i: usize = 0;
    while i < form.len()
        invariant
            i <= form@.len(),
            forall|j: int| 0 <= j < i ==> form@[j] != query,
        decreases form@.len() - i,
    {
        if form[i] == query {
            return true;
        }
        i = i + 1;
    }
    false
}

/// The bytes at which an entry, whose characters have the forms `forms`,
/// matches a query, whose characters have the forms `query_forms`, or none
/// where it does not.
#[verifier::loop_isolation(false)]
pub fn match_positions_of_forms(
    string: &str,
    forms: &Vec<Vec<char>>,
    query_forms: &Vec<Vec<char>>,
) -> (r: Option<Vec<usize>>)
    requires
        forms@.len() == string@.len(),
    ensures
        match r {
            Some(positions) => form_positions(
                string@,
                forms_view(forms@),
                forms_view(query_forms@),
            ) == Some(positions_view(positions@)),
            None => form_positions(string@, forms_view(forms@), forms_view(query_forms@)) is None,
        },
{
    let bytes: usize = string.as_bytes().len();
    let chars = characters(string);
    let wanted = join_forms(query_forms);
    let ghost all = wanted@;
    let ghost shapes = forms_view(forms@);
    let mut positions: Vec<usize> = Vec::new();
    let ghost mut places: Seq<int> = Seq::empty();
    let mut at: usize = 0;
    let mut offset: usize = 0;
    let mut k: usize = 0;
    proof {
        assert(string@.take(0) =~= Seq::empty());
        assert(all.skip(0) =~= all);
        assert(positions_view(positions@) =~= places.map_values(
            |place: int| byte_index(string@, place),
        ));
        match matched_places(shapes, 0, all) {
            Some(rest) => {
                assert(places + rest =~= rest);
            },
            None => {},
        }
    }
    while k < wanted.len()
        invariant
            k <= wanted@.len(),
            at <= chars@.len(),
            offset == byte_index(string@, at as int),
            positions_view(positions@) == places.map_values(
                |place: int| byte_index(string@, place),
            ),
            match matched_places(shapes, at as int, all.skip(k as int)) {
                Some(rest) => matched_places(shapes, 0, all) == Some(places + rest),
                None => matched_places(shapes, 0, all) is None,
            },
        decreases wanted@.len() - k,
    {
        let query_char: char = wanted[k];
        let ghost start = at as int;
        let mut matched = false;
        while at < chars.len() && !matched
            invariant
                start <= at <= chars@.len(),
                offset == byte_index(string@, at as int),
                !matched ==> first_match(shapes, start, query_char) == first_match(
                    shapes,
                    at as int,
                    query_char,
                ),
                matched ==> at > start && first_match(shapes, start, query_char) == Some(at - 1)
                    && positions@.len() > 0 && positions@.last() == byte_index(string@, at - 1),
                !matched ==> positions_view(positions@) == places.map_values(
                    |place: int| byte_index(string@, place),
                ),
                matched ==> positions_view(positions@.drop_last()) == places.map_values(
                    |place: int| byte_index(string@, place),
                ),
            decreases chars@.len() - at,
        {
            let c: char = chars[at];
            let width: usize = utf8_width(c);
            proof {
                lemma_byte_index_step(string@, at as int);
                lemma_byte_index_bound(string@, at + 1);
            }
            if holds_char(&forms[at], query_char) {
                positions.push(offset);
                matched = true;
                proof {
                    assert(positions@.drop_last() =~= positions@.take(positions@.len() - 1));
                }
            }
            offset = offset + width;
            at = at + 1;
        }
        proof {
            let rest_query = all.skip(k as int);
            assert(rest_query[0] == query_char);
            assert(rest_query.drop_first() =~= all.skip(k + 1));
        }
        if !matched {
            return None;
        }
        proof {
            let place = at - 1;
            let before = places;
            places = places.push(place);
            assert(positions_view(positions@) =~= places.map_values(
                |place: int| byte_index(string@, place),
            )) by {
                assert(positions@ =~= positions@.drop_last().push(positions@.last()));
                assert(positions_view(positions@) =~= positions_view(
                    positions@.drop_last(),
                ).push(byte_index(string@, place)));
                assert(places.map_values(|place: int| byte_index(string@, place))
                    =~= before.map_values(|place: int| byte_index(string@, place)).push(
                    byte_index(string@, place),
                ));
            }
            match matched_places(shapes, at as int, all.skip(k + 1)) {
                Some(rest) => {
                    assert(before + (seq![place] + rest) =~= places + rest);
                },
                None => {},
            }
        }
        k = k + 1;
    }
    proof {
        assert(all.skip(k as int) =~= Seq::empty());
        assert(places + Seq::<int>::empty() =~= places);
    }
    Some(positions)
}

/// The bytes at which an entry matches a query, or none where it does not.
pub fn terminal_command_palette_match_positions(string: &str, query: &str) -> (r: Option<Vec<usize>>)
    ensures
        match r {
            Some(positions) => match_positions(string@, query@) == Some(
                positions_view(positions@),
            ),
            None => match_positions(string@, query@) is None,
        },
{
    let forms = lower_text(string);
    let query_forms = lower_text(trim(query));
    proof {
        assert(forms_view(forms@).len() == string@.len());
    }
    match_positions_of_forms(string, &forms, &query_forms)
}

/// A result of the palette.
#[derive(Clone, Debug, PartialEq, Eq)]
pub struct CommandInterceptItem {
    pub action: TerminalAction,
    pub string: String,
    /// The bytes of `string` that the query matched.
    pub positions: Vec<usize>,
}

/// A [`CommandInterceptItem`] as mathematical values.
#[verifier::ext_equal]
pub struct PaletteItemView {
    pub action: ActionView,
    pub string: Seq<char>,
    pub positions: Seq<nat>,
}

impl View for CommandInterceptItem {
    type V = PaletteItemView;

    open spec fn view(&self) -> PaletteItemView {
        PaletteItemView {
            action: self.action@,
            string: self.string@,
            positions: positions_view(self.positions@),
        }
    }
}

impl DeepView for CommandInterceptItem {
    type V = PaletteItemView;

    open spec fn deep_view(&self) -> PaletteItemView {
        self@
    }
}

/// The results that the palette shows before its own.
#[derive(Clone, Debug, PartialEq, Eq)]
pub struct CommandInterceptResult {
    pub results: Vec<CommandInterceptItem>,
    /// Whether the palette shows no other results.
    pub exclusive: bool,
}

/// What the palette could show, before it is held against the query.
#[verifier::ext_equal]
pub struct CandidateView {
    pub string: Seq<char>,
    pub action: ActionView,
}

/// What the palette could show for one use of a profile.
pub open spec fn candidate(title: Seq<char>, profile_use: ProfileUse, profile: SummaryView) -> CandidateView {
    CandidateView {
        string: title + menu_label(profile),
        action: profile_action(profile_use, profile.name),
    }
}

/// What the palette could show for a profile: a new tab, a split in each
/// direction, and making it the default.
pub open spec fn candidates(profile: SummaryView) -> Seq<CandidateView> {
    seq![candidate("New Tab With Profile: "@, ProfileUse::NewTab, profile)]
        + split_entries().map_values(
        |split: (Seq<char>, TerminalStartupSplitDirection)|
            candidate(
                "Split "@ + split.0 + " With Profile: "@,
                ProfileUse::Split(split.1),
                profile,
            ),
    ) + seq![candidate("Set Default Profile: "@, ProfileUse::SetDefault, profile)]
}

/// What the palette could show for profiles, in their order.
pub open spec fn all_candidates(profiles: Seq<SummaryView>) -> Seq<CandidateView>
    decreases profiles.len(),
{
    if profiles.len() == 0 {
        Seq::empty()
    } else {
        all_candidates(profiles.drop_last()) + candidates(profiles.last())
    }
}

/// What the palette shows of a candidate, if it matches the query.
pub open spec fn palette_item(query: Seq<char>, candidate: CandidateView) -> Option<PaletteItemView> {
    match match_positions(candidate.string, query) {
        Some(positions) => Some(
            PaletteItemView { action: candidate.action, string: candidate.string, positions },
        ),
        None => None,
    }
}

/// What the palette shows of candidates, in their order.
pub open spec fn matching_items(
    query: Seq<char>,
    candidates: Seq<CandidateView>,
) -> Seq<PaletteItemView>
    decreases candidates.len(),
{
    if candidates.len() == 0 {
        Seq::empty()
    } else {
        let front = matching_items(query, candidates.drop_last());
        match palette_item(query, candidates.last()) {
            Some(item) => front.push(item),
            None => front,
        }
    }
}

/// What the palette shows for profiles: what matches the query, up to a limit.
pub open spec fn profile_items(query: Seq<char>, profiles: Seq<SummaryView>) -> Seq<PaletteItemView> {
    let items = matching_items(query, all_candidates(profiles));
    if items.len() <= TERMINAL_PROFILE_COMMAND_PALETTE_MAX_RESULTS {
        items
    } else {
        items.take(TERMINAL_PROFILE_COMMAND_PALETTE_MAX_RESULTS as int)
    }
}

/// What the palette shows of an entry, if it matches the query.
pub fn terminal_profile_command_palette_item(
    query: &str,
    string: String,
    action: TerminalAction,
) -> (r: Option<CommandInterceptItem>)
    ensures
        r.deep_view() == palette_item(
            query@,
            (CandidateView { string: string@, action: action@ }),
        ),
{
    match terminal_command_palette_match_positions(string.as_str(), query) {
        Some(positions) => Some(CommandInterceptItem { action, string, positions }),
        None => None,
    }
}

/// Adds what the palette shows for one use of a profile.
fn push_candidate(
    items: &mut Vec<CommandInterceptItem>,
    Ghost(done): Ghost<Seq<CandidateView>>,
    query: &str,
    title: &str,
    profile_use: ProfileUse,
    profile: &TerminalStartupProfileSummary,
)
    requires
        old(items).deep_view() == matching_items(query@, done),
    ensures
        final(items).deep_view() == matching_items(
            query@,
            done.push(candidate(title@, profile_use, profile@)),
        ),
{
    let ghost before = items.deep_view();
    let label = profile_menu_label(profile);
    let item = terminal_profile_command_palette_item(
        query,
        title.to_owned().concat(label.as_str()),
        use_profile(profile_use, &profile.name),
    );
    proof {
        let longer = done.push(candidate(title@, profile_use, profile@));
        assert(longer.drop_last() =~= done);
        assert(longer.last() == candidate(title@, profile_use, profile@));
    }
    if let Some(item) = item {
        items.push(item);
        proof {
            assert(items.deep_view() =~= before.push(item@));
        }
    }
}

/// Adds what the palette shows for a profile.
fn push_profile(
    items: &mut Vec<CommandInterceptItem>,
    Ghost(done): Ghost<Seq<CandidateView>>,
    query: &str,
    profile: &TerminalStartupProfileSummary,
)
    requires
        old(items).deep_view() == matching_items(query@, done),
    ensures
        final(items).deep_view() == matching_items(query@, done + candidates(profile@)),
{
    let ghost new = candidates(profile@);
    let splits = terminal_profile_split_direction_entries();
    proof {
        assert(splits@.len() == splits@.map_values(
            |entry: TerminalProfileSplitDirectionEntry| split_entry(entry),
        ).len());
        assert(new.len() == 6);
        assert(done.push(new[0]) =~= done + new.take(1));
    }
    push_candidate(items, Ghost(done), query, "New Tab With Profile: ", ProfileUse::NewTab, profile);
    let mut i: usize = 0;
    while i < splits.len()
        invariant
            i <= splits@.len(),
            splits@.len() == 4,
            new == candidates(profile@),
            new.len() == 6,
            splits@.map_values(|entry: TerminalProfileSplitDirectionEntry| split_entry(entry))
                == split_entries(),
            items.deep_view() == matching_items(query@, done + new.take(i + 1)),
        decreases splits@.len() - i,
    {
        let mut title = "Split ".to_owned();
        title.append(splits[i].label);
        title.append(" With Profile: ");
        proof {
            assert(split_entries()[i as int] == split_entry(splits@[i as int]));
            assert(new[i + 1] == candidate(
                title@,
                ProfileUse::Split(splits@[i as int].direction),
                profile@,
            ));
            assert((done + new.take(i + 1)).push(new[i + 1]) =~= done + new.take(i + 2));
        }
        push_candidate(
            items,
            Ghost(done + new.take(i + 1)),
            query,
            title.as_str(),
            ProfileUse::Split(splits[i].direction),
            profile,
        );
        i = i + 1;
    }
    proof {
        assert((done + new.take(5)).push(new[5]) =~= done + new);
    }
    push_candidate(
        items,
        Ghost(done + new.take(5)),
        query,
        "Set Default Profile: ",
        ProfileUse::SetDefault,
        profile,
    );
}

/// What the palette shows for profiles: what matches the query, up to a limit.
pub fn terminal_profile_command_palette_items(
    query: &str,
    profiles: Vec<TerminalStartupProfileSummary>,
) -> (r: Vec<CommandInterceptItem>)
    ensures
        r.deep_view() == profile_items(query@, profiles.deep_view()),
{
    let ghost all = profiles.deep_view();
    let mut items: Vec<CommandInterceptItem> = Vec::new();
    let mut i: usize = 0;
    proof {
        assert(all.take(0) =~= Seq::empty());
        assert(items.deep_view() =~= Seq::empty());
    }
    while i < profiles.len()
        invariant
            i <= profiles@.len(),
            all == profiles.deep_view(),
            items.deep_view() == matching_items(query@, all_candidates(all.take(i as int))),
        decreases profiles@.len() - i,
    {
        push_profile(&mut items, Ghost(all_candidates(all.take(i as int))), query, &profiles[i]);
        proof {
            assert(all.take(i + 1).drop_last() =~= all.take(i as int));
            assert(all.take(i + 1).last() == profiles@[i as int]@);
        }
        i = i + 1;
    }
    proof {
        assert(all.take(all.len() as int) =~= all);
    }
    let ghost matching = items.deep_view();
    items.truncate(TERMINAL_PROFILE_COMMAND_PALETTE_MAX_RESULTS);
    proof {
        if matching.len() > TERMINAL_PROFILE_COMMAND_PALETTE_MAX_RESULTS {
            assert(items.deep_view() =~= matching.take(
                TERMINAL_PROFILE_COMMAND_PALETTE_MAX_RESULTS as int,
            ));
        } else {
            assert(items.deep_view() =~= matching);
        }
    }
    items
}

/// What the palette shows for profiles, beside its own results. `query` has
/// the palette's own normal form.
pub fn terminal_profile_command_palette_result_from_summaries(
    query: &str,
    profiles: Vec<TerminalStartupProfileSummary>,
) -> (r: CommandInterceptResult)
    ensures
        r.results.deep_view() == profile_items(query@, profiles.deep_view()),
        !r.exclusive,
{
    CommandInterceptResult {
        results: terminal_profile_command_palette_items(query, profiles),
        exclusive: false,
    }
}

/// The profiles of the startup configuration file at `path` that the palette
/// offers; none where the file cannot be used.
pub open spec fn offered_profiles(path: Seq<char>, file: ConfigFileView) -> Seq<SummaryView> {
    match loaded_config(path, file) {
        Ok(config) => summaries_of(config, config.profiles, false),
        Err(_) => Seq::empty(),
    }
}

/// What the palette shows for the visible profiles of the startup
/// configuration file at `path`. A file that cannot be used has none.
pub fn terminal_profile_command_palette_result(query: &str, path: &str, file: ConfigFile) -> (r:
    CommandInterceptResult)
    ensures
        r.results.deep_view() == profile_items(
            query@,
            offered_profiles(path@, file@),
        ),
        !r.exclusive,
{
    let profiles = match TerminalStartupConfig::load(path, file) {
        Ok(config) => config.profile_summaries(false),
        Err(_) => {
            let none: Vec<TerminalStartupProfileSummary> = Vec::new();
            proof {
                assert(none.deep_view() =~= Seq::empty());
            }
            none
        },
    };
    terminal_profile_command_palette_result_from_summaries(query, profiles)
}

} // verus!
