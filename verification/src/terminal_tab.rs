//! A tab that holds several terminals in panes.

use crate::config::TerminalStartupSplitDirection;
use vstd::prelude::*;
use vstd::string::*;

verus! {

/// What happens to a pane of a tab.
#[derive(Clone, Copy, Debug, PartialEq, Eq, Structural)]
pub enum PaneEvent {
    AddItem,
    ActivateItem,
    Focus,
    ChangeItemTitle,
    RemovedItem,
    /// The pane is to go; `focus_on_pane` is to have the focus after it.
    Remove { focus_on_pane: Option<u64> },
    /// The pane is to be split. `move_pane` asks for its item to be moved into
    /// the split in place of being duplicated.
    Split { direction: TerminalStartupSplitDirection, move_pane: bool },
    JoinAll,
    JoinIntoNext,
    ZoomIn,
    ZoomOut,
    UserSavedItem,
    ItemPinned,
    ItemUnpinned,
}

/// What a tab does in answer to an event.
#[derive(Clone, Copy, Debug, PartialEq, Eq, Structural)]
pub enum TabReaction {
    /// The new item learns of its workspace, and the tab is drawn anew with
    /// its title.
    AnnounceItem,
    /// The tab is drawn anew with its title.
    UpdateTab,
    /// The tab is drawn anew.
    Redraw,
    /// The tab is closed.
    CloseTab,
    /// The pane is removed; then the focus moves.
    RemovePane { focus_on_pane: Option<u64> },
    /// The active terminal is duplicated into a split.
    DuplicateIntoSplit { direction: TerminalStartupSplitDirection },
    /// The event is left to whoever else handles it.
    Propagate,
    Nothing,
}

/// A tab that holds several terminals in panes. Panes go by numbers.
#[derive(Clone, Copy, Debug, PartialEq, Eq, Structural)]
pub struct TerminalTab {
    pub active_pane: u64,
}

/// What a tab with `pane_count` panes does in answer to an event. The last
/// pane of a tab is not removed: the tab is closed.
pub open spec fn reaction(event: PaneEvent, pane_count: nat) -> TabReaction {
    match event {
        PaneEvent::AddItem => TabReaction::AnnounceItem,
        PaneEvent::ActivateItem => TabReaction::UpdateTab,
        PaneEvent::Focus => TabReaction::UpdateTab,
        PaneEvent::ChangeItemTitle => TabReaction::UpdateTab,
        PaneEvent::RemovedItem => TabReaction::UpdateTab,
        PaneEvent::Remove { focus_on_pane } => if pane_count <= 1 {
            TabReaction::CloseTab
        } else {
            TabReaction::RemovePane { focus_on_pane }
        },
        PaneEvent::Split { direction, move_pane } => if move_pane {
            TabReaction::Propagate
        } else {
            TabReaction::DuplicateIntoSplit { direction }
        },
        PaneEvent::JoinAll => TabReaction::Propagate,
        PaneEvent::JoinIntoNext => TabReaction::Propagate,
        PaneEvent::ZoomIn => TabReaction::Redraw,
        PaneEvent::ZoomOut => TabReaction::Redraw,
        PaneEvent::UserSavedItem => TabReaction::Nothing,
        PaneEvent::ItemPinned => TabReaction::Nothing,
        PaneEvent::ItemUnpinned => TabReaction::Nothing,
    }
}

/// The pane that gets the focus once another one was removed.
pub open spec fn focus_after_removal(
    focus_on_pane: Option<u64>,
    remaining: Seq<u64>,
) -> Option<u64> {
    if focus_on_pane is Some {
        focus_on_pane
    } else if remaining.len() > 0 {
        Some(remaining.last())
    } else {
        None
    }
}

/// Whether `pane` stands at `i` and at no place before.
pub open spec fn stands_at(panes: Seq<u64>, pane: u64, i: int) -> bool {
    &&& 0 <= i < panes.len()
    &&& panes[i] == pane
    &&& forall|j: int| 0 <= j < i ==> panes[j] != pane
}

/// The place after `i`, from the last one back to the first.
pub open spec fn place_after(panes: Seq<u64>, i: int) -> int {
    if i + 1 < panes.len() {
        i + 1
    } else {
        0
    }
}

/// The place before `i`, from the first one back to the last.
pub open spec fn place_before(panes: Seq<u64>, i: int) -> int {
    if i > 0 {
        i - 1
    } else {
        panes.len() - 1
    }
}

fn position(panes: &Vec<u64>, pane: u64) -> (r: Option<usize>)
    ensures
        match r {
            Some(i) => stands_at(panes@, pane, i as int),
            None => !panes@.contains(pane),
        },
{
    let mut i: usize = 0;
    while i < panes.len()
        invariant
            i <= panes@.len(),
            forall|j: int| 0 <= j < i ==> panes@[j] != pane,
        decreases panes@.len() - i,
    {
        if panes[i] == pane {
            return Some(i);
        }
        i = i + 1;
    }
    None
}

impl TerminalTab {
    /// A tab with one pane, which is active.
    pub fn new(pane: u64) -> (r: Self)
        ensures
            r.active_pane == pane,
    {
        TerminalTab { active_pane: pane }
    }

    /// What the tab does when something happens to one of its `pane_count`
    /// panes. A pane that is activated or focused becomes the active one.
    pub fn handle_pane_event(&mut self, pane: u64, event: PaneEvent, pane_count: usize) -> (r:
        TabReaction)
        ensures
            r == reaction(event, pane_count as nat),
            final(self).active_pane == (if event is ActivateItem || event is Focus {
                pane
            } else {
                old(self).active_pane
            }),
    {
        match event {
            PaneEvent::AddItem => TabReaction::AnnounceItem,
            PaneEvent::ActivateItem | PaneEvent::Focus => {
                self.active_pane = pane;
                TabReaction::UpdateTab
            },
            PaneEvent::ChangeItemTitle | PaneEvent::RemovedItem => TabReaction::UpdateTab,
            PaneEvent::Remove { focus_on_pane } => Self::remove_pane_or_close_tab(
                focus_on_pane,
                pane_count,
            ),
            PaneEvent::Split { direction, move_pane } => {
                if move_pane {
                    TabReaction::Propagate
                } else {
                    TabReaction::DuplicateIntoSplit { direction }
                }
            },
            PaneEvent::JoinAll | PaneEvent::JoinIntoNext => TabReaction::Propagate,
            PaneEvent::ZoomIn | PaneEvent::ZoomOut => TabReaction::Redraw,
            PaneEvent::UserSavedItem | PaneEvent::ItemPinned | PaneEvent::ItemUnpinned => {
                TabReaction::Nothing
            },
        }
    }

    /// Removing the last pane of a tab closes the tab.
    fn remove_pane_or_close_tab(focus_on_pane: Option<u64>, pane_count: usize) -> (r: TabReaction)
        ensures
            r == reaction(PaneEvent::Remove { focus_on_pane }, pane_count as nat),
    {
        if pane_count <= 1 {
            TabReaction::CloseTab
        } else {
            TabReaction::RemovePane { focus_on_pane }
        }
    }

    /// Moves the focus once a pane was removed and `remaining` are left: to
    /// the pane that was asked for, else to the last one. Gives the pane that
    /// has the focus then, if there is one.
    pub fn pane_removed(&mut self, focus_on_pane: Option<u64>, remaining: &Vec<u64>) -> (r: Option<
        u64,
    >)
        ensures
            r == focus_after_removal(focus_on_pane, remaining@),
            final(self).active_pane == (match r {
                Some(pane) => pane,
                None => old(self).active_pane,
            }),
    {
        let pane_to_focus: Option<u64> = match focus_on_pane {
            Some(pane) => Some(pane),
            None => {
                if remaining.len() > 0 {
                    Some(remaining[remaining.len() - 1])
                } else {
                    None
                }
            },
        };
        if let Some(pane) = pane_to_focus {
            self.focus_pane(pane);
        }
        pane_to_focus
    }

    /// Makes `pane` the active one.
    pub fn focus_pane(&mut self, pane: u64)
        ensures
            final(self).active_pane == pane,
    {
        self.active_pane = pane;
    }

    /// Opens `new_pane` beside the active pane and makes it the active one.
    /// Gives the pane that it opens beside.
    pub fn split_terminal(&mut self, new_pane: u64) -> (r: u64)
        ensures
            r == old(self).active_pane,
            final(self).active_pane == new_pane,
    {
        let old_pane: u64 = self.active_pane;
        self.focus_pane(new_pane);
        old_pane
    }

    /// Moves the focus to the pane that lies in some direction, if one does.
    /// Gives the pane that gets the focus.
    pub fn activate_pane_in_direction(&mut self, found: Option<u64>) -> (r: Option<u64>)
        ensures
            r == found,
            final(self).active_pane == (match found {
                Some(pane) => pane,
                None => old(self).active_pane,
            }),
    {
        if let Some(pane) = found {
            self.focus_pane(pane);
        }
        found
    }

    /// Moves the focus to the next of `panes`, from the last one back to the
    /// first. Gives the pane that gets the focus.
    pub fn activate_next_pane(&mut self, panes: &Vec<u64>) -> (r: Option<u64>)
        ensures
            match r {
                Some(pane) => {
                    &&& final(self).active_pane == pane
                    &&& exists|i: int| #[trigger]
                        stands_at(panes@, old(self).active_pane, i) && pane == panes@[place_after(
                            panes@,
                            i,
                        )]
                },
                None => {
                    &&& !panes@.contains(old(self).active_pane)
                    &&& final(self).active_pane == old(self).active_pane
                },
            },
    {
        match position(panes, self.active_pane) {
            Some(i) => {
                let next: usize = if i < panes.len() - 1 {
                    i + 1
                } else {
                    0
                };
                let pane: u64 = panes[next];
                proof {
                    assert(stands_at(panes@, self.active_pane, i as int));
                }
                self.focus_pane(pane);
                Some(pane)
            },
            None => None,
        }
    }

    /// Moves the focus to the previous of `panes`, from the first one back to
    /// the last. Gives the pane that gets the focus.
    pub fn activate_previous_pane(&mut self, panes: &Vec<u64>) -> (r: Option<u64>)
        ensures
            match r {
                Some(pane) => {
                    &&& final(self).active_pane == pane
                    &&& exists|i: int| #[trigger]
                        stands_at(panes@, old(self).active_pane, i) && pane == panes@[place_before(
                            panes@,
                            i,
                        )]
                },
                None => {
                    &&& !panes@.contains(old(self).active_pane)
                    &&& final(self).active_pane == old(self).active_pane
                },
            },
    {
        match position(panes, self.active_pane) {
            Some(i) => {
                let previous: usize = if i > 0 {
                    i - 1
                } else {
                    panes.len() - 1
                };
                let pane: u64 = panes[previous];
                proof {
                    assert(stands_at(panes@, self.active_pane, i as int));
                }
                self.focus_pane(pane);
                Some(pane)
            },
            None => None,
        }
    }

    /// The text of a tab: that of its active terminal, if it has one.
    pub fn tab_content_text(terminal_text: Option<String>) -> (r: String)
        ensures
            r@ == (match terminal_text {
                Some(text) => text@,
                None => "Terminal"@,
            }),
    {
        match terminal_text {
            Some(text) => text,
            None => "Terminal".to_owned(),
        }
    }
}

/// Moving the focus to the next pane and back to the previous one leaves it
/// where it was.
pub proof fn law_previous_undoes_next(panes: Seq<u64>, pane: u64, i: int, j: int)
    requires
        panes.no_duplicates(),
        stands_at(panes, pane, i),
        stands_at(panes, panes[place_after(panes, i)], j),
    ensures
        panes[place_before(panes, j)] == pane,
{
}

/// Moving the focus to the previous pane and on to the next one leaves it
/// where it was.
pub proof fn law_next_undoes_previous(panes: Seq<u64>, pane: u64, i: int, j: int)
    requires
        panes.no_duplicates(),
        stands_at(panes, pane, i),
        stands_at(panes, panes[place_before(panes, i)], j),
    ensures
        panes[place_after(panes, j)] == pane,
{
}

/// A tab is closed exactly when its last pane is to go; while others are left,
/// the pane alone is removed and the focus goes where it was asked to. A split
/// duplicates the terminal in the direction that was asked for, unless the
/// terminal is to be moved. No other event closes the tab, removes a pane or
/// opens a split.
pub proof fn law_last_pane_closes_the_tab(event: PaneEvent, pane_count: nat)
    ensures
        reaction(event, pane_count) is CloseTab <==> event is Remove && pane_count <= 1,
        reaction(event, pane_count) is RemovePane <==> event is Remove && pane_count > 1,
        event matches PaneEvent::Remove { focus_on_pane } ==> pane_count > 1 ==> reaction(
            event,
            pane_count,
        ) == (TabReaction::RemovePane { focus_on_pane }),
        reaction(event, pane_count) is DuplicateIntoSplit <==> (event matches PaneEvent::Split {
            move_pane,
            ..
        } && !move_pane),
        event matches PaneEvent::Split { direction, move_pane } ==> !move_pane ==> reaction(
            event,
            pane_count,
        ) == (TabReaction::DuplicateIntoSplit { direction }),
        reaction(event, pane_count) is AnnounceItem <==> event is AddItem,
{
}

/// After a pane was removed the focus goes to the pane that was asked for or
/// else to the last one that is left.
pub proof fn law_focus_goes_where_it_was_asked_to(focus_on_pane: Option<u64>, remaining: Seq<u64>)
    ensures
        focus_on_pane is Some ==> focus_after_removal(focus_on_pane, remaining) == focus_on_pane,
        focus_on_pane is None && remaining.len() > 0 ==> focus_after_removal(
            focus_on_pane,
            remaining,
        ) == Some(remaining[remaining.len() - 1]),
        focus_on_pane is None && remaining.len() == 0 ==> focus_after_removal(
            focus_on_pane,
            remaining,
        ) is None,
{
}

/// The focus goes round: from each pane to the one that follows it, from the
/// last to the first, and the other way round.
pub proof fn law_focus_goes_round(panes: Seq<u64>, i: int)
    requires
        0 <= i < panes.len(),
    ensures
        0 <= place_after(panes, i) < panes.len(),
        0 <= place_before(panes, i) < panes.len(),
        i + 1 < panes.len() ==> place_after(panes, i) == i + 1,
        place_after(panes, panes.len() - 1) == 0,
        i > 0 ==> place_before(panes, i) == i - 1,
        place_before(panes, 0) == panes.len() - 1,
        place_before(panes, place_after(panes, i)) == i,
        place_after(panes, place_before(panes, i)) == i,
{
}

} // verus!
