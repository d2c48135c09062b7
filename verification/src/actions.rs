//! The actions that menus and the command palette offer.

use crate::config::TerminalStartupSplitDirection;
use vstd::prelude::*;

verus! {

/// The kinds of actions that menus and the command palette offer.
#[derive(Clone, Copy, Debug, PartialEq, Eq, Structural)]
pub enum ActionKind {
    ClearDefaultStartupProfile,
    CloseTerminalWindow,
    DuplicateTerminalTab,
    MinimizeTerminalWindow,
    NewTerminalWindow,
    NewTerminalTab,
    NewTerminalSplitWithProfile,
    NewTerminalTabWithProfile,
    OpenConfigDirectory,
    OpenLogsDirectory,
    OpenStartupConfigFile,
    OpenStartupConfigSchemaFile,
    ResetPaneSizes,
    ResizePaneDown,
    ResizePaneLeft,
    ResizePaneRight,
    ResizePaneUp,
    SetDefaultStartupProfile,
    ToggleFullScreen,
    ZoomTerminalWindow,
    SelectAll,
    ClearTerminal,
    CopySelection,
    Paste,
    PasteText,
    ScrollLineDown,
    ScrollLineUp,
    ScrollPageDown,
    ScrollPageUp,
    ScrollToBottom,
    ScrollToTop,
    ShowCharacterPalette,
    ToggleViMode,
    RenameTerminal,
    RerunTask,
    ActivateNextPane,
    ActivatePaneDown,
    ActivatePaneLeft,
    ActivatePaneRight,
    ActivatePaneUp,
    ActivatePreviousPane,
    FocusCenterPane,
    ToggleZoom,
    ActivateItem,
    ActivateNextItem,
    ActivatePreviousItem,
    CloseActiveItem,
    CloseAllItems,
    CloseItemsToTheLeft,
    CloseItemsToTheRight,
    CloseOtherItems,
    SplitDown,
    SplitLeft,
    SplitRight,
    SplitUp,
    SwapItemLeft,
    SwapItemRight,
    DeploySearch,
    ToggleCommandPalette,
    DecreaseBufferFontSize,
    IncreaseBufferFontSize,
    OpenKeymapFile,
    OpenSettings,
    OpenSettingsFile,
    Quit,
    ResetBufferFontSize,
}

impl DeepView for ActionKind {
    type V = ActionKind;

    open spec fn deep_view(&self) -> ActionKind {
        *self
    }
}

/// The name under which keymaps and the command palette know an action.
pub open spec fn action_name(kind: ActionKind) -> Seq<char> {
    match kind {
        ActionKind::ClearDefaultStartupProfile => "zed_terminal::ClearDefaultStartupProfile"@,
        ActionKind::CloseTerminalWindow => "zed_terminal::CloseTerminalWindow"@,
        ActionKind::DuplicateTerminalTab => "zed_terminal::DuplicateTerminalTab"@,
        ActionKind::MinimizeTerminalWindow => "zed_terminal::MinimizeTerminalWindow"@,
        ActionKind::NewTerminalWindow => "zed_terminal::NewTerminalWindow"@,
        ActionKind::NewTerminalTab => "zed_terminal::NewTerminalTab"@,
        ActionKind::NewTerminalSplitWithProfile => "zed_terminal::NewTerminalSplitWithProfile"@,
        ActionKind::NewTerminalTabWithProfile => "zed_terminal::NewTerminalTabWithProfile"@,
        ActionKind::OpenConfigDirectory => "zed_terminal::OpenConfigDirectory"@,
        ActionKind::OpenLogsDirectory => "zed_terminal::OpenLogsDirectory"@,
        ActionKind::OpenStartupConfigFile => "zed_terminal::OpenStartupConfigFile"@,
        ActionKind::OpenStartupConfigSchemaFile => "zed_terminal::OpenStartupConfigSchemaFile"@,
        ActionKind::ResetPaneSizes => "zed_terminal::ResetPaneSizes"@,
        ActionKind::ResizePaneDown => "zed_terminal::ResizePaneDown"@,
        ActionKind::ResizePaneLeft => "zed_terminal::ResizePaneLeft"@,
        ActionKind::ResizePaneRight => "zed_terminal::ResizePaneRight"@,
        ActionKind::ResizePaneUp => "zed_terminal::ResizePaneUp"@,
        ActionKind::SetDefaultStartupProfile => "zed_terminal::SetDefaultStartupProfile"@,
        ActionKind::ToggleFullScreen => "zed_terminal::ToggleFullScreen"@,
        ActionKind::ZoomTerminalWindow => "zed_terminal::ZoomTerminalWindow"@,
        ActionKind::SelectAll => "editor::SelectAll"@,
        ActionKind::ClearTerminal => "terminal::Clear"@,
        ActionKind::CopySelection => "terminal::Copy"@,
        ActionKind::Paste => "terminal::Paste"@,
        ActionKind::PasteText => "terminal::PasteText"@,
        ActionKind::ScrollLineDown => "terminal::ScrollLineDown"@,
        ActionKind::ScrollLineUp => "terminal::ScrollLineUp"@,
        ActionKind::ScrollPageDown => "terminal::ScrollPageDown"@,
        ActionKind::ScrollPageUp => "terminal::ScrollPageUp"@,
        ActionKind::ScrollToBottom => "terminal::ScrollToBottom"@,
        ActionKind::ScrollToTop => "terminal::ScrollToTop"@,
        ActionKind::ShowCharacterPalette => "terminal::ShowCharacterPalette"@,
        ActionKind::ToggleViMode => "terminal::ToggleViMode"@,
        ActionKind::RenameTerminal => "terminal::RenameTerminal"@,
        ActionKind::RerunTask => "terminal::RerunTask"@,
        ActionKind::ActivateNextPane => "workspace::ActivateNextPane"@,
        ActionKind::ActivatePaneDown => "workspace::ActivatePaneDown"@,
        ActionKind::ActivatePaneLeft => "workspace::ActivatePaneLeft"@,
        ActionKind::ActivatePaneRight => "workspace::ActivatePaneRight"@,
        ActionKind::ActivatePaneUp => "workspace::ActivatePaneUp"@,
        ActionKind::ActivatePreviousPane => "workspace::ActivatePreviousPane"@,
        ActionKind::FocusCenterPane => "workspace::FocusCenterPane"@,
        ActionKind::ToggleZoom => "workspace::ToggleZoom"@,
        ActionKind::ActivateItem => "pane::ActivateItem"@,
        ActionKind::ActivateNextItem => "pane::ActivateNextItem"@,
        ActionKind::ActivatePreviousItem => "pane::ActivatePreviousItem"@,
        ActionKind::CloseActiveItem => "pane::CloseActiveItem"@,
        ActionKind::CloseAllItems => "pane::CloseAllItems"@,
        ActionKind::CloseItemsToTheLeft => "pane::CloseItemsToTheLeft"@,
        ActionKind::CloseItemsToTheRight => "pane::CloseItemsToTheRight"@,
        ActionKind::CloseOtherItems => "pane::CloseOtherItems"@,
        ActionKind::SplitDown => "pane::SplitDown"@,
        ActionKind::SplitLeft => "pane::SplitLeft"@,
        ActionKind::SplitRight => "pane::SplitRight"@,
        ActionKind::SplitUp => "pane::SplitUp"@,
        ActionKind::SwapItemLeft => "pane::SwapItemLeft"@,
        ActionKind::SwapItemRight => "pane::SwapItemRight"@,
        ActionKind::DeploySearch => "buffer_search::Deploy"@,
        ActionKind::ToggleCommandPalette => "command_palette::Toggle"@,
        ActionKind::DecreaseBufferFontSize => "zed::DecreaseBufferFontSize"@,
        ActionKind::IncreaseBufferFontSize => "zed::IncreaseBufferFontSize"@,
        ActionKind::OpenKeymapFile => "zed::OpenKeymapFile"@,
        ActionKind::OpenSettings => "zed::OpenSettings"@,
        ActionKind::OpenSettingsFile => "zed::OpenSettingsFile"@,
        ActionKind::Quit => "zed::Quit"@,
        ActionKind::ResetBufferFontSize => "zed::ResetBufferFontSize"@,
    }
}

impl ActionKind {
    /// The name under which keymaps and the command palette know the action.
    pub fn name(self) -> (r: &'static str)
        ensures
            r@ == action_name(self),
    {
        match self {
            ActionKind::ClearDefaultStartupProfile => "zed_terminal::ClearDefaultStartupProfile",
            ActionKind::CloseTerminalWindow => "zed_terminal::CloseTerminalWindow",
            ActionKind::DuplicateTerminalTab => "zed_terminal::DuplicateTerminalTab",
            ActionKind::MinimizeTerminalWindow => "zed_terminal::MinimizeTerminalWindow",
            ActionKind::NewTerminalWindow => "zed_terminal::NewTerminalWindow",
            ActionKind::NewTerminalTab => "zed_terminal::NewTerminalTab",
            ActionKind::NewTerminalSplitWithProfile => "zed_terminal::NewTerminalSplitWithProfile",
            ActionKind::NewTerminalTabWithProfile => "zed_terminal::NewTerminalTabWithProfile",
            ActionKind::OpenConfigDirectory => "zed_terminal::OpenConfigDirectory",
            ActionKind::OpenLogsDirectory => "zed_terminal::OpenLogsDirectory",
            ActionKind::OpenStartupConfigFile => "zed_terminal::OpenStartupConfigFile",
            ActionKind::OpenStartupConfigSchemaFile => "zed_terminal::OpenStartupConfigSchemaFile",
            ActionKind::ResetPaneSizes => "zed_terminal::ResetPaneSizes",
            ActionKind::ResizePaneDown => "zed_terminal::ResizePaneDown",
            ActionKind::ResizePaneLeft => "zed_terminal::ResizePaneLeft",
            ActionKind::ResizePaneRight => "zed_terminal::ResizePaneRight",
            ActionKind::ResizePaneUp => "zed_terminal::ResizePaneUp",
            ActionKind::SetDefaultStartupProfile => "zed_terminal::SetDefaultStartupProfile",
            ActionKind::ToggleFullScreen => "zed_terminal::ToggleFullScreen",
            ActionKind::ZoomTerminalWindow => "zed_terminal::ZoomTerminalWindow",
            ActionKind::SelectAll => "editor::SelectAll",
            ActionKind::ClearTerminal => "terminal::Clear",
            ActionKind::CopySelection => "terminal::Copy",
            ActionKind::Paste => "terminal::Paste",
            ActionKind::PasteText => "terminal::PasteText",
            ActionKind::ScrollLineDown => "terminal::ScrollLineDown",
            ActionKind::ScrollLineUp => "terminal::ScrollLineUp",
            ActionKind::ScrollPageDown => "terminal::ScrollPageDown",
            ActionKind::ScrollPageUp => "terminal::ScrollPageUp",
            ActionKind::ScrollToBottom => "terminal::ScrollToBottom",
            ActionKind::ScrollToTop => "terminal::ScrollToTop",
            ActionKind::ShowCharacterPalette => "terminal::ShowCharacterPalette",
            ActionKind::ToggleViMode => "terminal::ToggleViMode",
            ActionKind::RenameTerminal => "terminal::RenameTerminal",
            ActionKind::RerunTask => "terminal::RerunTask",
            ActionKind::ActivateNextPane => "workspace::ActivateNextPane",
            ActionKind::ActivatePaneDown => "workspace::ActivatePaneDown",
            ActionKind::ActivatePaneLeft => "workspace::ActivatePaneLeft",
            ActionKind::ActivatePaneRight => "workspace::ActivatePaneRight",
            ActionKind::ActivatePaneUp => "workspace::ActivatePaneUp",
            ActionKind::ActivatePreviousPane => "workspace::ActivatePreviousPane",
            ActionKind::FocusCenterPane => "workspace::FocusCenterPane",
            ActionKind::ToggleZoom => "workspace::ToggleZoom",
            ActionKind::ActivateItem => "pane::ActivateItem",
            ActionKind::ActivateNextItem => "pane::ActivateNextItem",
            ActionKind::ActivatePreviousItem => "pane::ActivatePreviousItem",
            ActionKind::CloseActiveItem => "pane::CloseActiveItem",
            ActionKind::CloseAllItems => "pane::CloseAllItems",
            ActionKind::CloseItemsToTheLeft => "pane::CloseItemsToTheLeft",
            ActionKind::CloseItemsToTheRight => "pane::CloseItemsToTheRight",
            ActionKind::CloseOtherItems => "pane::CloseOtherItems",
            ActionKind::SplitDown => "pane::SplitDown",
            ActionKind::SplitLeft => "pane::SplitLeft",
            ActionKind::SplitRight => "pane::SplitRight",
            ActionKind::SplitUp => "pane::SplitUp",
            ActionKind::SwapItemLeft => "pane::SwapItemLeft",
            ActionKind::SwapItemRight => "pane::SwapItemRight",
            ActionKind::DeploySearch => "buffer_search::Deploy",
            ActionKind::ToggleCommandPalette => "command_palette::Toggle",
            ActionKind::DecreaseBufferFontSize => "zed::DecreaseBufferFontSize",
            ActionKind::IncreaseBufferFontSize => "zed::IncreaseBufferFontSize",
            ActionKind::OpenKeymapFile => "zed::OpenKeymapFile",
            ActionKind::OpenSettings => "zed::OpenSettings",
            ActionKind::OpenSettingsFile => "zed::OpenSettingsFile",
            ActionKind::Quit => "zed::Quit",
            ActionKind::ResetBufferFontSize => "zed::ResetBufferFontSize",
        }
    }
}

/// An action as a menu or the command palette offers it.
#[derive(Clone, Debug, PartialEq, Eq)]
pub enum TerminalAction {
    /// An action without arguments, or one with its arguments at their
    /// defaults: closing spares pinned tabs, and a changed font size is not
    /// kept.
    Plain(ActionKind),
    /// Opens a tab with a profile.
    NewTerminalTabWithProfile { profile: String },
    /// Opens a split with a profile.
    NewTerminalSplitWithProfile { profile: String, direction: TerminalStartupSplitDirection },
    /// Makes a profile the default one.
    SetDefaultStartupProfile { profile: String },
}

/// A [`TerminalAction`] as mathematical values.
#[verifier::ext_equal]
pub enum ActionView {
    Plain(ActionKind),
    NewTerminalTabWithProfile { profile: Seq<char> },
    NewTerminalSplitWithProfile { profile: Seq<char>, direction: TerminalStartupSplitDirection },
    SetDefaultStartupProfile { profile: Seq<char> },
}

impl View for TerminalAction {
    type V = ActionView;

    open spec fn view(&self) -> ActionView {
        match self {
            TerminalAction::Plain(kind) => ActionView::Plain(*kind),
            TerminalAction::NewTerminalTabWithProfile {
                profile,
            } => ActionView::NewTerminalTabWithProfile { profile: profile@ },
            TerminalAction::NewTerminalSplitWithProfile {
                profile,
                direction,
            } => ActionView::NewTerminalSplitWithProfile {
                profile: profile@,
                direction: *direction,
            },
            TerminalAction::SetDefaultStartupProfile {
                profile,
            } => ActionView::SetDefaultStartupProfile { profile: profile@ },
        }
    }
}

impl DeepView for TerminalAction {
    type V = ActionView;

    open spec fn deep_view(&self) -> ActionView {
        self@
    }
}

/// The kind of an action.
pub open spec fn action_kind(action: ActionView) -> ActionKind {
    match action {
        ActionView::Plain(kind) => kind,
        ActionView::NewTerminalTabWithProfile { .. } => ActionKind::NewTerminalTabWithProfile,
        ActionView::NewTerminalSplitWithProfile { .. } => ActionKind::NewTerminalSplitWithProfile,
        ActionView::SetDefaultStartupProfile { .. } => ActionKind::SetDefaultStartupProfile,
    }
}

impl TerminalAction {
    /// The kind of the action.
    pub fn kind(&self) -> (r: ActionKind)
        ensures
            r == action_kind(self@),
    {
        match self {
            TerminalAction::Plain(kind) => *kind,
            TerminalAction::NewTerminalTabWithProfile { .. } => {
                ActionKind::NewTerminalTabWithProfile
            },
            TerminalAction::NewTerminalSplitWithProfile { .. } => {
                ActionKind::NewTerminalSplitWithProfile
            },
            TerminalAction::SetDefaultStartupProfile { .. } => ActionKind::SetDefaultStartupProfile,
        }
    }
}

} // verus!
