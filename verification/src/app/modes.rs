//! Modes, dialogs and panel focus of the application.

use vstd::prelude::*;

verus! {

#[derive(Debug, Clone, Copy, PartialEq, Eq, Structural)]
pub enum DialogMode {
    CreateBoard,
    CreateCard,
    CreateSprint,
    RenameBoard,
    RenameColumn,
    CreateColumn,
    ExportBoard,
    ExportAll,
    SetCardPoints,
    SetBranchPrefix,
    SetSprintPrefix,
    SetSprintCardPrefix,
    ImportBoard,
    SetCardPriority,
    SetMultipleCardsPriority,
    OrderCards,
    OrderBoards,
    AssignCardToSprint,
    AssignMultipleCardsToSprint,
    SelectTaskListView,
    DeleteColumnConfirm,
    DeleteBoardConfirm,
    ConfirmSprintPrefixCollision,
    FilterOptions,
    ConflictResolution,
    ExternalChangeDetected,
    ManageParents,
    ManageChildren,
    CarryOverSprint,
    ExportBoards,
    ChooseStorageFile,
    DeletePermanentBoardConfirm,
}

#[derive(Debug, PartialEq, Eq)]
pub enum AppMode {
    Normal,
    CardDetail,
    BoardDetail,
    SprintDetail,
    Search,
    ArchivedCardsView,
    ArchivedBoardsView,
    Settings,
    Help(Box<AppMode>),
    Dialog(DialogMode),
    ErrorLog,
}

impl AppMode {
    /// A copy of this mode.
    pub fn duplicate(&self) -> (r: AppMode)
        ensures
            r == *self,
        decreases self,
    {
        match self {
            AppMode::Normal => AppMode::Normal,
            AppMode::CardDetail => AppMode::CardDetail,
            AppMode::BoardDetail => AppMode::BoardDetail,
            AppMode::SprintDetail => AppMode::SprintDetail,
            AppMode::Search => AppMode::Search,
            AppMode::ArchivedCardsView => AppMode::ArchivedCardsView,
            AppMode::ArchivedBoardsView => AppMode::ArchivedBoardsView,
            AppMode::Settings => AppMode::Settings,
            AppMode::Help(previous) => AppMode::Help(Box::new(previous.duplicate())),
            AppMode::Dialog(dialog) => AppMode::Dialog(*dialog),
            AppMode::ErrorLog => AppMode::ErrorLog,
        }
    }

    pub fn is_normal(&self) -> (r: bool)
        ensures
            r == (*self == AppMode::Normal),
    {
        matches!(self, AppMode::Normal)
    }

    pub fn is_archived_boards_view(&self) -> (r: bool)
        ensures
            r == (*self == AppMode::ArchivedBoardsView),
    {
        matches!(self, AppMode::ArchivedBoardsView)
    }

    pub fn is_archived_cards_view(&self) -> (r: bool)
        ensures
            r == (*self == AppMode::ArchivedCardsView),
    {
        matches!(self, AppMode::ArchivedCardsView)
    }
}

#[derive(Debug, Clone, Copy, PartialEq, Eq, Structural)]
pub enum Focus {
    Boards,
    Cards,
}

#[derive(Debug, Clone, Copy, PartialEq, Eq, Structural)]
pub enum CardFocus {
    Title,
    Metadata,
    Description,
    Parents,
    Children,
}

#[derive(Debug, Clone, Copy, PartialEq, Eq, Structural)]
pub enum BoardFocus {
    Name,
    Description,
    Settings,
    Sprints,
    Columns,
}

#[derive(Debug, Clone, Copy, PartialEq, Eq, Structural)]
pub enum SettingsFocus {
    Configuration,
    ConfigFile,
    Storage,
}

/// A key press, as the popup handlers see it.
#[derive(Debug, Clone, Copy, PartialEq, Eq, Structural)]
pub enum Key {
    Char(char),
    Enter,
    Esc,
    Backspace,
    Up,
    Down,
    Left,
    Right,
    Tab,
    BackTab,
    /// Any other key.
    Other,
}

} // verus!
