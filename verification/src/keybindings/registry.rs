//! Chooses the keybinding table for the current mode and focus.

use super::board_detail::{board_focus_name, board_detail_bindings, BoardDetailProvider};
use super::card_detail::{card_focus_name, card_detail_bindings, CardDetailProvider};
use super::dialog_modes::{
    conflict_resolution_bindings, delete_confirm_bindings, error_log_bindings, external_change_bindings,
    filter_options_bindings, input_dialog_bindings, prefix_collision_bindings, search_mode_bindings,
    selection_dialog_bindings, ConfirmSprintPrefixCollisionProvider, ConflictResolutionProvider,
    DeleteConfirmProvider, DialogInputProvider, DialogSelectionProvider, ErrorLogProvider,
    ExternalChangeDetectedProvider, FilterOptionsProvider, SearchModeProvider,
};
use super::normal_mode::{archived_boards_bindings, boards_panel_bindings, ArchivedBoardsViewProvider, NormalModeBoardsProvider};
use super::sprint_detail::{sprint_detail_bindings, SprintDetailProvider};
use super::{BindingText, KeybindingContext, KeybindingProvider};
use crate::app::modes::{AppMode, BoardFocus, CardFocus, DialogMode, Focus, SettingsFocus};
use crate::app::state::App;
use vstd::prelude::*;

verus! {

pub struct KeybindingRegistry;

/// The keybinding table chosen for a mode.
pub enum ProviderChoice {
    /// The task list; its table is provided with the task-list panel.
    CardList,
    NormalModeBoards,
    CardDetail(CardDetailProvider),
    BoardDetail(BoardDetailProvider),
    SprintDetail,
    Search,
    /// The archived-cards view; its table is derived from the task-list table.
    ArchivedCardsView,
    ArchivedBoardsView,
    /// The settings view; its table is provided with the settings panel.
    Settings(SettingsFocus),
    DialogInput(DialogInputProvider),
    DialogSelection(DialogSelectionProvider),
    DeleteConfirm(DeleteConfirmProvider),
    ConfirmSprintPrefixCollision,
    FilterOptions,
    ConflictResolution,
    ExternalChangeDetected,
    ErrorLog,
}

/// Which table was chosen, with the dialog names as text.
pub enum ProviderTag {
    CardList,
    NormalModeBoards,
    CardDetail(CardFocus),
    BoardDetail(BoardFocus),
    SprintDetail,
    Search,
    ArchivedCardsView,
    ArchivedBoardsView,
    Settings(SettingsFocus),
    DialogInput(Seq<char>),
    DialogSelection(Seq<char>),
    DeleteConfirm(Seq<char>),
    ConfirmSprintPrefixCollision,
    FilterOptions,
    ConflictResolution,
    ExternalChangeDetected,
    ErrorLog,
}

impl View for ProviderChoice {
    type V = ProviderTag;

    open spec fn view(&self) -> ProviderTag {
        match self {
            ProviderChoice::CardList => ProviderTag::CardList,
            ProviderChoice::NormalModeBoards => ProviderTag::NormalModeBoards,
            ProviderChoice::CardDetail(p) => ProviderTag::CardDetail(p.focus),
            ProviderChoice::BoardDetail(p) => ProviderTag::BoardDetail(p.focus),
            ProviderChoice::SprintDetail => ProviderTag::SprintDetail,
            ProviderChoice::Search => ProviderTag::Search,
            ProviderChoice::ArchivedCardsView => ProviderTag::ArchivedCardsView,
            ProviderChoice::ArchivedBoardsView => ProviderTag::ArchivedBoardsView,
            ProviderChoice::Settings(f) => ProviderTag::Settings(*f),
            ProviderChoice::DialogInput(p) => ProviderTag::DialogInput(p.dialog_name@),
            ProviderChoice::DialogSelection(p) => ProviderTag::DialogSelection(p.dialog_name@),
            ProviderChoice::DeleteConfirm(p) => ProviderTag::DeleteConfirm(p.what@),
            ProviderChoice::ConfirmSprintPrefixCollision => ProviderTag::ConfirmSprintPrefixCollision,
            ProviderChoice::FilterOptions => ProviderTag::FilterOptions,
            ProviderChoice::ConflictResolution => ProviderTag::ConflictResolution,
            ProviderChoice::ExternalChangeDetected => ProviderTag::ExternalChangeDetected,
            ProviderChoice::ErrorLog => ProviderTag::ErrorLog,
        }
    }
}

/// The table shown for each dialog.
pub open spec fn dialog_provider(dialog: DialogMode) -> ProviderTag {
    match dialog {
        DialogMode::CreateBoard => ProviderTag::DialogInput("Create Project"@),
        DialogMode::CreateCard => ProviderTag::DialogInput("Create Task"@),
        DialogMode::CreateSprint => ProviderTag::DialogInput("Create Sprint"@),
        DialogMode::RenameBoard => ProviderTag::DialogInput("Rename Project"@),
        DialogMode::RenameColumn => ProviderTag::DialogInput("Rename Column"@),
        DialogMode::CreateColumn => ProviderTag::DialogInput("Create Column"@),
        DialogMode::ExportBoard => ProviderTag::DialogInput("Export Project"@),
        DialogMode::ExportAll => ProviderTag::DialogInput("Export All Projects"@),
        DialogMode::SetCardPoints => ProviderTag::DialogInput("Set Points"@),
        DialogMode::SetBranchPrefix => ProviderTag::DialogInput("Set Branch Prefix"@),
        DialogMode::SetSprintPrefix => ProviderTag::DialogInput("Set Sprint Prefix"@),
        DialogMode::SetSprintCardPrefix => ProviderTag::DialogInput("Set Card Prefix"@),
        DialogMode::ImportBoard => ProviderTag::DialogSelection("Import Project"@),
        DialogMode::SetCardPriority => ProviderTag::DialogSelection("Set Priority"@),
        DialogMode::SetMultipleCardsPriority => ProviderTag::DialogSelection("Set Priority (Bulk)"@),
        DialogMode::OrderCards => ProviderTag::DialogSelection("Sort Tasks"@),
        DialogMode::OrderBoards => ProviderTag::DialogSelection("Sort Projects"@),
        DialogMode::AssignCardToSprint => ProviderTag::DialogSelection("Assign to Sprint"@),
        DialogMode::AssignMultipleCardsToSprint => ProviderTag::DialogSelection("Assign Cards to Sprint"@),
        DialogMode::SelectTaskListView => ProviderTag::DialogSelection("Select Task View"@),
        DialogMode::DeleteColumnConfirm => ProviderTag::DeleteConfirm("Column"@),
        DialogMode::DeleteBoardConfirm => ProviderTag::DeleteConfirm("Project"@),
        DialogMode::ConfirmSprintPrefixCollision => ProviderTag::ConfirmSprintPrefixCollision,
        DialogMode::FilterOptions => ProviderTag::FilterOptions,
        DialogMode::ConflictResolution => ProviderTag::ConflictResolution,
        DialogMode::ExternalChangeDetected => ProviderTag::ExternalChangeDetected,
        DialogMode::ManageParents => ProviderTag::DialogSelection("Set Parents"@),
        DialogMode::ManageChildren => ProviderTag::DialogSelection("Set Children"@),
        DialogMode::CarryOverSprint => ProviderTag::DialogSelection("Carry Over to Sprint"@),
        DialogMode::ExportBoards => ProviderTag::DialogSelection("Export Boards"@),
        DialogMode::ChooseStorageFile => ProviderTag::DialogInput("Choose Storage File"@),
        DialogMode::DeletePermanentBoardConfirm => ProviderTag::DeleteConfirm("Project (Permanent)"@),
    }
}

/// The table shown for a mode. While an archived board is drilled into, the
/// task list is the context; help shows the table of the mode it was opened
/// from.
pub open spec fn provider_for_mode(
    mode: AppMode,
    focus: Focus,
    card_focus: CardFocus,
    board_focus: BoardFocus,
    settings_focus: SettingsFocus,
    board_activated: bool,
) -> ProviderTag
    decreases mode,
{
    match mode {
        AppMode::Normal => match focus {
            Focus::Cards => ProviderTag::CardList,
            Focus::Boards => ProviderTag::NormalModeBoards,
        },
        AppMode::CardDetail => ProviderTag::CardDetail(card_focus),
        AppMode::BoardDetail => ProviderTag::BoardDetail(board_focus),
        AppMode::SprintDetail => ProviderTag::SprintDetail,
        AppMode::Search => ProviderTag::Search,
        AppMode::ArchivedCardsView => ProviderTag::ArchivedCardsView,
        AppMode::ArchivedBoardsView => if board_activated {
            ProviderTag::CardList
        } else {
            ProviderTag::ArchivedBoardsView
        },
        AppMode::Settings => ProviderTag::Settings(settings_focus),
        AppMode::Help(previous) => provider_for_mode(
            *previous,
            focus,
            card_focus,
            board_focus,
            settings_focus,
            board_activated,
        ),
        AppMode::Dialog(dialog) => dialog_provider(dialog),
        AppMode::ErrorLog => ProviderTag::ErrorLog,
    }
}

/// The bindings of a chosen table, when this library provides it.
pub open spec fn provider_context(tag: ProviderTag) -> Option<(Seq<char>, Seq<BindingText>)> {
    match tag {
        ProviderTag::CardList => None,
        ProviderTag::NormalModeBoards => Some(("Normal Mode - Projects Panel"@, boards_panel_bindings())),
        ProviderTag::CardDetail(f) => Some(
            ("Card Detail - "@ + card_focus_name(f) + " Panel"@, card_detail_bindings(f)),
        ),
        ProviderTag::BoardDetail(f) => Some(
            ("Project Detail - "@ + board_focus_name(f) + " Panel"@, board_detail_bindings(f)),
        ),
        ProviderTag::SprintDetail => Some(("Sprint Detail"@, sprint_detail_bindings())),
        ProviderTag::Search => Some(("Search Mode"@, search_mode_bindings())),
        ProviderTag::ArchivedCardsView => None,
        ProviderTag::ArchivedBoardsView => Some(("Archived Projects View"@, archived_boards_bindings())),
        ProviderTag::Settings(_) => None,
        ProviderTag::DialogInput(name) => Some((name + " - Input Dialog"@, input_dialog_bindings())),
        ProviderTag::DialogSelection(name) => Some((name + " - Selection Dialog"@, selection_dialog_bindings())),
        ProviderTag::DeleteConfirm(what) => Some(("Delete "@ + what + " - Confirm"@, delete_confirm_bindings())),
        ProviderTag::ConfirmSprintPrefixCollision => Some(("Confirm Sprint Prefix"@, prefix_collision_bindings())),
        ProviderTag::FilterOptions => Some(("Filter Options"@, filter_options_bindings())),
        ProviderTag::ConflictResolution => Some(("Resolve Conflict"@, conflict_resolution_bindings())),
        ProviderTag::ExternalChangeDetected => Some(("External Change"@, external_change_bindings())),
        ProviderTag::ErrorLog => Some(("Error Log"@, error_log_bindings())),
    }
}

impl ProviderChoice {
    /// The chosen table. The task-list and settings tables, and the
    /// archived-cards table derived from the task-list one, come with those
    /// panels and are not produced here (`None`).
    pub fn get_context(&self) -> (r: Option<KeybindingContext>)
        ensures
            match r {
                Some(ctx) => provider_context(self@) == Some(ctx@),
                None => provider_context(self@).is_none(),
            },
    {
        match self {
            ProviderChoice::CardList => None,
            ProviderChoice::NormalModeBoards => Some(NormalModeBoardsProvider.get_context()),
            ProviderChoice::CardDetail(p) => Some(p.get_context()),
            ProviderChoice::BoardDetail(p) => Some(p.get_context()),
            ProviderChoice::SprintDetail => Some(SprintDetailProvider.get_context()),
            ProviderChoice::Search => Some(SearchModeProvider.get_context()),
            ProviderChoice::ArchivedCardsView => None,
            ProviderChoice::ArchivedBoardsView => Some(ArchivedBoardsViewProvider.get_context()),
            ProviderChoice::Settings(_) => None,
            ProviderChoice::DialogInput(p) => Some(p.get_context()),
            ProviderChoice::DialogSelection(p) => Some(p.get_context()),
            ProviderChoice::DeleteConfirm(p) => Some(p.get_context()),
            ProviderChoice::ConfirmSprintPrefixCollision => Some(ConfirmSprintPrefixCollisionProvider.get_context()),
            ProviderChoice::FilterOptions => Some(FilterOptionsProvider.get_context()),
            ProviderChoice::ConflictResolution => Some(ConflictResolutionProvider.get_context()),
            ProviderChoice::ExternalChangeDetected => Some(ExternalChangeDetectedProvider.get_context()),
            ProviderChoice::ErrorLog => Some(ErrorLogProvider.get_context()),
        }
    }
}

impl KeybindingRegistry {
    fn dialog_provider(dialog: DialogMode) -> (r: ProviderChoice)
        ensures
            r@ == dialog_provider(dialog),
    {
        match dialog {
            DialogMode::CreateBoard => ProviderChoice::DialogInput(DialogInputProvider::new("Create Project")),
            DialogMode::CreateCard => ProviderChoice::DialogInput(DialogInputProvider::new("Create Task")),
            DialogMode::CreateSprint => ProviderChoice::DialogInput(DialogInputProvider::new("Create Sprint")),
            DialogMode::RenameBoard => ProviderChoice::DialogInput(DialogInputProvider::new("Rename Project")),
            DialogMode::RenameColumn => ProviderChoice::DialogInput(DialogInputProvider::new("Rename Column")),
            DialogMode::CreateColumn => ProviderChoice::DialogInput(DialogInputProvider::new("Create Column")),
            DialogMode::ExportBoard => ProviderChoice::DialogInput(DialogInputProvider::new("Export Project")),
            DialogMode::ExportAll => ProviderChoice::DialogInput(DialogInputProvider::new("Export All Projects")),
            DialogMode::SetCardPoints => ProviderChoice::DialogInput(DialogInputProvider::new("Set Points")),
            DialogMode::SetBranchPrefix => ProviderChoice::DialogInput(DialogInputProvider::new("Set Branch Prefix")),
            DialogMode::SetSprintPrefix => ProviderChoice::DialogInput(DialogInputProvider::new("Set Sprint Prefix")),
            DialogMode::SetSprintCardPrefix => ProviderChoice::DialogInput(DialogInputProvider::new("Set Card Prefix")),
            DialogMode::ImportBoard => ProviderChoice::DialogSelection(DialogSelectionProvider::new("Import Project")),
            DialogMode::SetCardPriority => ProviderChoice::DialogSelection(DialogSelectionProvider::new("Set Priority")),
            DialogMode::SetMultipleCardsPriority => ProviderChoice::DialogSelection(DialogSelectionProvider::new("Set Priority (Bulk)")),
            DialogMode::OrderCards => ProviderChoice::DialogSelection(DialogSelectionProvider::new("Sort Tasks")),
            DialogMode::OrderBoards => ProviderChoice::DialogSelection(DialogSelectionProvider::new("Sort Projects")),
            DialogMode::AssignCardToSprint => ProviderChoice::DialogSelection(DialogSelectionProvider::new("Assign to Sprint")),
            DialogMode::AssignMultipleCardsToSprint => ProviderChoice::DialogSelection(DialogSelectionProvider::new("Assign Cards to Sprint")),
            DialogMode::SelectTaskListView => ProviderChoice::DialogSelection(DialogSelectionProvider::new("Select Task View")),
            DialogMode::DeleteColumnConfirm => ProviderChoice::DeleteConfirm(DeleteConfirmProvider::new("Column")),
            DialogMode::DeleteBoardConfirm => ProviderChoice::DeleteConfirm(DeleteConfirmProvider::new("Project")),
            DialogMode::ConfirmSprintPrefixCollision => ProviderChoice::ConfirmSprintPrefixCollision,
            DialogMode::FilterOptions => ProviderChoice::FilterOptions,
            DialogMode::ConflictResolution => ProviderChoice::ConflictResolution,
            DialogMode::ExternalChangeDetected => ProviderChoice::ExternalChangeDetected,
            DialogMode::ManageParents => ProviderChoice::DialogSelection(DialogSelectionProvider::new("Set Parents")),
            DialogMode::ManageChildren => ProviderChoice::DialogSelection(DialogSelectionProvider::new("Set Children")),
            DialogMode::CarryOverSprint => ProviderChoice::DialogSelection(DialogSelectionProvider::new("Carry Over to Sprint")),
            DialogMode::ExportBoards => ProviderChoice::DialogSelection(DialogSelectionProvider::new("Export Boards")),
            DialogMode::ChooseStorageFile => ProviderChoice::DialogInput(DialogInputProvider::new("Choose Storage File")),
            DialogMode::DeletePermanentBoardConfirm => ProviderChoice::DeleteConfirm(DeleteConfirmProvider::new("Project (Permanent)")),
        }
    }

    /// The provider for the application's current mode and focus.
    pub fn get_provider(app: &App) -> (r: ProviderChoice)
        ensures
            r@ == provider_for_mode(
                app.mode,
                app.focus.active,
                app.focus.card_focus,
                app.focus.board_focus,
                app.focus.settings_focus,
                app.selection.active_board_id.is_some(),
            ),
    {
        Self::get_provider_for_mode(
            &app.mode,
            app.focus.active,
            app.focus.card_focus,
            app.focus.board_focus,
            app.focus.settings_focus,
            app.selection.active_board_id.is_some(),
        )
    }

    pub fn get_provider_for_mode(
        mode: &AppMode,
        focus: Focus,
        card_focus: CardFocus,
        board_focus: BoardFocus,
        settings_focus: SettingsFocus,
        board_activated: bool,
    ) -> (r: ProviderChoice)
        ensures
            r@ == provider_for_mode(*mode, focus, card_focus, board_focus, settings_focus, board_activated),
        decreases mode,
    {
        match mode {
            AppMode::Normal => match focus {
                Focus::Cards => ProviderChoice::CardList,
                Focus::Boards => ProviderChoice::NormalModeBoards,
            },
            AppMode::CardDetail => ProviderChoice::CardDetail(CardDetailProvider::new(card_focus)),
            AppMode::BoardDetail => ProviderChoice::BoardDetail(BoardDetailProvider::new(board_focus)),
            AppMode::SprintDetail => ProviderChoice::SprintDetail,
            AppMode::Search => ProviderChoice::Search,
            AppMode::ArchivedCardsView => ProviderChoice::ArchivedCardsView,
            // Once an archived board is activated (drilled into), the tasks
            // panel is the context: advertise the card-list keys.
            AppMode::ArchivedBoardsView => if board_activated {
                ProviderChoice::CardList
            } else {
                ProviderChoice::ArchivedBoardsView
            },
            AppMode::Settings => ProviderChoice::Settings(settings_focus),
            AppMode::Help(previous_mode) => Self::get_provider_for_mode(
                previous_mode,
                focus,
                card_focus,
                board_focus,
                settings_focus,
                board_activated,
            ),
            AppMode::Dialog(dialog) => Self::dialog_provider(*dialog),
            AppMode::ErrorLog => ProviderChoice::ErrorLog,
        }
    }
}

/// Help shows the table of the mode it was opened from.
pub proof fn law_help_shows_previous_mode_table(
    previous: AppMode,
    focus: Focus,
    card_focus: CardFocus,
    board_focus: BoardFocus,
    settings_focus: SettingsFocus,
    board_activated: bool,
)
    ensures
        provider_for_mode(
            AppMode::Help(Box::new(previous)),
            focus,
            card_focus,
            board_focus,
            settings_focus,
            board_activated,
        ) == provider_for_mode(previous, focus, card_focus, board_focus, settings_focus, board_activated),
{
}

/// The confirm dialogs with their own keys (sprint-prefix collision,
/// conflict resolution, external change) get their bespoke tables, never a
/// generic list-picker table.
pub proof fn law_bespoke_confirm_dialogs()
    ensures
        dialog_provider(DialogMode::ConfirmSprintPrefixCollision) == ProviderTag::ConfirmSprintPrefixCollision,
        dialog_provider(DialogMode::ConflictResolution) == ProviderTag::ConflictResolution,
        dialog_provider(DialogMode::ExternalChangeDetected) == ProviderTag::ExternalChangeDetected,
{
}

} // verus!
