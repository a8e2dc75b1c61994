//! The application state and its basic operations: the mode stack, error
//! banner, active board, and resynchronising the projects panel.

use super::components::{BoardList, CardList, CardListId, ListSelection, ScrollList};
use super::model::{board_ids_where_archived, board_index, BoardSortField, EntityId, KanbanModel, SortField, SortOrder, TaskListView};
use super::modes::{AppMode, BoardFocus, CardFocus, DialogMode, Focus, SettingsFocus};
use super::view::{ViewState, MAX_VIEWPORT_HEIGHT};
use super::board_sort::{shown_board_ids, shown_boards};
use vstd::prelude::*;

verus! {

#[derive(Debug)]
pub struct FocusState {
    pub active: Focus,
    pub card_focus: CardFocus,
    pub board_focus: BoardFocus,
    pub settings_focus: SettingsFocus,
}

#[derive(Debug)]
pub struct SelectionState {
    /// The board being viewed, tracked by id.
    pub active_board_id: Option<EntityId>,
    /// The card shown in the detail view, tracked by id.
    pub active_card_id: Option<EntityId>,
    /// Cards visited before the current one in the detail view.
    pub card_navigation_history: Vec<EntityId>,
    pub settings_config: ListSelection,
    pub settings_config_file: ListSelection,
    pub settings_storage: ListSelection,
    /// Selected sprint in the project detail view.
    pub sprint: ListSelection,
    /// Position in the model of the sprint shown in the sprint detail view.
    pub active_sprint_index: Option<usize>,
}

#[derive(Debug)]
pub struct MultiSelectState {
    pub selection_mode_active: bool,
    /// Selected cards, each once.
    pub selected_cards: Vec<EntityId>,
    pub board_selection_mode_active: bool,
    /// Selected boards, each once.
    pub selected_boards: Vec<EntityId>,
}

/// Entity counts owned by a board, shown in the delete-confirmation dialog.
#[derive(Debug, Clone, Copy, PartialEq, Eq, Structural)]
pub struct BoardDeleteCounts {
    pub columns: usize,
    pub cards: usize,
    pub archived: usize,
    pub sprints: usize,
}

impl BoardDeleteCounts {
    pub fn is_empty(&self) -> (r: bool)
        ensures
            r == (self.columns == 0 && self.cards == 0 && self.archived == 0 && self.sprints == 0),
    {
        self.columns == 0 && self.cards == 0 && self.archived == 0 && self.sprints == 0
    }
}

#[derive(Debug)]
pub struct DialogInputState {
    /// Snapshotted when a board delete-confirmation dialog opens.
    pub board_delete_counts: Option<BoardDeleteCounts>,
    /// `.json` files offered by the import dialog.
    pub import_files: Vec<String>,
    pub import_selection: ListSelection,
    pub priority_selection: ListSelection,
    /// Columns of the project detail view.
    pub column_list: ScrollList,
    /// Sprint whose unfinished cards the carry-over dialog moves.
    pub carry_over_source_sprint_id: Option<EntityId>,
    /// Row of the target sprint among the board's planning sprints.
    pub carry_over_sprint_selection: ListSelection,
    /// Row of the layout picker (flat, grouped by column, columns).
    pub task_list_view_selection: ListSelection,
    /// Field of the create-card dialog with the focus.
    pub create_card_focus: CreateCardFocus,
    /// Sprint the create-card dialog's sprint picker has chosen.
    pub create_card_sprint: Option<EntityId>,
}

/// Fields of the create-card dialog.
#[derive(Debug, Clone, Copy, PartialEq, Eq, Structural)]
pub enum CreateCardFocus {
    Title,
    Sprint,
}

#[derive(Debug)]
pub struct SearchState {
    pub is_active: bool,
}

/// The search over the columns section of the project detail view.
#[derive(Debug)]
pub struct ColumnSearch {
    pub is_active: bool,
    /// The text searched for, ignoring case.
    pub query: String,
}

impl ColumnSearch {
    /// Starts searching.
    pub fn activate(&mut self)
        ensures
            final(self).is_active,
            final(self).query == old(self).query,
    {
        self.is_active = true;
    }
}

/// Sections of the filter dialog.
#[derive(Debug, Clone, Copy, PartialEq, Eq, Structural)]
pub enum FilterDialogSection {
    Sprints,
    DateRange,
    Tags,
}

/// Filters being edited in the filter dialog.
#[derive(Debug)]
pub struct FilterDialogState {
    /// Whether the cards of no sprint are hidden.
    pub show_unassigned_sprints: bool,
    /// Sprints the task list is restricted to, each once.
    pub selected_sprint_ids: Vec<EntityId>,
    pub current_section: FilterDialogSection,
    /// Row in the sprints section: 0 for the unassigned toggle, then one per
    /// sprint of the board.
    pub item_selection: usize,
}

#[derive(Debug)]
pub struct FilterState {
    pub hide_assigned_cards: bool,
    /// Sprints the task list is restricted to, each once.
    pub active_sprint_filters: Vec<EntityId>,
    pub dialog_state: Option<FilterDialogState>,
    pub search: SearchState,
    /// Sort of the live projects list (by position, ascending, by default).
    pub board_sort: (BoardSortField, SortOrder),
    /// Sort of the archived projects list, kept apart from the live one
    /// (most recently archived first by default).
    pub archived_board_sort: (BoardSortField, SortOrder),
    /// Sort of the active board's task list, once a board was activated.
    pub current_sort_field: Option<SortField>,
    pub current_sort_order: Option<SortOrder>,
    /// Search over the columns of the project detail view.
    pub column_search: ColumnSearch,
    /// Highlighted row of the task sort-field picker.
    pub sort_field_selection: ListSelection,
    /// Highlighted row of the projects sort-field picker.
    pub board_sort_field_selection: ListSelection,
}

/// State of the manage-parents / manage-children dialog and of the
/// relationship panels of the card detail view.
#[derive(Debug)]
pub struct RelationshipState {
    /// Cards offered by the dialog.
    pub card_ids: Vec<EntityId>,
    /// Cards currently ticked (current parents or children), each once.
    pub selected: Vec<EntityId>,
    pub selection: ListSelection,
    pub search: String,
    pub search_active: bool,
    pub parents_list: ScrollList,
    pub children_list: ScrollList,
}

/// Steps of the export dialog.
#[derive(Debug, Clone, Copy, PartialEq, Eq, Structural)]
pub enum ExportStep {
    SelectBoards,
    ExportOptions,
}

/// File formats of an export.
#[derive(Debug, Clone, Copy, PartialEq, Eq, Structural)]
pub enum ExportFormat {
    Json,
    Sqlite,
}

/// State of the export dialog: the boards offered and which are picked,
/// the cursor, the format and the file name.
#[derive(Debug)]
pub struct ExportDialogState {
    pub step: ExportStep,
    pub cursor: usize,
    pub board_ids: Vec<EntityId>,
    /// One flag per offered board.
    pub board_selections: Vec<bool>,
    pub format: ExportFormat,
    pub filename: String,
}

/// The two task panels of the sprint detail view.
#[derive(Debug, Clone, Copy, PartialEq, Eq, Structural)]
pub enum SprintTaskPanel {
    Uncompleted,
    Completed,
}

/// Task lists of the sprint detail view.
#[derive(Debug)]
pub struct SprintViewState {
    pub panel: SprintTaskPanel,
    /// The sprint's unfinished cards.
    pub uncompleted: CardList,
    /// The sprint's finished cards.
    pub completed: CardList,
    /// Cards picked in the unfinished panel, each once.
    pub multi_selected: Vec<EntityId>,
}

/// What an animated card is about to undergo.
#[derive(Debug, Clone, Copy, PartialEq, Eq, Structural)]
pub enum AnimationKind {
    Archiving,
    Restoring,
    Deleting,
}

/// Cards being animated before an archive, restore or permanent delete
/// takes effect (the clock that ends an animation is kept by the caller).
#[derive(Debug)]
pub struct AnimationState {
    /// One entry per animated card.
    pub animating: Vec<(EntityId, AnimationKind)>,
    /// Column and position of the card under the cursor when an archive
    /// started, where the selection lands afterwards.
    pub archive_anchor: Option<(EntityId, i32)>,
}

/// The whole application state behind the key handlers.
#[derive(Debug)]
pub struct App {
    pub mode: AppMode,
    /// Modes to return to, innermost last.
    pub mode_stack: Vec<AppMode>,
    pub focus: FocusState,
    pub selection: SelectionState,
    pub multi_select: MultiSelectState,
    pub board_list: BoardList,
    pub view: ViewState,
    pub model: KanbanModel,
    /// Text of the input dialog.
    pub input: String,
    pub dialog_input: DialogInputState,
    pub filter: FilterState,
    pub relationship: RelationshipState,
    pub animation: AnimationState,
    pub sprint_view: SprintViewState,
    pub export_dialog: Option<ExportDialogState>,
    /// A key answered in a popup whose work the main loop carries out
    /// (`o`: overwrite the file, `t`/`r`: reload it).
    pub pending_key: Option<char>,
    /// Message of the error banner.
    pub error_message: Option<String>,
    pub needs_redraw: bool,
    pub has_data_file: bool,
    pub cli_file_override: bool,
}

/// The sort of the live (or archived) projects list.
pub open spec fn board_sort_of(filter: FilterState, archived: bool) -> (BoardSortField, SortOrder) {
    if archived {
        filter.archived_board_sort
    } else {
        filter.board_sort
    }
}

/// The mode beneath any open dialogs.
pub open spec fn base_mode_of(mode: AppMode, stack: Seq<AppMode>) -> AppMode
    decreases stack.len(),
{
    match mode {
        AppMode::Dialog(_) => if stack.len() == 0 {
            AppMode::Normal
        } else {
            base_mode_of(stack.last(), stack.drop_last())
        },
        _ => mode,
    }
}

impl App {
    pub open spec fn well_formed(&self) -> bool {
        &&& self.board_list.well_formed()
        &&& self.view.well_formed()
        &&& self.board_list.ids@.len() + MAX_VIEWPORT_HEIGHT <= usize::MAX
        &&& self.model.boards@.len() + MAX_VIEWPORT_HEIGHT <= usize::MAX
        &&& self.multi_select.selected_cards@.no_duplicates()
        &&& self.multi_select.selected_boards@.no_duplicates()
    }

    pub open spec fn base_mode(&self) -> AppMode {
        base_mode_of(self.mode, self.mode_stack@)
    }

    /// Index of the active board in the model.
    pub open spec fn active_board_index(&self) -> Option<int> {
        match self.selection.active_board_id {
            Some(id) => board_index(self.model.boards@, id),
            None => None,
        }
    }

    /// Ids of the boards the projects panel shows in `mode`.
    pub open spec fn displayed_ids(&self, mode: AppMode) -> Seq<EntityId> {
        let archived = mode == AppMode::ArchivedBoardsView;
        shown_boards(self.model.boards@, archived, board_sort_of(self.filter, archived))
    }

    pub fn new(model: KanbanModel, viewport_height: usize) -> (r: Self)
        requires
            viewport_height <= MAX_VIEWPORT_HEIGHT,
            model.boards@.len() + MAX_VIEWPORT_HEIGHT <= usize::MAX,
        ensures
            r.mode == AppMode::Normal,
            r.mode_stack@.len() == 0,
            r.focus.active == Focus::Boards,
            r.selection.active_board_id.is_none(),
            r.selection.active_card_id.is_none(),
            r.model == model,
            r.view.viewport_height == viewport_height,
            r.view.layout == TaskListView::Flat,
            r.board_list.ids@ == board_ids_where_archived(model.boards@, false),
            r.well_formed(),
    {
        let ids = model.displayed_board_ids(false);
        let mut board_list = BoardList::new();
        board_list.update_boards(ids);
        App {
            mode: AppMode::Normal,
            mode_stack: Vec::new(),
            focus: FocusState {
                active: Focus::Boards,
                card_focus: CardFocus::Title,
                board_focus: BoardFocus::Name,
                settings_focus: SettingsFocus::Configuration,
            },
            selection: SelectionState {
                active_board_id: None,
                active_card_id: None,
                card_navigation_history: Vec::new(),
                settings_config: ListSelection::new(),
                settings_config_file: ListSelection::new(),
                settings_storage: ListSelection::new(),
                sprint: ListSelection::new(),
                active_sprint_index: None,
            },
            multi_select: MultiSelectState {
                selection_mode_active: false,
                selected_cards: Vec::new(),
                board_selection_mode_active: false,
                selected_boards: Vec::new(),
            },
            board_list,
            view: ViewState::new(viewport_height, TaskListView::Flat),
            model,
            input: String::new(),
            dialog_input: DialogInputState {
                board_delete_counts: None,
                import_files: Vec::new(),
                import_selection: ListSelection::new(),
                priority_selection: ListSelection::new(),
                column_list: ScrollList::new(),
                carry_over_source_sprint_id: None,
                carry_over_sprint_selection: ListSelection::new(),
                task_list_view_selection: ListSelection::new(),
                create_card_focus: CreateCardFocus::Title,
                create_card_sprint: None,
            },
            filter: FilterState {
                hide_assigned_cards: false,
                active_sprint_filters: Vec::new(),
                dialog_state: None,
                search: SearchState { is_active: false },
                board_sort: (BoardSortField::Position, SortOrder::Ascending),
                archived_board_sort: (BoardSortField::ArchivedAt, SortOrder::Descending),
                current_sort_field: None,
                current_sort_order: None,
                column_search: ColumnSearch { is_active: false, query: String::new() },
                sort_field_selection: ListSelection::new(),
                board_sort_field_selection: ListSelection::new(),
            },
            relationship: RelationshipState {
                card_ids: Vec::new(),
                selected: Vec::new(),
                selection: ListSelection::new(),
                search: String::new(),
                search_active: false,
                parents_list: ScrollList::new(),
                children_list: ScrollList::new(),
            },
            animation: AnimationState { animating: Vec::new(), archive_anchor: None },
            sprint_view: SprintViewState {
                panel: SprintTaskPanel::Uncompleted,
                uncompleted: CardList::new(CardListId::All),
                completed: CardList::new(CardListId::All),
                multi_selected: Vec::new(),
            },
            export_dialog: None,
            pending_key: None,
            error_message: None,
            needs_redraw: false,
            has_data_file: false,
            cli_file_override: false,
        }
    }

    /// Enters `mode`, remembering the current one.
    pub fn push_mode(&mut self, mode: AppMode)
        ensures
            old(self).unchanged_except(final(self), (Touched { mode: true, ..untouched() })),
            old(self).well_formed() ==> final(self).well_formed(),
            final(self).mode == mode,
            final(self).mode_stack@ == old(self).mode_stack@.push(old(self).mode),
    {
        let mut previous = mode;
        std::mem::swap(&mut self.mode, &mut previous);
        self.mode_stack.push(previous);
    }

    /// Returns to the remembered mode (the normal mode when none is).
    pub fn pop_mode(&mut self)
        ensures
            old(self).unchanged_except(final(self), (Touched { mode: true, ..untouched() })),
            old(self).well_formed() ==> final(self).well_formed(),
            old(self).mode_stack@.len() > 0 ==> final(self).mode == old(self).mode_stack@.last()
                && final(self).mode_stack@ == old(self).mode_stack@.drop_last(),
            old(self).mode_stack@.len() == 0 ==> final(self).mode == AppMode::Normal && final(self).mode_stack@
                == old(self).mode_stack@,
    {
        match self.mode_stack.pop() {
            Some(previous) => {
                self.mode = previous;
            },
            None => {
                self.mode = AppMode::Normal;
            },
        }
    }

    /// Opens `dialog` over the current mode.
    pub fn open_dialog(&mut self, dialog: DialogMode)
        ensures
            old(self).unchanged_except(final(self), (Touched { mode: true, ..untouched() })),
            old(self).well_formed() ==> final(self).well_formed(),
            final(self).mode == AppMode::Dialog(dialog),
            final(self).mode_stack@ == old(self).mode_stack@.push(old(self).mode),
    {
        self.push_mode(AppMode::Dialog(dialog));
    }

    /// The mode beneath any open dialogs.
    pub fn get_base_mode(&self) -> (r: AppMode)
        ensures
            r == self.base_mode(),
    {
        match &self.mode {
            AppMode::Dialog(_) => {},
            _ => {
                return self.mode.duplicate();
            },
        }
        let mut i = self.mode_stack.len();
        while i > 0
            invariant
                i <= self.mode_stack@.len(),
                base_mode_of(self.mode, self.mode_stack@) == if i == 0 {
                    AppMode::Normal
                } else {
                    base_mode_of(self.mode_stack@[i - 1], self.mode_stack@.take(i - 1))
                },
            decreases i,
        {
            match &self.mode_stack[i - 1] {
                AppMode::Dialog(_) => {},
                other => {
                    return other.duplicate();
                },
            }
            proof {
                let t = self.mode_stack@.take(i as int - 1);
                if i > 1 {
                    assert(t.last() == self.mode_stack@[i - 2]);
                    assert(t.drop_last() =~= self.mode_stack@.take(i - 2));
                }
            }
            i = i - 1;
        }
        AppMode::Normal
    }

    /// Shows `message` in the error banner.
    pub fn set_error(&mut self, message: &str)
        ensures
            old(self).unchanged_except(final(self), (Touched { error: true, ..untouched() })),
            old(self).well_formed() ==> final(self).well_formed(),
            final(self).error_message matches Some(m) && m@ == message@,
    {
        self.error_message = Some(message.to_string());
    }

    /// Index of the active board in the model.
    pub fn active_board(&self) -> (r: Option<usize>)
        ensures
            match r {
                Some(i) => self.active_board_index() == Some(i as int) && i < self.model.boards@.len(),
                None => self.active_board_index().is_none(),
            },
    {
        match self.selection.active_board_id {
            Some(id) => self.model.board_by_id(id),
            None => None,
        }
    }

    /// Resyncs the projects panel with the boards of the displayed set (live
    /// or archived, by the base mode), keeping the highlight on the same board.
    pub fn prepare_frame(&mut self)
        requires
            old(self).well_formed(),
        ensures
            final(self).board_list.ids@ == old(self).displayed_ids(old(self).base_mode()),
            final(self).board_list.selected == super::components::resynced_selection(
                old(self).board_list.selected_id(),
                old(self).displayed_ids(old(self).base_mode()),
            ),
            final(self).board_list.scroll_offset == old(self).board_list.scroll_offset,
            old(self).unchanged_except(final(self), (Touched { board_list: true, ..untouched() })),
            final(self).well_formed(),
    {
        let base = self.get_base_mode();
        let archived = base.is_archived_boards_view();
        let sort = if archived {
            self.filter.archived_board_sort
        } else {
            self.filter.board_sort
        };
        let ids = shown_board_ids(&self.model.boards, archived, sort);
        self.board_list.update_boards(ids);
    }

    /// Switches the task panel to `layout`, starting from empty lists.
    pub fn switch_view_strategy(&mut self, layout: TaskListView)
        requires
            old(self).well_formed(),
        ensures
            final(self).view.is_fresh(old(self).view.viewport_height, layout),
            old(self).unchanged_except(final(self), (Touched { view: true, ..untouched() })),
            final(self).well_formed(),
    {
        self.view = ViewState::new(self.view.viewport_height, layout);
    }
}

/// Which parts of the state an operation may change.
pub struct Touched {
    pub mode: bool,
    pub focus: bool,
    pub selection: bool,
    pub multi_select: bool,
    pub board_list: bool,
    pub view: bool,
    pub model: bool,
    pub input: bool,
    pub dialog_input: bool,
    pub filter: bool,
    pub relationship: bool,
    pub animation: bool,
    pub sprint_view: bool,
    pub export: bool,
    pub pending: bool,
    pub error: bool,
    pub redraw: bool,
}

/// An operation that changes nothing.
pub open spec fn untouched() -> Touched {
    Touched {
        mode: false,
        focus: false,
        selection: false,
        multi_select: false,
        board_list: false,
        view: false,
        model: false,
        input: false,
        dialog_input: false,
        filter: false,
        relationship: false,
        animation: false,
        sprint_view: false,
        export: false,
        pending: false,
        error: false,
        redraw: false,
    }
}

impl App {
    /// `after` equals `self` on every part that `t` does not mark.
    pub open spec fn unchanged_except(&self, after: &App, t: Touched) -> bool {
        &&& !t.mode ==> after.mode == self.mode && after.mode_stack@ == self.mode_stack@
        &&& !t.focus ==> after.focus == self.focus
        &&& !t.selection ==> after.selection == self.selection
        &&& !t.multi_select ==> after.multi_select == self.multi_select
        &&& !t.board_list ==> after.board_list == self.board_list
        &&& !t.view ==> after.view == self.view
        &&& !t.model ==> after.model == self.model
        &&& !t.input ==> after.input == self.input
        &&& !t.dialog_input ==> after.dialog_input == self.dialog_input
        &&& !t.filter ==> after.filter == self.filter
        &&& !t.relationship ==> after.relationship == self.relationship
        &&& !t.animation ==> after.animation == self.animation
        &&& !t.sprint_view ==> after.sprint_view == self.sprint_view
        &&& !t.export ==> after.export_dialog == self.export_dialog
        &&& !t.pending ==> after.pending_key == self.pending_key
        &&& !t.error ==> after.error_message == self.error_message
        &&& !t.redraw ==> after.needs_redraw == self.needs_redraw
        &&& after.has_data_file == self.has_data_file
        &&& after.cli_file_override == self.cli_file_override
    }
}

/// `ids` with `id` added when missing.
pub open spec fn with_id(ids: Seq<EntityId>, id: EntityId) -> Seq<EntityId> {
    if ids.contains(id) {
        ids
    } else {
        ids.push(id)
    }
}

/// Adds `id` to a duplicate-free list of ids.
pub fn insert_id(ids: &mut Vec<EntityId>, id: EntityId)
    requires
        old(ids)@.no_duplicates(),
    ensures
        final(ids)@ == with_id(old(ids)@, id),
        final(ids)@.no_duplicates(),
        forall|x: EntityId| final(ids)@.contains(x) <==> (old(ids)@.contains(x) || x == id),
{
    if !super::model::contains_id(ids, id) {
        ids.push(id);
        proof {
            let o = old(ids)@;
            assert(ids@ == o.push(id));
            assert forall|x: EntityId| ids@.contains(x) implies (o.contains(x) || x == id) by {
                let j = choose|j: int| 0 <= j < ids@.len() && ids@[j] == x;
                if j < o.len() {
                    assert(o[j] == x);
                }
            }
            assert forall|x: EntityId| o.contains(x) implies ids@.contains(x) by {
                let j = choose|j: int| 0 <= j < o.len() && o[j] == x;
                assert(ids@[j] == x);
            }
            assert(ids@[o.len() as int] == id);
        }
    }
}

} // verus!
