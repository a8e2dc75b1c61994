//! Keys of the card and project detail views, the settings screen, the
//! archive animations and the lines of the tasks panel.

use kanban_tui::app::board_detail::BoardDetailAction;
use kanban_tui::app::card_detail::CardDetailAction;
use kanban_tui::app::components::{CardList, CardListId};
use kanban_tui::app::model::{
    ArchivedCard, Board, Card, CardPriority, CardStatus, Column, KanbanModel, Sprint, SprintStatus, TaskListView,
};
use kanban_tui::app::modes::{AppMode, BoardFocus, CardFocus, DialogMode, Focus, Key, SettingsFocus};
use kanban_tui::app::render_plan::{MultiPanelRenderer, PanelHint, SinglePanelRenderer, TaskLine};
use kanban_tui::app::state::{AnimationKind, App};

fn card(id: u128, column_id: u128, position: i32, priority: CardPriority) -> Card {
    Card {
        id,
        column_id,
        title: format!("Card {}", id),
        position,
        priority,
        status: CardStatus::Todo,
        sprint_id: None,
        points: None,
    }
}

fn model() -> KanbanModel {
    let mut m = KanbanModel::new();
    m.boards.push(Board {
        id: 1,
        name: "Alpha".to_string(),
        archived: false,
        task_list_view: TaskListView::GroupedByColumn,
        active_sprint_id: None,
        sprint_prefix: Some("feat".to_string()),
        task_sort_field: kanban_tui::app::model::SortField::Default,
        task_sort_order: kanban_tui::app::model::SortOrder::Ascending,
    });
    m.boards.push(Board {
        id: 2,
        name: "Beta".to_string(),
        archived: false,
        task_list_view: TaskListView::Flat,
        active_sprint_id: None,
        sprint_prefix: None,
        task_sort_field: kanban_tui::app::model::SortField::Default,
        task_sort_order: kanban_tui::app::model::SortOrder::Ascending,
    });
    // Model order differs from display order: positions decide.
    m.columns.push(Column { id: 12, board_id: 1, name: "Done".to_string(), position: 2, created_at: 0 });
    m.columns.push(Column { id: 10, board_id: 1, name: "Todo".to_string(), position: 0, created_at: 0 });
    m.columns.push(Column { id: 11, board_id: 1, name: "Doing".to_string(), position: 1, created_at: 0 });
    m.columns.push(Column { id: 20, board_id: 2, name: "Only".to_string(), position: 0, created_at: 0 });
    m.cards.push(card(100, 10, 0, CardPriority::Low));
    m.cards.push(card(101, 10, 1, CardPriority::High));
    m.cards.push(card(102, 11, 0, CardPriority::Medium));
    m.cards.push(card(103, 12, 0, CardPriority::Critical));
    m.sprints.push(Sprint { id: 50, board_id: 1, status: SprintStatus::Planning, name: None, prefix: None, card_prefix: None });
    m.sprints.push(Sprint { id: 60, board_id: 2, status: SprintStatus::Planning, name: None, prefix: None, card_prefix: None });
    m.sprints.push(Sprint { id: 51, board_id: 1, status: SprintStatus::Planning, name: None, prefix: None, card_prefix: None });
    // 100 -> 101 -> 102, 100 -> 103
    m.edges.push((100, 101));
    m.edges.push((101, 102));
    m.edges.push((100, 103));
    m
}

fn app_in_card_detail(card_id: u128) -> App {
    let mut app = App::new(model(), 10);
    app.selection.active_board_id = Some(1);
    app.focus.active = Focus::Cards;
    app.view.lists[0] = CardList {
        id: CardListId::All,
        cards: vec![100, 101, 102, 103],
        selected: Some(1),
        scroll_offset: 0,
    };
    app.selection.active_card_id = Some(card_id);
    app.refresh_relationship_counts();
    app.push_mode(AppMode::CardDetail);
    app
}

fn app_in_board_detail() -> App {
    let mut app = App::new(model(), 10);
    app.selection.active_board_id = Some(1);
    app.push_mode(AppMode::BoardDetail);
    app
}

// ----------------------------------------------------------------------------
// Card detail
// ----------------------------------------------------------------------------

#[test]
fn test_card_detail_sections_cycle_down_and_up() {
    let mut app = app_in_card_detail(102);
    assert_eq!(app.handle_card_detail_key(Key::Char('j')), CardDetailAction::Nothing);
    assert_eq!(app.focus.card_focus, CardFocus::Metadata);
    app.handle_card_detail_key(Key::Down);
    assert_eq!(app.focus.card_focus, CardFocus::Description);
    app.handle_card_detail_key(Key::Up);
    assert_eq!(app.focus.card_focus, CardFocus::Metadata);
    app.handle_card_detail_key(Key::Char('k'));
    assert_eq!(app.focus.card_focus, CardFocus::Title);
    app.handle_card_detail_key(Key::Char('4'));
    assert_eq!(app.focus.card_focus, CardFocus::Parents);
}

#[test]
fn test_card_detail_walks_parents_then_children() {
    // Card 101: parent 100, child 102.
    let mut app = app_in_card_detail(101);
    app.handle_card_detail_key(Key::Char('4'));
    app.handle_card_detail_key(Key::Char('j'));
    assert_eq!(app.focus.card_focus, CardFocus::Parents);
    assert_eq!(app.relationship.parents_list.selection.selected, Some(0));
    // Past the last parent: onto the first child.
    app.handle_card_detail_key(Key::Char('j'));
    assert_eq!(app.focus.card_focus, CardFocus::Children);
    assert_eq!(app.relationship.parents_list.selection.selected, None);
    assert_eq!(app.relationship.children_list.selection.selected, Some(0));
    // Past the last child: back to the title.
    app.handle_card_detail_key(Key::Char('j'));
    assert_eq!(app.focus.card_focus, CardFocus::Title);
    assert_eq!(app.relationship.children_list.selection.selected, None);
    // Up from the title lands on the last child.
    app.handle_card_detail_key(Key::Char('k'));
    assert_eq!(app.focus.card_focus, CardFocus::Children);
    assert_eq!(app.relationship.children_list.selection.selected, Some(0));
    // Up from the first child lands on the last parent.
    app.handle_card_detail_key(Key::Char('k'));
    assert_eq!(app.focus.card_focus, CardFocus::Parents);
    assert_eq!(app.relationship.parents_list.selection.selected, Some(0));
}

#[test]
fn test_card_detail_enter_and_backspace_follow_relations() {
    let mut app = app_in_card_detail(101);
    app.handle_card_detail_key(Key::Char('5'));
    app.handle_card_detail_key(Key::Enter);
    assert_eq!(app.selection.active_card_id, Some(102));
    assert_eq!(app.selection.card_navigation_history, vec![101]);
    assert_eq!(app.focus.card_focus, CardFocus::Title);
    // From the title, Backspace does nothing.
    app.handle_card_detail_key(Key::Backspace);
    assert_eq!(app.selection.active_card_id, Some(102));
    app.handle_card_detail_key(Key::Char('4'));
    app.handle_card_detail_key(Key::Char('h'));
    assert_eq!(app.selection.active_card_id, Some(101));
    assert!(app.selection.card_navigation_history.is_empty());
}

#[test]
fn test_card_detail_actions_left_to_the_caller() {
    let mut app = app_in_card_detail(101);
    assert_eq!(app.handle_card_detail_key(Key::Char('y')), CardDetailAction::CopyBranchName);
    assert_eq!(app.handle_card_detail_key(Key::Char('Y')), CardDetailAction::CopyCheckoutCommand);
    assert_eq!(app.handle_card_detail_key(Key::Char('e')), CardDetailAction::EditFocusedField);
    assert_eq!(app.mode, AppMode::CardDetail);
}

#[test]
fn test_card_detail_assign_sprint_needs_board_sprints() {
    let mut app = app_in_card_detail(101);
    assert_eq!(app.handle_card_detail_key(Key::Char('a')), CardDetailAction::PrepareSprintPicker);
    assert_eq!(app.mode, AppMode::Dialog(DialogMode::AssignCardToSprint));

    let mut other = app_in_card_detail(101);
    other.model.sprints.clear();
    assert_eq!(other.handle_card_detail_key(Key::Char('a')), CardDetailAction::Nothing);
    assert_eq!(other.mode, AppMode::CardDetail);
}

#[test]
fn test_card_detail_priority_picker_starts_on_current_priority() {
    let mut app = app_in_card_detail(101);
    app.handle_card_detail_key(Key::Char('P'));
    assert_eq!(app.dialog_input.priority_selection.selected, Some(2));
    assert_eq!(app.mode, AppMode::Dialog(DialogMode::SetCardPriority));
    assert_eq!(app.get_current_priority_selection_index(), 2);
}

#[test]
fn test_card_detail_esc_closes_the_view() {
    let mut app = app_in_card_detail(101);
    app.handle_card_detail_key(Key::Char('4'));
    app.handle_card_detail_key(Key::Char('j'));
    app.handle_card_detail_key(Key::Esc);
    assert_eq!(app.mode, AppMode::Normal);
    assert_eq!(app.selection.active_card_id, None);
    assert_eq!(app.focus.card_focus, CardFocus::Title);
    assert_eq!(app.relationship.parents_list.selection.selected, None);
}

#[test]
fn test_card_detail_d_archives_and_closes() {
    let mut app = app_in_card_detail(101);
    app.handle_card_detail_key(Key::Char('d'));
    assert_eq!(app.animation.animating, vec![(101, AnimationKind::Archiving)]);
    assert_eq!(app.animation.archive_anchor, Some((10, 1)));
    assert_eq!(app.mode, AppMode::Normal);
    assert_eq!(app.selection.active_card_id, None);
}

// ----------------------------------------------------------------------------
// Archive, restore and delete animations
// ----------------------------------------------------------------------------

#[test]
fn test_archive_animates_the_selection_then_clears_it() {
    let mut app = app_in_card_detail(101);
    app.pop_mode();
    app.multi_select.selection_mode_active = true;
    app.multi_select.selected_cards = vec![103, 999, 100];
    app.handle_archive_card();
    assert_eq!(
        app.animation.animating,
        vec![(103, AnimationKind::Archiving), (100, AnimationKind::Archiving)]
    );
    assert!(app.multi_select.selected_cards.is_empty());
    assert!(!app.multi_select.selection_mode_active);
    // Archiving the same card again replaces its entry.
    app.handle_archive_card();
    assert_eq!(app.animation.animating.len(), 3);
}

#[test]
fn test_archive_keeps_other_animations_and_replaces_the_selected_ones() {
    let mut app = app_in_card_detail(101);
    app.pop_mode();
    app.animation.animating = vec![(999, AnimationKind::Deleting), (103, AnimationKind::Restoring)];
    app.multi_select.selection_mode_active = true;
    app.multi_select.selected_cards = vec![103];
    app.handle_archive_card();
    assert_eq!(
        app.animation.animating,
        vec![(999, AnimationKind::Deleting), (103, AnimationKind::Archiving)]
    );
    assert_eq!(app.animation.archive_anchor, Some((10, 1)));
}

#[test]
fn test_restore_and_permanent_delete_only_in_archived_cards_view() {
    let mut app = app_in_card_detail(101);
    app.pop_mode();
    app.model.archived_cards.push(ArchivedCard { card_id: 101, board_id: 1 });
    app.handle_restore_card();
    assert!(app.animation.animating.is_empty());
    app.push_mode(AppMode::ArchivedCardsView);
    app.handle_restore_card();
    assert_eq!(app.animation.animating, vec![(101, AnimationKind::Restoring)]);
    app.handle_delete_card_permanent();
    assert_eq!(app.animation.animating, vec![(101, AnimationKind::Deleting)]);
    // A card that is not archived cannot be restored.
    app.view.lists[0].selected = Some(0);
    app.handle_restore_card();
    assert_eq!(app.animation.animating.len(), 1);
}

// ----------------------------------------------------------------------------
// Project detail
// ----------------------------------------------------------------------------

#[test]
fn test_board_detail_sections_cycle() {
    let mut app = app_in_board_detail();
    app.handle_board_detail_key(Key::Down);
    assert_eq!(app.focus.board_focus, BoardFocus::Description);
    app.handle_board_detail_key(Key::Down);
    assert_eq!(app.focus.board_focus, BoardFocus::Settings);
    app.handle_board_detail_key(Key::Down);
    assert_eq!(app.focus.board_focus, BoardFocus::Sprints);
    assert_eq!(app.selection.sprint.selected, Some(0));
    app.handle_board_detail_key(Key::Down);
    assert_eq!(app.selection.sprint.selected, Some(1));
    app.handle_board_detail_key(Key::Down);
    assert_eq!(app.focus.board_focus, BoardFocus::Columns);
    assert_eq!(app.dialog_input.column_list.item_count, 3);
    assert_eq!(app.dialog_input.column_list.selection.selected, Some(0));
    app.handle_board_detail_key(Key::Char('1'));
    app.handle_board_detail_key(Key::Up);
    assert_eq!(app.focus.board_focus, BoardFocus::Columns);
}

#[test]
fn test_board_detail_column_keys() {
    let mut app = app_in_board_detail();
    app.handle_board_detail_key(Key::Char('5'));
    app.dialog_input.column_list.update_item_count(3);
    app.dialog_input.column_list.selection.set(Some(1));

    // Rename pre-fills the name of the second column by position.
    app.handle_board_detail_key(Key::Char('r'));
    assert_eq!(app.input, "Doing");
    assert_eq!(app.mode, AppMode::Dialog(DialogMode::RenameColumn));
    app.pop_mode();

    app.handle_board_detail_key(Key::Char('d'));
    assert_eq!(app.mode, AppMode::Dialog(DialogMode::DeleteColumnConfirm));
    app.pop_mode();

    app.handle_board_detail_key(Key::Char('n'));
    assert_eq!(app.mode, AppMode::Dialog(DialogMode::CreateColumn));
    assert_eq!(app.input, "");
    app.pop_mode();

    // K moves "Doing" down: it swaps with "Done".
    app.handle_board_detail_key(Key::Char('K'));
    assert_eq!(app.model.columns[2].position, 2);
    assert_eq!(app.model.columns[0].position, 1);
    assert_eq!(app.dialog_input.column_list.selection.selected, Some(2));
    // J moves it back up.
    app.handle_board_detail_key(Key::Char('J'));
    assert_eq!(app.model.columns[2].position, 1);
    assert_eq!(app.model.columns[0].position, 2);
    assert_eq!(app.dialog_input.column_list.selection.selected, Some(1));
}

#[test]
fn test_delete_column_key_keeps_the_last_column() {
    let mut app = App::new(model(), 10);
    app.selection.active_board_id = Some(2);
    app.push_mode(AppMode::BoardDetail);
    app.focus.board_focus = BoardFocus::Columns;
    app.dialog_input.column_list.update_item_count(1);
    app.dialog_input.column_list.selection.set(Some(0));
    app.handle_delete_column_key();
    assert_eq!(app.mode, AppMode::BoardDetail);
}

#[test]
fn test_board_detail_enter_opens_sprint_and_p_edits_prefix() {
    let mut app = app_in_board_detail();
    app.handle_board_detail_key(Key::Char('4'));
    app.selection.sprint.set(Some(1));
    app.handle_board_detail_key(Key::Enter);
    assert_eq!(app.mode, AppMode::SprintDetail);
    // The board's second sprint is the third of the model.
    assert_eq!(app.selection.active_sprint_index, Some(2));

    let mut other = app_in_board_detail();
    other.handle_board_detail_key(Key::Char('3'));
    other.handle_board_detail_key(Key::Char('p'));
    assert_eq!(other.input, "feat");
    assert_eq!(other.mode, AppMode::Dialog(DialogMode::SetBranchPrefix));
    other.pop_mode();
    assert_eq!(other.handle_board_detail_key(Key::Char('e')), BoardDetailAction::EditFocusedField);
    other.handle_board_detail_key(Key::Esc);
    assert_eq!(other.mode, AppMode::Normal);
    assert_eq!(other.focus.board_focus, BoardFocus::Name);
}

#[test]
fn test_sorted_board_columns_orders_by_position() {
    let app = App::new(model(), 10);
    assert_eq!(app.sorted_board_columns(1), vec![1, 2, 0]);
    assert_eq!(app.sorted_board_columns(2), vec![3]);
    assert!(app.sorted_board_columns(9).is_empty());
}

#[test]
fn test_create_sprint_key_only_on_sprints_section() {
    let mut app = app_in_board_detail();
    app.handle_create_sprint_key();
    assert_eq!(app.mode, AppMode::BoardDetail);
    app.focus.board_focus = BoardFocus::Sprints;
    app.handle_create_sprint_key();
    assert_eq!(app.mode, AppMode::Dialog(DialogMode::CreateSprint));
}

// ----------------------------------------------------------------------------
// Settings
// ----------------------------------------------------------------------------

#[test]
fn test_settings_item_count_by_panel_and_file() {
    let mut app = App::new(model(), 10);
    assert_eq!(app.settings_item_count(SettingsFocus::Configuration), 5);
    app.has_data_file = true;
    assert_eq!(app.settings_item_count(SettingsFocus::Configuration), 7);
    app.cli_file_override = true;
    assert_eq!(app.settings_item_count(SettingsFocus::Configuration), 9);
    assert_eq!(app.settings_item_count(SettingsFocus::ConfigFile), 3);
    assert_eq!(app.settings_item_count(SettingsFocus::Storage), 4);
}

#[test]
fn test_open_settings_from_projects_panel() {
    let mut app = App::new(model(), 10);
    app.handle_open_settings();
    assert_eq!(app.mode, AppMode::Settings);
    assert_eq!(app.focus.settings_focus, SettingsFocus::Configuration);
    assert_eq!(app.selection.settings_config.selected, Some(0));
}

#[test]
fn test_settings_navigation_crosses_panels_and_back() {
    let mut app = App::new(model(), 10);
    app.handle_open_settings();
    for _ in 0..4 {
        app.handle_settings_nav_down();
    }
    assert_eq!(app.selection.settings_config.selected, Some(4));
    app.handle_settings_nav_down();
    assert_eq!(app.focus.settings_focus, SettingsFocus::ConfigFile);
    assert_eq!(app.selection.settings_config_file.selected, Some(0));
    app.handle_settings_nav_up();
    assert_eq!(app.focus.settings_focus, SettingsFocus::Configuration);
    assert_eq!(app.selection.settings_config.selected, Some(4));
}

#[test]
fn test_settings_navigation_skips_locked_rows() {
    let mut app = App::new(model(), 10);
    app.has_data_file = true;
    app.cli_file_override = true;
    app.handle_open_settings();
    app.selection.settings_config.set(Some(4));
    app.handle_settings_nav_down();
    assert_eq!(app.selection.settings_config.selected, Some(7));
    app.handle_settings_nav_up();
    assert_eq!(app.selection.settings_config.selected, Some(4));
}

#[test]
fn test_settings_storage_panel_wraps() {
    let mut app = App::new(model(), 10);
    app.focus.settings_focus = SettingsFocus::Storage;
    app.selection.settings_storage.set(Some(3));
    app.handle_settings_nav_down();
    assert_eq!(app.selection.settings_storage.selected, Some(0));
    app.handle_settings_nav_up();
    assert_eq!(app.selection.settings_storage.selected, Some(3));
}

// ----------------------------------------------------------------------------
// Tasks panel lines
// ----------------------------------------------------------------------------

#[test]
fn test_single_panel_asks_for_a_project() {
    let mut app = App::new(model(), 10);
    app.board_list.selected = None;
    let lines = SinglePanelRenderer::flat().lines(&app, 12);
    assert_eq!(lines, vec![TaskLine::Hint(PanelHint::SelectProject)]);
}

#[test]
fn test_single_panel_hints_for_an_empty_board() {
    let mut app = App::new(model(), 10);
    let preview = SinglePanelRenderer::flat().lines(&app, 12);
    assert_eq!(preview, vec![TaskLine::Hint(PanelHint::AddTasks)]);
    app.selection.active_board_id = Some(1);
    let active = SinglePanelRenderer::grouped().lines(&app, 12);
    assert_eq!(active, vec![TaskLine::Hint(PanelHint::NoTasksYet)]);
}

#[test]
fn test_flat_lines_with_indicators() {
    let mut app = App::new(model(), 10);
    app.selection.active_board_id = Some(2);
    app.view.lists[0] = CardList {
        id: CardListId::All,
        cards: vec![100, 101, 102, 103, 999],
        selected: Some(2),
        scroll_offset: 1,
    };
    // Six lines inside the borders, one for the "above" indicator: rows
    // 1..5, of which the last holds a card the model does not have.
    let lines = SinglePanelRenderer::flat().lines(&app, 8);
    assert_eq!(
        lines,
        vec![
            TaskLine::Above(1),
            TaskLine::Card(1, false),
            TaskLine::Card(2, true),
            TaskLine::Card(3, false),
        ]
    );
}

#[test]
fn test_grouped_lines_insert_column_headers() {
    let mut app = App::new(model(), 10);
    app.selection.active_board_id = Some(1);
    app.view.lists[0] = CardList {
        id: CardListId::All,
        cards: vec![100, 101, 102, 103],
        selected: Some(0),
        scroll_offset: 0,
    };
    app.view.column_boundaries = vec![(0, 2), (2, 1), (3, 1)];
    let lines = SinglePanelRenderer::grouped().lines(&app, 20);
    assert_eq!(
        lines,
        vec![
            TaskLine::Header(0),
            TaskLine::Card(0, true),
            TaskLine::Card(1, false),
            TaskLine::Header(1),
            TaskLine::Card(2, false),
            TaskLine::Header(2),
            TaskLine::Card(3, false),
        ]
    );
}

#[test]
fn test_kanban_column_lines_show_selection_only_when_focused() {
    let mut app = App::new(model(), 10);
    app.selection.active_board_id = Some(1);
    app.switch_view_strategy(TaskListView::ColumnView);
    app.view.lists.push(CardList { id: CardListId::Column(10), cards: vec![100, 101], selected: Some(1), scroll_offset: 0 });
    app.view.lists.push(CardList { id: CardListId::Column(11), cards: vec![102], selected: Some(0), scroll_offset: 0 });
    app.view.lists.push(CardList { id: CardListId::Column(12), cards: vec![], selected: None, scroll_offset: 0 });
    let r = MultiPanelRenderer;
    assert_eq!(r.column_lines(&app, 0, 10), vec![TaskLine::Card(0, false), TaskLine::Card(1, true)]);
    assert_eq!(r.column_lines(&app, 1, 10), vec![TaskLine::Card(0, false)]);
    assert_eq!(r.column_lines(&app, 2, 10), vec![TaskLine::Hint(PanelHint::EmptyColumn)]);
}

// ----------------------------------------------------------------------------
// Completion and priority from the tasks panel
// ----------------------------------------------------------------------------

#[test]
fn test_toggle_completion_of_the_card_under_the_cursor() {
    let mut app = app_in_card_detail(101);
    app.pop_mode();
    app.handle_toggle_card_completion();
    assert_eq!(app.model.cards[1].status, CardStatus::Done);
    assert_eq!(app.view.lists[0].selected, Some(1));
    app.handle_toggle_card_completion();
    assert_eq!(app.model.cards[1].status, CardStatus::Todo);
    app.focus.active = Focus::Boards;
    app.handle_toggle_card_completion();
    assert_eq!(app.model.cards[1].status, CardStatus::Todo);
}

#[test]
fn test_toggle_completion_of_the_selection() {
    let mut app = app_in_card_detail(101);
    app.pop_mode();
    app.multi_select.selection_mode_active = true;
    app.multi_select.selected_cards = vec![103, 100, 555];
    app.handle_toggle_card_completion();
    assert_eq!(app.model.cards[0].status, CardStatus::Done);
    assert_eq!(app.model.cards[1].status, CardStatus::Todo);
    assert_eq!(app.model.cards[3].status, CardStatus::Done);
    assert!(app.multi_select.selected_cards.is_empty());
    assert!(!app.multi_select.selection_mode_active);
    // The first toggled card is selected again.
    assert_eq!(app.view.lists[0].selected, Some(3));
}

#[test]
fn test_set_card_priority_key_opens_picker_on_card_priority() {
    let mut app = app_in_card_detail(100);
    app.pop_mode();
    app.view.lists[0].selected = Some(3);
    app.handle_set_card_priority_key();
    assert_eq!(app.selection.active_card_id, Some(103));
    assert_eq!(app.dialog_input.priority_selection.selected, Some(3));
    assert_eq!(app.mode, AppMode::Dialog(DialogMode::SetCardPriority));
}
