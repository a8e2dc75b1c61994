//! Creating, renaming, deleting and moving the columns of a project.

use kanban_tui::app::model::{Board, Card, CardPriority, CardStatus, Column, KanbanModel, Sprint, SprintStatus, TaskListView};
use kanban_tui::app::modes::{AppMode, BoardFocus, DialogMode, Key};
use kanban_tui::app::state::App;

fn board(id: u128, name: &str) -> Board {
    Board {
        id,
        name: name.to_string(),
        archived: false,
        task_list_view: TaskListView::GroupedByColumn,
        active_sprint_id: None,
        sprint_prefix: None,
        task_sort_field: kanban_tui::app::model::SortField::Default,
        task_sort_order: kanban_tui::app::model::SortOrder::Ascending,
    }
}

fn column(id: u128, board_id: u128, name: &str, position: i32, created_at: i64) -> Column {
    Column { id, board_id, name: name.to_string(), position, created_at }
}

fn card(id: u128, column_id: u128, position: i32) -> Card {
    Card {
        id,
        column_id,
        title: format!("Card {}", id),
        position,
        priority: CardPriority::Medium,
        status: CardStatus::Todo,
        sprint_id: None,
        points: None,
    }
}

/// A board seeded with the default columns, as a new board is.
fn roadmap() -> KanbanModel {
    let mut m = KanbanModel::new();
    m.boards.push(board(1, "Roadmap"));
    m.columns.push(column(10, 1, "TODO", 0, 100));
    m.columns.push(column(11, 1, "Doing", 1, 101));
    m.columns.push(column(12, 1, "Complete", 2, 102));
    m
}

/// A board with `total` columns named `Column00`, `Column01`, ... in the
/// project detail view, columns section focused.
fn seed_board_with_columns(total: usize) -> App {
    let mut m = KanbanModel::new();
    m.boards.push(board(1, "Board"));
    for i in 0..total {
        m.columns.push(column(100 + i as u128, 1, &format!("Column{:02}", i), i as i32, i as i64));
    }
    let mut app = App::new(m, 10);
    app.selection.active_board_id = Some(1);
    app.push_mode(AppMode::BoardDetail);
    app.focus.board_focus = BoardFocus::Columns;
    app
}

fn column_named<'a>(app: &'a App, name: &str) -> &'a Column {
    app.model.columns.iter().find(|c| c.name == name).expect("column present")
}

fn board_column_count(app: &App, board_id: u128) -> usize {
    app.model.columns.iter().filter(|c| c.board_id == board_id).count()
}

/// "New" ties "Doing" at position 1 but was created after it; the model
/// holds the tied pair in the opposite order.
fn scrambled_roadmap_app() -> App {
    let mut m = roadmap();
    m.columns.push(column(13, 1, "New", 1, 103));
    m.columns.swap(1, 3);
    let mut app = App::new(m, 10);
    app.selection.active_board_id = Some(1);
    app.push_mode(AppMode::BoardDetail);
    app.focus.board_focus = BoardFocus::Columns;
    app.dialog_input.column_list.update_item_count(4);
    app
}

#[test]
fn test_column_list_navigate_down_advances_selection_and_clamps_at_last_column() {
    let mut app = seed_board_with_columns(3);
    app.dialog_input.column_list.update_item_count(3);
    app.dialog_input.column_list.selection.set(Some(0));

    app.handle_board_detail_key(Key::Char('j'));
    assert_eq!(app.dialog_input.column_list.selection.get(), Some(1));

    app.handle_board_detail_key(Key::Char('j'));
    assert_eq!(app.dialog_input.column_list.selection.get(), Some(2), "should advance to the last column");
    assert_eq!(
        app.focus.board_focus,
        BoardFocus::Columns,
        "focus stays on Columns while there is still a next column"
    );

    app.handle_board_detail_key(Key::Char('j'));
    assert_eq!(
        app.dialog_input.column_list.selection.get(),
        Some(2),
        "selection must not overshoot the last column"
    );
    assert_eq!(app.focus.board_focus, BoardFocus::Name);
}

#[test]
fn test_column_list_navigate_up_at_first_column_exits_to_sprints_focus() {
    let mut app = seed_board_with_columns(3);
    app.model.sprints.push(Sprint { id: 50, board_id: 1, status: SprintStatus::Planning, name: None, prefix: None, card_prefix: None });
    app.model.sprints.push(Sprint { id: 51, board_id: 1, status: SprintStatus::Planning, name: None, prefix: None, card_prefix: None });
    app.dialog_input.column_list.update_item_count(3);
    app.dialog_input.column_list.selection.set(Some(0));

    app.handle_board_detail_key(Key::Char('k'));

    assert_eq!(
        app.focus.board_focus,
        BoardFocus::Sprints,
        "up at the first column must exit to the Sprints panel, not stay on Columns"
    );
    assert_eq!(app.selection.sprint.get(), Some(1), "focus-exit must land on the last sprint (count - 1)");
}

#[test]
fn test_move_column_up_and_down_still_operate_after_migration() {
    let mut app = seed_board_with_columns(3);
    app.dialog_input.column_list.update_item_count(3);
    app.dialog_input.column_list.selection.set(Some(0));

    app.handle_move_column_down();
    assert_eq!(
        app.dialog_input.column_list.selection.get(),
        Some(1),
        "moving a column down should follow it with the selection"
    );
    let mut positions: Vec<(String, i32)> = app.model.columns.iter().map(|c| (c.name.clone(), c.position)).collect();
    positions.sort_by_key(|(_, pos)| *pos);
    assert_eq!(positions[0].0, "Column01", "Column01 must have swapped into position 0");
    assert_eq!(positions[1].0, "Column00", "Column00 must have swapped into position 1");

    app.handle_move_column_up();
    assert_eq!(
        app.dialog_input.column_list.selection.get(),
        Some(0),
        "moving the column back up should follow it with the selection"
    );
    let mut positions: Vec<(String, i32)> = app.model.columns.iter().map(|c| (c.name.clone(), c.position)).collect();
    positions.sort_by_key(|(_, pos)| *pos);
    assert_eq!(positions[0].0, "Column00", "Column00 must have swapped back into position 0");
    assert_eq!(positions[1].0, "Column01", "Column01 must have swapped back into position 1");
}

#[test]
fn test_move_column_up_swaps_correct_pair_regardless_of_model_iteration_order() {
    let mut app = scrambled_roadmap_app();
    app.dialog_input.column_list.selection.set(Some(3));
    app.handle_move_column_up();

    assert_eq!(
        column_named(&app, "Doing").position,
        1,
        "Doing is not adjacent to Complete in canonical order and must be untouched"
    );
    assert_eq!(
        column_named(&app, "New").position,
        2,
        "New (Complete's canonical predecessor) must be bumped to Complete's old position"
    );
    assert_eq!(column_named(&app, "Complete").position, 1, "Complete must take New's old position");
}

#[test]
fn test_rename_column_resolves_correct_column_regardless_of_model_iteration_order() {
    let mut app = scrambled_roadmap_app();
    app.dialog_input.column_list.selection.set(Some(2));
    app.handle_rename_column_key();
    assert_eq!(app.input.as_str(), "New");
}

#[test]
fn test_rename_column_dialog_confirm_resolves_correct_column_regardless_of_model_iteration_order() {
    let mut app = scrambled_roadmap_app();
    app.dialog_input.column_list.selection.set(Some(2));
    app.handle_rename_column_key();
    assert_eq!(app.input.as_str(), "New");

    app.input = "Renamed".to_string();
    app.handle_rename_column_dialog(Key::Enter);

    assert_eq!(column_named(&app, "Doing").id, 11, "Doing must be untouched");
    assert_eq!(
        app.model.columns.iter().find(|c| c.id == 13).unwrap().name,
        "Renamed",
        "New (canonical index 2) must be the one actually renamed, regardless of scrambled model order"
    );
}

#[test]
fn test_tui_create_column_rejects_blank_name() {
    let mut app = App::new(roadmap(), 10);
    app.selection.active_board_id = Some(1);
    let before = board_column_count(&app, 1);

    app.input = "   ".to_string();
    app.create_column();

    let after = board_column_count(&app, 1);
    assert_eq!(after, before, "blank column name must not be written");
}

#[test]
fn test_create_column_appends_after_the_last_position_and_selects_it() {
    let mut app = App::new(roadmap(), 10);
    app.selection.active_board_id = Some(1);
    app.push_mode(AppMode::BoardDetail);
    app.handle_board_detail_key(Key::Char('5'));
    app.handle_board_detail_key(Key::Char('n'));
    assert_eq!(app.mode, AppMode::Dialog(DialogMode::CreateColumn));
    for c in "  In Review ".chars() {
        app.handle_create_column_dialog(Key::Char(c));
    }
    app.handle_create_column_dialog(Key::Enter);

    assert_eq!(app.mode, AppMode::BoardDetail);
    assert_eq!(app.focus.board_focus, BoardFocus::Columns);
    assert_eq!(app.input, "");
    let created = app.model.columns.last().unwrap();
    assert_eq!(created.name, "In Review");
    assert_eq!(created.board_id, 1);
    assert_eq!(created.position, 3);
    assert_eq!(app.dialog_input.column_list.item_count, 4);
    assert_eq!(app.dialog_input.column_list.selection.get(), Some(3));
}

#[test]
fn test_create_column_on_a_board_without_columns_starts_at_zero() {
    let mut m = KanbanModel::new();
    m.boards.push(board(1, "Empty"));
    let mut app = App::new(m, 10);
    app.selection.active_board_id = Some(1);
    app.input = "First".to_string();
    app.create_column();
    assert_eq!(app.model.columns.len(), 1);
    assert_eq!(app.model.columns[0].position, 0);
    assert_eq!(app.dialog_input.column_list.selection.get(), Some(0));
}

#[test]
fn test_create_column_dialog_esc_discards_the_name() {
    let mut app = App::new(roadmap(), 10);
    app.selection.active_board_id = Some(1);
    app.push_mode(AppMode::BoardDetail);
    app.push_mode(AppMode::Dialog(DialogMode::CreateColumn));
    app.handle_create_column_dialog(Key::Char('x'));
    assert_eq!(app.input, "x");
    app.handle_create_column_dialog(Key::Backspace);
    assert_eq!(app.input, "");
    app.handle_create_column_dialog(Key::Char('y'));
    app.handle_create_column_dialog(Key::Esc);
    assert_eq!(app.mode, AppMode::BoardDetail);
    assert_eq!(app.input, "");
    assert_eq!(app.model.columns.len(), 3);
}

#[test]
fn test_rename_column_with_blank_name_keeps_the_name() {
    let mut app = App::new(roadmap(), 10);
    app.selection.active_board_id = Some(1);
    app.dialog_input.column_list.update_item_count(3);
    app.dialog_input.column_list.selection.set(Some(1));
    app.input = "  ".to_string();
    app.rename_column();
    assert_eq!(app.model.columns[1].name, "Doing");
    app.input = " Busy ".to_string();
    app.rename_column();
    assert_eq!(app.model.columns[1].name, "Busy");
}

#[test]
fn test_delete_column_moves_its_live_cards_to_the_first_column() {
    let mut m = roadmap();
    m.cards.push(card(200, 11, 0));
    m.cards.push(card(201, 11, 4));
    m.cards.push(card(202, 12, 0));
    let mut app = App::new(m, 10);
    app.selection.active_board_id = Some(1);
    app.push_mode(AppMode::BoardDetail);
    app.focus.board_focus = BoardFocus::Columns;
    app.dialog_input.column_list.update_item_count(3);
    app.dialog_input.column_list.selection.set(Some(1));
    app.handle_delete_column_key();
    assert_eq!(app.mode, AppMode::Dialog(DialogMode::DeleteColumnConfirm));
    app.handle_delete_column_confirm_popup(Key::Char('y'));

    assert_eq!(app.mode, AppMode::BoardDetail);
    assert_eq!(app.focus.board_focus, BoardFocus::Columns);
    assert!(app.model.columns.iter().all(|c| c.id != 11));
    assert_eq!(app.model.columns.len(), 2);
    assert_eq!(app.model.cards[0].column_id, 10);
    assert_eq!(app.model.cards[0].position, 0);
    assert_eq!(app.model.cards[1].column_id, 10);
    assert_eq!(app.model.cards[1].position, 4);
    assert_eq!(app.model.cards[2].column_id, 12);
    assert_eq!(app.dialog_input.column_list.item_count, 2);
    assert_eq!(app.dialog_input.column_list.selection.get(), Some(1));
}

#[test]
fn test_delete_last_listed_column_moves_the_selection_up() {
    let mut app = App::new(roadmap(), 10);
    app.selection.active_board_id = Some(1);
    app.dialog_input.column_list.update_item_count(3);
    app.dialog_input.column_list.selection.set(Some(2));
    app.delete_column();
    assert_eq!(app.model.columns.len(), 2);
    assert_eq!(app.dialog_input.column_list.selection.get(), Some(1));
}

#[test]
fn test_delete_column_declined_or_on_a_single_column_changes_nothing() {
    let mut app = App::new(roadmap(), 10);
    app.selection.active_board_id = Some(1);
    app.push_mode(AppMode::BoardDetail);
    app.push_mode(AppMode::Dialog(DialogMode::DeleteColumnConfirm));
    app.dialog_input.column_list.update_item_count(3);
    app.dialog_input.column_list.selection.set(Some(0));
    app.handle_delete_column_confirm_popup(Key::Char('n'));
    assert_eq!(app.mode, AppMode::BoardDetail);
    assert_eq!(app.model.columns.len(), 3);

    let mut m = KanbanModel::new();
    m.boards.push(board(1, "Solo"));
    m.columns.push(column(10, 1, "Only", 0, 0));
    m.cards.push(card(200, 10, 0));
    let mut solo = App::new(m, 10);
    solo.selection.active_board_id = Some(1);
    solo.dialog_input.column_list.update_item_count(1);
    solo.dialog_input.column_list.selection.set(Some(0));
    solo.delete_column();
    assert_eq!(solo.model.columns.len(), 1);
    assert_eq!(solo.model.cards[0].column_id, 10);
}

fn positions(app: &App, board_id: u128) -> Vec<(u128, i32)> {
    app.model.columns.iter().filter(|c| c.board_id == board_id).map(|c| (c.id, c.position)).collect()
}

#[test]
fn test_move_column_down_noop_while_column_search_active() {
    let mut app = App::new(roadmap(), 10);
    app.selection.active_board_id = Some(1);
    app.focus.board_focus = BoardFocus::Columns;
    app.dialog_input.column_list.update_item_count(3);
    app.dialog_input.column_list.selection.set(Some(0));
    let before = positions(&app, 1);
    app.filter.column_search.activate();

    app.handle_move_column_down();

    assert_eq!(before, positions(&app, 1), "reorder must not touch positions while column search is active");
}

#[test]
fn test_move_column_up_noop_while_column_search_active() {
    let mut app = App::new(roadmap(), 10);
    app.selection.active_board_id = Some(1);
    app.focus.board_focus = BoardFocus::Columns;
    app.dialog_input.column_list.update_item_count(3);
    app.dialog_input.column_list.selection.set(Some(1));
    let before = positions(&app, 1);
    app.filter.column_search.activate();

    app.handle_move_column_up();

    assert_eq!(before, positions(&app, 1), "reorder must not touch positions while column search is active");
}

#[test]
fn test_rename_column_dialog_confirm_renames_filtered_selection_not_unfiltered_index() {
    let mut m = KanbanModel::new();
    m.boards.push(board(1, "Board"));
    m.columns.push(column(20, 1, "Todo", 0, 0));
    m.columns.push(column(21, 1, "In Progress", 1, 1));
    m.columns.push(column(22, 1, "TODO Later", 2, 2));
    m.columns.push(column(23, 1, "Done", 3, 3));
    let mut app = App::new(m, 10);
    app.selection.active_board_id = Some(1);
    app.push_mode(AppMode::BoardDetail);
    app.focus.board_focus = BoardFocus::Columns;

    // Filtered to [Todo, TODO Later] -- selecting filtered index 1 must
    // resolve to "TODO Later", not the unfiltered board's index 1
    // ("In Progress").
    app.filter.column_search.activate();
    app.filter.column_search.query = "todo".to_string();
    app.dialog_input.column_list.update_item_count(2);
    app.dialog_input.column_list.selection.set(Some(1));

    app.handle_rename_column_key();
    assert_eq!(
        app.input.as_str(),
        "TODO Later",
        "the rename dialog must pre-populate with the filtered selection's name"
    );

    app.input = "Renamed".to_string();
    app.handle_rename_column_dialog(Key::Enter);

    let in_progress = app.model.columns.iter().find(|c| c.id == 21).unwrap();
    let todo_later = app.model.columns.iter().find(|c| c.id == 22).unwrap();
    assert_eq!(
        in_progress.name, "In Progress",
        "unfiltered index 1 (\"In Progress\") must not be touched by a filtered rename"
    );
    assert_eq!(
        todo_later.name, "Renamed",
        "the actually-selected filtered item (\"TODO Later\") must be the one renamed"
    );
}
