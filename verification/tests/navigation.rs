//! Moving around the main screen: focus, row moves, jumps, kanban columns,
//! activation and Esc.

use kanban_tui::app::components::{CardList, CardListId};
use kanban_tui::app::model::{
    Board, Card, CardPriority, CardStatus, Column, KanbanModel, Sprint, SprintStatus, TaskListView,
};
use kanban_tui::app::modes::{AppMode, Focus};
use kanban_tui::app::state::App;

fn card(id: u128, column_id: u128, position: i32) -> Card {
    Card {
        id,
        column_id,
        title: format!("Card {}", id),
        position,
        priority: CardPriority::Medium,
        status: CardStatus::Todo,
        sprint_id: None,
        points: None,
    }
}

fn board(id: u128, name: &str, archived: bool, view: TaskListView) -> Board {
    Board {
        id,
        name: name.to_string(),
        archived,
        task_list_view: view,
        active_sprint_id: None,
        sprint_prefix: None,
        task_sort_field: kanban_tui::app::model::SortField::Default,
        task_sort_order: kanban_tui::app::model::SortOrder::Ascending,
    }
}

fn model() -> KanbanModel {
    let mut m = KanbanModel::new();
    m.boards.push(board(1, "Alpha", false, TaskListView::Flat));
    m.boards.push(board(2, "Beta", false, TaskListView::ColumnView));
    m.boards.push(board(3, "Gamma", true, TaskListView::GroupedByColumn));
    m.columns.push(Column { id: 10, board_id: 1, name: "Todo".to_string(), position: 0, created_at: 0 });
    m.columns.push(Column { id: 11, board_id: 1, name: "Doing".to_string(), position: 1, created_at: 0 });
    m.columns.push(Column { id: 20, board_id: 2, name: "Left".to_string(), position: 0, created_at: 0 });
    m.columns.push(Column { id: 21, board_id: 2, name: "Right".to_string(), position: 1, created_at: 0 });
    for i in 0..20u128 {
        m.cards.push(card(100 + i, 10, i as i32));
    }
    m.cards.push(card(200, 20, 0));
    m.cards.push(card(201, 21, 0));
    m.cards.push(card(202, 21, 1));
    m.sprints.push(Sprint { id: 50, board_id: 1, status: SprintStatus::Planning, name: None, prefix: None, card_prefix: None });
    m.edges.push((100, 101));
    m
}

fn list(id: CardListId, cards: Vec<u128>, selected: Option<usize>) -> CardList {
    CardList { id, cards, selected, scroll_offset: 0 }
}

fn app_on_flat_board() -> App {
    let mut app = App::new(model(), 10);
    app.selection.active_board_id = Some(1);
    app.focus.active = Focus::Cards;
    app.view.lists[0] = list(CardListId::All, (100..120u128).collect(), Some(0));
    app
}

fn app_on_kanban_board() -> App {
    let mut app = App::new(model(), 10);
    app.selection.active_board_id = Some(2);
    app.focus.active = Focus::Cards;
    app.switch_view_strategy(TaskListView::ColumnView);
    app.view.lists.push(list(CardListId::Column(20), vec![200], Some(0)));
    app.view.lists.push(list(CardListId::Column(21), vec![201, 202], None));
    app
}

#[test]
fn test_new_app_lists_live_boards_only() {
    let app = App::new(model(), 10);
    assert_eq!(app.board_list.ids, vec![1, 2]);
    assert_eq!(app.board_list.selected, Some(0));
    assert_eq!(app.focus.active, Focus::Boards);
}

#[test]
fn test_focus_switch_to_tasks_needs_an_active_board() {
    let mut app = App::new(model(), 10);
    app.handle_focus_switch(Focus::Cards);
    assert_eq!(app.focus.active, Focus::Boards);
    app.selection.active_board_id = Some(1);
    app.handle_focus_switch(Focus::Cards);
    assert_eq!(app.focus.active, Focus::Cards);
    app.handle_focus_switch(Focus::Boards);
    assert_eq!(app.focus.active, Focus::Boards);
}

#[test]
fn test_is_kanban_view_follows_active_board() {
    let mut app = App::new(model(), 10);
    assert!(!app.is_kanban_view());
    app.selection.active_board_id = Some(2);
    assert!(app.is_kanban_view());
    app.selection.active_board_id = Some(1);
    assert!(!app.is_kanban_view());
}

#[test]
fn test_navigation_down_in_projects_moves_highlight_and_resets_tasks() {
    let mut app = App::new(model(), 10);
    app.handle_navigation_down();
    assert_eq!(app.board_list.selected, Some(1));
    assert_eq!(app.view.layout, TaskListView::GroupedByColumn);
    // Already on the last row: stays there.
    app.handle_navigation_down();
    assert_eq!(app.board_list.selected, Some(1));
    app.handle_navigation_up();
    assert_eq!(app.board_list.selected, Some(0));
    app.handle_navigation_up();
    assert_eq!(app.board_list.selected, Some(0));
}

#[test]
fn test_navigation_down_in_tasks_steps_and_scrolls() {
    let mut app = app_on_flat_board();
    for _ in 0..9 {
        app.handle_navigation_down();
    }
    assert_eq!(app.view.lists[0].selected, Some(9));
    // Ten-line viewport: 8 card rows with the "below" indicator, 7 once the
    // list is also scrolled; the selection stays visible.
    let l = &app.view.lists[0];
    assert!(l.scroll_offset <= 9);
    assert!(l.scroll_offset > 0);
    app.handle_navigation_up();
    assert_eq!(app.view.lists[0].selected, Some(8));
}

#[test]
fn test_navigation_adds_rows_to_selection_in_selection_mode() {
    let mut app = app_on_flat_board();
    app.multi_select.selection_mode_active = true;
    app.handle_navigation_down();
    app.handle_navigation_down();
    assert_eq!(app.multi_select.selected_cards, vec![101, 102]);
}

#[test]
fn test_navigation_past_the_last_card_turns_to_the_next_kanban_column() {
    let mut app = app_on_kanban_board();
    assert_eq!(app.view.active_column, 0);
    // The only card of the first column is selected: a move down turns right.
    app.handle_navigation_down();
    assert_eq!(app.view.active_column, 1);
    assert_eq!(app.view.lists[1].selected, Some(0));
    // Up from the first card turns back left, onto that column's last card.
    app.handle_navigation_up();
    assert_eq!(app.view.active_column, 0);
    assert_eq!(app.view.lists[0].selected, Some(0));
}

#[test]
fn test_kanban_column_keys_move_between_columns() {
    let mut app = app_on_kanban_board();
    app.handle_kanban_column_right();
    assert_eq!(app.view.active_column, 1);
    assert_eq!(app.view.lists[1].selected, Some(0));
    app.handle_kanban_column_right();
    assert_eq!(app.view.active_column, 1);
    app.handle_kanban_column_left();
    assert_eq!(app.view.active_column, 0);
    // Not in the tasks panel: nothing moves.
    app.focus.active = Focus::Boards;
    app.handle_kanban_column_right();
    assert_eq!(app.view.active_column, 0);
}

#[test]
fn test_column_or_focus_switch() {
    let mut app = app_on_kanban_board();
    app.handle_column_or_focus_switch(1);
    assert_eq!(app.view.active_column, 1);
    assert_eq!(app.view.lists[1].selected, Some(0));
    app.handle_column_or_focus_switch(5);
    assert_eq!(app.view.active_column, 1);

    let mut flat = app_on_flat_board();
    flat.handle_column_or_focus_switch(0);
    assert_eq!(flat.focus.active, Focus::Boards);
    flat.handle_column_or_focus_switch(1);
    assert_eq!(flat.focus.active, Focus::Cards);
}

#[test]
fn test_jump_half_viewport_down_goes_middle_bottom_next_page() {
    let mut app = app_on_flat_board();
    // Twenty cards, ten lines: pages [0, 9), [9, 17), [17, 20).
    app.handle_jump_half_viewport_down();
    assert_eq!(app.view.lists[0].selected, Some(4));
    app.handle_jump_half_viewport_down();
    assert_eq!(app.view.lists[0].selected, Some(8));
    app.handle_jump_half_viewport_down();
    assert_eq!(app.view.lists[0].selected, Some(9));
    assert_eq!(app.view.lists[0].scroll_offset, 9);
    app.handle_jump_half_viewport_up();
    assert_eq!(app.view.lists[0].selected, Some(8));
}

#[test]
fn test_jump_half_viewport_in_projects_panel() {
    let mut app = App::new(model(), 10);
    app.handle_jump_half_viewport_down();
    // Two boards: one page [0, 2); top -> middle.
    assert_eq!(app.board_list.selected, Some(1));
    app.handle_jump_half_viewport_up();
    assert_eq!(app.board_list.selected, Some(0));
}

#[test]
fn test_jump_to_top_and_bottom() {
    let mut app = app_on_flat_board();
    app.handle_jump_to_bottom();
    assert_eq!(app.view.lists[0].selected, Some(19));
    assert!(app.view.lists[0].scroll_offset > 0);
    app.handle_jump_to_top();
    assert_eq!(app.view.lists[0].selected, Some(0));
    assert_eq!(app.view.lists[0].scroll_offset, 0);

    let mut boards = App::new(model(), 10);
    boards.handle_jump_to_bottom();
    assert_eq!(boards.board_list.selected, Some(1));
    boards.handle_jump_to_top();
    assert_eq!(boards.board_list.selected, Some(0));
}

#[test]
fn test_escape_closes_search_then_selection_then_board() {
    let mut app = app_on_flat_board();
    app.filter.search.is_active = true;
    app.multi_select.selection_mode_active = true;
    app.multi_select.selected_cards.push(100);

    app.handle_escape_key();
    assert!(!app.filter.search.is_active);
    assert!(app.multi_select.selection_mode_active);

    app.handle_escape_key();
    assert!(!app.multi_select.selection_mode_active);
    assert!(app.multi_select.selected_cards.is_empty());
    assert_eq!(app.selection.active_board_id, Some(1));

    app.handle_escape_key();
    assert_eq!(app.selection.active_board_id, None);
    assert_eq!(app.focus.active, Focus::Boards);
    assert_eq!(app.view.layout, TaskListView::GroupedByColumn);
}

#[test]
fn test_selection_activate_opens_the_highlighted_board() {
    let mut app = App::new(model(), 10);
    app.handle_navigation_down();
    app.handle_selection_activate();
    assert_eq!(app.selection.active_board_id, Some(2));
    assert_eq!(app.focus.active, Focus::Cards);
    assert_eq!(app.view.layout, TaskListView::ColumnView);
    assert_eq!(app.board_list.selected, Some(1));
}

#[test]
fn test_selection_activate_opens_the_selected_card() {
    let mut app = app_on_flat_board();
    app.handle_selection_activate();
    assert_eq!(app.selection.active_card_id, Some(100));
    assert_eq!(app.mode, AppMode::CardDetail);
    assert_eq!(app.relationship.parents_list.item_count, 0);
    assert_eq!(app.relationship.children_list.item_count, 1);
    assert_eq!(app.mode_stack.len(), 1);
}

#[test]
fn test_adjusted_viewport_height_counts_indicators() {
    let mut app = app_on_flat_board();
    // Not scrolled, cards below: one line for the "below" indicator.
    assert_eq!(app.get_adjusted_viewport_height(), 9);
    app.view.lists[0].scroll_offset = 5;
    // Scrolled with cards below: both indicators.
    assert_eq!(app.get_adjusted_viewport_height(), 8);
    app.view.lists[0].scroll_offset = 15;
    // Scrolled to the end: only the "above" indicator.
    assert_eq!(app.get_adjusted_viewport_height(), 9);
}

/// Boards named `name0`, `name1`, ... (`archived` as given), ids from `first`.
fn boards(m: &mut KanbanModel, first: u128, names: &[&str], archived: bool) {
    for (i, name) in names.iter().enumerate() {
        m.boards.push(board(first + i as u128, name, archived, TaskListView::GroupedByColumn));
    }
}

fn browsing(m: KanbanModel, mode: AppMode) -> App {
    let mut app = App::new(m, 10);
    app.mode = mode;
    app.focus.active = Focus::Boards;
    app.prepare_frame();
    app.board_list.selected = Some(0);
    app
}

#[test]
fn test_archived_view_j_moves_when_no_live_boards() {
    let mut m = KanbanModel::new();
    boards(&mut m, 1, &["Arch1", "Arch2"], true);
    let mut app = browsing(m, AppMode::ArchivedBoardsView);

    app.handle_navigation_down();

    assert_eq!(app.board_list.selected, Some(1), "j must move to index 1 in archived view even with no live boards");
}

#[test]
fn test_archived_view_j_clamps_to_archived_len_not_live_len() {
    let mut m = KanbanModel::new();
    boards(&mut m, 1, &["Live"], false);
    boards(&mut m, 2, &["Arch1", "Arch2", "Arch3"], true);
    let mut app = browsing(m, AppMode::ArchivedBoardsView);

    app.handle_navigation_down();
    app.handle_navigation_down();
    app.handle_navigation_down();

    assert_eq!(
        app.board_list.selected,
        Some(2),
        "after 3 j presses, should clamp at archived_len-1=2, not live_len-1=0"
    );
}

#[test]
fn test_archived_view_g_jumps_to_last_archived() {
    let mut m = KanbanModel::new();
    boards(&mut m, 1, &["Live"], false);
    boards(&mut m, 2, &["Arch1", "Arch2", "Arch3"], true);
    let mut app = browsing(m, AppMode::ArchivedBoardsView);

    app.handle_jump_to_bottom();

    assert_eq!(app.board_list.selected, Some(2), "G should jump to archived_len-1=2");
}

#[test]
fn test_archived_view_navigation_does_not_switch_view_strategy() {
    let mut m = KanbanModel::new();
    boards(&mut m, 1, &["Arch1", "Arch2"], true);
    let mut app = App::new(m, 10);
    app.mode = AppMode::ArchivedBoardsView;
    app.focus.active = Focus::Boards;
    app.board_list.selected = Some(0);

    app.switch_view_strategy(TaskListView::Flat);

    app.handle_navigation_down();

    assert_eq!(
        app.view.layout,
        TaskListView::Flat,
        "navigation in ArchivedBoardsView must not switch view strategy"
    );
}

#[test]
fn test_live_view_navigation_still_bounded_by_live_count() {
    let mut m = KanbanModel::new();
    boards(&mut m, 1, &["Live1", "Live2"], false);
    boards(&mut m, 3, &["Arch0", "Arch1", "Arch2", "Arch3", "Arch4"], true);
    let mut app = browsing(m, AppMode::Normal);

    for _ in 0..10 {
        app.handle_navigation_down();
    }

    assert_eq!(app.board_list.selected, Some(1), "live view navigation must clamp at live_count-1=1");
}

fn six_boards() -> App {
    let mut m = KanbanModel::new();
    boards(&mut m, 1, &["Board0", "Board1", "Board2", "Board3", "Board4", "Board5"], false);
    let mut app = App::new(m, 10);
    app.mode = AppMode::Normal;
    app.focus.active = Focus::Boards;
    app.view.viewport_height = 10;
    app
}

#[test]
fn test_handle_jump_half_viewport_down_on_boards_focus_jumps_a_half_page() {
    let mut app = six_boards();
    app.board_list.selected = Some(0);

    app.handle_jump_half_viewport_down();

    assert_eq!(
        app.board_list.selected,
        Some(3),
        "Ctrl+D from the top of a 6-board single page should jump to the middle (page_size / 2 = 3), not move by one like j"
    );
}

#[test]
fn test_handle_jump_half_viewport_up_on_boards_focus_jumps_a_half_page() {
    let mut app = six_boards();
    app.board_list.selected = Some(5);

    app.handle_jump_half_viewport_up();

    assert_eq!(
        app.board_list.selected,
        Some(3),
        "Ctrl+U from the bottom of a 6-board single page should jump to the middle (page_size / 2 = 3), not move by one like k"
    );
}

fn make_app_with_columnview_active_board() -> App {
    let mut m = KanbanModel::new();
    m.boards.push(board(1, "ColView", false, TaskListView::ColumnView));
    let mut app = App::new(m, 10);
    app.selection.active_board_id = Some(1);
    app
}

#[test]
fn test_is_kanban_view_false_while_browsing_boards_list() {
    let mut app = make_app_with_columnview_active_board();
    app.focus.active = Focus::Boards;
    app.handle_toggle_archived_boards_view();
    assert_eq!(app.mode, AppMode::ArchivedBoardsView);
    assert_eq!(app.selection.active_board_id, None, "no board active in list");
    assert!(!app.is_kanban_view(), "browsing the boards list must never be treated as kanban view");
}

#[test]
fn test_is_kanban_view_true_for_columnview_active_board_in_normal_mode() {
    let app = make_app_with_columnview_active_board();
    assert_eq!(app.mode, AppMode::Normal);
    assert!(app.is_kanban_view(), "Normal mode with ColumnView active board must be kanban view");
}
