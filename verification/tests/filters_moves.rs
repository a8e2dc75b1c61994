//! The filter dialog and moving cards between columns.

use kanban_tui::app::components::{CardList, CardListId};
use kanban_tui::app::model::{
    Board, Card, CardPriority, CardStatus, Column, KanbanModel, Sprint, SprintStatus, TaskListView,
};
use kanban_tui::app::modes::{AppMode, DialogMode, Focus, Key};
use kanban_tui::app::state::{App, FilterDialogSection};

fn card(id: u128, column_id: u128) -> Card {
    Card {
        id,
        column_id,
        title: format!("Card {}", id),
        position: 0,
        priority: CardPriority::Medium,
        status: CardStatus::Todo,
        sprint_id: None,
        points: None,
    }
}

fn sprint(id: u128) -> Sprint {
    Sprint { id, board_id: 1, status: SprintStatus::Planning, name: None, prefix: None, card_prefix: None }
}

/// Columns by position: TODO (10), Doing (11), Done (12); model order
/// differs. Cards 100 and 101 in TODO, 102 in Done.
fn model() -> KanbanModel {
    let mut m = KanbanModel::new();
    m.boards.push(Board {
        id: 1,
        name: "Board".to_string(),
        archived: false,
        task_list_view: TaskListView::Flat,
        active_sprint_id: None,
        sprint_prefix: None,
        task_sort_field: kanban_tui::app::model::SortField::Default,
        task_sort_order: kanban_tui::app::model::SortOrder::Ascending,
    });
    m.columns.push(Column { id: 12, board_id: 1, name: "Done".to_string(), position: 2, created_at: 0 });
    m.columns.push(Column { id: 10, board_id: 1, name: "TODO".to_string(), position: 0, created_at: 0 });
    m.columns.push(Column { id: 11, board_id: 1, name: "Doing".to_string(), position: 1, created_at: 0 });
    m.cards.push(card(100, 10));
    m.cards.push(card(101, 10));
    m.cards.push(card(102, 12));
    m.sprints.push(sprint(50));
    m.sprints.push(sprint(51));
    m
}

fn app_on_board() -> App {
    let mut app = App::new(model(), 10);
    app.selection.active_board_id = Some(1);
    app.focus.active = Focus::Cards;
    app.view.lists[0] = CardList { id: CardListId::All, cards: vec![100, 101, 102], selected: Some(0), scroll_offset: 0 };
    app
}

#[test]
fn test_filter_dialog_opens_on_current_filters() {
    let mut app = app_on_board();
    app.filter.hide_assigned_cards = true;
    app.filter.active_sprint_filters = vec![51];
    app.handle_open_filter_dialog();
    assert_eq!(app.mode, AppMode::Dialog(DialogMode::FilterOptions));
    let d = app.filter.dialog_state.as_ref().unwrap();
    assert!(d.show_unassigned_sprints);
    assert_eq!(d.selected_sprint_ids, vec![51]);
    assert_eq!(d.current_section, FilterDialogSection::Sprints);
    assert_eq!(d.item_selection, 0);

    // Without an active board nothing opens.
    let mut other = App::new(model(), 10);
    other.focus.active = Focus::Cards;
    other.handle_open_filter_dialog();
    assert_eq!(other.mode, AppMode::Normal);
    assert!(other.filter.dialog_state.is_none());
}

#[test]
fn test_filter_dialog_toggles_apply_at_once() {
    let mut app = app_on_board();
    app.handle_open_filter_dialog();
    app.handle_filter_options_popup(Key::Char(' '));
    assert!(app.filter.hide_assigned_cards);
    app.handle_filter_options_popup(Key::Char('j'));
    app.handle_filter_options_popup(Key::Char('j'));
    assert_eq!(app.filter.dialog_state.as_ref().unwrap().item_selection, 2);
    app.handle_filter_options_popup(Key::Char(' '));
    assert_eq!(app.filter.active_sprint_filters, vec![51]);
    app.handle_filter_options_popup(Key::Char('k'));
    app.handle_filter_options_popup(Key::Char(' '));
    assert_eq!(app.filter.active_sprint_filters, vec![51, 50]);
    app.handle_filter_options_popup(Key::Char(' '));
    assert_eq!(app.filter.active_sprint_filters, vec![51]);
    app.handle_filter_options_popup(Key::Esc);
    assert_eq!(app.mode, AppMode::Normal);
    assert!(app.filter.dialog_state.is_none());
    assert_eq!(app.filter.active_sprint_filters, vec![51]);
}

#[test]
fn test_filter_dialog_sections_wrap() {
    let mut app = app_on_board();
    app.handle_open_filter_dialog();
    for _ in 0..3 {
        app.handle_filter_options_popup(Key::Down);
    }
    assert_eq!(app.filter.dialog_state.as_ref().unwrap().current_section, FilterDialogSection::DateRange);
    app.handle_filter_options_popup(Key::Down);
    app.handle_filter_options_popup(Key::Down);
    assert_eq!(app.filter.dialog_state.as_ref().unwrap().current_section, FilterDialogSection::Sprints);
    // The row in the sprints section is kept while in other sections.
    app.handle_filter_options_popup(Key::Up);
    assert_eq!(app.filter.dialog_state.as_ref().unwrap().item_selection, 1);
    app.handle_filter_options_popup(Key::Up);
    app.handle_filter_options_popup(Key::Up);
    assert_eq!(app.filter.dialog_state.as_ref().unwrap().current_section, FilterDialogSection::Tags);
    // Space outside the sprints section changes nothing.
    app.handle_filter_options_popup(Key::Char(' '));
    assert!(!app.filter.hide_assigned_cards);
}

#[test]
fn test_filter_dialog_confirm_keeps_filters() {
    let mut app = app_on_board();
    app.filter.active_sprint_filters = vec![50];
    app.handle_open_filter_dialog();
    app.handle_filter_options_popup(Key::Enter);
    assert_eq!(app.filter.active_sprint_filters, vec![50]);
    assert!(!app.filter.hide_assigned_cards);
    assert_eq!(app.mode, AppMode::Normal);
    assert!(app.filter.dialog_state.is_none());
}

#[test]
fn test_move_card_right_and_back() {
    let mut app = app_on_board();
    app.handle_move_card_right();
    assert_eq!(app.model.cards[0].column_id, 11);
    app.handle_move_card_right();
    assert_eq!(app.model.cards[0].column_id, 12);
    app.handle_move_card_right();
    assert_eq!(app.model.cards[0].column_id, 12, "the last column keeps its cards");
    app.handle_move_card_left();
    app.handle_move_card_left();
    assert_eq!(app.model.cards[0].column_id, 10);
    app.handle_move_card_left();
    assert_eq!(app.model.cards[0].column_id, 10, "the first column keeps its cards");
}

#[test]
fn test_move_picked_cards_each_to_its_neighbour() {
    let mut app = app_on_board();
    app.multi_select.selection_mode_active = true;
    app.multi_select.selected_cards = vec![101, 102];
    app.handle_move_card_left();
    assert_eq!(app.model.cards[0].column_id, 10);
    assert_eq!(app.model.cards[1].column_id, 10, "the first column keeps its cards");
    assert_eq!(app.model.cards[2].column_id, 11);
    assert!(app.multi_select.selected_cards.is_empty());
    assert!(!app.multi_select.selection_mode_active);
}

#[test]
fn test_move_card_needs_the_tasks_panel() {
    let mut app = app_on_board();
    app.focus.active = Focus::Boards;
    app.handle_move_card_right();
    assert_eq!(app.model.cards[0].column_id, 10);
}
