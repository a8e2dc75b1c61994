//! Card edits from the task panel: priority and points dialogs, the layout
//! picker, restoring archived cards and the selection after a removal.

use kanban_tui::app::card_points::parse_u8;
use kanban_tui::app::components::{CardList, CardListId};
use kanban_tui::app::model::{
    ArchivedCard, Board, Card, CardPriority, CardStatus, Column, KanbanModel, TaskListView,
};
use kanban_tui::app::modes::{AppMode, DialogMode, Focus, Key};
use kanban_tui::app::state::{AnimationKind, App};

fn card(id: u128, column_id: u128, position: i32) -> Card {
    Card {
        id,
        column_id,
        title: format!("Card {}", id),
        position,
        priority: CardPriority::Medium,
        status: CardStatus::Todo,
        sprint_id: None,
        points: None,
    }
}

fn model() -> KanbanModel {
    let mut m = KanbanModel::new();
    m.boards.push(Board {
        id: 1,
        name: "Board".to_string(),
        archived: false,
        task_list_view: TaskListView::Flat,
        active_sprint_id: None,
        sprint_prefix: None,
        task_sort_field: kanban_tui::app::model::SortField::Default,
        task_sort_order: kanban_tui::app::model::SortOrder::Ascending,
    });
    m.columns.push(Column { id: 10, board_id: 1, name: "TODO".to_string(), position: 0, created_at: 0 });
    m.columns.push(Column { id: 11, board_id: 1, name: "Doing".to_string(), position: 1, created_at: 0 });
    m.cards.push(card(100, 10, 0));
    m.cards.push(card(101, 10, 1));
    m.cards.push(card(102, 10, 3));
    m.cards.push(card(103, 11, 0));
    m
}

fn app_on_board() -> App {
    let mut app = App::new(model(), 10);
    app.selection.active_board_id = Some(1);
    app.focus.active = Focus::Cards;
    app.view.lists[0] = CardList { id: CardListId::All, cards: vec![100, 101, 102, 103], selected: Some(1), scroll_offset: 0 };
    app
}

fn chars(s: &str) -> Vec<char> {
    s.chars().collect()
}

#[test]
fn test_parse_u8_reads_like_str_parse() {
    for s in ["0", "7", "+7", "007", "255", "256", "", "+", "-1", "1a", " 1", "999999"] {
        assert_eq!(parse_u8(&chars(s)), s.parse::<u8>().ok(), "input {s:?}");
    }
}

#[test]
fn test_points_dialog_sets_clears_and_refuses() {
    let mut app = app_on_board();
    app.selection.active_card_id = Some(101);
    app.push_mode(AppMode::Dialog(DialogMode::SetCardPoints));
    for c in " 3 ".chars() {
        assert!(!app.handle_set_card_points_dialog(Key::Char(c)));
    }
    assert!(!app.handle_set_card_points_dialog(Key::Enter));
    assert_eq!(app.model.cards[1].points, Some(3));
    assert_eq!(app.mode, AppMode::Normal);
    assert_eq!(app.input, "");

    for text in ["6", "0", "x", "-2"] {
        app.push_mode(AppMode::Dialog(DialogMode::SetCardPoints));
        app.input = text.to_string();
        app.handle_set_card_points_dialog(Key::Enter);
        assert_eq!(app.model.cards[1].points, Some(3), "{text:?} is refused");
        assert_eq!(app.input, "");
    }

    app.push_mode(AppMode::Dialog(DialogMode::SetCardPoints));
    app.input = "  ".to_string();
    app.handle_set_card_points_dialog(Key::Enter);
    assert_eq!(app.model.cards[1].points, None);
}

#[test]
fn test_points_dialog_falls_back_to_the_card_under_the_cursor() {
    let mut app = app_on_board();
    app.selection.active_card_id = Some(999);
    app.input = "5".to_string();
    app.handle_set_card_points_dialog(Key::Enter);
    assert_eq!(app.model.cards[1].points, Some(5));

    app.input = "2".to_string();
    app.handle_set_card_points_dialog(Key::Esc);
    assert_eq!(app.model.cards[1].points, Some(5));
}

#[test]
fn test_priority_popup_moves_and_sets_the_active_card() {
    let mut app = app_on_board();
    app.handle_set_card_priority_key();
    assert_eq!(app.mode, AppMode::Dialog(DialogMode::SetCardPriority));
    assert_eq!(app.dialog_input.priority_selection.get(), Some(1));
    app.handle_set_card_priority_popup(Key::Char('j'));
    app.handle_set_card_priority_popup(Key::Down);
    app.handle_set_card_priority_popup(Key::Down);
    assert_eq!(app.dialog_input.priority_selection.get(), Some(3));
    app.handle_set_card_priority_popup(Key::Up);
    app.handle_set_card_priority_popup(Key::Enter);
    assert_eq!(app.model.cards[1].priority, CardPriority::High);
    assert_eq!(app.mode, AppMode::Normal);

    app.push_mode(AppMode::Dialog(DialogMode::SetCardPriority));
    app.dialog_input.priority_selection.set(Some(0));
    app.handle_set_card_priority_popup(Key::Esc);
    assert_eq!(app.model.cards[1].priority, CardPriority::High);
}

#[test]
fn test_priority_of_all_picked_cards() {
    let mut app = app_on_board();
    app.multi_select.selection_mode_active = true;
    app.multi_select.selected_cards = vec![100, 103];
    app.handle_set_selected_cards_priority();
    assert_eq!(app.mode, AppMode::Dialog(DialogMode::SetMultipleCardsPriority));
    assert_eq!(app.dialog_input.priority_selection.get(), Some(0));
    app.handle_set_multiple_cards_priority_popup(Key::Enter);
    assert_eq!(app.model.cards[0].priority, CardPriority::Low);
    assert_eq!(app.model.cards[1].priority, CardPriority::Medium);
    assert_eq!(app.model.cards[3].priority, CardPriority::Low);
    assert!(app.multi_select.selected_cards.is_empty());
    assert!(!app.multi_select.selection_mode_active);
    assert_eq!(app.dialog_input.priority_selection.get(), None);
    assert_eq!(app.mode, AppMode::Normal);
}

#[test]
fn test_layout_picker_sets_the_board_layout() {
    let mut app = app_on_board();
    app.handle_toggle_task_list_view();
    assert_eq!(app.mode, AppMode::Dialog(DialogMode::SelectTaskListView));
    assert_eq!(app.dialog_input.task_list_view_selection.get(), Some(0));
    app.handle_select_task_list_view_popup(Key::Char('j'));
    app.handle_select_task_list_view_popup(Key::Char('j'));
    app.handle_select_task_list_view_popup(Key::Char('j'));
    assert_eq!(app.dialog_input.task_list_view_selection.get(), Some(2));
    app.handle_select_task_list_view_popup(Key::Enter);
    assert_eq!(app.model.boards[0].task_list_view, TaskListView::ColumnView);
    assert_eq!(app.view.layout, TaskListView::ColumnView);
    assert!(app.is_kanban_view());
    assert_eq!(app.mode, AppMode::Normal);
    assert_eq!(app.dialog_input.task_list_view_selection.get(), None);

    // Not in the tasks panel: nothing opens.
    app.focus.active = Focus::Boards;
    app.handle_toggle_task_list_view();
    assert_eq!(app.mode, AppMode::Normal);
}

#[test]
fn test_restore_card_drops_its_marker_and_falls_back_to_the_first_column() {
    let mut m = model();
    m.cards.push(card(104, 99, 7));
    m.archived_cards.push(ArchivedCard { card_id: 104, board_id: 1 });
    m.archived_cards.push(ArchivedCard { card_id: 103, board_id: 1 });
    let mut app = App::new(m, 10);
    app.selection.active_board_id = Some(1);

    app.restore_card(104);
    assert_eq!(app.model.archived_cards.len(), 1);
    assert_eq!(app.model.archived_cards[0].card_id, 103);
    assert_eq!(app.model.cards[4].column_id, 10);
    assert_eq!(app.model.cards[4].position, 7);

    app.restore_card(103);
    assert!(app.model.archived_cards.is_empty());
    assert_eq!(app.model.cards[3].column_id, 11, "a live column is kept");
}

#[test]
fn test_select_card_after_deletion_prefers_the_next_card_then_the_last() {
    let mut app = app_on_board();
    app.select_card_after_deletion(10, 2);
    assert_eq!(app.view.lists[0].selected, Some(2));
    app.select_card_after_deletion(10, 9);
    assert_eq!(app.view.lists[0].selected, Some(2));
    app.select_card_after_deletion(10, 0);
    assert_eq!(app.view.lists[0].selected, Some(0));
    app.select_card_after_deletion(77, 0);
    assert_eq!(app.view.lists[0].selected, Some(0));
}

#[test]
fn test_restore_and_delete_animations_need_archived_cards() {
    let mut m = model();
    m.archived_cards.push(ArchivedCard { card_id: 101, board_id: 1 });
    let mut app = App::new(m, 10);
    app.start_restore_animation(100);
    assert!(app.animation.animating.is_empty());
    app.start_restore_animation(101);
    app.start_permanent_delete_animation(101);
    assert_eq!(app.animation.animating, vec![(101, AnimationKind::Deleting)]);

    app.multi_select.selected_cards = vec![100, 103];
    app.multi_select.selection_mode_active = true;
    app.start_delete_animations_for_selected();
    assert_eq!(
        app.animation.animating,
        vec![(101, AnimationKind::Deleting), (100, AnimationKind::Archiving), (103, AnimationKind::Archiving)]
    );
    assert!(app.multi_select.selected_cards.is_empty());
    assert!(!app.multi_select.selection_mode_active);
}

#[test]
fn test_create_card_goes_to_the_end_of_the_first_column() {
    let mut app = app_on_board();
    assert!(app.handle_create_card_key());
    assert_eq!(app.mode, AppMode::Dialog(DialogMode::CreateCard));
    for c in "New task".chars() {
        assert!(!app.handle_create_card_dialog(Key::Char(c)));
    }
    app.dialog_input.create_card_sprint = Some(50);
    app.handle_create_card_dialog(Key::Enter);
    let created = app.model.cards.last().unwrap();
    assert_eq!(created.title, "New task");
    assert_eq!(created.column_id, 10);
    assert_eq!(created.position, 4);
    assert_eq!(created.status, CardStatus::Todo);
    assert_eq!(created.sprint_id, Some(50));
    assert_eq!(app.mode, AppMode::Normal);
    assert_eq!(app.input, "");
    assert_eq!(app.dialog_input.create_card_sprint, None);
}

#[test]
fn test_create_card_in_the_focused_kanban_column() {
    let mut app = app_on_board();
    app.view.lists[0].id = CardListId::Column(11);
    app.input = "K".to_string();
    app.create_card();
    let created = app.model.cards.last().unwrap();
    assert_eq!(created.column_id, 11);
    assert_eq!(created.position, 1);
}

#[test]
fn test_create_card_on_a_board_without_columns_makes_one() {
    let mut m = KanbanModel::new();
    m.boards.push(Board {
        id: 2,
        name: "Empty".to_string(),
        archived: false,
        task_list_view: TaskListView::Flat,
        active_sprint_id: None,
        sprint_prefix: None,
        task_sort_field: kanban_tui::app::model::SortField::Default,
        task_sort_order: kanban_tui::app::model::SortOrder::Ascending,
    });
    let mut app = App::new(m, 10);
    app.selection.active_board_id = Some(2);
    app.input = "First".to_string();
    app.create_card();
    assert_eq!(app.model.columns.len(), 1);
    assert_eq!(app.model.columns[0].name, "Todo");
    assert_eq!(app.model.columns[0].position, 0);
    assert_eq!(app.model.cards[0].column_id, app.model.columns[0].id);
    assert_eq!(app.model.cards[0].position, 0);
}

#[test]
fn test_create_card_dialog_focus_moves() {
    let mut app = app_on_board();
    app.handle_create_card_key();
    app.handle_create_card_dialog(Key::Tab);
    assert!(app.handle_create_card_dialog(Key::Char('j')), "picker keys go to the caller");
    app.handle_create_card_dialog(Key::Tab);
    app.handle_create_card_dialog(Key::Char('x'));
    assert_eq!(app.input, "x");
    app.handle_create_card_dialog(Key::Esc);
    assert_eq!(app.mode, AppMode::Dialog(DialogMode::CreateCard));
    app.handle_create_card_dialog(Key::Esc);
    assert_eq!(app.mode, AppMode::Normal);
    assert_eq!(app.input, "");
    assert_eq!(app.model.cards.len(), 4);
}
