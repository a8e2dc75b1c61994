//! Linking and unlinking cards, and the manage-parents / manage-children
//! dialog.

use kanban_tui::app::model::{Board, Card, CardPriority, CardStatus, Column, KanbanModel, TaskListView};
use kanban_tui::app::modes::{AppMode, DialogMode, Key};
use kanban_tui::app::relations::RelationError;
use kanban_tui::app::state::App;

fn card(id: u128, title: &str) -> Card {
    Card {
        id,
        column_id: 10,
        title: title.to_string(),
        position: 0,
        priority: CardPriority::Medium,
        status: CardStatus::Todo,
        sprint_id: None,
        points: None,
    }
}

fn model() -> KanbanModel {
    let mut m = KanbanModel::new();
    m.boards.push(Board {
        id: 1,
        name: "Alpha".to_string(),
        archived: false,
        task_list_view: TaskListView::Flat,
        active_sprint_id: None,
        sprint_prefix: None,
        task_sort_field: kanban_tui::app::model::SortField::Default,
        task_sort_order: kanban_tui::app::model::SortOrder::Ascending,
    });
    m.columns.push(Column { id: 10, board_id: 1, name: "Todo".to_string(), position: 0, created_at: 0 });
    m.cards.push(card(1, "Write Parser"));
    m.cards.push(card(2, "Test parser"));
    m.cards.push(card(3, "Ship release"));
    m.cards.push(card(4, "Docs"));
    m.edges.push((1, 2));
    m
}

#[test]
fn test_attach_child_links_new_pairs() {
    let mut m = model();
    assert_eq!(m.attach_child(2, 3), Ok(()));
    assert_eq!(m.edges, vec![(1, 2), (2, 3)]);
}

#[test]
fn test_attach_child_refusals() {
    let mut m = model();
    assert_eq!(m.attach_child(1, 99), Err(RelationError::UnknownCard));
    assert_eq!(m.attach_child(3, 3), Err(RelationError::SelfReference));
    assert_eq!(m.attach_child(1, 2), Err(RelationError::Duplicate));
    // 2 is a child of 1: making 1 a child of 2 would close a cycle.
    assert_eq!(m.attach_child(2, 1), Err(RelationError::Cycle));
    assert_eq!(m.edges, vec![(1, 2)]);
}

#[test]
fn test_attach_child_refuses_longer_cycles() {
    let mut m = model();
    assert_eq!(m.attach_child(2, 3), Ok(()));
    assert_eq!(m.attach_child(3, 1), Err(RelationError::Cycle));
}

#[test]
fn test_detach_undoes_attach() {
    let mut m = model();
    let before = m.edges.clone();
    assert_eq!(m.attach_child(3, 4), Ok(()));
    m.detach_child(3, 4);
    assert_eq!(m.edges, before);
    m.detach_child(1, 2);
    assert!(m.edges.is_empty());
}

fn app_managing_children_of(card_id: u128) -> App {
    let mut app = App::new(model(), 10);
    app.selection.active_board_id = Some(1);
    app.selection.active_card_id = Some(card_id);
    app.push_mode(AppMode::CardDetail);
    app.handle_manage_children();
    app
}

#[test]
fn test_manage_children_dialog_offers_non_ancestors() {
    let app = app_managing_children_of(2);
    assert_eq!(app.mode, AppMode::Dialog(DialogMode::ManageChildren));
    // 1 is 2's parent (an ancestor), 2 is the card itself.
    assert_eq!(app.relationship.card_ids, vec![3, 4]);
    assert!(app.relationship.selected.is_empty());
}

#[test]
fn test_relationship_popup_links_and_unlinks_the_highlighted_card() {
    let mut app = app_managing_children_of(2);
    assert_eq!(app.relationship.selection.selected, Some(0));
    app.handle_relationship_popup(Key::Char('j'), false);
    assert_eq!(app.relationship.selection.selected, Some(1));
    app.handle_relationship_popup(Key::Char('k'), false);
    assert_eq!(app.relationship.selection.selected, Some(0));
    app.handle_relationship_popup(Key::Char(' '), false);
    assert_eq!(app.model.edges, vec![(1, 2), (2, 3)]);
    assert_eq!(app.relationship.selected, vec![3]);
    app.handle_relationship_popup(Key::Enter, false);
    assert_eq!(app.model.edges, vec![(1, 2)]);
    assert!(app.relationship.selected.is_empty());
}

#[test]
fn test_relationship_popup_reports_a_refused_link() {
    let mut app = App::new(model(), 10);
    app.selection.active_board_id = Some(1);
    app.selection.active_card_id = Some(2);
    app.push_mode(AppMode::Dialog(DialogMode::ManageParents));
    // Offer card 2 itself as a parent of 2.
    app.relationship.card_ids = vec![2];
    app.relationship.selection.set(Some(0));
    app.handle_relationship_popup(Key::Enter, true);
    assert_eq!(
        app.error_message.as_deref(),
        Some("Failed to toggle relationship: a card cannot be its own parent")
    );
    assert_eq!(app.model.edges, vec![(1, 2)]);
}

#[test]
fn test_relationship_search_ignores_case() {
    let mut app = App::new(model(), 10);
    app.relationship.card_ids = vec![1, 2, 3, 4];
    app.relationship.search = "PARSER".to_string();
    assert_eq!(app.filtered_relationship_card_ids(), vec![1, 2]);
    app.relationship.search = "release".to_string();
    assert_eq!(app.filtered_relationship_card_ids(), vec![3]);
    app.relationship.search = String::new();
    assert_eq!(app.filtered_relationship_card_ids(), vec![1, 2, 3, 4]);
}

#[test]
fn test_relationship_popup_search_mode_edits_the_search() {
    let mut app = app_managing_children_of(1);
    assert_eq!(app.relationship.card_ids, vec![2, 3, 4]);
    assert_eq!(app.relationship.selected, vec![2]);
    app.handle_relationship_popup(Key::Char('/'), false);
    assert!(app.relationship.search_active);
    app.handle_relationship_popup(Key::Char('d'), false);
    app.handle_relationship_popup(Key::Char('o'), false);
    assert_eq!(app.relationship.search, "do");
    assert_eq!(app.filtered_relationship_card_ids(), vec![4]);
    assert_eq!(app.relationship.selection.selected, Some(0));
    app.handle_relationship_popup(Key::Char('z'), false);
    assert_eq!(app.relationship.selection.selected, None);
    app.handle_relationship_popup(Key::Backspace, false);
    assert_eq!(app.relationship.search, "do");
    assert_eq!(app.relationship.selection.selected, Some(0));
    app.handle_relationship_popup(Key::Enter, false);
    assert!(!app.relationship.search_active);
    app.handle_relationship_popup(Key::Esc, false);
    assert_eq!(app.mode, AppMode::CardDetail);
    assert!(app.relationship.card_ids.is_empty());
    assert_eq!(app.relationship.search, "");
}
