//! The card detail view resolves the active card by id, also after the
//! model was reloaded with its cards in another order.

use kanban_tui::app::model::{Board, Card, CardPriority, CardStatus, Column, KanbanModel, TaskListView};
use kanban_tui::app::modes::CardFocus;
use kanban_tui::app::state::App;

pub struct ReloadResortFixture {
    pub board_id: u128,
    pub column_id: u128,
    pub a_id: u128,
    pub p_id: u128,
    pub d_id: u128,
    pub b_id: u128,
    pub c_id: u128,
}

fn card(id: u128, column_id: u128, title: &str, position: i32) -> Card {
    Card {
        id,
        column_id,
        title: title.to_string(),
        position,
        priority: CardPriority::Medium,
        status: CardStatus::Todo,
        sprint_id: None,
        points: None,
    }
}

/// Five cards in one column with edges P -> A -> D; the active card is A;
/// the model is then reloaded with the cards in another order, so that the
/// slot A used to have now holds P.
fn setup_reload_resort_fixture(app: &mut App) -> ReloadResortFixture {
    let board_id: u128 = 1;
    let column_id: u128 = 2;
    let (p, a, b, c, d): (u128, u128, u128, u128, u128) = (10, 11, 12, 13, 14);
    let mut model = KanbanModel::new();
    model.boards.push(Board {
        id: board_id,
        name: "Board".to_string(),
        archived: false,
        task_list_view: TaskListView::Flat,
        active_sprint_id: None,
        sprint_prefix: None,
        task_sort_field: kanban_tui::app::model::SortField::Default,
        task_sort_order: kanban_tui::app::model::SortOrder::Ascending,
    });
    model.columns.push(Column { id: column_id, board_id, name: "Todo".to_string(), position: 0, created_at: 0 });
    model.edges.push((p, a));
    model.edges.push((a, d));
    // Reloaded order: A, P, B, C, D.
    model.cards.push(card(a, column_id, "A", 1));
    model.cards.push(card(p, column_id, "P", 0));
    model.cards.push(card(b, column_id, "B", 2));
    model.cards.push(card(c, column_id, "C", 3));
    model.cards.push(card(d, column_id, "D", 4));
    app.model = model;
    app.selection.active_card_id = Some(a);
    app.selection.active_board_id = app.model.boards.first().map(|b| b.id);
    ReloadResortFixture { board_id, column_id, a_id: a, p_id: p, d_id: d, b_id: b, c_id: c }
}

fn test_default() -> App {
    App::new(KanbanModel::new(), 20)
}

#[test]
fn test_handle_manage_parents_after_reload_resort_uses_originally_selected_card() {
    let mut app = test_default();
    let fx = setup_reload_resort_fixture(&mut app);

    app.handle_manage_parents();

    assert!(
        app.relationship.selected.contains(&fx.p_id),
        "manage_parents must mark P as a current parent of A — selection must be built from the active card's id, not from a stale index that resolves to a different card"
    );
    assert!(
        app.relationship.card_ids.contains(&fx.p_id),
        "manage_parents eligibility must include P as a candidate parent of A — built for A by id, not for the wrong card at A's stale index"
    );
}

#[test]
fn test_handle_manage_children_after_reload_resort_uses_originally_selected_card() {
    let mut app = test_default();
    let fx = setup_reload_resort_fixture(&mut app);

    app.handle_manage_children();

    assert!(
        app.relationship.selected.contains(&fx.d_id),
        "manage_children must mark D as a current child of A — selection must be built from the active card's id, not from a stale index that resolves to a different card"
    );
    assert!(
        !app.relationship.card_ids.contains(&fx.p_id),
        "manage_children eligibility must exclude P as A's ancestor — built for A by id, not for the wrong card at A's stale index"
    );
}

#[test]
fn test_get_card_for_detail_view_after_reload_resort_returns_originally_selected_card() {
    let mut app = test_default();
    let fx = setup_reload_resort_fixture(&mut app);

    let card = app
        .get_card_for_detail_view()
        .expect("detail view must resolve when active card is set");

    assert_eq!(
        card.id, fx.a_id,
        "get_card_for_detail_view must return the originally selected card (A) by id, not the card now at A's stale index"
    );
}

#[test]
fn test_get_current_card_parents_and_children_by_id() {
    let mut app = test_default();
    let fx = setup_reload_resort_fixture(&mut app);

    assert_eq!(app.get_current_card_parents(), vec![fx.p_id]);
    assert_eq!(app.get_current_card_children(), vec![fx.d_id]);
    assert!(fx.board_id != fx.column_id);
    assert!(fx.b_id != fx.c_id);
}

#[test]
fn test_handle_set_card_priority_popup_after_reload_resort_updates_originally_selected_card_priority() {
    let mut app = test_default();
    let fx = setup_reload_resort_fixture(&mut app);

    app.dialog_input.priority_selection.set(Some(3));
    app.handle_set_card_priority_popup(kanban_tui::app::modes::Key::Enter);

    let a_card = app.model.cards.iter().find(|c| c.id == fx.a_id).expect("A exists");
    let p_card = app.model.cards.iter().find(|c| c.id == fx.p_id).expect("P exists");
    assert_eq!(
        a_card.priority,
        CardPriority::Critical,
        "priority popup must update A (the active card by id), not the wrong card at A's stale index"
    );
    assert_ne!(
        p_card.priority,
        CardPriority::Critical,
        "priority popup must leave P unchanged when A is active"
    );
}

#[test]
fn test_handle_set_card_points_dialog_after_reload_resort_updates_originally_selected_card_points() {
    let mut app = test_default();
    let fx = setup_reload_resort_fixture(&mut app);

    app.input = "3".to_string();
    app.handle_set_card_points_dialog(kanban_tui::app::modes::Key::Enter);

    let a_card = app.model.cards.iter().find(|c| c.id == fx.a_id).expect("A exists");
    let p_card = app.model.cards.iter().find(|c| c.id == fx.p_id).expect("P exists");
    assert_eq!(
        a_card.points,
        Some(3),
        "points dialog must set points on A (the active card by id), not on the wrong card at A's stale index"
    );
    assert_eq!(p_card.points, None, "points dialog must leave P's points unchanged when A is active");
}

#[test]
fn test_handle_manage_parents_popup_toggle_after_reload_resort_attaches_to_originally_selected_card() {
    let mut app = test_default();
    let fx = setup_reload_resort_fixture(&mut app);

    app.relationship.card_ids = vec![fx.p_id, fx.b_id, fx.c_id];
    app.relationship.selected = vec![fx.p_id];
    app.relationship.selection.set(Some(1));

    app.handle_manage_parents_popup(kanban_tui::app::modes::Key::Enter);

    assert!(
        app.model.edges.contains(&(fx.b_id, fx.a_id)),
        "manage_parents toggle must attach B as a parent of A (the active card by id), not as a parent of the wrong card at A's stale index"
    );
    assert!(
        !app.model.edges.contains(&(fx.b_id, fx.p_id)),
        "manage_parents toggle must not attach B as a parent of P when A is the active card"
    );
}

/// Cards 1..=n of one board and column, titled by `titles`, each the parent
/// of the next.
fn seed_chain(app: &mut App, titles: &[&str]) -> Vec<u128> {
    let mut model = KanbanModel::new();
    model.boards.push(Board {
        id: 1,
        name: "Board".to_string(),
        archived: false,
        task_list_view: TaskListView::Flat,
        active_sprint_id: None,
        sprint_prefix: None,
        task_sort_field: kanban_tui::app::model::SortField::Default,
        task_sort_order: kanban_tui::app::model::SortOrder::Ascending,
    });
    model.columns.push(Column { id: 2, board_id: 1, name: "Todo".to_string(), position: 0, created_at: 0 });
    let mut ids = Vec::new();
    for (i, t) in titles.iter().enumerate() {
        let id = 100 + i as u128;
        model.cards.push(card(id, 2, t, i as i32));
        if i > 0 {
            model.edges.push((id - 1, id));
        }
        ids.push(id);
    }
    app.model = model;
    ids
}

fn load_with_card_order(app: &mut App, order: &[u128]) {
    let cards: Vec<Card> = order
        .iter()
        .map(|id| {
            let c = app.model.cards.iter().find(|c| c.id == *id).expect("card id present in store");
            card(c.id, c.column_id, &c.title, c.position)
        })
        .collect();
    app.model.cards = cards;
}

#[test]
fn test_navigate_to_selected_parent_updates_active_card_id_so_detail_view_reloads() {
    let mut app = test_default();
    let ids = seed_chain(&mut app, &["Parent", "Child"]);
    let parent_id = ids[0];
    let child_id = ids[1];

    app.selection.active_card_id = Some(child_id);
    app.focus.card_focus = CardFocus::Parents;
    app.relationship.parents_list.update_item_count(1);
    app.relationship.parents_list.selection.set(Some(0));

    app.navigate_to_selected_parent();

    assert_eq!(
        app.selection.active_card_id,
        Some(parent_id),
        "active_card.id() must be updated to the parent so the detail view rerenders against the parent card"
    );
    assert_eq!(
        app.get_card_for_detail_view().expect("detail must resolve").id,
        parent_id,
        "get_card_for_detail_view() must return the parent after Enter on a parent entry"
    );
}

#[test]
fn test_navigate_to_selected_child_updates_active_card_id_so_detail_view_reloads() {
    let mut app = test_default();
    let ids = seed_chain(&mut app, &["Parent", "Child"]);
    let parent_id = ids[0];
    let child_id = ids[1];

    app.selection.active_card_id = Some(parent_id);
    app.focus.card_focus = CardFocus::Children;
    app.relationship.children_list.update_item_count(1);
    app.relationship.children_list.selection.set(Some(0));

    app.navigate_to_selected_child();

    assert_eq!(app.selection.active_card_id, Some(child_id));
    assert_eq!(app.get_card_for_detail_view().expect("detail must resolve").id, child_id);
}

#[test]
fn test_backspace_return_from_detail_history_updates_active_card_id() {
    let mut app = test_default();
    let ids = seed_chain(&mut app, &["A", "B", "C"]);
    let b_id = ids[1];
    let c_id = ids[2];

    app.selection.active_card_id = Some(c_id);
    app.selection.card_navigation_history.push(b_id);
    app.focus.card_focus = CardFocus::Parents;

    app.return_to_previous_card_from_detail_history();

    assert_eq!(
        app.selection.active_card_id,
        Some(b_id),
        "Backspace return must update active_card to the previous card"
    );
    assert_eq!(app.get_card_for_detail_view().expect("detail must resolve").id, b_id);
}

#[test]
fn test_navigate_to_selected_parent_falls_back_to_first_parent_when_no_list_selection() {
    let mut app = test_default();
    let ids = seed_chain(&mut app, &["Parent", "Child"]);
    let parent_id = ids[0];
    let child_id = ids[1];

    app.selection.active_card_id = Some(child_id);
    app.focus.card_focus = CardFocus::Parents;
    app.relationship.parents_list.update_item_count(1);

    app.navigate_to_selected_parent();

    assert_eq!(
        app.selection.active_card_id,
        Some(parent_id),
        "with no list selection, Enter on Parents must fall back to navigating to the first parent"
    );
}

#[test]
fn test_navigate_to_selected_child_falls_back_to_first_child_when_no_list_selection() {
    let mut app = test_default();
    let ids = seed_chain(&mut app, &["Parent", "Child"]);
    let parent_id = ids[0];
    let child_id = ids[1];

    app.selection.active_card_id = Some(parent_id);
    app.focus.card_focus = CardFocus::Children;
    app.relationship.children_list.update_item_count(1);

    app.navigate_to_selected_child();

    assert_eq!(
        app.selection.active_card_id,
        Some(child_id),
        "with no list selection, Enter on Children must fall back to navigating to the first child"
    );
}

#[test]
fn test_backspace_return_with_unknown_previous_id_clears_active_card_entirely() {
    let mut app = test_default();
    let ids = seed_chain(&mut app, &["A", "B"]);
    let b_id = ids[1];
    let unknown_id: u128 = 0xdead_beef;

    app.selection.active_card_id = Some(b_id);
    app.selection.card_navigation_history.push(unknown_id);

    app.return_to_previous_card_from_detail_history();

    assert!(
        app.selection.active_card_id.is_none(),
        "when previous_id no longer resolves to a card in the model, active_card must be cleared"
    );
    assert!(
        app.get_card_for_detail_view().is_none(),
        "detail view must resolve to None when active_card was cleared by an unknown-id recovery"
    );
}

#[test]
fn test_return_to_previous_card_after_reload_resort_returns_to_originally_visited_card() {
    let mut app = test_default();
    let ids = seed_chain(&mut app, &["A", "P", "B", "C", "D"]);
    let (a, p, b, c, d) = (ids[0], ids[1], ids[2], ids[3], ids[4]);
    // Only A -> D is linked.
    app.model.edges = vec![(a, d)];

    load_with_card_order(&mut app, &[a, p, b, c, d]);
    app.selection.active_card_id = Some(a);
    app.selection.active_board_id = app.model.boards.first().map(|b| b.id);

    app.focus.card_focus = CardFocus::Children;
    app.relationship.children_list.update_item_count(1);
    app.relationship.children_list.selection.set(Some(0));
    app.navigate_to_selected_child();
    assert_eq!(
        app.selection.active_card_id,
        Some(d),
        "precondition: navigate_to_selected_child must have set active_card to D"
    );

    load_with_card_order(&mut app, &[p, b, a, c, d]);

    app.return_to_previous_card_from_detail_history();

    assert_eq!(
        app.selection.active_card_id,
        Some(a),
        "backspace must return to A (originally visited, by id) — not whatever card now sits at A's old slot after the external reload re-ordered cards()"
    );
}
