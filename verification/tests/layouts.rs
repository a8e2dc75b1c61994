//! Task-list layouts refreshed from the task query's results.

use kanban_tui::app::components::{CardList, CardListId};
use kanban_tui::app::model::TaskListView;
use kanban_tui::app::view::ViewState;

#[test]
fn update_cards_keeps_the_selected_card() {
    let mut list = CardList::new(CardListId::All);
    list.update_cards(vec![1, 2, 3]);
    assert_eq!(list.get_selected_index(), Some(0));
    list.set_selected_index(Some(2));
    list.update_cards(vec![3, 1]);
    assert_eq!(list.get_selected_card_id(), Some(3));
    assert_eq!(list.get_selected_index(), Some(0));
}

#[test]
fn update_cards_falls_back_to_first_row_or_none() {
    let mut list = CardList::new(CardListId::All);
    list.update_cards(vec![5, 6]);
    list.set_selected_index(Some(1));
    list.update_cards(vec![7, 8]);
    assert_eq!(list.get_selected_index(), Some(0));
    list.update_cards(Vec::new());
    assert_eq!(list.get_selected_index(), None);
}

#[test]
fn update_cards_brings_the_offset_back_to_the_end() {
    let mut list = CardList::new(CardListId::All);
    list.update_cards((1..=10).collect());
    list.set_scroll_offset(8);
    list.update_cards(vec![1, 2, 3]);
    assert_eq!(list.scroll_offset, 3);
}

#[test]
fn select_card_ignores_unlisted_cards() {
    let mut list = CardList::new(CardListId::All);
    list.update_cards(vec![4, 5, 6]);
    list.select_card(6);
    assert_eq!(list.get_selected_index(), Some(2));
    list.select_card(9);
    assert_eq!(list.get_selected_index(), Some(2));
}

#[test]
fn flat_layout_shows_the_board_query() {
    let mut view = ViewState::new(20, TaskListView::Flat);
    view.refresh_lists(vec![10, 11], vec![(1, vec![10]), (2, vec![11])]);
    assert_eq!(view.lists.len(), 1);
    assert_eq!(view.lists[0].cards, vec![10, 11]);
    assert_eq!(view.lists[0].get_selected_index(), Some(0));
}

#[test]
fn kanban_layout_gets_one_list_per_column() {
    let mut view = ViewState::new(20, TaskListView::ColumnView);
    view.refresh_lists(Vec::new(), vec![(1, vec![10, 11]), (2, Vec::new()), (3, vec![12])]);
    assert_eq!(view.lists.len(), 3);
    assert_eq!(view.lists[0].id, CardListId::Column(1));
    assert_eq!(view.lists[0].cards, vec![10, 11]);
    assert_eq!(view.lists[1].get_selected_index(), None);
    assert_eq!(view.lists[2].cards, vec![12]);
    assert_eq!(view.get_active_column_index(), 0);
}

#[test]
fn kanban_refresh_keeps_selection_and_offset_per_column() {
    let mut view = ViewState::new(20, TaskListView::ColumnView);
    view.refresh_lists(Vec::new(), vec![(1, vec![10, 11, 12]), (2, vec![20])]);
    view.lists[0].set_selected_index(Some(2));
    view.lists[0].set_scroll_offset(1);
    // Column 1 loses card 10; the selection follows card 12.
    view.refresh_lists(Vec::new(), vec![(1, vec![11, 12]), (2, vec![20])]);
    assert_eq!(view.lists[0].get_selected_card_id(), Some(12));
    assert_eq!(view.lists[0].get_selected_index(), Some(1));
    assert_eq!(view.lists[0].scroll_offset, 1);
}

#[test]
fn kanban_refresh_clamps_the_focused_column() {
    let mut view = ViewState::new(20, TaskListView::ColumnView);
    view.refresh_lists(Vec::new(), vec![(1, vec![10]), (2, vec![20]), (3, vec![30])]);
    view.set_active_column_index(2);
    assert_eq!(view.get_active_column_index(), 2);
    view.refresh_lists(Vec::new(), vec![(1, vec![10])]);
    assert_eq!(view.get_active_column_index(), 0);
    view.refresh_lists(Vec::new(), Vec::new());
    assert_eq!(view.lists.len(), 0);
    assert_eq!(view.get_active_column_index(), 0);
}

#[test]
fn grouped_layout_records_a_run_per_non_empty_column() {
    let mut view = ViewState::new(20, TaskListView::GroupedByColumn);
    view.refresh_lists(Vec::new(), vec![(1, vec![10, 11]), (2, Vec::new()), (3, vec![12, 13, 14])]);
    assert_eq!(view.lists.len(), 1);
    assert_eq!(view.lists[0].cards, vec![10, 11, 12, 13, 14]);
    assert_eq!(view.get_column_boundaries(), &[(0, 2), (2, 3)]);
}

#[test]
fn grouped_refresh_keeps_the_selected_card() {
    let mut view = ViewState::new(20, TaskListView::GroupedByColumn);
    view.refresh_lists(Vec::new(), vec![(1, vec![10, 11]), (2, vec![12])]);
    view.lists[0].set_selected_index(Some(2));
    view.refresh_lists(Vec::new(), vec![(1, vec![11]), (2, vec![12])]);
    assert_eq!(view.lists[0].get_selected_card_id(), Some(12));
    assert_eq!(view.get_column_boundaries(), &[(0, 1), (1, 1)]);
}
