//! Sprints: activation, completion, carry-over, creation and the keys of the
//! sprint detail view.

use kanban_tui::app::components::{CardList, CardListId};
use kanban_tui::app::model::{
    ArchivedCard, Board, Card, CardPriority, CardStatus, Column, KanbanModel, Sprint, SprintStatus, TaskListView,
};
use kanban_tui::app::modes::{AppMode, BoardFocus, DialogMode, Key};
use kanban_tui::app::sprint_assign::SprintPick;
use kanban_tui::app::sprint_ops::SprintDetailAction;
use kanban_tui::app::state::{AnimationKind, App, SprintTaskPanel};

fn sprint(id: u128, board_id: u128, status: SprintStatus) -> Sprint {
    Sprint { id, board_id, status, name: None, prefix: None, card_prefix: None }
}

fn card(id: u128, sprint_id: Option<u128>, status: CardStatus) -> Card {
    Card {
        id,
        column_id: 10,
        title: format!("Card {}", id),
        position: 0,
        priority: CardPriority::Medium,
        status,
        sprint_id,
        points: None,
    }
}

/// Board 1 with one column, sprints 50 (active) and 51 (planning), and
/// cards: 100 and 101 unfinished in 50, 102 done in 50, 103 archived in 50,
/// 104 unfinished in 51.
fn model() -> KanbanModel {
    let mut m = KanbanModel::new();
    m.boards.push(Board {
        id: 1,
        name: "Board".to_string(),
        archived: false,
        task_list_view: TaskListView::Flat,
        active_sprint_id: Some(50),
        sprint_prefix: None,
        task_sort_field: kanban_tui::app::model::SortField::Default,
        task_sort_order: kanban_tui::app::model::SortOrder::Ascending,
    });
    m.columns.push(Column { id: 10, board_id: 1, name: "TODO".to_string(), position: 0, created_at: 0 });
    m.sprints.push(sprint(50, 1, SprintStatus::Active));
    m.sprints.push(sprint(51, 1, SprintStatus::Planning));
    m.cards.push(card(100, Some(50), CardStatus::Todo));
    m.cards.push(card(101, Some(50), CardStatus::Todo));
    m.cards.push(card(102, Some(50), CardStatus::Done));
    m.cards.push(card(103, Some(50), CardStatus::Todo));
    m.cards.push(card(104, Some(51), CardStatus::Todo));
    m.archived_cards.push(ArchivedCard { card_id: 103, board_id: 1 });
    m
}

/// The sprint detail view of sprint `index`, over the project detail view.
fn app_in_sprint(m: KanbanModel, index: usize) -> App {
    let mut app = App::new(m, 10);
    app.selection.active_board_id = Some(1);
    app.push_mode(AppMode::BoardDetail);
    app.focus.board_focus = BoardFocus::Sprints;
    app.selection.active_sprint_index = Some(index);
    let id = app.model.sprints[index].id;
    app.populate_sprint_task_lists(id);
    app.push_mode(AppMode::SprintDetail);
    app
}

fn seed_sprint_with_card() -> (App, u128) {
    let mut app = app_in_sprint(model(), 0);
    app.sprint_view.panel = SprintTaskPanel::Uncompleted;
    app.sprint_view.uncompleted = CardList { id: CardListId::All, cards: vec![100], selected: Some(0), scroll_offset: 0 };
    (app, 100)
}

#[test]
fn test_sprint_detail_s_on_card_opens_assign_to_sprint_dialog() {
    let (mut app, card_id) = seed_sprint_with_card();
    app.selection.active_board_id = Some(1);

    let action = app.handle_sprint_detail_key(Key::Char('s'));

    assert_eq!(
        app.mode,
        AppMode::Dialog(DialogMode::AssignCardToSprint),
        "'s' on a sprint-detail card row must open the assign-to-sprint picker"
    );
    assert_eq!(app.selection.active_card_id, Some(card_id), "'s' must activate the selected card so the picker acts on it");
    assert_eq!(action, SprintDetailAction::PrepareSprintPicker);
}

#[test]
fn test_sprint_detail_s_on_completed_panel_targets_its_own_selection() {
    let (mut app, uncompleted_id) = seed_sprint_with_card();
    app.selection.active_board_id = Some(1);
    app.sprint_view.panel = SprintTaskPanel::Completed;
    app.sprint_view.completed = CardList { id: CardListId::All, cards: vec![102], selected: Some(0), scroll_offset: 0 };

    app.handle_sprint_detail_key(Key::Char('s'));

    assert_eq!(
        app.mode,
        AppMode::Dialog(DialogMode::AssignCardToSprint),
        "'s' on the Completed panel must open the picker for its own selection"
    );
    assert_eq!(
        app.selection.active_card_id,
        Some(102),
        "'s' must target the Completed panel's selected card, not the Uncompleted panel's"
    );
    let _ = uncompleted_id;
}

#[test]
fn test_sprint_detail_y_on_card_reaches_copy_branch_name() {
    let (mut app, card_id) = seed_sprint_with_card();
    app.selection.active_board_id = Some(1);

    let action = app.handle_sprint_detail_key(Key::Char('y'));

    assert_eq!(app.selection.active_card_id, Some(card_id), "'y' must activate the selected card before copying");
    assert_eq!(action, SprintDetailAction::CopyBranchName, "'y' must reach the copy call, not be a no-op");
}

#[test]
fn test_sprint_detail_shift_y_on_card_reaches_copy_git_checkout_command() {
    let (mut app, card_id) = seed_sprint_with_card();
    app.selection.active_board_id = Some(1);

    let action = app.handle_sprint_detail_key(Key::Char('Y'));

    assert_eq!(app.selection.active_card_id, Some(card_id), "'Y' must activate the selected card before copying");
    assert_eq!(action, SprintDetailAction::CopyCheckoutCommand, "'Y' must reach the copy call, not be a no-op");
}

#[test]
fn test_sprint_task_lists_split_unfinished_and_finished_live_cards() {
    let app = app_in_sprint(model(), 0);
    assert_eq!(app.sprint_view.uncompleted.cards, vec![100, 101]);
    assert_eq!(app.sprint_view.completed.cards, vec![102]);
}

#[test]
fn test_board_detail_enter_opens_the_sprint_with_its_task_lists() {
    let mut app = App::new(model(), 10);
    app.selection.active_board_id = Some(1);
    app.push_mode(AppMode::BoardDetail);
    app.focus.board_focus = BoardFocus::Sprints;
    app.selection.sprint.set(Some(1));
    app.handle_board_detail_key(Key::Enter);
    assert_eq!(app.mode, AppMode::SprintDetail);
    assert_eq!(app.selection.active_sprint_index, Some(1));
    assert_eq!(app.sprint_view.uncompleted.cards, vec![104]);
    assert!(app.sprint_view.completed.cards.is_empty());
}

#[test]
fn test_activate_only_a_planning_sprint() {
    let mut app = app_in_sprint(model(), 1);
    app.handle_sprint_detail_key(Key::Char('a'));
    assert_eq!(app.model.sprints[1].status, SprintStatus::Active);
    assert_eq!(app.model.boards[0].active_sprint_id, Some(51));

    let mut active = app_in_sprint(model(), 0);
    active.handle_sprint_detail_key(Key::Char('a'));
    assert_eq!(active.model.sprints[0].status, SprintStatus::Active);
    assert_eq!(active.model.boards[0].active_sprint_id, Some(50));
}

#[test]
fn test_complete_sprint_offers_carry_over_of_unfinished_cards() {
    let mut app = app_in_sprint(model(), 0);
    app.filter.active_sprint_filters = vec![50, 51];
    assert_eq!(app.handle_sprint_detail_key(Key::Char('c')), SprintDetailAction::Nothing);

    assert_eq!(app.model.sprints[0].status, SprintStatus::Completed);
    assert_eq!(app.model.boards[0].active_sprint_id, None);
    assert_eq!(app.filter.active_sprint_filters, vec![51]);
    assert_eq!(app.focus.board_focus, BoardFocus::Sprints);
    assert_eq!(app.selection.active_sprint_index, None);
    assert_eq!(app.mode, AppMode::Dialog(DialogMode::CarryOverSprint));
    assert_eq!(app.mode_stack, vec![AppMode::Normal, AppMode::BoardDetail]);
    assert_eq!(app.dialog_input.carry_over_source_sprint_id, Some(50));
    assert_eq!(app.dialog_input.carry_over_sprint_selection.get(), Some(0));
}

#[test]
fn test_complete_sprint_without_planning_sprint_just_closes_the_view() {
    let mut m = model();
    m.sprints[1].status = SprintStatus::Cancelled;
    let mut app = app_in_sprint(m, 0);
    app.handle_sprint_detail_key(Key::Char('c'));
    assert_eq!(app.model.sprints[0].status, SprintStatus::Completed);
    assert_eq!(app.mode, AppMode::BoardDetail);
    assert_eq!(app.dialog_input.carry_over_source_sprint_id, None);
}

#[test]
fn test_complete_key_with_picked_cards_toggles_them_instead() {
    let mut app = app_in_sprint(model(), 0);
    app.sprint_view.multi_selected = vec![100, 102];
    app.handle_sprint_detail_key(Key::Char('c'));
    assert_eq!(app.model.cards[0].status, CardStatus::Done);
    assert_eq!(app.model.cards[1].status, CardStatus::Todo);
    assert_eq!(app.model.cards[2].status, CardStatus::Todo);
    assert!(app.sprint_view.multi_selected.is_empty());
    assert_eq!(app.model.sprints[0].status, SprintStatus::Active);
    assert_eq!(app.mode, AppMode::SprintDetail);
}

#[test]
fn test_delete_key_animates_picked_cards_only() {
    let mut app = app_in_sprint(model(), 0);
    app.handle_sprint_detail_key(Key::Char('d'));
    assert!(app.animation.animating.is_empty());
    app.sprint_view.multi_selected = vec![101, 999];
    app.handle_sprint_detail_key(Key::Char('d'));
    assert_eq!(app.animation.animating, vec![(101, AnimationKind::Archiving)]);
    assert!(app.sprint_view.multi_selected.is_empty());
}

#[test]
fn test_carry_over_popup_moves_unfinished_live_cards_to_the_chosen_sprint() {
    let mut m = model();
    m.sprints.push(sprint(52, 1, SprintStatus::Planning));
    m.sprints[0].status = SprintStatus::Completed;
    let mut app = app_in_sprint(m, 0);
    app.handle_sprint_detail_key(Key::Char('M'));
    assert_eq!(app.mode, AppMode::Dialog(DialogMode::CarryOverSprint));
    app.handle_carry_over_sprint_popup(Key::Char('j'));
    assert_eq!(app.dialog_input.carry_over_sprint_selection.get(), Some(1));
    app.handle_carry_over_sprint_popup(Key::Char('j'));
    assert_eq!(app.dialog_input.carry_over_sprint_selection.get(), Some(1));
    app.handle_carry_over_sprint_popup(Key::Enter);

    assert_eq!(app.mode, AppMode::SprintDetail);
    assert_eq!(app.dialog_input.carry_over_source_sprint_id, None);
    assert_eq!(app.dialog_input.carry_over_sprint_selection.get(), None);
    assert_eq!(app.model.cards[0].sprint_id, Some(52));
    assert_eq!(app.model.cards[1].sprint_id, Some(52));
    assert_eq!(app.model.cards[2].sprint_id, Some(50), "finished cards stay");
    assert_eq!(app.model.cards[3].sprint_id, Some(50), "archived cards stay");
    assert_eq!(app.model.cards[4].sprint_id, Some(51));
    assert!(app.sprint_view.uncompleted.cards.is_empty());
    assert_eq!(app.sprint_view.completed.cards, vec![102]);
}

#[test]
fn test_carry_over_popup_esc_moves_nothing() {
    let mut app = app_in_sprint(model(), 0);
    app.handle_carry_over_for_sprint(50);
    app.handle_carry_over_sprint_popup(Key::Esc);
    assert_eq!(app.mode, AppMode::SprintDetail);
    assert_eq!(app.model.cards[0].sprint_id, Some(50));
    assert_eq!(app.dialog_input.carry_over_source_sprint_id, None);
}

#[test]
fn test_carry_over_needs_a_planning_sprint() {
    let mut m = model();
    m.sprints[1].status = SprintStatus::Completed;
    let mut app = app_in_sprint(m, 1);
    app.handle_sprint_detail_key(Key::Char('M'));
    assert_eq!(app.mode, AppMode::SprintDetail);
    assert_eq!(app.error_message.as_deref(), Some("No Planning sprint available for carry-over"));

    // Not completed or cancelled: M does nothing.
    let mut open = app_in_sprint(model(), 0);
    open.handle_sprint_detail_key(Key::Char('M'));
    assert_eq!(open.mode, AppMode::SprintDetail);
    assert_eq!(open.error_message, None);
}

#[test]
fn test_sprint_panels_switch_only_for_completed_sprints() {
    let mut app = app_in_sprint(model(), 0);
    app.handle_sprint_detail_key(Key::Char('l'));
    assert_eq!(app.sprint_view.panel, SprintTaskPanel::Uncompleted);

    let mut m = model();
    m.sprints[0].status = SprintStatus::Completed;
    let mut done = app_in_sprint(m, 0);
    done.handle_sprint_detail_key(Key::Right);
    assert_eq!(done.sprint_view.panel, SprintTaskPanel::Completed);
    done.handle_sprint_detail_key(Key::Char('h'));
    assert_eq!(done.sprint_view.panel, SprintTaskPanel::Uncompleted);
}

#[test]
fn test_sprint_detail_esc_prefix_and_other_keys() {
    let mut m = model();
    m.sprints[0].prefix = Some("rel".to_string());
    let mut app = app_in_sprint(m, 0);
    app.handle_sprint_detail_key(Key::Char('p'));
    assert_eq!(app.mode, AppMode::Dialog(DialogMode::SetSprintPrefix));
    assert_eq!(app.input, "rel");
    app.pop_mode();
    app.handle_sprint_detail_key(Key::Char('C'));
    assert_eq!(app.mode, AppMode::Dialog(DialogMode::SetSprintCardPrefix));
    assert_eq!(app.input, "");
    app.pop_mode();
    assert_eq!(app.handle_sprint_detail_key(Key::Char('o')), SprintDetailAction::Nothing);
    assert_eq!(app.mode, AppMode::Dialog(DialogMode::OrderCards));
    assert_eq!(app.filter.sort_field_selection.get(), Some(0));
    app.pop_mode();
    app.filter.current_sort_order = Some(kanban_tui::app::model::SortOrder::Ascending);
    assert_eq!(app.handle_sprint_detail_key(Key::Char('O')), SprintDetailAction::Nothing);
    assert_eq!(app.filter.current_sort_order, Some(kanban_tui::app::model::SortOrder::Descending));
    assert_eq!(app.handle_sprint_detail_key(Key::Char('z')), SprintDetailAction::Nothing);
    app.handle_sprint_detail_key(Key::Esc);
    assert_eq!(app.mode, AppMode::BoardDetail);
    assert_eq!(app.selection.active_sprint_index, None);
    assert_eq!(app.focus.board_focus, BoardFocus::Sprints);
}

#[test]
fn test_create_sprint_dialog_names_and_selects_the_new_sprint() {
    let mut app = App::new(model(), 10);
    app.selection.active_board_id = Some(1);
    app.push_mode(AppMode::BoardDetail);
    app.push_mode(AppMode::Dialog(DialogMode::CreateSprint));
    for c in " Alpha ".chars() {
        app.handle_create_sprint_dialog(Key::Char(c));
    }
    app.handle_create_sprint_dialog(Key::Enter);
    assert_eq!(app.mode, AppMode::BoardDetail);
    assert_eq!(app.focus.board_focus, BoardFocus::Sprints);
    assert_eq!(app.input, "");
    let s = app.model.sprints.last().unwrap();
    assert_eq!(s.board_id, 1);
    assert_eq!(s.status, SprintStatus::Planning);
    assert_eq!(s.name.as_deref(), Some("Alpha"));
    assert_eq!(app.selection.sprint.get(), Some(2));

    app.input = "   ".to_string();
    app.create_sprint();
    assert_eq!(app.model.sprints.last().unwrap().name, None);
    assert_eq!(app.selection.sprint.get(), Some(3));
}

/// The tasks panel of board 1, flat, with cards 100, 101, 104 listed.
fn app_in_tasks() -> App {
    let mut app = App::new(model(), 10);
    app.selection.active_board_id = Some(1);
    app.focus.active = kanban_tui::app::modes::Focus::Cards;
    app.view.lists[0] = CardList { id: CardListId::All, cards: vec![100, 101, 104], selected: Some(1), scroll_offset: 0 };
    app
}

fn sprint_of(app: &App, id: u128) -> Option<u128> {
    app.model.cards.iter().find(|c| c.id == id).unwrap().sprint_id
}

#[test]
fn assign_key_opens_the_single_card_picker_on_the_card_under_the_cursor() {
    let mut app = app_in_tasks();
    app.handle_assign_to_sprint_key(true);
    assert_eq!(app.mode, AppMode::Dialog(DialogMode::AssignCardToSprint));
    assert_eq!(app.selection.active_card_id, Some(101));
}

#[test]
fn assign_key_does_nothing_without_an_assignable_sprint() {
    let mut app = app_in_tasks();
    app.handle_assign_to_sprint_key(false);
    assert_eq!(app.mode, AppMode::Normal);
    assert_eq!(app.selection.active_card_id, None);
}

#[test]
fn assign_key_with_multi_selection_opens_the_bulk_picker() {
    let mut app = app_in_tasks();
    app.multi_select.selected_cards = vec![100, 104];
    app.handle_assign_to_sprint_key(false);
    assert_eq!(app.mode, AppMode::Dialog(DialogMode::AssignMultipleCardsToSprint));
}

#[test]
fn single_card_picker_assigns_and_unassigns() {
    use_pick_single(SprintPick::Sprint(51), Some(51));
    use_pick_single(SprintPick::Unassigned, None);
    use_pick_single(SprintPick::Nothing, Some(50));
}

fn use_pick_single(pick: SprintPick, expected: Option<u128>) {
    let mut app = app_in_tasks();
    app.handle_assign_to_sprint_key(true);
    app.handle_assign_card_to_sprint_popup(Key::Enter, pick);
    assert_eq!(sprint_of(&app, 101), expected);
    assert_eq!(sprint_of(&app, 100), Some(50), "other cards keep their sprint");
    assert_eq!(app.mode, AppMode::Normal, "picker closed");
}

#[test]
fn single_card_picker_without_active_card_just_closes() {
    let mut app = app_in_tasks();
    app.open_dialog(DialogMode::AssignCardToSprint);
    app.handle_assign_card_to_sprint_popup(Key::Enter, SprintPick::Sprint(51));
    assert_eq!(app.mode, AppMode::Normal);
    assert_eq!(sprint_of(&app, 101), Some(50));
}

#[test]
fn single_card_picker_with_unknown_card_reports_an_error() {
    let mut app = app_in_tasks();
    app.open_dialog(DialogMode::AssignCardToSprint);
    app.selection.active_card_id = Some(999);
    app.handle_assign_card_to_sprint_popup(Key::Enter, SprintPick::Sprint(51));
    assert_eq!(app.error_message.as_deref(), Some("Card is not loaded yet"));
    assert_eq!(app.mode, AppMode::Dialog(DialogMode::AssignCardToSprint), "picker stays open");
}

#[test]
fn bulk_picker_assigns_every_selected_card_and_ends_selection() {
    let mut app = app_in_tasks();
    app.multi_select.selected_cards = vec![100, 104];
    app.multi_select.selection_mode_active = true;
    app.handle_assign_to_sprint_key(true);
    app.handle_assign_multiple_cards_to_sprint_popup(Key::Enter, SprintPick::Sprint(51));
    assert_eq!(sprint_of(&app, 100), Some(51));
    assert_eq!(sprint_of(&app, 104), Some(51));
    assert_eq!(sprint_of(&app, 101), Some(50), "unselected card untouched");
    assert!(app.multi_select.selected_cards.is_empty());
    assert!(!app.multi_select.selection_mode_active);
    assert_eq!(app.mode, AppMode::Normal);
}

#[test]
fn bulk_picker_esc_ends_selection_without_changes() {
    let mut app = app_in_tasks();
    app.multi_select.selected_cards = vec![100];
    app.multi_select.selection_mode_active = true;
    app.handle_assign_to_sprint_key(true);
    app.handle_assign_multiple_cards_to_sprint_popup(Key::Esc, SprintPick::Sprint(51));
    assert_eq!(sprint_of(&app, 100), Some(50));
    assert!(app.multi_select.selected_cards.is_empty());
    assert_eq!(app.mode, AppMode::Normal);
}

#[test]
fn test_sprint_detail_enter_on_card_sets_active_card_id_so_detail_view_resolves() {
    let (mut app, card_id) = seed_sprint_with_card();

    app.handle_sprint_detail_key(Key::Enter);

    assert_eq!(
        app.selection.active_card_id,
        Some(card_id),
        "Enter on a sprint-detail card row must set active_card so the detail view can resolve the card"
    );
    assert_eq!(app.get_card_for_detail_view().expect("detail must resolve").id, card_id);
}

#[test]
fn test_sprint_detail_e_on_card_sets_active_card_id_so_detail_view_resolves() {
    let (mut app, card_id) = seed_sprint_with_card();

    app.handle_sprint_detail_key(Key::Char('e'));

    assert_eq!(
        app.selection.active_card_id,
        Some(card_id),
        "'e' on a sprint-detail card row must set active_card so the detail view can resolve the card"
    );
    assert_eq!(app.get_card_for_detail_view().expect("detail must resolve").id, card_id);
    assert_eq!(app.mode, AppMode::CardDetail);
    assert_eq!(app.focus.card_focus, kanban_tui::app::modes::CardFocus::Title);
}

#[test]
fn sprint_list_j_k_move_the_active_panel_selection() {
    let (mut app, _) = seed_sprint_with_card();
    app.sprint_view.uncompleted = CardList { id: CardListId::All, cards: vec![100, 101], selected: Some(0), scroll_offset: 0 };
    assert_eq!(app.handle_sprint_detail_key(Key::Char('j')), SprintDetailAction::Nothing);
    assert_eq!(app.sprint_view.uncompleted.selected, Some(1));
    app.handle_sprint_detail_key(Key::Char('j'));
    assert_eq!(app.sprint_view.uncompleted.selected, Some(1), "stays on the last row");
    app.handle_sprint_detail_key(Key::Up);
    assert_eq!(app.sprint_view.uncompleted.selected, Some(0));
}

#[test]
fn sprint_list_v_picks_and_unpicks_the_card() {
    let (mut app, card_id) = seed_sprint_with_card();
    app.handle_sprint_detail_key(Key::Char('v'));
    assert_eq!(app.sprint_view.multi_selected, vec![card_id]);
    app.handle_sprint_detail_key(Key::Char('v'));
    assert!(app.sprint_view.multi_selected.is_empty());
}

#[test]
fn sprint_list_n_opens_the_new_card_dialog() {
    let (mut app, _) = seed_sprint_with_card();
    app.input = "left over".to_string();
    app.handle_sprint_detail_key(Key::Char('n'));
    assert_eq!(app.mode, AppMode::Dialog(DialogMode::CreateCard));
    assert_eq!(app.input, "");
}
