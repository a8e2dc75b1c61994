//! Creating, renaming, archiving, restoring and deleting boards.

use kanban_tui::app::model::{
    popup_index_of_board_sort_field, BoardSortField, SortField, SortOrder,
    Card, CardPriority, CardStatus, KanbanModel, Sprint, SprintStatus, TaskListView,
};
use kanban_tui::app::modes::{AppMode, DialogMode, Focus, Key};
use kanban_tui::app::state::{App, BoardDeleteCounts};

fn test_default() -> App {
    App::new(KanbanModel::new(), 10)
}

fn refresh(app: &mut App) {
    app.prepare_frame();
}

fn create_named_board(app: &mut App, name: &str) {
    app.input = name.to_string();
    app.create_board();
    app.input.clear();
}

fn live_board_ids(app: &App) -> Vec<u128> {
    app.model.boards.iter().filter(|b| !b.archived).map(|b| b.id).collect()
}

fn archived_board_ids(app: &App) -> Vec<u128> {
    app.model.boards.iter().filter(|b| b.archived).map(|b| b.id).collect()
}

fn first_column_id(app: &App, board_id: u128) -> u128 {
    app.model.columns.iter().find(|c| c.board_id == board_id).expect("board has a column").id
}

fn create_card(app: &mut App, column_id: u128, title: &str) -> u128 {
    let id = 1000 + app.model.cards.len() as u128;
    app.model.cards.push(Card {
        id,
        column_id,
        title: title.to_string(),
        position: 0,
        priority: CardPriority::Medium,
        status: CardStatus::Todo,
        sprint_id: None,
        points: None,
    });
    id
}

fn create_sprint(app: &mut App, board_id: u128) {
    let id = 2000 + app.model.sprints.len() as u128;
    app.model.sprints.push(Sprint {
        id,
        board_id,
        status: SprintStatus::Planning,
        name: None,
        prefix: None,
        card_prefix: None,
    });
}

fn set_view(app: &mut App, board_id: u128, view: TaskListView) {
    let b = app.model.boards.iter_mut().find(|b| b.id == board_id).unwrap();
    b.task_list_view = view;
}

fn seed_archived_board_with_cards(app: &mut App, name: &str) -> (u128, u128) {
    create_named_board(app, name);
    let board_id = app.model.boards.iter().find(|b| b.name == name).unwrap().id;
    let col_id = first_column_id(app, board_id);
    create_card(app, col_id, "Card1");
    create_card(app, col_id, "Card2");
    app.model.boards.iter_mut().find(|b| b.id == board_id).unwrap().archived = true;
    refresh(app);
    (board_id, col_id)
}

fn open_archived_board(app: &mut App) {
    app.mode = AppMode::ArchivedBoardsView;
    app.prepare_frame();
    app.focus.active = Focus::Boards;
    app.board_list.set_selected_index(Some(0));
    app.handle_selection_activate();
}

#[test]
fn test_delete_board_key_on_boards_opens_delete_board_confirm() {
    let mut app = test_default();
    create_named_board(&mut app, "Roadmap");
    app.focus.active = Focus::Boards;
    app.board_list.set_selected_index(Some(0));

    app.handle_delete_board_key();

    assert_eq!(app.mode, AppMode::Dialog(DialogMode::DeleteBoardConfirm));
}

#[test]
fn test_delete_empty_board_removes_board() {
    let mut app = test_default();
    create_named_board(&mut app, "Roadmap");
    let board_id = live_board_ids(&app)[0];
    app.focus.active = Focus::Boards;
    app.board_list.set_selected_index(Some(0));
    app.open_dialog(DialogMode::DeleteBoardConfirm);

    app.handle_delete_board_confirm_popup(Key::Enter);

    assert!(live_board_ids(&app).iter().all(|b| *b != board_id), "board removed");
    assert_eq!(app.mode, AppMode::Normal, "dialog closed");
}

#[test]
fn test_delete_board_archives_and_preserves_subtree() {
    let mut app = test_default();
    create_named_board(&mut app, "Roadmap");
    let board_id = live_board_ids(&app)[0];
    let column_id = first_column_id(&app, board_id);
    let card = create_card(&mut app, column_id, "Task");
    refresh(&mut app);
    app.focus.active = Focus::Boards;
    app.board_list.set_selected_index(Some(0));

    app.delete_board();

    assert!(live_board_ids(&app).iter().all(|b| *b != board_id), "board left the live list");
    assert!(archived_board_ids(&app).iter().any(|b| *b == board_id), "board is archived");
    assert!(app.model.columns.iter().any(|c| c.board_id == board_id), "columns preserved");
    assert!(app.model.cards.iter().any(|c| c.id == card), "card preserved");
}

#[test]
fn test_board_delete_counts_reports_entities() {
    let mut app = test_default();
    create_named_board(&mut app, "Roadmap");
    let board_id = live_board_ids(&app)[0];
    let column_id = first_column_id(&app, board_id);
    create_card(&mut app, column_id, "Task");
    create_sprint(&mut app, board_id);
    refresh(&mut app);

    assert_eq!(
        app.board_delete_counts(board_id),
        BoardDeleteCounts { columns: 3, cards: 1, archived: 0, sprints: 1 }
    );
}

#[test]
fn test_delete_confirm_cancel_keeps_board() {
    for cancel_key in [Key::Char('n'), Key::Esc] {
        let mut app = test_default();
        create_named_board(&mut app, "Roadmap");
        let board_id = live_board_ids(&app)[0];
        app.focus.active = Focus::Boards;
        app.board_list.set_selected_index(Some(0));
        app.open_dialog(DialogMode::DeleteBoardConfirm);

        app.handle_delete_board_confirm_popup(cancel_key);

        assert!(live_board_ids(&app).iter().any(|b| *b == board_id), "board intact after {cancel_key:?}");
        assert_eq!(app.mode, AppMode::Normal);
    }
}

#[test]
fn test_delete_board_selection_clamps_after_delete() {
    let mut app = test_default();
    create_named_board(&mut app, "A");
    create_named_board(&mut app, "B");
    create_named_board(&mut app, "C");
    app.focus.active = Focus::Boards;
    app.board_list.set_selected_index(Some(2));

    app.delete_board();
    assert_eq!(app.board_list.get_selected_index(), Some(1), "clamped to last survivor");

    app.board_list.set_selected_index(Some(1));
    app.delete_board();
    app.board_list.set_selected_index(Some(0));
    app.delete_board();
    assert_eq!(app.board_list.get_selected_index(), None, "selection cleared at zero");
    assert!(live_board_ids(&app).is_empty());
}

#[test]
fn test_tui_create_board_rejects_blank_name_via_factory() {
    let mut app = test_default();
    create_named_board(&mut app, "   ");

    assert!(live_board_ids(&app).is_empty(), "factory must reject a blank board name");
}

#[test]
fn test_delete_non_active_board_keeps_active_board() {
    let mut app = test_default();
    create_named_board(&mut app, "A");
    create_named_board(&mut app, "B");
    create_named_board(&mut app, "C");
    create_named_board(&mut app, "D");
    let a_id = app.model.boards[0].id;
    app.selection.active_board_id = Some(a_id);
    app.focus.active = Focus::Boards;
    app.board_list.set_selected_index(Some(3));

    app.delete_board();

    assert_eq!(app.selection.active_board_id, Some(a_id));
    assert_eq!(app.active_board().map(|i| app.model.boards[i].id), Some(a_id), "still viewing A, not switched");
}

#[test]
fn test_delete_board_before_active_keeps_viewing_same_board() {
    let mut app = test_default();
    create_named_board(&mut app, "A");
    create_named_board(&mut app, "B");
    create_named_board(&mut app, "C");
    let c_id = app.model.boards[2].id;
    app.selection.active_board_id = Some(c_id);
    app.focus.active = Focus::Boards;
    app.board_list.set_selected_index(Some(0));

    app.delete_board();

    assert_eq!(app.selection.active_board_id, Some(c_id), "active board id is stable across the list shift");
    assert_eq!(app.active_board().map(|i| app.model.boards[i].id), Some(c_id), "still viewing C");
}

#[test]
fn test_delete_active_board_clears_active() {
    let mut app = test_default();
    create_named_board(&mut app, "A");
    create_named_board(&mut app, "B");
    let b_id = app.model.boards[1].id;
    app.selection.active_board_id = Some(b_id);
    app.focus.active = Focus::Boards;
    app.board_list.set_selected_index(Some(1));

    app.delete_board();

    assert_eq!(app.selection.active_board_id, None, "active cleared when the viewed board is archived");
}

#[test]
fn test_delete_board_preserves_surviving_board_view() {
    let mut app = test_default();
    create_named_board(&mut app, "A");
    create_named_board(&mut app, "B");
    let a_id = app.model.boards[0].id;
    set_view(&mut app, a_id, TaskListView::ColumnView);
    refresh(&mut app);
    app.selection.active_board_id = Some(a_id);
    app.focus.active = Focus::Boards;
    app.board_list.set_selected_index(Some(1));

    app.delete_board();

    assert_eq!(
        app.view.layout,
        TaskListView::ColumnView,
        "surviving board's ColumnView layout is applied, not the Flat default"
    );
}

#[test]
fn test_delete_board_before_active_preserves_viewed_view() {
    let mut app = test_default();
    create_named_board(&mut app, "A");
    create_named_board(&mut app, "B");
    create_named_board(&mut app, "C");
    let c_id = app.model.boards[2].id;
    set_view(&mut app, c_id, TaskListView::ColumnView);
    refresh(&mut app);
    app.selection.active_board_id = Some(c_id);
    app.focus.active = Focus::Boards;
    app.board_list.set_selected_index(Some(0));

    app.delete_board();

    assert_eq!(app.selection.active_board_id, Some(c_id));
    assert_eq!(app.view.layout, TaskListView::ColumnView, "still shows C's ColumnView layout, not B's/the archived board's");
}

#[test]
fn test_delete_last_board_leaves_no_cards() {
    let mut app = test_default();
    create_named_board(&mut app, "Solo");
    app.selection.active_board_id = app.model.boards.first().map(|b| b.id);
    app.focus.active = Focus::Boards;
    app.board_list.set_selected_index(Some(0));
    app.view.lists[0].cards = vec![42];
    assert!(!app.view.lists[0].cards.is_empty());

    app.delete_board();

    assert!(
        app.view.lists.iter().all(|l| l.cards.is_empty()),
        "no ghost cards after deleting the last board"
    );
}

#[test]
fn test_q_in_delete_board_confirm_cancels_not_quits() {
    let mut app = test_default();
    create_named_board(&mut app, "Roadmap");
    let board_id = app.model.boards[0].id;
    app.focus.active = Focus::Boards;
    app.board_list.set_selected_index(Some(0));
    app.handle_delete_board_key();
    assert_eq!(app.mode, AppMode::Dialog(DialogMode::DeleteBoardConfirm));

    app.handle_delete_board_confirm_popup(Key::Char('q'));

    assert_eq!(app.mode, AppMode::Normal, "q closed the confirm dialog");
    assert!(
        live_board_ids(&app).iter().any(|b| *b == board_id),
        "board still exists (q cancelled, did not delete or quit)"
    );
}

#[test]
fn test_delete_board_counts_snapshotted_on_open() {
    let mut app = test_default();
    create_named_board(&mut app, "Roadmap");
    let board_id = app.model.boards[0].id;
    let column_id = first_column_id(&app, board_id);
    create_card(&mut app, column_id, "Task");
    refresh(&mut app);
    app.focus.active = Focus::Boards;
    app.board_list.set_selected_index(Some(0));

    assert_eq!(app.dialog_input.board_delete_counts, None, "no stash before the dialog opens");
    app.handle_delete_board_key();
    assert_eq!(
        app.dialog_input.board_delete_counts,
        Some(BoardDeleteCounts { columns: 3, cards: 1, archived: 0, sprints: 0 }),
        "counts snapshotted once when the dialog opens"
    );

    app.handle_delete_board_confirm_popup(Key::Esc);
    assert_eq!(app.dialog_input.board_delete_counts, None, "stash cleared on close");
}

#[test]
fn test_open_archived_board_with_zero_live_boards_still_opens() {
    let mut app = test_default();
    let (arch_board_id, _) = seed_archived_board_with_cards(&mut app, "OnlyBoard");

    open_archived_board(&mut app);

    assert_eq!(app.selection.active_board_id, Some(arch_board_id));
    assert_eq!(app.focus.active, Focus::Cards);
    assert!(archived_board_ids(&app).iter().any(|b| *b == arch_board_id), "board still archived");
}

#[test]
fn test_escape_from_archived_board_returns_to_archived_list() {
    let mut app = test_default();
    seed_archived_board_with_cards(&mut app, "Arch");

    open_archived_board(&mut app);

    app.handle_escape_key();

    assert_eq!(app.selection.active_board_id, None, "leaving the board drops back to the projects list");
    assert_eq!(app.focus.active, Focus::Boards);
    assert_eq!(app.mode, AppMode::ArchivedBoardsView, "panel still shows the archived set");
}

#[test]
fn test_restore_clears_active_board() {
    let mut app = test_default();
    seed_archived_board_with_cards(&mut app, "Arch");

    open_archived_board(&mut app);
    assert!(app.selection.active_board_id.is_some());

    app.focus.active = Focus::Boards;
    app.handle_restore_board();

    assert_eq!(app.selection.active_board_id, None);
}

#[test]
fn test_permanent_delete_confirm_in_archived_view() {
    let mut app = test_default();
    let (arch_board_id, _) = seed_archived_board_with_cards(&mut app, "Arch");
    app.mode = AppMode::ArchivedBoardsView;
    app.prepare_frame();
    app.focus.active = Focus::Boards;
    app.board_list.set_selected_index(Some(0));

    app.handle_delete_archived_board_key();
    assert_eq!(
        app.mode,
        AppMode::Dialog(DialogMode::DeletePermanentBoardConfirm),
        "x opens the permanent-delete confirm dialog"
    );
    assert_eq!(
        app.get_base_mode(),
        AppMode::ArchivedBoardsView,
        "confirm dialog is pushed over the archived view (base mode preserved)"
    );
    assert!(
        archived_board_ids(&app).iter().any(|b| *b == arch_board_id),
        "board still present until the confirm is accepted"
    );

    app.handle_delete_permanent_board_confirm_popup(Key::Enter);
    assert_eq!(app.mode, AppMode::ArchivedBoardsView, "dialog closed");
    assert!(
        archived_board_ids(&app).iter().all(|b| *b != arch_board_id),
        "board permanently deleted after confirm"
    );
    assert!(app.model.columns.iter().all(|c| c.board_id != arch_board_id), "board's subtree deleted with it");
}

#[test]
fn test_permanent_delete_confirm_cancel_keeps_board() {
    let mut app = test_default();
    let (arch_board_id, _) = seed_archived_board_with_cards(&mut app, "Arch");
    app.mode = AppMode::ArchivedBoardsView;
    app.prepare_frame();
    app.focus.active = Focus::Boards;
    app.board_list.set_selected_index(Some(0));

    app.handle_delete_archived_board_key();
    app.handle_delete_permanent_board_confirm_popup(Key::Esc);

    assert_eq!(app.mode, AppMode::ArchivedBoardsView, "back to archived view");
    assert!(archived_board_ids(&app).iter().any(|b| *b == arch_board_id), "board intact after cancel");
}

#[test]
fn test_live_projects_panel_excludes_archived_boards() {
    let mut app = test_default();
    create_named_board(&mut app, "Live");
    let (arch_board_id, _) = seed_archived_board_with_cards(&mut app, "Arch");

    app.mode = AppMode::Normal;
    app.focus.active = Focus::Boards;
    app.prepare_frame();

    let displayed = app.board_list.ids.clone();
    assert!(
        displayed.iter().all(|id| *id != arch_board_id),
        "archived board must not appear in the live projects panel"
    );
    let live_id = app.model.boards.iter().find(|b| b.name == "Live").unwrap().id;
    assert!(displayed.contains(&live_id), "live board is still shown");

    app.mode = AppMode::ArchivedBoardsView;
    app.prepare_frame();
    assert!(
        app.board_list.ids.contains(&arch_board_id),
        "archived board appears once the panel is toggled to the archived set"
    );
}

#[test]
fn test_archived_board_drill_in_and_settings_use_shared_handlers() {
    let mut app = test_default();
    let (arch_board_id, _) = seed_archived_board_with_cards(&mut app, "Arch");

    open_archived_board(&mut app);
    assert_eq!(app.focus.active, Focus::Cards, "drilled into the board");
    assert_eq!(app.selection.active_board_id, Some(arch_board_id));

    app.handle_escape_key();
    assert_eq!(app.focus.active, Focus::Boards);
    app.handle_open_settings();
    assert_eq!(app.mode, AppMode::Settings, "settings opens from the archived boards list like the live one");
}

#[test]
fn test_create_board_seeds_template_columns_and_highlights_it() {
    let mut app = test_default();
    create_named_board(&mut app, "Alpha");
    create_named_board(&mut app, "Roadmap");
    let board = app.model.boards.last().unwrap();
    assert_eq!(board.name, "Roadmap");
    assert!(!board.archived);
    assert_eq!(board.task_list_view, TaskListView::Flat);
    let names: Vec<(&str, i32)> = app
        .model
        .columns
        .iter()
        .filter(|c| c.board_id == board.id)
        .map(|c| (c.name.as_str(), c.position))
        .collect();
    assert_eq!(names, vec![("TODO", 0), ("Doing", 1), ("Complete", 2)]);
    assert_eq!(app.board_list.ids.len(), 2);
    assert_eq!(app.board_list.selected, Some(1));
}

#[test]
fn test_create_and_rename_board_dialogs() {
    let mut app = test_default();
    app.handle_create_board_key();
    for c in "Plan".chars() {
        app.handle_create_board_dialog(Key::Char(c));
    }
    app.handle_create_board_dialog(Key::Enter);
    assert_eq!(app.mode, AppMode::Normal);
    assert_eq!(app.input, "");
    assert_eq!(app.model.boards[0].name, "Plan");

    app.handle_rename_board_key();
    assert_eq!(app.mode, AppMode::Dialog(DialogMode::RenameBoard));
    assert_eq!(app.input, "Plan");
    app.handle_rename_board_dialog(Key::Backspace);
    app.handle_rename_board_dialog(Key::Char('y'));
    app.handle_rename_board_dialog(Key::Enter);
    assert_eq!(app.model.boards[0].name, "Play");
    assert_eq!(app.mode, AppMode::Normal);

    app.handle_rename_board_key();
    app.handle_rename_board_dialog(Key::Char('!'));
    app.handle_rename_board_dialog(Key::Esc);
    assert_eq!(app.model.boards[0].name, "Play");
    assert_eq!(app.input, "");
}

#[test]
fn test_create_board_error_for_blank_name_keeps_dialog_state() {
    let mut app = test_default();
    app.input = " \t ".to_string();
    app.create_board();
    assert!(app.model.boards.is_empty());
    assert!(app.model.columns.is_empty());
    assert!(app.error_message.is_some());
}

#[test]
fn toggle_board_sort_order_in_archived_view_leaves_live_order_alone() {
    let mut app = test_default();
    seed_archived_board_with_cards(&mut app, "Arch1");
    seed_archived_board_with_cards(&mut app, "Arch2");
    app.mode = AppMode::ArchivedBoardsView;
    app.focus.active = Focus::Boards;
    app.selection.active_board_id = None;
    app.prepare_frame();
    assert_eq!(app.board_sort(true), (BoardSortField::ArchivedAt, SortOrder::Descending));

    let persist = app.handle_toggle_board_sort_order();

    assert!(!persist, "the archived sort is never saved");
    assert_eq!(app.board_sort(true).1, SortOrder::Ascending);
    assert_eq!(app.board_sort(false), (BoardSortField::Position, SortOrder::Ascending), "live sort untouched");
    assert!(app.needs_redraw);
}

#[test]
fn toggle_board_sort_order_on_live_panel_is_saved_and_keeps_highlight() {
    let mut app = test_default();
    create_named_board(&mut app, "Zed");
    create_named_board(&mut app, "Alpha");
    app.mode = AppMode::Normal;
    app.focus.active = Focus::Boards;
    app.selection.active_board_id = None;
    app.prepare_frame();
    app.board_list.set_selected_index(Some(1));
    let highlighted = app.board_list.get_selected_board_id();

    let persist = app.handle_toggle_board_sort_order();

    assert!(persist, "the live sort is saved");
    assert_eq!(app.board_sort(false).1, SortOrder::Descending);
    assert_eq!(app.board_sort(true).1, SortOrder::Descending, "archived order untouched");
    assert_eq!(app.board_list.get_selected_board_id(), highlighted);
    let names: Vec<String> = app
        .board_list
        .ids
        .iter()
        .map(|id| app.model.boards.iter().find(|b| b.id == *id).unwrap().name.clone())
        .collect();
    assert_eq!(names, vec!["Alpha".to_string(), "Zed".to_string()], "descending position order");
}

#[test]
fn sort_order_toggled_is_an_involution() {
    assert_eq!(SortOrder::Ascending.toggled(), SortOrder::Descending);
    assert_eq!(SortOrder::Descending.toggled().toggled(), SortOrder::Descending);
}

fn displayed_names(app: &App) -> Vec<String> {
    app.board_list
        .ids
        .iter()
        .map(|id| app.model.boards.iter().find(|b| b.id == *id).unwrap().name.clone())
        .collect()
}

#[test]
fn test_board_sort_keys_inert_when_archived_board_activated() {
    let mut app = test_default();
    let (arch1, _) = seed_archived_board_with_cards(&mut app, "Arch1");
    let (arch2, _) = seed_archived_board_with_cards(&mut app, "Arch2");

    // Sort by Name ASC so the two boards have a stable order to observe.
    app.filter.archived_board_sort = (BoardSortField::Name, SortOrder::Ascending);
    app.mode = AppMode::ArchivedBoardsView;
    app.prepare_frame();

    // Simulate a board being ACTIVATED (drilled into): active id set, focus
    // on the tasks panel — the mode is still ArchivedBoardsView.
    app.selection.active_board_id = Some(arch1);
    app.focus.active = Focus::Cards;

    let before = app.board_sort(true);
    app.handle_toggle_board_sort_order();
    assert_eq!(
        app.board_sort(true),
        before,
        "'s' is inert while an archived board is activated (focus on Cards)"
    );

    app.handle_order_boards_key();
    assert_ne!(
        app.mode,
        AppMode::Dialog(DialogMode::OrderBoards),
        "'o' must not open the picker while a board is activated"
    );

    // Sanity: sort still fires when browsing the list (no active board).
    app.selection.active_board_id = None;
    app.focus.active = Focus::Boards;
    app.board_list.set_selected_index(Some(0));
    app.handle_toggle_board_sort_order();
    assert_eq!(
        app.board_sort(true).1,
        SortOrder::Descending,
        "'s' fires again once browsing the archived board list"
    );
    let _ = (arch1, arch2);
}

#[test]
fn test_board_sort_reachable_on_live_panel() {
    let mut app = test_default();
    create_named_board(&mut app, "Zed");
    create_named_board(&mut app, "Alpha");

    app.mode = AppMode::Normal;
    app.focus.active = Focus::Boards;
    app.selection.active_board_id = None;
    app.board_list.set_selected_index(Some(0));

    // Open the picker via the live-panel `o` handler.
    app.handle_order_boards_key();
    assert_eq!(
        app.mode,
        AppMode::Dialog(DialogMode::OrderBoards),
        "the live panel's 'o' opens the board-sort picker"
    );

    // Pick Name, confirm ascending ('a').
    let name_idx = popup_index_of_board_sort_field(BoardSortField::Name);
    app.filter.board_sort_field_selection.set(Some(name_idx));
    app.handle_order_boards_popup(Key::Char('a'));

    assert_eq!(app.mode, AppMode::Normal, "picker closed back to Normal");
    assert_eq!(
        displayed_names(&app),
        vec!["Alpha".to_string(), "Zed".to_string()],
        "the live projects panel is sorted alphabetically by Name"
    );
}

#[test]
fn test_order_boards_picker_recency_orders_newest_first() {
    let mut app = test_default();
    let (arch1, _) = seed_archived_board_with_cards(&mut app, "Arch1");
    let (arch2, _) = seed_archived_board_with_cards(&mut app, "Arch2");

    app.mode = AppMode::ArchivedBoardsView;
    app.prepare_frame();
    app.focus.active = Focus::Boards;
    app.board_list.set_selected_index(Some(0));

    // Open the picker over the archived view.
    app.handle_order_boards_key();
    assert_eq!(app.mode, AppMode::Dialog(DialogMode::OrderBoards));

    // Select the Recency row and confirm with 'd' (descending → newest first).
    let recency_idx = popup_index_of_board_sort_field(BoardSortField::ArchivedAt);
    app.filter.board_sort_field_selection.set(Some(recency_idx));
    app.handle_order_boards_popup(Key::Char('d'));

    assert_eq!(app.mode, AppMode::ArchivedBoardsView, "picker closed");
    assert_eq!(app.board_list.ids, vec![arch2, arch1], "Recency DESC orders newest-archived (Arch2) first");
}

#[test]
fn order_boards_key_opens_the_picker_on_the_current_field() {
    let mut app = test_default();
    create_named_board(&mut app, "Zed");
    app.mode = AppMode::Normal;
    app.focus.active = Focus::Boards;
    app.selection.active_board_id = None;
    app.filter.board_sort = (BoardSortField::CreatedAt, SortOrder::Ascending);

    app.handle_order_boards_key();

    assert_eq!(app.mode, AppMode::Dialog(DialogMode::OrderBoards));
    assert_eq!(app.filter.board_sort_field_selection.get(), Some(2));
}

#[test]
fn order_boards_popup_enter_on_current_field_reverses_it() {
    let mut app = test_default();
    create_named_board(&mut app, "Beta");
    create_named_board(&mut app, "alpha");
    create_named_board(&mut app, "Alpha");
    app.mode = AppMode::Normal;
    app.focus.active = Focus::Boards;
    app.selection.active_board_id = None;
    app.filter.board_sort = (BoardSortField::Name, SortOrder::Ascending);
    app.prepare_frame();
    assert_eq!(displayed_names(&app), vec!["Alpha", "Beta", "alpha"], "by character code");

    app.handle_order_boards_key();
    assert!(app.handle_order_boards_popup(Key::Enter), "the live choice is saved");
    assert_eq!(app.board_sort(false), (BoardSortField::Name, SortOrder::Descending));
    assert_eq!(displayed_names(&app), vec!["alpha", "Beta", "Alpha"]);
    assert_eq!(app.filter.board_sort_field_selection.get(), None);
}

#[test]
fn order_boards_popup_moves_and_closes() {
    let mut app = test_default();
    app.handle_order_boards_key();
    app.filter.board_sort_field_selection.set(Some(3));
    app.handle_order_boards_popup(Key::Char('j'));
    assert_eq!(app.filter.board_sort_field_selection.get(), Some(3));
    app.handle_order_boards_popup(Key::Char('k'));
    assert_eq!(app.filter.board_sort_field_selection.get(), Some(2));
    app.handle_order_boards_popup(Key::Esc);
    assert_eq!(app.mode, AppMode::Normal);
    assert_eq!(app.filter.board_sort_field_selection.get(), None);
}

#[test]
fn order_cards_key_needs_the_tasks_panel_of_a_board() {
    let mut app = test_default();
    create_named_board(&mut app, "Board");
    app.focus.active = Focus::Boards;
    app.handle_order_cards_key();
    assert_eq!(app.mode, AppMode::Normal);

    app.selection.active_board_id = app.model.boards.first().map(|b| b.id);
    app.focus.active = Focus::Cards;
    app.filter.current_sort_field = Some(SortField::Points);
    app.handle_order_cards_key();
    assert_eq!(app.mode, AppMode::Dialog(DialogMode::OrderCards));
    assert_eq!(app.filter.sort_field_selection.get(), Some(2));
}

#[test]
fn order_cards_popup_records_the_sort_on_the_board() {
    let mut app = test_default();
    create_named_board(&mut app, "Board");
    let board_id = app.model.boards[0].id;
    app.selection.active_board_id = Some(board_id);
    app.focus.active = Focus::Cards;
    app.handle_order_cards_key();
    app.filter.sort_field_selection.set(Some(1));
    assert!(!app.handle_order_cards_popup(Key::Char('d')));
    assert_eq!(app.filter.current_sort_field, Some(SortField::Priority));
    assert_eq!(app.filter.current_sort_order, Some(SortOrder::Descending));
    assert_eq!(app.model.boards[0].task_sort_field, SortField::Priority);
    assert_eq!(app.model.boards[0].task_sort_order, SortOrder::Descending);
    assert_eq!(app.mode, AppMode::Normal);

    // Enter on the field in use reverses it.
    app.handle_order_cards_key();
    assert_eq!(app.filter.sort_field_selection.get(), Some(1));
    app.handle_order_cards_popup(Key::Enter);
    assert_eq!(app.filter.current_sort_order, Some(SortOrder::Ascending));

    // O reverses it again and records it.
    app.handle_toggle_sort_order_key();
    assert_eq!(app.filter.current_sort_order, Some(SortOrder::Descending));
    assert_eq!(app.model.boards[0].task_sort_order, SortOrder::Descending);
}

#[test]
fn toggle_sort_order_key_needs_a_sort() {
    let mut app = test_default();
    create_named_board(&mut app, "Board");
    app.selection.active_board_id = Some(app.model.boards[0].id);
    app.focus.active = Focus::Cards;
    app.handle_toggle_sort_order_key();
    assert_eq!(app.filter.current_sort_order, None);
}

#[test]
fn activating_a_board_applies_its_task_sort() {
    let mut app = test_default();
    create_named_board(&mut app, "Board");
    app.model.boards[0].task_sort_field = SortField::Status;
    app.model.boards[0].task_sort_order = SortOrder::Descending;
    app.mode = AppMode::Normal;
    app.focus.active = Focus::Boards;
    app.prepare_frame();
    app.board_list.set_selected_index(Some(0));
    app.handle_selection_activate();
    assert_eq!(app.focus.active, Focus::Cards);
    assert_eq!(app.filter.current_sort_field, Some(SortField::Status));
    assert_eq!(app.filter.current_sort_order, Some(SortOrder::Descending));
}

#[test]
fn board_name_of_unicode_spaces_is_blank() {
    let mut app = test_default();
    app.input = "\u{2003}\u{3000}\t\u{85}".to_string();
    app.create_board();
    assert!(app.model.boards.is_empty(), "only white space: no board");
    assert!(app.error_message.is_some());
    // A zero-width space is not white space.
    assert_eq!("\u{200B}".trim(), "\u{200B}");
    app.input = " \u{200B} ".to_string();
    app.create_board();
    assert_eq!(app.model.boards.len(), 1, "a zero-width space is a name");
}

#[test]
fn test_open_archived_board_populates_its_own_tasks() {
    let mut app = test_default();
    create_named_board(&mut app, "Live");
    let (arch_board_id, _) = seed_archived_board_with_cards(&mut app, "Arch");

    open_archived_board(&mut app);

    assert_eq!(
        app.selection.active_board_id,
        Some(arch_board_id),
        "archived board is the active board, tracked by id like a live one"
    );
    assert_eq!(app.focus.active, Focus::Cards);
    let task_count = app.view.active_list_index().map(|i| app.view.lists[i].len()).unwrap_or(0);
    assert_eq!(task_count, 2, "task list must show archived board's 2 cards");
    assert!(archived_board_ids(&app).iter().any(|b| *b == arch_board_id), "board remains archived after being opened");
}

#[test]
fn test_enter_card_in_archived_board_opens_detail() {
    let mut app = test_default();
    let (_, _) = seed_archived_board_with_cards(&mut app, "Arch");

    open_archived_board(&mut app);

    assert_eq!(app.focus.active, Focus::Cards);
    if let Some(i) = app.view.active_list_index() {
        app.view.lists[i].set_selected_index(Some(0));
    }

    // Same activation handler a live board's card uses — no archival branch.
    app.handle_selection_activate();

    assert_eq!(app.mode, AppMode::CardDetail);
    assert!(app.selection.active_card_id.is_some());
}

#[test]
fn activating_a_board_fills_each_kanban_column_and_selects_first_rows() {
    let mut app = test_default();
    create_named_board(&mut app, "Board");
    let board_id = app.model.boards[0].id;
    set_view(&mut app, board_id, TaskListView::ColumnView);
    let cols: Vec<u128> = app.model.columns.iter().filter(|c| c.board_id == board_id).map(|c| c.id).collect();
    let c1 = create_card(&mut app, cols[0], "One");
    let c2 = create_card(&mut app, cols[1], "Two");
    let c3 = create_card(&mut app, cols[1], "Three");
    app.focus.active = Focus::Boards;
    app.prepare_frame();
    app.board_list.set_selected_index(Some(0));

    app.handle_selection_activate();

    assert_eq!(app.view.lists.len(), cols.len());
    assert_eq!(app.view.lists[0].cards, vec![c1]);
    assert_eq!(app.view.lists[1].cards, vec![c2, c3]);
    assert_eq!(app.view.lists[1].get_selected_index(), Some(0));
    assert_eq!(app.view.lists[2].get_selected_index(), None);
    assert_eq!(app.view.get_active_column_index(), 0);
}

#[test]
fn task_query_skips_archived_cards_and_applies_filters() {
    let mut app = test_default();
    create_named_board(&mut app, "Board");
    let board_id = app.model.boards[0].id;
    let col = first_column_id(&app, board_id);
    let a = create_card(&mut app, col, "A");
    let b = create_card(&mut app, col, "B");
    let c = create_card(&mut app, col, "C");
    create_sprint(&mut app, board_id);
    let sprint = app.model.sprints[0].id;
    app.model.cards.iter_mut().find(|x| x.id == b).unwrap().sprint_id = Some(sprint);
    app.model.archived_cards.push(kanban_tui::app::model::ArchivedCard { card_id: c, board_id });
    app.selection.active_board_id = Some(board_id);

    app.refresh_view();
    assert_eq!(app.view.lists[0].cards, vec![a, b], "archived card left out");

    app.filter.hide_assigned_cards = true;
    app.refresh_view();
    assert_eq!(app.view.lists[0].cards, vec![a], "cards in a sprint hidden");

    app.filter.hide_assigned_cards = false;
    app.filter.active_sprint_filters = vec![sprint];
    app.refresh_view();
    assert_eq!(app.view.lists[0].cards, vec![b], "only the chosen sprint");
}
