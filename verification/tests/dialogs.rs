//! Prefix dialogs and the confirmation popups.

use kanban_tui::app::dialogs::{handle_dialog_input, DialogAction};
use kanban_tui::app::model::{Board, KanbanModel, Sprint, SprintStatus, TaskListView};
use kanban_tui::app::modes::{AppMode, DialogMode, Key};
use kanban_tui::app::state::App;

fn model() -> KanbanModel {
    let mut m = KanbanModel::new();
    m.boards.push(Board {
        id: 1,
        name: "Alpha".to_string(),
        archived: false,
        task_list_view: TaskListView::Flat,
        active_sprint_id: None,
        sprint_prefix: Some("old".to_string()),
        task_sort_field: kanban_tui::app::model::SortField::Default,
        task_sort_order: kanban_tui::app::model::SortOrder::Ascending,
    });
    m.sprints.push(Sprint { id: 5, board_id: 1, status: SprintStatus::Planning, name: None, prefix: None, card_prefix: Some("card".to_string()) });
    m
}

fn app_with_dialog(dialog: DialogMode, text: &str) -> App {
    let mut app = App::new(model(), 10);
    app.selection.active_board_id = Some(1);
    app.selection.active_sprint_index = Some(0);
    app.push_mode(AppMode::BoardDetail);
    app.open_dialog(dialog);
    app.input = text.to_string();
    app
}

#[test]
fn test_dialog_input_edits_and_reports_keys() {
    let mut input = String::from("ab");
    assert_eq!(handle_dialog_input(&mut input, Key::Char('c')), DialogAction::Edited);
    assert_eq!(input, "abc");
    assert_eq!(handle_dialog_input(&mut input, Key::Backspace), DialogAction::Edited);
    assert_eq!(input, "ab");
    assert_eq!(handle_dialog_input(&mut input, Key::Enter), DialogAction::Confirm);
    assert_eq!(handle_dialog_input(&mut input, Key::Esc), DialogAction::Cancel);
    assert_eq!(input, "ab");
    let mut empty = String::new();
    handle_dialog_input(&mut empty, Key::Backspace);
    assert_eq!(empty, "");
}

#[test]
fn test_branch_prefix_is_trimmed_and_set() {
    let mut app = app_with_dialog(DialogMode::SetBranchPrefix, "  feat_x-1 ");
    app.handle_set_branch_prefix_dialog(Key::Enter);
    assert_eq!(app.model.boards[0].sprint_prefix.as_deref(), Some("feat_x-1"));
    assert_eq!(app.mode, AppMode::BoardDetail);
    assert_eq!(app.input, "");
}

#[test]
fn test_blank_branch_prefix_clears_it() {
    let mut app = app_with_dialog(DialogMode::SetBranchPrefix, "   ");
    app.handle_set_branch_prefix_dialog(Key::Enter);
    assert_eq!(app.model.boards[0].sprint_prefix, None);
}

#[test]
fn test_invalid_branch_prefix_changes_nothing() {
    let mut app = app_with_dialog(DialogMode::SetBranchPrefix, "no spaces/please");
    app.handle_set_branch_prefix_dialog(Key::Enter);
    assert_eq!(app.model.boards[0].sprint_prefix.as_deref(), Some("old"));
    assert_eq!(app.mode, AppMode::BoardDetail);
}

#[test]
fn test_sprint_prefix_dialogs_edit_the_shown_sprint() {
    let mut app = app_with_dialog(DialogMode::SetSprintPrefix, "");
    for c in "rel".chars() {
        app.handle_set_sprint_prefix_dialog(Key::Char(c));
    }
    assert_eq!(app.input, "rel");
    app.handle_set_sprint_prefix_dialog(Key::Enter);
    assert_eq!(app.model.sprints[0].prefix.as_deref(), Some("rel"));

    let mut other = app_with_dialog(DialogMode::SetSprintCardPrefix, "");
    other.handle_set_sprint_card_prefix_dialog(Key::Enter);
    assert_eq!(other.model.sprints[0].card_prefix, None);

    let mut cancelled = app_with_dialog(DialogMode::SetSprintCardPrefix, "xyz");
    cancelled.handle_set_sprint_card_prefix_dialog(Key::Esc);
    assert_eq!(cancelled.model.sprints[0].card_prefix.as_deref(), Some("card"));
    assert_eq!(cancelled.input, "");
    assert_eq!(cancelled.mode, AppMode::BoardDetail);
}

#[test]
fn test_prefix_collision_popup() {
    let mut app = app_with_dialog(DialogMode::ConfirmSprintPrefixCollision, "");
    app.handle_confirm_sprint_prefix_collision_popup(Key::Char('n'));
    assert_eq!(app.mode, AppMode::Dialog(DialogMode::SetSprintPrefix));
    app.handle_confirm_sprint_prefix_collision_popup(Key::Char('x'));
    assert_eq!(app.mode, AppMode::Dialog(DialogMode::SetSprintPrefix));
    app.handle_confirm_sprint_prefix_collision_popup(Key::Char('y'));
    assert_eq!(app.mode, AppMode::BoardDetail);
}

#[test]
fn test_conflict_popup_records_the_answer() {
    let mut app = app_with_dialog(DialogMode::ConflictResolution, "");
    assert!(!app.handle_conflict_resolution_popup(Key::Char('T')));
    assert_eq!(app.pending_key, Some('t'));
    assert_eq!(app.mode, AppMode::BoardDetail);

    let mut other = app_with_dialog(DialogMode::ConflictResolution, "");
    assert!(other.handle_conflict_resolution_popup(Key::Esc));
    assert_eq!(other.pending_key, None);
    assert_eq!(other.mode, AppMode::BoardDetail);
}

#[test]
fn test_external_change_popup() {
    let mut app = app_with_dialog(DialogMode::ExternalChangeDetected, "");
    app.handle_external_change_detected_popup(Key::Char('r'));
    assert_eq!(app.pending_key, Some('r'));
    assert_eq!(app.mode, AppMode::BoardDetail);

    let mut keep = app_with_dialog(DialogMode::ExternalChangeDetected, "");
    keep.handle_external_change_detected_popup(Key::Char('k'));
    assert_eq!(keep.pending_key, None);
    assert_eq!(keep.mode, AppMode::BoardDetail);
}
