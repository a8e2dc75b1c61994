//! The settings screen keys and the export dialog.

use kanban_tui::app::export_ops::ExportRequest;
use kanban_tui::app::model::{Board, KanbanModel, TaskListView};
use kanban_tui::app::modes::{AppMode, DialogMode, Focus, Key, SettingsFocus};
use kanban_tui::app::settings::SettingsKeyAction;
use kanban_tui::app::state::{App, ExportFormat, ExportStep};

fn board(id: u128, name: &str, archived: bool) -> Board {
    Board {
        id,
        name: name.to_string(),
        archived,
        task_list_view: TaskListView::Flat,
        active_sprint_id: None,
        sprint_prefix: None,
        task_sort_field: kanban_tui::app::model::SortField::Default,
        task_sort_order: kanban_tui::app::model::SortOrder::Ascending,
    }
}

fn app_with_boards() -> App {
    let mut m = KanbanModel::new();
    m.boards.push(board(1, "A", false));
    m.boards.push(board(2, "Old", true));
    m.boards.push(board(3, "B", false));
    App::new(m, 10)
}

fn in_settings(mut app: App) -> App {
    app.focus.active = Focus::Boards;
    app.handle_open_settings();
    app
}

#[test]
fn test_settings_panel_keys() {
    let mut app = in_settings(app_with_boards());
    assert_eq!(app.handle_settings_key(Key::Char('3'), "out.json".to_string()), SettingsKeyAction::Nothing);
    assert_eq!(app.focus.settings_focus, SettingsFocus::Storage);
    assert_eq!(app.selection.settings_storage.get(), Some(0));
    app.handle_settings_key(Key::Char('h'), "out.json".to_string());
    assert_eq!(app.focus.settings_focus, SettingsFocus::Configuration);
    assert_eq!(app.selection.settings_config.get(), Some(0));
    app.handle_settings_key(Key::Char('2'), "out.json".to_string());
    assert_eq!(app.focus.settings_focus, SettingsFocus::ConfigFile);
    assert_eq!(app.selection.settings_config_file.get(), Some(0));
    app.handle_settings_key(Key::Right, "out.json".to_string());
    assert_eq!(app.focus.settings_focus, SettingsFocus::Storage);
    assert_eq!(app.handle_settings_key(Key::Char('e'), "out.json".to_string()), SettingsKeyAction::EditConfig);
    app.handle_settings_key(Key::Char('1'), "out.json".to_string());
    assert_eq!(app.handle_settings_key(Key::Enter, "out.json".to_string()), SettingsKeyAction::EditConfig);
    app.handle_settings_key(Key::Char('q'), "out.json".to_string());
    assert_eq!(app.mode, AppMode::Normal);
}

#[test]
fn test_export_button_opens_the_export_dialog() {
    let mut app = in_settings(app_with_boards());
    app.handle_settings_key(Key::Char('3'), "x.json".to_string());
    for _ in 0..3 {
        app.handle_settings_key(Key::Char('j'), "x.json".to_string());
    }
    assert_eq!(app.selection.settings_storage.get(), Some(3));
    assert!(!app.handle_settings_key_nav(Key::Enter, "all.json".to_string()));
    assert_eq!(app.mode, AppMode::Dialog(DialogMode::ExportBoards));
    let d = app.export_dialog.as_ref().unwrap();
    assert_eq!(d.board_ids, vec![1, 3]);
    assert_eq!(d.board_selections, vec![true, true]);
    assert_eq!(d.filename, "all.json");
    assert_eq!(d.step, ExportStep::SelectBoards);
}

#[test]
fn test_export_without_live_boards_is_an_error() {
    let mut m = KanbanModel::new();
    m.boards.push(board(2, "Old", true));
    let mut app = App::new(m, 10);
    app.open_export_boards_dialog("x.json".to_string());
    assert!(app.export_dialog.is_none());
    assert_eq!(app.error_message.as_deref(), Some("No boards to export"));
}

#[test]
fn test_export_dialog_preselects_picked_boards() {
    let mut app = app_with_boards();
    app.multi_select.selected_boards = vec![3];
    app.open_export_boards_dialog("x.json".to_string());
    assert_eq!(app.export_dialog.as_ref().unwrap().board_selections, vec![false, true]);
}

fn run(app: &mut App, keys: &[Key]) -> Option<ExportRequest> {
    let mut last = None;
    for k in keys {
        last = app.handle_export_boards_dialog(*k);
    }
    last
}

#[test]
fn test_export_dialog_flow() {
    let mut app = app_with_boards();
    app.open_export_boards_dialog("kanban.json".to_string());
    // Untick both: Enter does not move on.
    run(&mut app, &[Key::Char(' '), Key::Char('j'), Key::Char(' ')]);
    assert_eq!(app.export_dialog.as_ref().unwrap().board_selections, vec![false, false]);
    run(&mut app, &[Key::Enter]);
    assert_eq!(app.export_dialog.as_ref().unwrap().step, ExportStep::SelectBoards);
    // Cursor wraps both ways.
    run(&mut app, &[Key::Char('j')]);
    assert_eq!(app.export_dialog.as_ref().unwrap().cursor, 0);
    run(&mut app, &[Key::Char('k')]);
    assert_eq!(app.export_dialog.as_ref().unwrap().cursor, 1);
    run(&mut app, &[Key::Char(' '), Key::Enter]);
    assert_eq!(app.export_dialog.as_ref().unwrap().step, ExportStep::ExportOptions);

    run(&mut app, &[Key::Tab]);
    assert_eq!(app.export_dialog.as_ref().unwrap().filename, "kanban.sqlite");
    assert_eq!(app.export_dialog.as_ref().unwrap().format, ExportFormat::Sqlite);
    run(&mut app, &[Key::BackTab]);
    assert_eq!(app.export_dialog.as_ref().unwrap().filename, "kanban.json");
    run(&mut app, &[Key::Char('/'), Key::Backspace, Key::Char('x')]);
    assert_eq!(app.export_dialog.as_ref().unwrap().filename, "kanban.jsox");

    let req = run(&mut app, &[Key::Enter]).expect("an export");
    assert_eq!(req.filename, "kanban.jsox");
    assert_eq!(req.board_ids, vec![3]);
    assert_eq!(req.format, ExportFormat::Json);
    assert!(app.export_dialog.is_none());
    assert_eq!(app.mode, AppMode::Normal);
}

#[test]
fn test_export_needs_a_file_name_and_esc_steps_back() {
    let mut app = app_with_boards();
    app.open_export_boards_dialog("a".to_string());
    run(&mut app, &[Key::Char('a'), Key::Enter, Key::Backspace]);
    assert!(run(&mut app, &[Key::Enter]).is_none());
    assert_eq!(app.error_message.as_deref(), Some("No boards selected or filename empty"));
    assert!(app.export_dialog.is_some());
    run(&mut app, &[Key::Tab]);
    assert_eq!(app.export_dialog.as_ref().unwrap().filename, ".sqlite");
    run(&mut app, &[Key::Esc]);
    assert_eq!(app.export_dialog.as_ref().unwrap().step, ExportStep::SelectBoards);
    run(&mut app, &[Key::Esc]);
    assert!(app.export_dialog.is_none());
    assert_eq!(app.mode, AppMode::Normal);
}

#[test]
fn test_export_board_key_names_the_file_after_the_board() {
    let mut m = KanbanModel::new();
    m.boards.push(board(1, "My Big Board", false));
    let mut app = App::new(m, 10);
    app.focus.active = Focus::Boards;
    app.handle_export_board_key();
    assert_eq!(app.mode, AppMode::Dialog(DialogMode::ExportBoard));
    assert!(app.input.starts_with("my-big-board-"), "{}", app.input);
    assert!(app.input.ends_with(".json"));
    // YYYYmmdd-HHMMSS between the two.
    assert_eq!(app.input.len(), "my-big-board-".len() + 15 + ".json".len());

    let name = app.input.clone();
    app.handle_export_board_dialog(Key::Backspace);
    app.handle_export_board_dialog(Key::Char('n'));
    let chosen = app.handle_export_board_dialog(Key::Enter);
    let mut expected = name[..name.len() - 1].to_string();
    expected.push('n');
    assert_eq!(chosen, Some(expected));
    assert_eq!(app.mode, AppMode::Normal);
    assert_eq!(app.input, "");
}

#[test]
fn test_export_all_key_needs_a_live_board() {
    let mut app = app_with_boards();
    app.focus.active = Focus::Boards;
    app.handle_export_all_key();
    assert_eq!(app.mode, AppMode::Dialog(DialogMode::ExportAll));
    assert!(app.input.starts_with("kanban-all-"));
    assert!(app.input.ends_with(".json"));
    assert_eq!(app.handle_export_all_dialog(Key::Esc), None);
    assert_eq!(app.mode, AppMode::Normal);

    let mut m = KanbanModel::new();
    m.boards.push(board(2, "Old", true));
    let mut none = App::new(m, 10);
    none.handle_export_all_key();
    assert_eq!(none.mode, AppMode::Normal);
}

#[test]
fn test_import_popup_hands_back_the_highlighted_file() {
    let mut app = app_with_boards();
    app.focus.active = Focus::Boards;
    app.handle_import_board_key(vec!["a.json".to_string(), "b.json".to_string()]);
    assert_eq!(app.mode, AppMode::Dialog(DialogMode::ImportBoard));
    assert_eq!(app.handle_import_board_popup(Key::Char('j')), None);
    assert_eq!(app.handle_import_board_popup(Key::Down), None);
    assert_eq!(app.dialog_input.import_selection.get(), Some(1));
    assert_eq!(app.handle_import_board_popup(Key::Enter), Some("b.json".to_string()));
    assert_eq!(app.mode, AppMode::Normal);
    assert_eq!(app.dialog_input.import_selection.get(), None);

    app.handle_import_board_key(vec!["a.json".to_string()]);
    assert_eq!(app.handle_import_board_popup(Key::Esc), None);
    assert_eq!(app.mode, AppMode::Normal);
}
