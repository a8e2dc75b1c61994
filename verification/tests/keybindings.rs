//! Keybinding tables: what each mode and dialog advertises, and which table
//! the registry picks.

use kanban_tui::app::model::KanbanModel;
use kanban_tui::app::modes::{AppMode, DialogMode};
use kanban_tui::app::state::App;
use kanban_tui::keybindings::dialog_modes::{
    ConfirmSprintPrefixCollisionProvider, ConflictResolutionProvider, ExternalChangeDetectedProvider,
};
use kanban_tui::keybindings::normal_mode::{ArchivedBoardsViewProvider, NormalModeBoardsProvider};
use kanban_tui::keybindings::registry::KeybindingRegistry;
use kanban_tui::keybindings::sprint_detail::SprintDetailProvider;
use kanban_tui::keybindings::{KeybindingAction, KeybindingProvider};

fn test_app() -> App {
    App::new(KanbanModel::new(), 20)
}

#[test]
fn test_confirm_sprint_prefix_collision_provider_advertises_real_keys_not_list_nav() {
    let context = ConfirmSprintPrefixCollisionProvider.get_context();
    let keys: Vec<&str> = context.bindings.iter().map(|b| b.key.as_str()).collect();
    assert!(!keys.contains(&"j/↓"), "must not advertise dead list-nav 'j'");
    assert!(!keys.contains(&"k/↑"), "must not advertise dead list-nav 'k'");
    assert!(keys.contains(&"y"), "must advertise the real confirm key 'y'");
    assert!(keys.contains(&"n"), "must advertise the real reject key 'n'");

    let y_binding = context.bindings.iter().find(|b| b.key == "y").unwrap();
    assert_eq!(y_binding.action, KeybindingAction::ConfirmPrefixCollision);
    let n_binding = context.bindings.iter().find(|b| b.key == "n").unwrap();
    assert_eq!(n_binding.action, KeybindingAction::RejectPrefixCollision);
    let esc_binding = context.bindings.iter().find(|b| b.key == "ESC").unwrap();
    assert_eq!(esc_binding.action, KeybindingAction::CancelPrefixCollision);
}

#[test]
fn test_conflict_resolution_provider_advertises_real_keys_not_list_nav() {
    let context = ConflictResolutionProvider.get_context();
    let keys: Vec<&str> = context.bindings.iter().map(|b| b.key.as_str()).collect();
    assert!(!keys.contains(&"j/↓"), "must not advertise dead list-nav 'j'");
    assert!(!keys.contains(&"k/↑"), "must not advertise dead list-nav 'k'");
    assert!(
        !keys.contains(&"Enter/Space"),
        "must not advertise dead 'Enter' (nothing is selectable in this dialog)"
    );
    assert!(keys.contains(&"o"), "must advertise the real force-overwrite key 'o'");
    assert!(keys.contains(&"t"), "must advertise the real take-theirs key 't'");

    let o_binding = context.bindings.iter().find(|b| b.key == "o").unwrap();
    assert_eq!(o_binding.action, KeybindingAction::ForceOverwriteConflict);
    let t_binding = context.bindings.iter().find(|b| b.key == "t").unwrap();
    assert_eq!(t_binding.action, KeybindingAction::TakeTheirsConflict);
    let esc_binding = context.bindings.iter().find(|b| b.key == "ESC").unwrap();
    assert_eq!(esc_binding.action, KeybindingAction::CancelConflictResolution);
}

#[test]
fn test_external_change_detected_provider_advertises_real_keys_not_list_nav() {
    let context = ExternalChangeDetectedProvider.get_context();
    let keys: Vec<&str> = context.bindings.iter().map(|b| b.key.as_str()).collect();
    assert!(!keys.contains(&"j/↓"), "must not advertise dead list-nav 'j'");
    assert!(
        !keys.contains(&"Enter/Space"),
        "must not advertise dead 'Enter' (nothing is selectable in this dialog)"
    );
    assert!(keys.contains(&"r"), "must advertise the real reload key 'r'");
    assert!(keys.contains(&"k"), "must advertise the real keep-local key 'k'");

    let r_binding = context.bindings.iter().find(|b| b.key == "r").unwrap();
    assert_eq!(r_binding.action, KeybindingAction::ReloadDiscardLocal);
    let k_binding = context.bindings.iter().find(|b| b.key == "k").unwrap();
    assert_eq!(k_binding.action, KeybindingAction::KeepLocalChanges);
    // The 'k' description must make the destructive discard explicit, not
    // imply harmless list navigation (the exact bug this card fixes).
    assert!(
        k_binding.description.to_lowercase().contains("discard"),
        "'k' must be described as discarding the external write, not 'up': {}",
        k_binding.description
    );
    let esc_binding = context.bindings.iter().find(|b| b.key == "ESC").unwrap();
    assert_eq!(esc_binding.action, KeybindingAction::DismissExternalChange);
}

#[test]
fn test_boards_provider_binds_d_to_remove_and_shift_d_to_archived_view() {
    // Mirrors the card removal flow where `d` is the primary removal key
    // (now archive) and `D` toggles the archived-boards view.
    let ctx = NormalModeBoardsProvider.get_context();
    let matches: Vec<_> = ctx.bindings.iter().filter(|b| b.key == "d").collect();
    assert_eq!(
        matches.len(),
        1,
        "exactly one 'd' binding on the boards panel"
    );
    assert_eq!(matches[0].action, KeybindingAction::DeleteBoard);
    let shift_d: Vec<_> = ctx.bindings.iter().filter(|b| b.key == "D").collect();
    assert_eq!(
        shift_d.len(),
        1,
        "exactly one 'D' binding on the boards panel"
    );
    assert_eq!(
        shift_d[0].action,
        KeybindingAction::ToggleArchivedBoardsView,
        "'D' toggles the archived-boards view"
    );
}

#[test]
fn test_archived_boards_view_provider_binds_restore_and_delete() {
    let ctx = ArchivedBoardsViewProvider.get_context();
    assert!(ctx
        .bindings
        .iter()
        .any(|b| b.key == "r" && b.action == KeybindingAction::RestoreBoard));
    assert!(ctx
        .bindings
        .iter()
        .any(|b| b.key == "x" && b.action == KeybindingAction::DeleteArchivedBoard));
}

#[test]
fn test_archived_boards_view_provider_binds_sort_order_toggle() {
    let ctx = ArchivedBoardsViewProvider.get_context();
    assert!(
        ctx.bindings.iter().any(
            |b| b.key == "s" && b.action == KeybindingAction::ToggleArchivedBoardsSortOrder
        ),
        "'s' toggles the archived-boards sort order via the shared SortOrder toggle"
    );
}

/// The archived-boards view is the ordinary projects panel showing a
/// different SET: it reuses the shared navigation/activation bindings that the
/// dispatch delegates to `handle_shared_boards_key`, rather than hand-rolling a
/// divergent list that can drift from the live panel.
#[test]
fn test_archived_boards_provider_reuses_shared_navigation_bindings() {
    let ctx = ArchivedBoardsViewProvider.get_context();
    let has = |action: KeybindingAction| ctx.bindings.iter().any(|b| b.action == action);
    assert!(has(KeybindingAction::NavigateDown), "j/↓ navigate down");
    assert!(has(KeybindingAction::NavigateUp), "k/↑ navigate up");
    assert!(has(KeybindingAction::JumpToTop), "gg jump to top");
    assert!(has(KeybindingAction::JumpToBottom), "G jump to bottom");
    assert!(has(KeybindingAction::Undo), "u undo");
    assert!(has(KeybindingAction::Redo), "U redo");
}

/// Drilling into an archived board is the SAME activation the live panel uses
/// (Enter/Space → `handle_selection_activate`). It must be advertised so help
/// describes the real behavior, not a truncated one.
#[test]
fn test_archived_boards_provider_advertises_drill_in_activation() {
    let ctx = ArchivedBoardsViewProvider.get_context();
    assert!(
        ctx.bindings
            .iter()
            .any(|b| b.key == "Enter/Space" && b.action == KeybindingAction::SelectItem),
        "archived view must advertise Enter/Space drill-in (shared activation)"
    );
}

/// Live-only board operations that the archived dispatch does NOT handle must
/// be EXCLUDED from the provider, so help never advertises a binding that is a
/// no-op (or misbehaves) in the archived view. This is the curation half of
/// the LSP contract: the archived view substitutes for the live panel only on
/// the bindings that actually apply.
#[test]
fn test_archived_boards_provider_excludes_live_only_operations() {
    let ctx = ArchivedBoardsViewProvider.get_context();
    for action in [
        KeybindingAction::CreateBoard,
        KeybindingAction::DeleteBoard,
        KeybindingAction::EditBoard,
        KeybindingAction::ExportBoard,
        KeybindingAction::ExportAll,
        KeybindingAction::ImportBoard,
        KeybindingAction::ToggleArchivedBoardsView,
    ] {
        assert!(
            !ctx.bindings.iter().any(|b| b.action == action),
            "live-only action {action:?} must not be advertised in the archived view"
        );
    }
}

/// In the archived view `q`/`Esc` do NOT quit the app: they toggle back to the
/// live projects list. The help text for the reused binding must describe that
/// actual behavior, not the live panel's "quit".
#[test]
fn test_archived_board_help_describes_toggle() {
    let ctx = ArchivedBoardsViewProvider.get_context();
    let back = ctx
        .bindings
        .iter()
        .find(|b| b.key == "q/Esc")
        .expect("archived view binds q/Esc");
    assert_eq!(back.action, KeybindingAction::Escape);
    let desc = back.description.to_lowercase();
    assert!(
        desc.contains("projects") && !desc.contains("quit"),
        "q/Esc help must describe toggling back to projects, not quitting; got {:?}",
        back.description
    );
}

#[test]
fn test_delete_board_action_is_distinct_from_delete_column() {
    assert_ne!(
        KeybindingAction::DeleteBoard,
        KeybindingAction::DeleteColumn
    );
}

#[test]
fn test_sprint_detail_provider_advertises_d_archive() {
    let context = SprintDetailProvider.get_context();
    let d_binding = context.bindings.iter().find(|b| b.key == "d").expect(
        "SprintDetailProvider must advertise 'd', which actually archives selected tasks",
    );
    assert_eq!(d_binding.action, KeybindingAction::ArchiveCard);
}

#[test]
fn test_registry_selects_bespoke_provider_for_confirm_sprint_prefix_collision() {
    let mut app = test_app();
    app.mode = AppMode::Dialog(DialogMode::ConfirmSprintPrefixCollision);

    let context = KeybindingRegistry::get_provider(&app)
        .get_context()
        .expect("dialogs have a keybinding table");

    assert!(
        context.bindings.iter().any(|b| b.key == "y"),
        "must select the bespoke provider (advertises 'y'), not the generic list-picker provider"
    );
}

#[test]
fn test_registry_selects_bespoke_provider_for_conflict_resolution() {
    let mut app = test_app();
    app.mode = AppMode::Dialog(DialogMode::ConflictResolution);

    let context = KeybindingRegistry::get_provider(&app)
        .get_context()
        .expect("dialogs have a keybinding table");

    assert!(
        context.bindings.iter().any(|b| b.key == "o"),
        "must select the bespoke provider (advertises 'o'), not the generic list-picker provider"
    );
}

#[test]
fn test_registry_selects_bespoke_provider_for_external_change_detected() {
    let mut app = test_app();
    app.mode = AppMode::Dialog(DialogMode::ExternalChangeDetected);

    let context = KeybindingRegistry::get_provider(&app)
        .get_context()
        .expect("dialogs have a keybinding table");

    assert!(
        context.bindings.iter().any(|b| b.key == "r"),
        "must select the bespoke provider (advertises 'r'), not the generic list-picker provider"
    );
}
