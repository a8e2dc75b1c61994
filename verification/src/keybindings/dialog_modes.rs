//! Keybindings of the search mode and of the dialogs.

use super::{bind, texts, BindingText, Keybinding, KeybindingAction, KeybindingContext, KeybindingProvider};
use vstd::prelude::*;

verus! {

/// `prefix` followed by `suffix`.
fn joined(prefix: &String, suffix: &str) -> (r: String)
    ensures
        r@ == prefix@ + suffix@,
{
    let mut r = prefix.clone();
    r.append(suffix);
    r
}

pub struct SearchModeProvider;

pub open spec fn search_mode_bindings() -> Seq<BindingText> {
    seq![
        bind("ESC", "clear", "Clear search and return", KeybindingAction::Escape),
        bind("Enter", "apply", "Apply filter and browse results", KeybindingAction::SelectItem),
        bind("Type", "query", "Enter search query", KeybindingAction::Search),
        bind("n/N", "navigate", "Next/previous hit (after applying)", KeybindingAction::NavigateDown),
    ]
}

impl KeybindingProvider for SearchModeProvider {
    fn get_context(&self) -> (ctx: KeybindingContext)
        ensures
            ctx@ == ("Search Mode"@, search_mode_bindings()),
    {
        let bindings = vec![
            Keybinding::new("ESC", "clear", "Clear search and return", KeybindingAction::Escape),
            Keybinding::new("Enter", "apply", "Apply filter and browse results", KeybindingAction::SelectItem),
            Keybinding::new("Type", "query", "Enter search query", KeybindingAction::Search),
            Keybinding::new("n/N", "navigate", "Next/previous hit (after applying)", KeybindingAction::NavigateDown),
        ];
        assert(texts(bindings@) =~= search_mode_bindings());
        KeybindingContext::new("Search Mode".to_string(), bindings)
    }
}

pub struct DialogInputProvider {
    pub dialog_name: String,
}

impl DialogInputProvider {
    pub fn new(dialog_name: &str) -> (r: Self)
        ensures
            r.dialog_name@ == dialog_name@,
    {
        DialogInputProvider { dialog_name: dialog_name.to_string() }
    }
}

pub open spec fn input_dialog_bindings() -> Seq<BindingText> {
    seq![
        bind("ESC", "cancel", "Cancel and close dialog", KeybindingAction::Escape),
        bind("Enter", "confirm", "Confirm and apply", KeybindingAction::SelectItem),
        bind("Type", "input", "Enter text", KeybindingAction::EditCard),
        bind("Backspace", "delete", "Delete previous character", KeybindingAction::EditCard),
        bind("←/→", "move", "Move cursor left/right", KeybindingAction::NavigateLeft),
        bind("Home/End", "jump", "Jump to start/end of line", KeybindingAction::NavigateLeft),
    ]
}

impl KeybindingProvider for DialogInputProvider {
    fn get_context(&self) -> (ctx: KeybindingContext)
        ensures
            ctx@ == (self.dialog_name@ + " - Input Dialog"@, input_dialog_bindings()),
    {
        let bindings = vec![
            Keybinding::new("ESC", "cancel", "Cancel and close dialog", KeybindingAction::Escape),
            Keybinding::new("Enter", "confirm", "Confirm and apply", KeybindingAction::SelectItem),
            Keybinding::new("Type", "input", "Enter text", KeybindingAction::EditCard),
            Keybinding::new("Backspace", "delete", "Delete previous character", KeybindingAction::EditCard),
            Keybinding::new("←/→", "move", "Move cursor left/right", KeybindingAction::NavigateLeft),
            Keybinding::new("Home/End", "jump", "Jump to start/end of line", KeybindingAction::NavigateLeft),
        ];
        assert(texts(bindings@) =~= input_dialog_bindings());
        KeybindingContext::new(joined(&self.dialog_name, " - Input Dialog"), bindings)
    }
}

pub struct DialogSelectionProvider {
    pub dialog_name: String,
}

impl DialogSelectionProvider {
    pub fn new(dialog_name: &str) -> (r: Self)
        ensures
            r.dialog_name@ == dialog_name@,
    {
        DialogSelectionProvider { dialog_name: dialog_name.to_string() }
    }
}

pub open spec fn selection_dialog_bindings() -> Seq<BindingText> {
    seq![
        bind("ESC", "cancel", "Cancel and close dialog", KeybindingAction::Escape),
        bind("j/↓", "down", "Navigate down", KeybindingAction::NavigateDown),
        bind("k/↑", "up", "Navigate up", KeybindingAction::NavigateUp),
        bind("Enter/Space", "select", "Select and confirm", KeybindingAction::SelectItem),
    ]
}

impl KeybindingProvider for DialogSelectionProvider {
    fn get_context(&self) -> (ctx: KeybindingContext)
        ensures
            ctx@ == (self.dialog_name@ + " - Selection Dialog"@, selection_dialog_bindings()),
    {
        let bindings = vec![
            Keybinding::new("ESC", "cancel", "Cancel and close dialog", KeybindingAction::Escape),
            Keybinding::new("j/↓", "down", "Navigate down", KeybindingAction::NavigateDown),
            Keybinding::new("k/↑", "up", "Navigate up", KeybindingAction::NavigateUp),
            Keybinding::new("Enter/Space", "select", "Select and confirm", KeybindingAction::SelectItem),
        ];
        assert(texts(bindings@) =~= selection_dialog_bindings());
        KeybindingContext::new(joined(&self.dialog_name, " - Selection Dialog"), bindings)
    }
}

pub struct DeleteConfirmProvider {
    pub what: String,
}

impl DeleteConfirmProvider {
    pub fn new(what: &str) -> (r: Self)
        ensures
            r.what@ == what@,
    {
        DeleteConfirmProvider { what: what.to_string() }
    }
}

pub open spec fn delete_confirm_bindings() -> Seq<BindingText> {
    seq![
        bind("ESC", "cancel", "Cancel deletion", KeybindingAction::Escape),
        bind("n", "no", "Do not delete", KeybindingAction::Escape),
        bind("y", "yes", "Confirm deletion", KeybindingAction::SelectItem),
        bind("Enter", "yes", "Confirm deletion", KeybindingAction::SelectItem),
    ]
}

impl KeybindingProvider for DeleteConfirmProvider {
    fn get_context(&self) -> (ctx: KeybindingContext)
        ensures
            ctx@ == ("Delete "@ + self.what@ + " - Confirm"@, delete_confirm_bindings()),
    {
        let bindings = vec![
            Keybinding::new("ESC", "cancel", "Cancel deletion", KeybindingAction::Escape),
            Keybinding::new("n", "no", "Do not delete", KeybindingAction::Escape),
            Keybinding::new("y", "yes", "Confirm deletion", KeybindingAction::SelectItem),
            Keybinding::new("Enter", "yes", "Confirm deletion", KeybindingAction::SelectItem),
        ];
        assert(texts(bindings@) =~= delete_confirm_bindings());
        let head = "Delete ".to_string();
        let with_what = joined(&head, self.what.as_str());
        KeybindingContext::new(joined(&with_what, " - Confirm"), bindings)
    }
}

pub struct ErrorLogProvider;

pub open spec fn error_log_bindings() -> Seq<BindingText> {
    seq![
        bind("ESC/q", "close", "Close error log", KeybindingAction::Escape),
        bind("j/k", "scroll", "Scroll up/down", KeybindingAction::NavigateDown),
    ]
}

impl KeybindingProvider for ErrorLogProvider {
    fn get_context(&self) -> (ctx: KeybindingContext)
        ensures
            ctx@ == ("Error Log"@, error_log_bindings()),
    {
        let bindings = vec![
            Keybinding::new("ESC/q", "close", "Close error log", KeybindingAction::Escape),
            Keybinding::new("j/k", "scroll", "Scroll up/down", KeybindingAction::NavigateDown),
        ];
        assert(texts(bindings@) =~= error_log_bindings());
        KeybindingContext::new("Error Log".to_string(), bindings)
    }
}

pub struct FilterOptionsProvider;

pub open spec fn filter_options_bindings() -> Seq<BindingText> {
    seq![
        bind("ESC", "cancel", "Cancel and close filters", KeybindingAction::Escape),
        bind("j/↓", "down", "Navigate down", KeybindingAction::NavigateDown),
        bind("k/↑", "up", "Navigate up", KeybindingAction::NavigateUp),
        bind("Space", "toggle", "Toggle filter option", KeybindingAction::ToggleFilter),
        bind("Enter", "apply", "Apply selected filters", KeybindingAction::SelectItem),
    ]
}

impl KeybindingProvider for FilterOptionsProvider {
    fn get_context(&self) -> (ctx: KeybindingContext)
        ensures
            ctx@ == ("Filter Options"@, filter_options_bindings()),
    {
        let bindings = vec![
            Keybinding::new("ESC", "cancel", "Cancel and close filters", KeybindingAction::Escape),
            Keybinding::new("j/↓", "down", "Navigate down", KeybindingAction::NavigateDown),
            Keybinding::new("k/↑", "up", "Navigate up", KeybindingAction::NavigateUp),
            Keybinding::new("Space", "toggle", "Toggle filter option", KeybindingAction::ToggleFilter),
            Keybinding::new("Enter", "apply", "Apply selected filters", KeybindingAction::SelectItem),
        ];
        assert(texts(bindings@) =~= filter_options_bindings());
        KeybindingContext::new("Filter Options".to_string(), bindings)
    }
}

pub struct ConfirmSprintPrefixCollisionProvider;

pub open spec fn prefix_collision_bindings() -> Seq<BindingText> {
    seq![
        bind("y", "yes", "Use this prefix anyway", KeybindingAction::ConfirmPrefixCollision),
        bind("Enter", "yes", "Use this prefix anyway", KeybindingAction::ConfirmPrefixCollision),
        bind("n", "no", "Go back and choose a different prefix", KeybindingAction::RejectPrefixCollision),
        bind("ESC", "cancel", "Cancel", KeybindingAction::CancelPrefixCollision),
    ]
}

impl KeybindingProvider for ConfirmSprintPrefixCollisionProvider {
    fn get_context(&self) -> (ctx: KeybindingContext)
        ensures
            ctx@ == ("Confirm Sprint Prefix"@, prefix_collision_bindings()),
    {
        let bindings = vec![
            Keybinding::new("y", "yes", "Use this prefix anyway", KeybindingAction::ConfirmPrefixCollision),
            Keybinding::new("Enter", "yes", "Use this prefix anyway", KeybindingAction::ConfirmPrefixCollision),
            Keybinding::new(
                "n",
                "no",
                "Go back and choose a different prefix",
                KeybindingAction::RejectPrefixCollision,
            ),
            Keybinding::new("ESC", "cancel", "Cancel", KeybindingAction::CancelPrefixCollision),
        ];
        assert(texts(bindings@) =~= prefix_collision_bindings());
        KeybindingContext::new("Confirm Sprint Prefix".to_string(), bindings)
    }
}

pub struct ConflictResolutionProvider;

pub open spec fn conflict_resolution_bindings() -> Seq<BindingText> {
    seq![
        bind(
            "o",
            "overwrite",
            "Keep your changes and overwrite the file on disk",
            KeybindingAction::ForceOverwriteConflict,
        ),
        bind("t", "take theirs", "Discard your changes and reload from disk", KeybindingAction::TakeTheirsConflict),
        bind("ESC", "retry later", "Cancel and decide again later", KeybindingAction::CancelConflictResolution),
    ]
}

impl KeybindingProvider for ConflictResolutionProvider {
    fn get_context(&self) -> (ctx: KeybindingContext)
        ensures
            ctx@ == ("Resolve Conflict"@, conflict_resolution_bindings()),
    {
        let bindings = vec![
            Keybinding::new(
                "o",
                "overwrite",
                "Keep your changes and overwrite the file on disk",
                KeybindingAction::ForceOverwriteConflict,
            ),
            Keybinding::new(
                "t",
                "take theirs",
                "Discard your changes and reload from disk",
                KeybindingAction::TakeTheirsConflict,
            ),
            Keybinding::new(
                "ESC",
                "retry later",
                "Cancel and decide again later",
                KeybindingAction::CancelConflictResolution,
            ),
        ];
        assert(texts(bindings@) =~= conflict_resolution_bindings());
        KeybindingContext::new("Resolve Conflict".to_string(), bindings)
    }
}

pub struct ExternalChangeDetectedProvider;

pub open spec fn external_change_bindings() -> Seq<BindingText> {
    seq![
        bind("r", "reload", "Reload from disk (discards your local changes)", KeybindingAction::ReloadDiscardLocal),
        bind("k", "keep local", "Keep local changes (discards the external write)", KeybindingAction::KeepLocalChanges),
        bind("ESC", "dismiss", "Dismiss and continue with current state", KeybindingAction::DismissExternalChange),
    ]
}

impl KeybindingProvider for ExternalChangeDetectedProvider {
    fn get_context(&self) -> (ctx: KeybindingContext)
        ensures
            ctx@ == ("External Change"@, external_change_bindings()),
    {
        let bindings = vec![
            Keybinding::new(
                "r",
                "reload",
                "Reload from disk (discards your local changes)",
                KeybindingAction::ReloadDiscardLocal,
            ),
            Keybinding::new(
                "k",
                "keep local",
                "Keep local changes (discards the external write)",
                KeybindingAction::KeepLocalChanges,
            ),
            Keybinding::new(
                "ESC",
                "dismiss",
                "Dismiss and continue with current state",
                KeybindingAction::DismissExternalChange,
            ),
        ];
        assert(texts(bindings@) =~= external_change_bindings());
        KeybindingContext::new("External Change".to_string(), bindings)
    }
}

} // verus!
