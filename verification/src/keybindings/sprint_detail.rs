//! Keybindings of the sprint detail view.

use super::{bind, texts, BindingText, Keybinding, KeybindingAction, KeybindingContext, KeybindingProvider};
use vstd::prelude::*;

verus! {

pub struct SprintDetailProvider;

pub open spec fn sprint_detail_bindings() -> Seq<BindingText> {
    seq![
        bind("?", "help", "Show help", KeybindingAction::ShowHelp),
        bind("q", "quit", "Exit sprint detail view", KeybindingAction::Escape),
        bind("ESC", "back", "Return to project detail", KeybindingAction::Escape),
        bind("a", "activate", "Activate this sprint", KeybindingAction::EditBoard),
        bind("c", "complete", "Complete this sprint", KeybindingAction::ToggleCompletion),
        bind("p", "s-prefix", "Set sprint prefix", KeybindingAction::EditBoard),
        bind("C", "c-prefix", "Set card prefix override", KeybindingAction::EditBoard),
        bind("o", "sort", "Sort tasks by field", KeybindingAction::OrderCards),
        bind("O", "toggle order", "Toggle sort order", KeybindingAction::ToggleSortOrder),
        bind("h", "left panel", "Switch to uncompleted panel", KeybindingAction::NavigateLeft),
        bind("l", "right panel", "Switch to completed panel", KeybindingAction::NavigateRight),
        bind("j/↓", "down", "Navigate down", KeybindingAction::NavigateDown),
        bind("k/↑", "up", "Navigate up", KeybindingAction::NavigateUp),
        bind("v", "select", "Select task for bulk operation", KeybindingAction::ToggleCardSelection),
        bind("n", "new", "Create new task", KeybindingAction::CreateCard),
        bind("e", "edit", "Edit selected task", KeybindingAction::EditCard),
        bind("s", "assign", "Assign task to sprint", KeybindingAction::AssignToSprint),
        bind("y", "copy branch", "Copy branch name to clipboard", KeybindingAction::CopyBranchName),
        bind("Y", "copy cmd", "Copy git checkout command", KeybindingAction::CopyGitCheckoutCommand),
        bind("M", "move all", "Move all uncompleted tasks to a planning sprint", KeybindingAction::CarryOver),
        bind("d", "archive", "Archive selected task(s)", KeybindingAction::ArchiveCard),
    ]
}

impl KeybindingProvider for SprintDetailProvider {
    fn get_context(&self) -> (ctx: KeybindingContext)
        ensures
            ctx@ == ("Sprint Detail"@, sprint_detail_bindings()),
    {
        let bindings = vec![
            Keybinding::new("?", "help", "Show help", KeybindingAction::ShowHelp),
            Keybinding::new("q", "quit", "Exit sprint detail view", KeybindingAction::Escape),
            Keybinding::new("ESC", "back", "Return to project detail", KeybindingAction::Escape),
            Keybinding::new("a", "activate", "Activate this sprint", KeybindingAction::EditBoard),
            Keybinding::new("c", "complete", "Complete this sprint", KeybindingAction::ToggleCompletion),
            Keybinding::new("p", "s-prefix", "Set sprint prefix", KeybindingAction::EditBoard),
            Keybinding::new("C", "c-prefix", "Set card prefix override", KeybindingAction::EditBoard),
            Keybinding::new("o", "sort", "Sort tasks by field", KeybindingAction::OrderCards),
            Keybinding::new("O", "toggle order", "Toggle sort order", KeybindingAction::ToggleSortOrder),
            Keybinding::new("h", "left panel", "Switch to uncompleted panel", KeybindingAction::NavigateLeft),
            Keybinding::new("l", "right panel", "Switch to completed panel", KeybindingAction::NavigateRight),
            Keybinding::new("j/↓", "down", "Navigate down", KeybindingAction::NavigateDown),
            Keybinding::new("k/↑", "up", "Navigate up", KeybindingAction::NavigateUp),
            Keybinding::new("v", "select", "Select task for bulk operation", KeybindingAction::ToggleCardSelection),
            Keybinding::new("n", "new", "Create new task", KeybindingAction::CreateCard),
            Keybinding::new("e", "edit", "Edit selected task", KeybindingAction::EditCard),
            Keybinding::new("s", "assign", "Assign task to sprint", KeybindingAction::AssignToSprint),
            Keybinding::new("y", "copy branch", "Copy branch name to clipboard", KeybindingAction::CopyBranchName),
            Keybinding::new("Y", "copy cmd", "Copy git checkout command", KeybindingAction::CopyGitCheckoutCommand),
            Keybinding::new("M", "move all", "Move all uncompleted tasks to a planning sprint", KeybindingAction::CarryOver),
            Keybinding::new("d", "archive", "Archive selected task(s)", KeybindingAction::ArchiveCard),
        ];
        assert(texts(bindings@) =~= sprint_detail_bindings());
        KeybindingContext::new("Sprint Detail".to_string(), bindings)
    }
}

} // verus!
