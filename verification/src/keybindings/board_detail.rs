//! Keybindings of the project detail view.

use super::{bind, texts, BindingText, Keybinding, KeybindingAction, KeybindingContext, KeybindingProvider};
use crate::app::modes::BoardFocus;
use vstd::prelude::*;

verus! {

pub struct BoardDetailProvider {
    pub focus: BoardFocus,
}

impl BoardDetailProvider {
    pub fn new(focus: BoardFocus) -> (r: Self)
        ensures
            r.focus == focus,
    {
        BoardDetailProvider { focus }
    }
}

/// Name of the focused panel of the project detail view.
pub open spec fn board_focus_name(focus: BoardFocus) -> Seq<char> {
    match focus {
        BoardFocus::Name => "Name"@,
        BoardFocus::Description => "Description"@,
        BoardFocus::Settings => "Settings"@,
        BoardFocus::Sprints => "Sprints"@,
        BoardFocus::Columns => "Columns"@,
    }
}

/// Bindings shown for every panel of the project detail view.
pub open spec fn board_detail_common_bindings() -> Seq<BindingText> {
    seq![
        bind("?", "help", "Show help", KeybindingAction::ShowHelp),
        bind("q", "quit", "Exit project detail view", KeybindingAction::Escape),
        bind("ESC", "back", "Return to project list", KeybindingAction::Escape),
        bind("1", "panel 1", "Focus project name panel", KeybindingAction::FocusPanel(0)),
        bind("2", "panel 2", "Focus description panel", KeybindingAction::FocusPanel(1)),
        bind("3", "panel 3", "Focus settings panel", KeybindingAction::FocusPanel(2)),
        bind("4", "panel 4", "Focus sprints panel", KeybindingAction::FocusPanel(3)),
        bind("5", "panel 5", "Focus columns panel", KeybindingAction::FocusPanel(4)),
        bind("e", "edit", "Edit current panel", KeybindingAction::EditBoard),
        bind("p", "prefix", "Set branch prefix", KeybindingAction::EditBoard),
        bind("u", "undo", "Undo last action", KeybindingAction::Undo),
        bind("U", "redo", "Redo last undone action", KeybindingAction::Redo),
    ]
}

/// Bindings the sprints panel adds.
pub open spec fn board_detail_sprint_bindings() -> Seq<BindingText> {
    seq![
        bind("n", "new", "Create new sprint", KeybindingAction::CreateSprint),
        bind("j/↓", "down", "Navigate down", KeybindingAction::NavigateDown),
        bind("k/↑", "up", "Navigate up", KeybindingAction::NavigateUp),
        bind("Enter/Space", "detail", "Open sprint detail", KeybindingAction::SelectItem),
    ]
}

/// Bindings the columns panel adds.
pub open spec fn board_detail_column_bindings() -> Seq<BindingText> {
    seq![
        bind("n", "new", "Create new column", KeybindingAction::CreateColumn),
        bind("r", "rename", "Rename selected column", KeybindingAction::RenameColumn),
        bind("d", "delete", "Delete selected column", KeybindingAction::DeleteColumn),
        bind("s", "default status", "Set default status for selected column", KeybindingAction::SetColumnDefaultStatus),
        bind("j/↓", "down", "Navigate down", KeybindingAction::NavigateDown),
        bind("k/↑", "up", "Navigate up", KeybindingAction::NavigateUp),
        bind("J", "move up", "Reorder column up", KeybindingAction::MoveColumnUp),
        bind("K", "move down", "Reorder column down", KeybindingAction::MoveColumnDown),
    ]
}

pub open spec fn board_detail_bindings(focus: BoardFocus) -> Seq<BindingText> {
    match focus {
        BoardFocus::Sprints => board_detail_common_bindings().add(board_detail_sprint_bindings()),
        BoardFocus::Columns => board_detail_common_bindings().add(board_detail_column_bindings()),
        _ => board_detail_common_bindings(),
    }
}

impl KeybindingProvider for BoardDetailProvider {
    fn get_context(&self) -> (ctx: KeybindingContext)
        ensures
            ctx@ == ("Project Detail - "@ + board_focus_name(self.focus) + " Panel"@, board_detail_bindings(self.focus)),
    {
        let focus_name = match self.focus {
            BoardFocus::Name => "Name",
            BoardFocus::Description => "Description",
            BoardFocus::Settings => "Settings",
            BoardFocus::Sprints => "Sprints",
            BoardFocus::Columns => "Columns",
        };

        let mut bindings = vec![
            Keybinding::new("?", "help", "Show help", KeybindingAction::ShowHelp),
            Keybinding::new("q", "quit", "Exit project detail view", KeybindingAction::Escape),
            Keybinding::new("ESC", "back", "Return to project list", KeybindingAction::Escape),
            Keybinding::new("1", "panel 1", "Focus project name panel", KeybindingAction::FocusPanel(0)),
            Keybinding::new("2", "panel 2", "Focus description panel", KeybindingAction::FocusPanel(1)),
            Keybinding::new("3", "panel 3", "Focus settings panel", KeybindingAction::FocusPanel(2)),
            Keybinding::new("4", "panel 4", "Focus sprints panel", KeybindingAction::FocusPanel(3)),
            Keybinding::new("5", "panel 5", "Focus columns panel", KeybindingAction::FocusPanel(4)),
            Keybinding::new("e", "edit", "Edit current panel", KeybindingAction::EditBoard),
            Keybinding::new("p", "prefix", "Set branch prefix", KeybindingAction::EditBoard),
            Keybinding::new("u", "undo", "Undo last action", KeybindingAction::Undo),
            Keybinding::new("U", "redo", "Redo last undone action", KeybindingAction::Redo),
        ];
        assert(texts(bindings@) =~= board_detail_common_bindings());

        match self.focus {
            BoardFocus::Sprints => {
                let mut extra = vec![
                    Keybinding::new("n", "new", "Create new sprint", KeybindingAction::CreateSprint),
                    Keybinding::new("j/↓", "down", "Navigate down", KeybindingAction::NavigateDown),
                    Keybinding::new("k/↑", "up", "Navigate up", KeybindingAction::NavigateUp),
                    Keybinding::new("Enter/Space", "detail", "Open sprint detail", KeybindingAction::SelectItem),
                ];
                assert(texts(extra@) =~= board_detail_sprint_bindings());
                let ghost before = bindings@;
                bindings.append(&mut extra);
                assert(texts(bindings@) =~= texts(before).add(board_detail_sprint_bindings()));
            }
            BoardFocus::Columns => {
                let mut extra = vec![
                    Keybinding::new("n", "new", "Create new column", KeybindingAction::CreateColumn),
                    Keybinding::new("r", "rename", "Rename selected column", KeybindingAction::RenameColumn),
                    Keybinding::new("d", "delete", "Delete selected column", KeybindingAction::DeleteColumn),
                    Keybinding::new("s", "default status", "Set default status for selected column", KeybindingAction::SetColumnDefaultStatus),
                    Keybinding::new("j/↓", "down", "Navigate down", KeybindingAction::NavigateDown),
                    Keybinding::new("k/↑", "up", "Navigate up", KeybindingAction::NavigateUp),
                    Keybinding::new("J", "move up", "Reorder column up", KeybindingAction::MoveColumnUp),
                    Keybinding::new("K", "move down", "Reorder column down", KeybindingAction::MoveColumnDown),
                ];
                assert(texts(extra@) =~= board_detail_column_bindings());
                let ghost before = bindings@;
                bindings.append(&mut extra);
                assert(texts(bindings@) =~= texts(before).add(board_detail_column_bindings()));
            }
            _ => {}
        }

        let mut name = "Project Detail - ".to_string();
        name.append(focus_name);
        name.append(" Panel");
        KeybindingContext::new(name, bindings)
    }
}

} // verus!
