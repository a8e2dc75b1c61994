//! Keybindings of the card detail view.

use super::{bind, texts, BindingText, Keybinding, KeybindingAction, KeybindingContext, KeybindingProvider};
use crate::app::modes::CardFocus;
use vstd::prelude::*;

verus! {

pub struct CardDetailProvider {
    pub focus: CardFocus,
}

impl CardDetailProvider {
    pub fn new(focus: CardFocus) -> (r: Self)
        ensures
            r.focus == focus,
    {
        CardDetailProvider { focus }
    }
}

/// Name of the focused panel of the card detail view.
pub open spec fn card_focus_name(focus: CardFocus) -> Seq<char> {
    match focus {
        CardFocus::Title => "Title"@,
        CardFocus::Metadata => "Metadata"@,
        CardFocus::Description => "Description"@,
        CardFocus::Parents => "Parents"@,
        CardFocus::Children => "Children"@,
    }
}

/// Bindings shown before the panel-specific one.
pub open spec fn card_detail_head_bindings() -> Seq<BindingText> {
    seq![
        bind("?", "help", "Show help", KeybindingAction::ShowHelp),
        bind("q", "quit", "Exit card detail view", KeybindingAction::Escape),
        bind("ESC", "back", "Return to task list", KeybindingAction::Escape),
        bind("1", "panel 1", "Focus task title panel", KeybindingAction::FocusPanel(0)),
        bind("2", "panel 2", "Focus metadata panel", KeybindingAction::FocusPanel(1)),
        bind("3", "panel 3", "Focus description panel", KeybindingAction::FocusPanel(2)),
        bind("4", "panel 4", "Focus parents panel", KeybindingAction::FocusPanel(3)),
        bind("5", "panel 5", "Focus children panel", KeybindingAction::FocusPanel(4)),
    ]
}

/// The panel-specific binding: edit on the editable panels, manage parents
/// or children on the relationship panels.
pub open spec fn card_detail_panel_binding(focus: CardFocus) -> BindingText {
    match focus {
        CardFocus::Parents => bind("r", "set parents", "Manage parent cards", KeybindingAction::ManageParents),
        CardFocus::Children => bind("R", "set children", "Manage child cards", KeybindingAction::ManageChildren),
        _ => bind("e", "edit", "Edit current panel", KeybindingAction::EditCard),
    }
}

/// Bindings shown after the panel-specific one, on every panel.
pub open spec fn card_detail_tail_bindings() -> Seq<BindingText> {
    seq![
        bind("r", "set parents", "Manage parent cards", KeybindingAction::ManageParents),
        bind("R", "set children", "Manage child cards", KeybindingAction::ManageChildren),
        bind("d", "delete", "Delete the shown task", KeybindingAction::DeleteCard),
        bind("y", "copy branch", "Copy branch name to clipboard", KeybindingAction::CopyBranchName),
        bind("Y", "copy cmd", "Copy git checkout command", KeybindingAction::CopyGitCheckoutCommand),
        bind("a", "assign", "Assign task to sprint", KeybindingAction::AssignToSprint),
        bind("u", "undo", "Undo last action", KeybindingAction::Undo),
        bind("U", "redo", "Redo last undone action", KeybindingAction::Redo),
    ]
}

pub open spec fn card_detail_bindings(focus: CardFocus) -> Seq<BindingText> {
    card_detail_head_bindings().push(card_detail_panel_binding(focus)).add(card_detail_tail_bindings())
}

impl KeybindingProvider for CardDetailProvider {
    fn get_context(&self) -> (ctx: KeybindingContext)
        ensures
            ctx@ == ("Card Detail - "@ + card_focus_name(self.focus) + " Panel"@, card_detail_bindings(self.focus)),
    {
        let focus_name = match self.focus {
            CardFocus::Title => "Title",
            CardFocus::Metadata => "Metadata",
            CardFocus::Description => "Description",
            CardFocus::Parents => "Parents",
            CardFocus::Children => "Children",
        };

        let mut bindings = vec![
            Keybinding::new("?", "help", "Show help", KeybindingAction::ShowHelp),
            Keybinding::new("q", "quit", "Exit card detail view", KeybindingAction::Escape),
            Keybinding::new("ESC", "back", "Return to task list", KeybindingAction::Escape),
            Keybinding::new("1", "panel 1", "Focus task title panel", KeybindingAction::FocusPanel(0)),
            Keybinding::new("2", "panel 2", "Focus metadata panel", KeybindingAction::FocusPanel(1)),
            Keybinding::new("3", "panel 3", "Focus description panel", KeybindingAction::FocusPanel(2)),
            Keybinding::new("4", "panel 4", "Focus parents panel", KeybindingAction::FocusPanel(3)),
            Keybinding::new("5", "panel 5", "Focus children panel", KeybindingAction::FocusPanel(4)),
        ];
        assert(texts(bindings@) =~= card_detail_head_bindings());
        let ghost head = bindings@;

        // Only show edit keybinding for editable panels
        match self.focus {
            CardFocus::Title | CardFocus::Metadata | CardFocus::Description => {
                bindings.push(Keybinding::new("e", "edit", "Edit current panel", KeybindingAction::EditCard));
            }
            CardFocus::Parents => {
                bindings.push(Keybinding::new("r", "set parents", "Manage parent cards", KeybindingAction::ManageParents));
            }
            CardFocus::Children => {
                bindings.push(Keybinding::new("R", "set children", "Manage child cards", KeybindingAction::ManageChildren));
            }
        }
        assert(texts(bindings@) =~= texts(head).push(card_detail_panel_binding(self.focus)));

        // Always show these bindings
        let mut always = vec![
            Keybinding::new("r", "set parents", "Manage parent cards", KeybindingAction::ManageParents),
            Keybinding::new("R", "set children", "Manage child cards", KeybindingAction::ManageChildren),
            Keybinding::new("d", "delete", "Delete the shown task", KeybindingAction::DeleteCard),
            Keybinding::new("y", "copy branch", "Copy branch name to clipboard", KeybindingAction::CopyBranchName),
            Keybinding::new("Y", "copy cmd", "Copy git checkout command", KeybindingAction::CopyGitCheckoutCommand),
            Keybinding::new("a", "assign", "Assign task to sprint", KeybindingAction::AssignToSprint),
            Keybinding::new("u", "undo", "Undo last action", KeybindingAction::Undo),
            Keybinding::new("U", "redo", "Redo last undone action", KeybindingAction::Redo),
        ];
        assert(texts(always@) =~= card_detail_tail_bindings());
        let ghost before = bindings@;
        bindings.append(&mut always);
        assert(texts(bindings@) =~= texts(before).add(card_detail_tail_bindings()));

        let mut name = "Card Detail - ".to_string();
        name.append(focus_name);
        name.append(" Panel");
        KeybindingContext::new(name, bindings)
    }
}

} // verus!
