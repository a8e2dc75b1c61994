//! Keybindings of the projects panel and of the archived views.

use super::{has_key, bind, texts, BindingText, Keybinding, KeybindingAction, KeybindingContext, KeybindingProvider};
use vstd::prelude::*;

verus! {

pub struct NormalModeBoardsProvider;

/// Bindings of the live projects panel.
pub open spec fn boards_panel_bindings() -> Seq<BindingText> {
    seq![
        bind("?", "help", "Show help", KeybindingAction::ShowHelp),
        bind("q", "quit", "Quit application", KeybindingAction::Escape),
        bind("1", "panel 1", "Focus projects panel", KeybindingAction::FocusPanel(0)),
        bind("2", "panel 2", "Focus tasks panel", KeybindingAction::FocusPanel(1)),
        bind("n", "new", "Create new project", KeybindingAction::CreateBoard),
        bind("r", "rename", "Rename selected project", KeybindingAction::RenameBoard),
        bind("e", "edit", "Edit selected project", KeybindingAction::EditBoard),
        bind("x", "export", "Export selected project", KeybindingAction::ExportBoard),
        bind("X", "export all", "Export all projects", KeybindingAction::ExportAll),
        bind("i", "import", "Import project from file", KeybindingAction::ImportBoard),
        bind("d", "archive", "Archive selected project", KeybindingAction::DeleteBoard),
        bind("D", "archived", "View archived projects", KeybindingAction::ToggleArchivedBoardsView),
        bind("j/↓", "down", "Navigate down", KeybindingAction::NavigateDown),
        bind("k/↑", "up", "Navigate up", KeybindingAction::NavigateUp),
        bind("gg", "top", "Jump to top", KeybindingAction::JumpToTop),
        bind("G", "bottom", "Jump to bottom", KeybindingAction::JumpToBottom),
        bind("Enter/Space", "detail", "View project detail", KeybindingAction::SelectItem),
        bind("u", "undo", "Undo last action", KeybindingAction::Undo),
        bind("U", "redo", "Redo last undone action", KeybindingAction::Redo),
        bind("S", "settings", "Open settings view", KeybindingAction::OpenSettings),
    ]
}

impl KeybindingProvider for NormalModeBoardsProvider {
    fn get_context(&self) -> (ctx: KeybindingContext)
        ensures
            ctx@ == ("Normal Mode - Projects Panel"@, boards_panel_bindings()),
    {
        let bindings = vec![
            Keybinding::new("?", "help", "Show help", KeybindingAction::ShowHelp),
            Keybinding::new("q", "quit", "Quit application", KeybindingAction::Escape),
            Keybinding::new("1", "panel 1", "Focus projects panel", KeybindingAction::FocusPanel(0)),
            Keybinding::new("2", "panel 2", "Focus tasks panel", KeybindingAction::FocusPanel(1)),
            Keybinding::new("n", "new", "Create new project", KeybindingAction::CreateBoard),
            Keybinding::new("r", "rename", "Rename selected project", KeybindingAction::RenameBoard),
            Keybinding::new("e", "edit", "Edit selected project", KeybindingAction::EditBoard),
            Keybinding::new("x", "export", "Export selected project", KeybindingAction::ExportBoard),
            Keybinding::new("X", "export all", "Export all projects", KeybindingAction::ExportAll),
            Keybinding::new("i", "import", "Import project from file", KeybindingAction::ImportBoard),
            Keybinding::new("d", "archive", "Archive selected project", KeybindingAction::DeleteBoard),
            Keybinding::new(
                "D",
                "archived",
                "View archived projects",
                KeybindingAction::ToggleArchivedBoardsView,
            ),
            Keybinding::new("j/↓", "down", "Navigate down", KeybindingAction::NavigateDown),
            Keybinding::new("k/↑", "up", "Navigate up", KeybindingAction::NavigateUp),
            Keybinding::new("gg", "top", "Jump to top", KeybindingAction::JumpToTop),
            Keybinding::new("G", "bottom", "Jump to bottom", KeybindingAction::JumpToBottom),
            Keybinding::new("Enter/Space", "detail", "View project detail", KeybindingAction::SelectItem),
            Keybinding::new("u", "undo", "Undo last action", KeybindingAction::Undo),
            Keybinding::new("U", "redo", "Redo last undone action", KeybindingAction::Redo),
            Keybinding::new("S", "settings", "Open settings view", KeybindingAction::OpenSettings),
        ];
        assert(texts(bindings@) =~= boards_panel_bindings());
        KeybindingContext::new("Normal Mode - Projects Panel".to_string(), bindings)
    }
}


pub struct ArchivedCardsViewProvider;

/// Card-list bindings the archived-cards view keeps: create (`n`) is not
/// offered there, and `q`/`Esc` toggle back to the live set instead of
/// quitting / clearing the selection.
pub open spec fn kept_in_archived_cards(text: BindingText) -> bool {
    text.0 != "n"@ && text.0 != "q"@ && text.0 != "Esc"@
}

/// Bindings the archived-cards view appends: restore, permanent delete and
/// the toggle back to the live set.
pub open spec fn archived_cards_extension() -> Seq<BindingText> {
    seq![
        bind("r", "restore", "Restore selected task(s)", KeybindingAction::RestoreCard),
        bind("x", "delete", "Permanently delete selected task(s)", KeybindingAction::DeleteCard),
        bind("q/Esc", "back", "Back to live tasks view", KeybindingAction::Escape),
    ]
}

impl ArchivedCardsViewProvider {
    /// The archived-cards view is the ordinary card panel showing a different
    /// set: it inherits the card-list bindings, drops create and the live
    /// `q`/`Esc` bindings, and appends restore, permanent delete and the
    /// toggle back.
    pub fn context_from_card_list(&self, card_list: KeybindingContext) -> (ctx: KeybindingContext)
        ensures
            ctx@ == (
                "Archived Cards View"@,
                texts(card_list.bindings@).filter(|t: BindingText| kept_in_archived_cards(t)).add(
                    archived_cards_extension(),
                ),
            ),
    {
        let ghost src = card_list.bindings@;
        let ghost pred = |t: BindingText| kept_in_archived_cards(t);
        let mut bindings: Vec<Keybinding> = Vec::new();
        for b in it: card_list.bindings.into_iter()
            invariant
                it.seq() == src,
                pred == (|t: BindingText| kept_in_archived_cards(t)),
                texts(bindings@) == texts(src.take(it.index() as int)).filter(pred),
        {
            let ghost i = it.index();
            proof {
                assert(b == src[i as int]);
                assert(texts(src.take(i + 1)) =~= texts(src.take(i as int)).push(b@));
                texts(src.take(i as int)).lemma_filter_push(b@, pred);
            }
            let ghost bt = b@;
            if !has_key(&b, "n") && !has_key(&b, "q") && !has_key(&b, "Esc") {
                let ghost before = bindings@;
                bindings.push(b);
                assert(texts(bindings@) =~= texts(before).push(bt));
            }
        }
        proof {
            assert(src.take(src.len() as int) =~= src);
        }
        let ghost kept = bindings@;
        bindings.push(Keybinding::new("r", "restore", "Restore selected task(s)", KeybindingAction::RestoreCard));
        bindings.push(
            Keybinding::new("x", "delete", "Permanently delete selected task(s)", KeybindingAction::DeleteCard),
        );
        bindings.push(Keybinding::new("q/Esc", "back", "Back to live tasks view", KeybindingAction::Escape));
        assert(texts(bindings@) =~= texts(kept).add(archived_cards_extension()));
        KeybindingContext::new("Archived Cards View".to_string(), bindings)
    }
}

pub struct ArchivedBoardsViewProvider;

/// The live-panel actions the archived view reuses verbatim (same key, same
/// handler). Live-only operations (create/rename/edit/export/import, the `d`
/// archive, the `D` toggle) are not reused.
pub open spec fn is_reused_boards_action(action: KeybindingAction) -> bool {
    ||| action == KeybindingAction::ShowHelp
    ||| action == KeybindingAction::NavigateDown
    ||| action == KeybindingAction::NavigateUp
    ||| action == KeybindingAction::JumpToTop
    ||| action == KeybindingAction::JumpToBottom
    ||| action == KeybindingAction::SelectItem
    ||| action == KeybindingAction::Undo
    ||| action == KeybindingAction::Redo
    ||| action == KeybindingAction::OpenSettings
}

pub open spec fn reused_boards_binding(text: BindingText) -> bool {
    is_reused_boards_action(text.3)
}

/// Bindings the archived view adds to the reused ones.
pub open spec fn archived_boards_extension() -> Seq<BindingText> {
    seq![
        bind("r", "restore", "Restore selected project", KeybindingAction::RestoreBoard),
        bind("x", "delete", "Permanently delete selected project", KeybindingAction::DeleteArchivedBoard),
        bind("s", "sort order", "Toggle project sort order", KeybindingAction::ToggleArchivedBoardsSortOrder),
        bind("o", "sort field", "Choose project sort field", KeybindingAction::OrderBoards),
        bind("q/Esc", "back", "Back to projects view", KeybindingAction::Escape),
    ]
}

/// Bindings of the archived-projects view: the reused live bindings, in
/// their live order, then the extension.
pub open spec fn archived_boards_bindings() -> Seq<BindingText> {
    boards_panel_bindings().filter(|t: BindingText| reused_boards_binding(t)).add(archived_boards_extension())
}

impl ArchivedBoardsViewProvider {
    fn is_reused_action(action: KeybindingAction) -> (r: bool)
        ensures
            r == is_reused_boards_action(action),
    {
        match action {
            KeybindingAction::ShowHelp
            | KeybindingAction::NavigateDown
            | KeybindingAction::NavigateUp
            | KeybindingAction::JumpToTop
            | KeybindingAction::JumpToBottom
            | KeybindingAction::SelectItem
            | KeybindingAction::Undo
            | KeybindingAction::Redo
            | KeybindingAction::OpenSettings => true,
            _ => false,
        }
    }
}

impl KeybindingProvider for ArchivedBoardsViewProvider {
    fn get_context(&self) -> (ctx: KeybindingContext)
        ensures
            ctx@ == ("Archived Projects View"@, archived_boards_bindings()),
    {
        let live = NormalModeBoardsProvider.get_context();
        let ghost src = live.bindings@;
        let ghost pred = |t: BindingText| reused_boards_binding(t);
        let mut bindings: Vec<Keybinding> = Vec::new();
        for b in it: live.bindings.into_iter()
            invariant
                it.seq() == src,
                pred == (|t: BindingText| reused_boards_binding(t)),
                texts(src) == boards_panel_bindings(),
                texts(bindings@) == texts(src.take(it.index() as int)).filter(pred),
        {
            let ghost i = it.index();
            proof {
                assert(b == src[i as int]);
                assert(texts(src.take(i + 1)) =~= texts(src.take(i as int)).push(b@));
                texts(src.take(i as int)).lemma_filter_push(b@, pred);
            }
            let ghost bt = b@;
            if Self::is_reused_action(b.action) {
                let ghost before = bindings@;
                bindings.push(b);
                assert(texts(bindings@) =~= texts(before).push(bt));
            }
        }
        proof {
            assert(src.take(src.len() as int) =~= src);
        }
        let ghost kept = bindings@;
        bindings.push(Keybinding::new("r", "restore", "Restore selected project", KeybindingAction::RestoreBoard));
        bindings.push(
            Keybinding::new(
                "x",
                "delete",
                "Permanently delete selected project",
                KeybindingAction::DeleteArchivedBoard,
            ),
        );
        bindings.push(
            Keybinding::new(
                "s",
                "sort order",
                "Toggle project sort order",
                KeybindingAction::ToggleArchivedBoardsSortOrder,
            ),
        );
        bindings.push(Keybinding::new("o", "sort field", "Choose project sort field", KeybindingAction::OrderBoards));
        bindings.push(Keybinding::new("q/Esc", "back", "Back to projects view", KeybindingAction::Escape));
        assert(texts(bindings@) =~= texts(kept).add(archived_boards_extension()));
        KeybindingContext::new("Archived Projects View".to_string(), bindings)
    }
}


/// The archived-projects view lists, in order: help, the shared navigation,
/// drill-in, undo/redo and settings bindings of the live panel, then restore,
/// permanent delete, the sort toggles and the `q/Esc` toggle back; none of the
/// live-only operations (create, rename, edit, export, import, archive, the
/// `D` toggle) is advertised.
pub proof fn law_archived_boards_listing()
    ensures
        archived_boards_bindings() == seq![
            bind("?", "help", "Show help", KeybindingAction::ShowHelp),
            bind("j/↓", "down", "Navigate down", KeybindingAction::NavigateDown),
            bind("k/↑", "up", "Navigate up", KeybindingAction::NavigateUp),
            bind("gg", "top", "Jump to top", KeybindingAction::JumpToTop),
            bind("G", "bottom", "Jump to bottom", KeybindingAction::JumpToBottom),
            bind("Enter/Space", "detail", "View project detail", KeybindingAction::SelectItem),
            bind("u", "undo", "Undo last action", KeybindingAction::Undo),
            bind("U", "redo", "Redo last undone action", KeybindingAction::Redo),
            bind("S", "settings", "Open settings view", KeybindingAction::OpenSettings),
            bind("r", "restore", "Restore selected project", KeybindingAction::RestoreBoard),
            bind("x", "delete", "Permanently delete selected project", KeybindingAction::DeleteArchivedBoard),
            bind("s", "sort order", "Toggle project sort order", KeybindingAction::ToggleArchivedBoardsSortOrder),
            bind("o", "sort field", "Choose project sort field", KeybindingAction::OrderBoards),
            bind("q/Esc", "back", "Back to projects view", KeybindingAction::Escape),
        ],
        forall|i: int|
            0 <= i < archived_boards_bindings().len() ==> {
                let a = (#[trigger] archived_boards_bindings()[i]).3;
                &&& a != KeybindingAction::CreateBoard
                &&& a != KeybindingAction::RenameBoard
                &&& a != KeybindingAction::EditBoard
                &&& a != KeybindingAction::ExportBoard
                &&& a != KeybindingAction::ExportAll
                &&& a != KeybindingAction::ImportBoard
                &&& a != KeybindingAction::DeleteBoard
                &&& a != KeybindingAction::ToggleArchivedBoardsView
            },
{
    reveal_with_fuel(Seq::filter, 21);
    let all = boards_panel_bindings();
    let pred = |t: BindingText| reused_boards_binding(t);
    assert(all.filter(pred) =~= seq![
        all[0], all[12], all[13], all[14], all[15], all[16], all[17], all[18], all[19]
    ]) by {
        assert(all.take(20) =~= all);
        assert forall|n: int| 0 <= n <= 20 implies #[trigger] all.take(n).drop_last() == all.take(n - 1) || n == 0 by {
            if n > 0 {
                assert(all.take(n).drop_last() =~= all.take(n - 1));
            }
        }
    }
    assert(archived_boards_bindings() =~= all.filter(pred).add(archived_boards_extension()));
}

/// What a filter keeps comes from the filtered sequence.
proof fn lemma_filter_within(s: Seq<BindingText>, pred: spec_fn(BindingText) -> bool, i: int)
    requires
        0 <= i < s.filter(pred).len(),
    ensures
        s.contains(s.filter(pred)[i]),
    decreases s.len(),
{
    reveal(Seq::filter);
    if s.len() > 0 {
        let rest = s.drop_last().filter(pred);
        if i < rest.len() {
            lemma_filter_within(s.drop_last(), pred, i);
            let j = choose|j: int| 0 <= j < s.drop_last().len() && s.drop_last()[j] == rest[i];
            assert(s[j] == rest[i]);
        } else {
            assert(s[s.len() - 1] == s.filter(pred)[i]);
        }
    }
}

/// The archived-projects table is the live projects table filtered to the
/// bindings both views share, in the live order, followed by the archived
/// view's own bindings; every shared binding is one of the live table.
pub proof fn law_archived_table_is_live_table_filtered()
    ensures
        archived_boards_bindings().subrange(
            0,
            archived_boards_bindings().len() - archived_boards_extension().len(),
        ) == boards_panel_bindings().filter(|t: BindingText| reused_boards_binding(t)),
        archived_boards_bindings().subrange(
            archived_boards_bindings().len() - archived_boards_extension().len(),
            archived_boards_bindings().len() as int,
        ) == archived_boards_extension(),
        forall|i: int|
            0 <= i < archived_boards_bindings().len() - archived_boards_extension().len() ==> boards_panel_bindings().contains(
                #[trigger] archived_boards_bindings()[i],
            ) && reused_boards_binding(archived_boards_bindings()[i]),
{
    let pred = |t: BindingText| reused_boards_binding(t);
    let live = boards_panel_bindings();
    let kept = live.filter(pred);
    let all = archived_boards_bindings();
    live.filter_lemma(pred);
    assert(all.subrange(0, kept.len() as int) =~= kept);
    assert(all.subrange(kept.len() as int, all.len() as int) =~= archived_boards_extension());
    assert forall|i: int| 0 <= i < kept.len() implies live.contains(#[trigger] all[i]) && reused_boards_binding(
        all[i],
    ) by {
        assert(all[i] == kept[i]);
        lemma_filter_within(live, pred, i);
    }
}

} // verus!
