//! Keybinding tables shown in the help bar and help popup.

pub mod board_detail;
pub mod card_detail;
pub mod dialog_modes;
pub mod normal_mode;
pub mod registry;
pub mod sprint_detail;

use vstd::prelude::*;

verus! {

#[derive(Debug, Clone, Copy, PartialEq, Eq, Structural)]
pub enum KeybindingAction {
    NavigateDown,
    NavigateUp,
    NavigateLeft,
    NavigateRight,
    SelectItem,
    CreateCard,
    CreateBoard,
    CreateSprint,
    CreateColumn,
    RenameBoard,
    RenameColumn,
    EditCard,
    EditBoard,
    ToggleCompletion,
    AssignToSprint,
    ArchiveCard,
    RestoreCard,
    DeleteCard,
    MoveCardLeft,
    MoveCardRight,
    MoveColumnUp,
    MoveColumnDown,
    DeleteColumn,
    DeleteBoard,
    ExportBoard,
    ExportAll,
    ImportBoard,
    OrderCards,
    OrderBoards,
    ToggleSortOrder,
    ToggleFilter,
    ToggleHideAssigned,
    ToggleArchivedView,
    ToggleArchivedBoardsView,
    RestoreBoard,
    DeleteArchivedBoard,
    ToggleBoardsSortOrder,
    ToggleArchivedBoardsSortOrder,
    ToggleTaskListView,
    ToggleCardSelection,
    ClearCardSelection,
    SelectAllCards,
    SetCardPriority,
    SetSelectedCardsPriority,
    SetColumnDefaultStatus,
    CopyBranchName,
    CopyGitCheckoutCommand,
    Search,
    ShowHelp,
    Escape,
    FocusPanel(usize),
    JumpToTop,
    JumpToBottom,
    JumpHalfViewportUp,
    JumpHalfViewportDown,
    ManageParents,
    ManageChildren,
    CarryOver,
    Undo,
    Redo,
    OpenSettings,
    ExportBoards,
    ConfirmPrefixCollision,
    RejectPrefixCollision,
    CancelPrefixCollision,
    ForceOverwriteConflict,
    TakeTheirsConflict,
    CancelConflictResolution,
    ReloadDiscardLocal,
    KeepLocalChanges,
    DismissExternalChange,
}

/// A key, its short and long help text, and the action it triggers.
#[derive(Debug)]
pub struct Keybinding {
    pub key: String,
    pub short_description: String,
    pub description: String,
    pub action: KeybindingAction,
}

/// The text of a keybinding: (key, short description, description, action).
pub type BindingText = (Seq<char>, Seq<char>, Seq<char>, KeybindingAction);

impl View for Keybinding {
    type V = BindingText;

    open spec fn view(&self) -> BindingText {
        (self.key@, self.short_description@, self.description@, self.action)
    }
}

/// The text of a keybinding written with literals.
pub open spec fn bind(key: &str, short_description: &str, description: &str, action: KeybindingAction) -> BindingText {
    (key@, short_description@, description@, action)
}

/// The texts of a list of keybindings.
pub open spec fn texts(bindings: Seq<Keybinding>) -> Seq<BindingText> {
    bindings.map_values(|b: Keybinding| b@)
}

impl Keybinding {
    pub fn new(key: &str, short_description: &str, description: &str, action: KeybindingAction) -> (r: Self)
        ensures
            r@ == bind(key, short_description, description, action),
    {
        Keybinding {
            key: key.to_string(),
            short_description: short_description.to_string(),
            description: description.to_string(),
            action,
        }
    }
}

/// A named table of keybindings.
#[derive(Debug)]
pub struct KeybindingContext {
    pub name: String,
    pub bindings: Vec<Keybinding>,
}

impl View for KeybindingContext {
    type V = (Seq<char>, Seq<BindingText>);

    open spec fn view(&self) -> (Seq<char>, Seq<BindingText>) {
        (self.name@, texts(self.bindings@))
    }
}

impl KeybindingContext {
    pub fn new(name: String, bindings: Vec<Keybinding>) -> (r: Self)
        ensures
            r.name@ == name@,
            r.bindings@ == bindings@,
    {
        KeybindingContext { name, bindings }
    }
}

/// Whether a binding's key is exactly `key`.
pub fn has_key(binding: &Keybinding, key: &str) -> (r: bool)
    ensures
        r == (binding.key@ == key@),
{
    let wanted = key.to_string();
    binding.key == wanted
}

pub trait KeybindingProvider {
    fn get_context(&self) -> KeybindingContext;
}

} // verus!
