//! Terminal kanban board: paging arithmetic, keybinding tables and the
//! application state machine behind the key handlers.

pub mod pagination;
pub mod keybindings;
pub mod app;
pub mod scroll_indicators;
