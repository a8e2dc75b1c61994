//! The application state and the key handlers that drive it.

pub mod modes;
pub mod model;
pub mod components;
pub mod view;
pub mod state;
pub mod board_handlers;
pub mod card_handlers;
pub mod relationship_handlers;
pub mod navigation;
pub mod animations;
pub mod card_detail;
pub mod settings;
pub mod board_detail;
pub mod render_plan;
pub mod card_ops;
pub mod relations;
pub mod relationship_dialog;
pub mod dialogs;
pub mod column_ops;
pub mod sprint_ops;
pub mod board_ops;
pub mod card_points;
pub mod filter_ops;
pub mod card_moves;
pub mod export_ops;
pub mod card_create;
pub mod sprint_assign;
pub mod board_sort;
pub mod task_query;
