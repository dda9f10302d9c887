//! The state of a small terminal editor: a registry that broadcasts actions to
//! slices of state, a tree of slices resolved through chained actions, and
//! text buffers with a cursor, a visible window of rows and bounded undo.

pub mod app_model;
pub mod app_state;
pub mod command_bar;
pub mod counter;
pub mod database;
pub mod dispatcher;
pub mod editor;
pub mod editor_container;
pub mod keys;
pub mod model;
pub mod router;
pub mod text;
pub mod views;
