//! Event-driven core of a terminal chat client: the actions that cross the
//! bus, the components that react to keys and actions, and the controller
//! that owns the conversation state.

pub mod action;
pub mod app;
pub mod components;
pub mod editor;
pub mod key;
pub mod keymap;
pub mod laws;
pub mod layout;
pub mod request;
pub mod state;
pub mod text;
