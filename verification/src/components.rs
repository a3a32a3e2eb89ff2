//! The units of the interface: each reacts to keys and to actions, keeps
//! its own display state, and says what it wants drawn.

pub mod chat_window;
pub mod dialog;
pub mod input;
