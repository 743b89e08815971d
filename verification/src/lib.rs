//! Form engine for composing a structured commit message in a terminal.
//!
//! The crate holds the editing logic only: text buffers with a byte cursor,
//! the focus ring, the overlay that captures a new type or scope, the
//! routing of key presses and the assembly of the final message. Drawing,
//! reading keys and touching the file system are left to the caller.

pub mod app;
pub mod boundary;
pub mod focus;
pub mod key;
pub mod message;
pub mod overlay;
pub mod screen;
pub mod std_text;
pub mod store;
pub mod text_input;
pub mod trim;
