//! The core of a small text editor: what the editor holds, how it takes in what
//! the user does and how file operations end, and what its window shows.
//!
//! The text itself lives in the buffer of the editor widget, which does the
//! editing; dialogs and file I/O are done by whoever runs a [`task::Task`].

pub mod action;
pub mod buffer;
pub mod error;
pub mod frame;
pub mod laws;
pub mod lines;
pub mod message;
pub mod path;
pub mod state;
pub mod task;
pub mod theme;
