//! Backend core of a minimalist desktop text editor.
//!
//! Every operation is written as a small state machine that never touches
//! the outside world itself: it names the next effect to perform (a file
//! system call, a modal dialog, ...) and later takes the reply. The shell
//! around the library performs the effects.

pub mod commands;
pub mod dialog;
pub mod file_ops;
pub mod path;
pub mod protocol;
pub mod text;
