//! Core of a minimal full-screen terminal application: a buffered render
//! path (one write per frame, so a frame appears atomically), a blocking
//! key-event loop that discards everything but key presses, a quit-key
//! state machine, and the teardown logic that restores the terminal on
//! every exit path.

pub mod buffer;
pub mod engine;
pub mod errors;
pub mod guard;
pub mod input;
pub mod screen;
pub mod term;

pub use errors::TermError;
pub use input::{InputEvent, KeyCode, KeyEvent, Modifiers};
