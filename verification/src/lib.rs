//! An X11-style "primary selection" for a desktop that has no native one.
//!
//! A text selection made by dragging or double-clicking is captured into a
//! one-shot buffer, and a later secondary-button click pastes it at the click
//! location, all without observably altering the user's main clipboard.
//!
//! This crate holds the verified core: the click/drag detection state
//! machine, the selection buffer with its "locked until consumed" policy, the
//! non-destructive capture and paste protocols (as scripts of clipboard and
//! injection steps for a thin platform layer to perform), and the engine
//! lifecycle state. The platform layer does the actual OS work: installing
//! the global event tap, posting synthetic input, and talking to the system
//! clipboard.

pub mod buffer;
pub mod click;
pub mod clock;
pub mod engine;
pub mod keys;
pub mod monitor;
pub mod protocol;
pub mod text;
