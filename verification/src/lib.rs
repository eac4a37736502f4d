//! The decision core of a hotkey-driven typing assistant.
//!
//! A global hotkey captures the clipboard, sends it to a streaming completion
//! service and types the answer back into the focused application. This crate
//! holds the parts of that program that decide: it performs no input or output
//! itself, and every function in it is verified.

pub mod dispatch;
pub mod hotkey;
pub mod keys;
pub mod keystroke;
pub mod pipeline;
pub mod request;
pub mod settings;
pub mod supervisor;
pub mod transcript;
pub mod unicode;
