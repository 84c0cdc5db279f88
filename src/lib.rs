//! Core of a hotkey-driven overlay assistant: the overlay state reducer, the
//! hotkey interpreter and the per-trigger unit of work, all as pure, verified
//! state machines. Threads, channels, screen capture, network calls and
//! drawing are left to the program that embeds this library.

pub mod error;
pub mod hotkey;
pub mod orchestrator;
pub mod overlay;
pub mod work;
