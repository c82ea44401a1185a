//! The line editor of a command shell: it turns terminal events into a
//! finished, possibly multi-line, command.
//!
//! The editor has an insert mode and a vi-like normal mode, a completion
//! menu, history browsing that keeps the line under edit as a draft, snippet
//! expansion, and a hand-off to an external editor. It neither reads the
//! terminal nor draws on it: the program around it hands in one event at a
//! time ([`line::Line::handle_event`]) and does what the editor asks for.
//!
//! What each event does is written down once, on plain values, in [`model`];
//! the handlers in [`line`] are proved to do just that, and [`laws`] proves
//! what follows for all sessions. The text buffer is that of `shrs_utils`
//! ([`buffer`]) and the normal-mode grammar that of `shrs_vi` ([`vi`]).

pub mod buffer;
pub mod builtin;
pub mod completion;
pub mod engine;
pub mod event;
pub mod history;
pub mod laws;
pub mod line;
pub mod menu;
pub mod model;
pub mod shell;
pub mod snippet;
pub mod state;
pub mod text;
pub mod vi;
pub mod width;
