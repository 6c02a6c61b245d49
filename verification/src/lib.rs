//! Core logic of an interactive package finder: literal substring search over
//! an immutable catalog of names, cursor and pagination arithmetic on the
//! filtered view, a two-mode key-input state machine, selection toggling, a
//! single-slot background-task supersession model, and the formatting rules
//! for result rows and per-item detail text.

pub mod catalog;
pub mod config;
pub mod format;
pub mod info;
pub mod installed;
pub mod query;
pub mod search;
pub mod selection;
pub mod slot;
pub mod state;
pub mod view;
pub mod words;
