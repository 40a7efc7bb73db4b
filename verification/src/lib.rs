//! A terminal-styled shell core: command dispatch, input editing, history
//! recall and typeahead completion, with machine-checked contracts.

pub mod commands;
pub mod config;
pub mod editor;
pub mod history;
pub mod shell;
pub mod strutil;
pub mod theme;
pub mod typeahead;
