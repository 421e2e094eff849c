//! A one-column terminal file viewer: the directory listing and its filter,
//! the `:` command palette, the help screen and the text rules behind them.
pub mod seqs;
pub mod text;
pub mod command;
pub mod path;
pub mod config;
pub mod shell;
pub mod base64;
pub mod app;
pub mod dispatch;
pub mod number;
pub mod commands;
pub mod calendar;
pub mod status;
pub mod listing;
pub mod keys;
pub mod open;
pub mod laws;
pub mod view;
pub mod layout;
