//! A terminal file finder: query-line parsing, walker decisions, a streaming
//! fuzzy matcher front end, and the state of the interactive panes.

pub mod action;
pub mod input;
pub mod keypress;
pub mod text;
pub mod matcher;
pub mod results;
pub mod preview;
pub mod args;
pub mod config;
pub mod file_system;
pub mod walk;
pub mod exit_codes;
pub mod tui;
