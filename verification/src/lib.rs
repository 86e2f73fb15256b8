//! Launches a developer workspace: terminal windows, panes and helper
//! programs described by a project configuration.
pub mod cli;
pub mod config;
pub mod launcher;
pub mod launching;
pub mod plan;
pub mod terminal;
pub mod text;
