//! Launchers for macOS terminals.
pub mod iterm2;
pub mod terminal_app;
