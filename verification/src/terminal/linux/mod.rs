//! Launchers for Linux terminals.
pub mod gnome;
pub mod tabs;
pub mod tmux;
