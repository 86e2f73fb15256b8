//! Launchers for Windows terminals.
pub mod cmd;
pub mod powershell;
pub mod pwsh;
pub mod wt;
