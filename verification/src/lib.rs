//! Verified core of a WinGet update manager: classification of PowerShell
//! failures, script construction with safe quoting, interpretation of the
//! command output, and the state machines that drive fetching and installing
//! package updates.
pub mod cancellation;
pub mod gui;
pub mod text;
pub mod winget_manager;
