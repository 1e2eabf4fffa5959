//! Modal interaction engine of a terminal launcher: tabs of launchable
//! programs, a key dispatcher driven by the current mode, the instruction
//! forms that build configuration changes, and the views kept in step with
//! the configuration after every change.

pub mod utils;
pub mod config;
pub mod scene;
