//! sesh - the verified core of a TUI manager for GNU Screen sessions.
//!
//! The library holds the application state machine, the action resolver,
//! the listing parsers and the search/filter engine. All terminal I/O,
//! process execution and file handling live outside, in the surrounding
//! binary, which drives this core through plain values.

pub mod app;
pub mod event;
pub mod hosts;
pub mod launch;
pub mod model;
pub mod parser;
pub mod scan;
pub mod settings;
pub mod settings_menu;
pub mod shell;
pub mod templates;
pub mod text;

pub use text::truncate_str;
