//! A terminal download manager: the verified core.
//!
//! The library holds the state of the application (the URL editor, the table of
//! downloads, the mode and key bindings), the rules by which that state reacts to
//! events, and the decisions of the download backend (retries, header reading,
//! splitting a file into ranges). Terminal drawing, network and file I/O live in
//! the application crate that drives this library.

pub mod app;
pub mod app_event;
pub mod dev;
pub mod download;
pub mod insert;
pub mod job;
pub mod key_events;
pub mod list_state;
pub mod text;
pub mod view;
