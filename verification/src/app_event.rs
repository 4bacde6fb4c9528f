//! The events the application reacts to, the keys it reads and the effects
//! its reactions ask for.

use vstd::prelude::*;
use crate::job::{DownloadJob, DownloadStrategy, Status};

verus! {

/// What the application does with the keyboard.
#[derive(Clone, Copy, Debug, PartialEq, Eq, Structural)]
pub enum AppMode {
    /// Choosing what to do.
    Normal,
    /// Typing a URL.
    Insert,
    /// Moving through the table of downloads.
    Table,
}

/// Application events. Job identifiers are the `u128` values of the jobs'
/// UUIDs; speeds are in bytes per second.
#[derive(Clone, Debug)]
pub enum AppEvent {
    /// A new job for the table.
    Job(DownloadJob),
    JobSize(u128, u64),
    JobStrategy(u128, DownloadStrategy),
    /// Bytes downloaded, speed, remaining seconds.
    JobProgress(u128, u64, u64, u64),
    JobStatus(u128, Status),
    /// Leave the editor.
    EscInsert,
    EnterChar(char),
    Backspace,
    MoveCursorLeft,
    MoveCursorRight,
    /// Submit the editor's text.
    EnterInsert,
    MoveUp,
    MoveDown,
    /// Quit the application.
    Quit,
}

/// The key of a key press.
#[derive(Clone, Copy, Debug, PartialEq, Eq, Structural)]
pub enum KeyCode {
    Char(char),
    Esc,
    Backspace,
    Enter,
    Left,
    Right,
    Up,
    Down,
    /// Any key the application has no use for.
    Other,
}

/// A key press: the key, and whether the modifiers held were exactly Control.
#[derive(Clone, Copy, Debug, PartialEq, Eq, Structural)]
pub struct KeyPress {
    pub code: KeyCode,
    pub ctrl: bool,
}

/// What a reaction asks of the world around the state: an event to queue for
/// the application, or a job to hand to the downloader.
#[derive(Debug)]
pub enum Effect {
    Emit(AppEvent),
    StartDownload(DownloadJob),
}

/// Control-C, which quits in every mode.
pub open spec fn is_quit_key(k: KeyPress) -> bool {
    k.ctrl && (k.code == KeyCode::Char('c') || k.code == KeyCode::Char('C'))
}

/// Whether a key press is Control-C.
pub fn quit_key(k: &KeyPress) -> (r: bool)
    ensures
        r == is_quit_key(*k),
{
    k.ctrl && match k.code {
        KeyCode::Char(c) => c == 'c' || c == 'C',
        _ => false,
    }
}

} // verus!
