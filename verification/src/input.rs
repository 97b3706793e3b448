//! What the keyboard and the mouse report, and what a handler asks of its
//! caller.

use vstd::prelude::*;
use crate::api::ApiEvent;

verus! {

/// A key, as far as the handlers tell keys apart.
#[derive(Clone, Copy, Debug, PartialEq, Eq, Structural)]
pub enum KeyCode {
    Backspace,
    Enter,
    Left,
    Right,
    Up,
    Down,
    Esc,
    /// A function key, by its number.
    F(u8),
    /// A key that gives a character.
    Char(char),
    /// Any other key.
    Other,
}

/// The keys held down with a key, as far as the handlers tell them apart.
#[derive(Clone, Copy, Debug, PartialEq, Eq, Structural)]
pub enum KeyModifiers {
    /// No other key is held.
    Plain,
    /// Shift is held, and nothing else.
    Shift,
    /// Anything else.
    Other,
}

/// A key that was pressed.
#[derive(Clone, Copy, Debug, PartialEq, Eq, Structural)]
pub struct KeyEvent {
    pub code: KeyCode,
    pub modifiers: KeyModifiers,
}

/// What the mouse did, as far as the handlers tell it apart.
#[derive(Clone, Copy, Debug, PartialEq, Eq, Structural)]
pub enum MouseEventKind {
    /// The left button went down.
    LeftDown,
    /// Anything else.
    Other,
}

/// What the mouse did, and in which cell.
#[derive(Clone, Copy, Debug, PartialEq, Eq, Structural)]
pub struct MouseEvent {
    pub kind: MouseEventKind,
    pub column: u16,
    pub row: u16,
}

/// What a look at a path found.
#[derive(Clone, Copy, Debug, PartialEq, Eq, Structural)]
pub struct PathProbe {
    /// Something is there.
    pub exists: bool,
    /// A file is there.
    pub is_file: bool,
    /// A folder is there.
    pub is_dir: bool,
    /// The folder that holds the path is there.
    pub parent_exists: bool,
}

/// What a handler asks of its caller.
#[derive(Debug, PartialEq, Eq)]
pub enum Effect {
    Nothing,
    /// Hand the intent to the dispatcher.
    Send(ApiEvent),
    /// Open what lies at the path.
    Open(String),
    /// Open the folder that holds the path.
    OpenParent(String),
    /// Look at the content of the job with this hash, which lies at the
    /// path, and hand what was found to `handlers::torrents::open_content`.
    ProbeContent { path: String, hash: String },
    /// Look at the path and hand what was found to
    /// `handlers::torrents::open_folder`.
    ProbeFolder { path: String },
    /// Look for the file with this name beside the content at the path, and
    /// hand what was found to `handlers::files::open_file`.
    ProbeFile { content_path: String, name: String },
}

} // verus!
