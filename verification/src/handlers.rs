//! What a key or a click does in each view.

use vstd::prelude::*;
use crate::app::{PubState, Rect, ScrollableTextState};
use crate::input::{KeyCode, KeyEvent, KeyModifiers};

pub mod categories;
pub mod dialog;
pub mod error;
pub mod files;
pub mod help;
pub mod info;
pub mod notification;
pub mod search;
pub mod sort;
pub mod torrents;

verus! {

/// Whether the key gives the character `c` with no other key held.
pub open spec fn is_plain_char(key: KeyEvent, c: char) -> bool {
    key.modifiers == KeyModifiers::Plain && key.code == KeyCode::Char(c)
}

/// Whether the key is `code` with no other key held.
pub open spec fn is_plain(key: KeyEvent, code: KeyCode) -> bool {
    key.modifiers == KeyModifiers::Plain && key.code == code
}

/// Whether the key gives the character `c` with shift held.
pub open spec fn is_shift_char(key: KeyEvent, c: char) -> bool {
    key.modifiers == KeyModifiers::Shift && key.code == KeyCode::Char(c)
}

/// Whether the key moves the choice one line down.
pub open spec fn is_down(key: KeyEvent) -> bool {
    is_plain_char(key, 'j') || is_plain(key, KeyCode::Down)
}

/// Whether the key moves the choice one line up.
pub open spec fn is_up(key: KeyEvent) -> bool {
    is_plain_char(key, 'k') || is_plain(key, KeyCode::Up)
}

/// How far a text is scrolled after a key: one line down or up for the keys
/// that move a choice, ten lines for their capitals, never above the top nor
/// beyond what the count can hold; any other key leaves it.
pub open spec fn scrolled(scroll: u16, key: KeyEvent) -> u16 {
    if is_down(key) {
        if scroll < u16::MAX {
            (scroll + 1) as u16
        } else {
            scroll
        }
    } else if is_up(key) {
        if scroll >= 1 {
            (scroll - 1) as u16
        } else {
            scroll
        }
    } else if is_shift_char(key, 'J') {
        if scroll + 10 <= u16::MAX {
            (scroll + 10) as u16
        } else {
            u16::MAX
        }
    } else if is_shift_char(key, 'K') {
        if scroll >= 10 {
            (scroll - 10) as u16
        } else {
            0
        }
    } else {
        scroll
    }
}

/// Scrolls a text by a key.
pub fn scroll_by_key(state: &mut ScrollableTextState, key_event: KeyEvent)
    ensures
        final(state).scroll == scrolled(old(state).scroll, key_event),
        final(state).text_height == old(state).text_height,
{
    match key_event.modifiers {
        KeyModifiers::Plain => match key_event.code {
            KeyCode::Char('j') | KeyCode::Down => {
                state.scroll = state.scroll.saturating_add(1);
            },
            KeyCode::Char('k') | KeyCode::Up => {
                if state.scroll >= 1 {
                    state.scroll -= 1;
                }
            },
            _ => {},
        },
        KeyModifiers::Shift => match key_event.code {
            KeyCode::Char('J') => {
                state.scroll = state.scroll.saturating_add(10);
            },
            KeyCode::Char('K') => {
                if state.scroll >= 10 {
                    state.scroll -= 10;
                } else {
                    state.scroll = 0;
                }
            },
            _ => {},
        },
        KeyModifiers::Other => {},
    }
}

/// Whether a click in the cell at `column` and `row` lies on a line of the
/// list drawn in `area`, whose first line stands `top` rows below the top of
/// the area.
pub open spec fn hits_line(area: Rect, top: int, column: u16, row: u16) -> bool {
    column >= area.x + 1 && column <= area.x + area.width && row >= area.y + top
}

/// The line of the list that a click in `row` lies on, counted from the
/// first line of the list, `offset` being the first line shown.
pub open spec fn line_at(area: Rect, top: int, row: u16, offset: usize) -> int {
    row - (area.y + top) + offset
}

/// The line of a list of `len` lines that a click lies on, if it lies on
/// one.
pub open spec fn line_hit(
    area: Rect,
    top: int,
    column: u16,
    row: u16,
    offset: usize,
    len: nat,
) -> Option<usize> {
    if hits_line(area, top, column, row) && line_at(area, top, row, offset) < len {
        Some(line_at(area, top, row, offset) as usize)
    } else {
        None
    }
}

/// Finds the line of a list of `len` lines that a click lies on.
pub fn find_line(area: Rect, top: u8, column: u16, row: u16, offset: usize, len: usize) -> (line:
    Option<usize>)
    ensures
        line == line_hit(area, top as int, column, row, offset, len as nat),
{
    let row_start: u32 = area.y as u32 + top as u32;
    let col_start: u32 = area.x as u32 + 1;
    let col_end: u32 = area.x as u32 + area.width as u32;
    if column as u32 >= col_start && column as u32 <= col_end && row as u32 >= row_start {
        let down: usize = (row as u32 - row_start) as usize;
        if offset < len && down < len - offset {
            Some(down + offset)
        } else {
            None
        }
    } else {
        None
    }
}

/// The state of a list after a click: the line that the click lies on is
/// chosen, if it lies on one.
pub open spec fn picked(state: PubState, line: Option<usize>) -> PubState {
    match line {
        Some(i) => PubState { selected: Some(i), ..state },
        None => state,
    }
}

} // verus!
