//! The page of details of a job.

use vstd::prelude::*;
use crate::app::{App, Route, ScrollableTextState};
use crate::handlers::{is_plain, is_plain_char, scroll_by_key, scrolled};
use crate::input::{KeyCode, KeyEvent, KeyModifiers};

verus! {

/// What a key does to the snapshot in the details of a job: the table of
/// jobs comes back, or the text is scrolled.
pub open spec fn after_key(before: App, key: KeyEvent) -> App {
    if is_plain_char(key, 'q') || is_plain(key, KeyCode::Esc) {
        App { current_route: Route::Torrents, ..before }
    } else {
        App {
            info_state: ScrollableTextState {
                scroll: scrolled(before.info_state.scroll, key),
                ..before.info_state
            },
            ..before
        }
    }
}

/// Takes a key in the details of a job.
pub fn handle_key_event(key_event: KeyEvent, app: &mut App)
    ensures
        *final(app) == after_key(*old(app), key_event),
{
    match key_event.modifiers {
        KeyModifiers::Plain => match key_event.code {
            KeyCode::Char('q') | KeyCode::Esc => {
                app.current_route = Route::Torrents;
                return ;
            },
            _ => {},
        },
        _ => {},
    }
    scroll_by_key(&mut app.info_state, key_event);
}

} // verus!
