//! The page of help.

use vstd::prelude::*;
use crate::app::{App, ScrollableTextState};
use crate::handlers::{is_plain, is_plain_char, scroll_by_key, scrolled};
use crate::input::{KeyCode, KeyEvent, KeyModifiers};

verus! {

/// Whether the key leaves the help.
pub open spec fn leaves(key: KeyEvent) -> bool {
    is_plain(key, KeyCode::F(1)) || is_plain_char(key, 'q') || is_plain(key, KeyCode::Esc)
}

/// What a key does to the snapshot in the help: the view that the help was
/// called from comes back, or the text is scrolled. Where no view is noted
/// to come back to, the help stays.
pub open spec fn after_key(before: App, key: KeyEvent) -> App {
    if leaves(key) {
        match before.on_help_route {
            Some(route) => App { current_route: route, on_help_route: None, ..before },
            None => before,
        }
    } else {
        App {
            help_state: ScrollableTextState {
                scroll: scrolled(before.help_state.scroll, key),
                ..before.help_state
            },
            ..before
        }
    }
}

/// Takes a key in the help.
pub fn handle_key_event(key_event: KeyEvent, app: &mut App)
    ensures
        *final(app) == after_key(*old(app), key_event),
{
    match key_event.modifiers {
        KeyModifiers::Plain => match key_event.code {
            KeyCode::F(1) | KeyCode::Char('q') | KeyCode::Esc => {
                if let Some(route) = app.on_help_route {
                    app.current_route = route;
                    app.on_help_route = None;
                }
                return ;
            },
            _ => {},
        },
        _ => {},
    }
    scroll_by_key(&mut app.help_state, key_event);
}

} // verus!
