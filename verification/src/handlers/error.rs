//! The notice that the service cannot be reached.

use vstd::prelude::*;
use crate::api::ApiEvent;
use crate::app::App;
use crate::handlers::{is_plain, is_plain_char};
use crate::input::{KeyCode, KeyEvent, KeyModifiers};

verus! {

/// What a key does to the snapshot while the service cannot be reached: the
/// program can be ended, and nothing else.
pub open spec fn after_key(before: App, key: KeyEvent) -> App {
    if is_plain_char(key, 'q') || is_plain(key, KeyCode::Esc) {
        App { is_running: false, ..before }
    } else {
        before
    }
}

/// Takes a key while the service cannot be reached: gives the intent to
/// fetch everything for the key that tries again.
pub fn handle_key_event(key_event: KeyEvent, app: &mut App) -> (event: Option<ApiEvent>)
    ensures
        *final(app) == after_key(*old(app), key_event),
        event == if is_plain_char(key_event, 'r') {
            Some(ApiEvent::Reload)
        } else {
            None
        },
{
    match key_event.modifiers {
        KeyModifiers::Plain => match key_event.code {
            KeyCode::Char('q') | KeyCode::Esc => {
                app.is_running = false;
                None
            },
            KeyCode::Char('r') => Some(ApiEvent::Reload),
            _ => None,
        },
        _ => None,
    }
}

} // verus!
