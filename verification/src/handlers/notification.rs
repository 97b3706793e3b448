//! A notice to the user.

use vstd::prelude::*;
use crate::app::App;
use crate::handlers::{is_plain, is_plain_char};
use crate::input::{KeyCode, KeyEvent, KeyModifiers};

verus! {

/// Whether the key puts a notice away.
pub open spec fn dismisses(key: KeyEvent) -> bool {
    is_plain_char(key, 'q') || is_plain(key, KeyCode::Esc) || is_plain(key, KeyCode::Enter)
}

/// Takes a key while a notice is shown.
pub fn handle_key_event(key_event: KeyEvent, app: &mut App)
    ensures
        *final(app) == (if dismisses(key_event) {
            App { notification: None, ..*old(app) }
        } else {
            *old(app)
        }),
{
    match key_event.modifiers {
        KeyModifiers::Plain => match key_event.code {
            KeyCode::Char('q') | KeyCode::Esc | KeyCode::Enter => {
                app.notification = None;
            },
            _ => {},
        },
        _ => {},
    }
}

} // verus!
