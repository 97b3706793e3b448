//! The question before a deletion.

use vstd::prelude::*;
use crate::api::ApiEvent;
use crate::app::{App, Route};
use crate::handlers::{is_plain, is_plain_char};
use crate::input::{KeyCode, KeyEvent, KeyModifiers};

verus! {

/// Whether the key moves between the two answers.
pub open spec fn is_switch(key: KeyEvent) -> bool {
    is_plain_char(key, 'h') || is_plain_char(key, 'l') || is_plain(key, KeyCode::Left) || is_plain(
        key,
        KeyCode::Right,
    )
}

/// What a key does to the snapshot while the question stands.
pub open spec fn after_key(before: App, key: KeyEvent) -> App {
    if is_plain_char(key, 'q') || is_plain(key, KeyCode::Esc) {
        App { current_action: None, confirm: false, current_route: Route::Torrents, ..before }
    } else if is_switch(key) {
        App { confirm: !before.confirm, ..before }
    } else if is_plain(key, KeyCode::Enter) && before.selected_torrent() is Some {
        App { current_action: None, confirm: false, current_route: Route::Torrents, ..before }
    } else {
        before
    }
}

/// The intent that a key gives while the question stands: the return key
/// carries out what was asked, on the chosen job.
pub open spec fn intent_of_key(before: App, key: KeyEvent) -> Option<ApiEvent> {
    if is_plain(key, KeyCode::Enter) {
        match before.selected_torrent() {
            Some(torrent) => App::intent_of(before.current_action, torrent),
            None => None,
        }
    } else {
        None
    }
}

/// Takes a key while the question stands.
pub fn handle_key_event(key_event: KeyEvent, app: &mut App) -> (event: Option<ApiEvent>)
    ensures
        *final(app) == after_key(*old(app), key_event),
        event == intent_of_key(*old(app), key_event),
{
    match key_event.modifiers {
        KeyModifiers::Plain => match key_event.code {
            KeyCode::Char('q') | KeyCode::Esc => {
                app.reset_current_action();
                None
            },
            KeyCode::Char('h') | KeyCode::Char('l') | KeyCode::Left | KeyCode::Right => {
                app.confirm = !app.confirm;
                None
            },
            KeyCode::Enter => app.apply_current_action(),
            _ => None,
        },
        _ => None,
    }
}

} // verus!
