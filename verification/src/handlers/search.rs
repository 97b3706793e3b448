//! The line of the search.

use vstd::prelude::*;
use crate::app::{App, PubState, Route, TorrentsTable};
use crate::handlers::is_plain;
use crate::input::{KeyCode, KeyEvent, KeyModifiers};
use crate::text::{pop_char, push_char};

verus! {

/// The text of the search after a key: a character is put at its end, the
/// key that deletes takes the last one away, the key that leaves without a
/// search empties it, and any other key leaves it.
pub open spec fn text_after(text: Seq<char>, key: KeyEvent) -> Seq<char> {
    if key.modifiers == KeyModifiers::Other {
        text
    } else {
        match key.code {
            KeyCode::Char(c) => text.push(c),
            KeyCode::Backspace => if key.modifiers == KeyModifiers::Plain && text.len() > 0 {
                text.drop_last()
            } else {
                text
            },
            KeyCode::Esc => if key.modifiers == KeyModifiers::Plain {
                Seq::empty()
            } else {
                text
            },
            _ => text,
        }
    }
}

/// Whether the key ends the search, with or without its text.
pub open spec fn leaves(key: KeyEvent) -> bool {
    is_plain(key, KeyCode::Esc) || is_plain(key, KeyCode::Enter)
}

/// What a key does to the snapshot in the line of the search. A key that
/// ends the search brings the table of jobs to the front and chooses the
/// first of the jobs that are then shown, if any is.
pub open spec fn is_after_key(before: App, key: KeyEvent, after: App) -> bool {
    let typed = App { search_value: after.search_value, ..before };
    &&& after.search_value@ == text_after(before.search_value@, key)
    &&& if leaves(key) {
        let left = App { current_route: Route::Torrents, ..typed };
        if left.visible().len() > 0 {
            after == (App {
                torrents_table: TorrentsTable {
                    state: PubState { selected: Some(0), ..before.torrents_table.state },
                    items: before.torrents_table.items,
                },
                ..left
            })
        } else {
            after == left
        }
    } else {
        after == typed
    }
}

/// Takes a key in the line of the search.
pub fn handle_key_event(key_event: KeyEvent, app: &mut App)
    ensures
        is_after_key(*old(app), key_event, *final(app)),
{
    match key_event.modifiers {
        KeyModifiers::Plain => match key_event.code {
            KeyCode::Esc => {
                app.search_value = String::new();
                app.current_route = Route::Torrents;
                app.select_first_torrent();
            },
            KeyCode::Enter => {
                app.current_route = Route::Torrents;
                app.select_first_torrent();
            },
            KeyCode::Backspace => {
                let _ = pop_char(&mut app.search_value);
            },
            KeyCode::Char(c) => {
                push_char(&mut app.search_value, c);
            },
            _ => {},
        },
        KeyModifiers::Shift => match key_event.code {
            KeyCode::Char(c) => {
                push_char(&mut app.search_value, c);
            },
            _ => {},
        },
        KeyModifiers::Other => {},
    }
}

} // verus!
