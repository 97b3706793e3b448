//! The list of the files of a job.

use vstd::prelude::*;
use crate::app::{App, AppListState, Notification, PubState, Route};
use crate::handlers::{is_down, is_plain, is_plain_char, is_up};
use crate::input::{Effect, KeyCode, KeyEvent, KeyModifiers};
use crate::model::TorrentFile;

verus! {

/// The snapshot with another state of the list of files.
pub open spec fn with_state(app: App, state: PubState) -> App {
    App { files_list: AppListState { state, items: app.files_list.items }, ..app }
}

/// What a key does to the snapshot in the list of files.
pub open spec fn after_key(before: App, key: KeyEvent) -> App {
    let len = before.files_list.items@.len();
    if is_plain_char(key, 'q') || is_plain(key, KeyCode::Esc) {
        App { current_torrent_files: None, current_route: Route::Torrents, ..before }
    } else if is_down(key) {
        with_state(
            before,
            PubState {
                selected: Some(before.files_list.state.next_index(len) as usize),
                ..before.files_list.state
            },
        )
    } else if is_up(key) {
        with_state(
            before,
            PubState {
                selected: Some(before.files_list.state.prev_index(len) as usize),
                ..before.files_list.state
            },
        )
    } else {
        before
    }
}

/// The file that is chosen in the list, if one is and the files of a job are
/// known.
pub open spec fn chosen_file(app: App) -> Option<TorrentFile> {
    match (app.files_list.state.selected, app.current_torrent_files) {
        (Some(i), Some(files)) => if i < files@.len() {
            Some(files@[i as int])
        } else {
            None
        },
        _ => None,
    }
}

/// What a key in the list of files asks of the caller: the key that opens
/// asks to look for the chosen file, unless the service runs on another
/// machine.
pub open spec fn effect_of_key(before: App, key: KeyEvent) -> Effect {
    if (is_plain_char(key, 'o') || is_plain(key, KeyCode::Enter)) && !before.remote {
        match (chosen_file(before), before.current_torrent) {
            (Some(file), Some(torrent)) => Effect::ProbeFile {
                content_path: torrent.content_path,
                name: file.name,
            },
            _ => Effect::Nothing,
        }
    } else {
        Effect::Nothing
    }
}

fn begin_open(app: &App) -> (effect: Effect)
    ensures
        effect == (match (chosen_file(*app), app.current_torrent) {
            (Some(file), Some(torrent)) => Effect::ProbeFile {
                content_path: torrent.content_path,
                name: file.name,
            },
            _ => Effect::Nothing,
        }),
{
    match (app.files_list.state.selected(), &app.current_torrent_files, &app.current_torrent) {
        (Some(i), Some(files), Some(torrent)) => {
            if i < files.len() {
                Effect::ProbeFile {
                    content_path: torrent.content_path.clone(),
                    name: files[i].name.clone(),
                }
            } else {
                Effect::Nothing
            }
        },
        _ => Effect::Nothing,
    }
}

/// Takes a key in the list of files.
pub fn handle_key_event(key_event: KeyEvent, app: &mut App) -> (effect: Effect)
    ensures
        *final(app) == after_key(*old(app), key_event),
        effect == effect_of_key(*old(app), key_event),
{
    match key_event.modifiers {
        KeyModifiers::Plain => match key_event.code {
            KeyCode::Char('q') | KeyCode::Esc => {
                app.current_torrent_files = None;
                app.current_route = Route::Torrents;
                Effect::Nothing
            },
            KeyCode::Char('j') | KeyCode::Down => {
                next_file(app);
                Effect::Nothing
            },
            KeyCode::Char('k') | KeyCode::Up => {
                prev_file(app);
                Effect::Nothing
            },
            KeyCode::Char('o') | KeyCode::Enter => {
                if !app.remote {
                    begin_open(app)
                } else {
                    Effect::Nothing
                }
            },
            _ => Effect::Nothing,
        },
        _ => Effect::Nothing,
    }
}

/// Takes what a look for a file found, after `handle_key_event` asked for
/// it; `path` is where the file was looked for. A file that is there is
/// opened; one that is not is reported as not found.
pub fn open_file(app: &mut App, found: bool, path: String) -> (effect: Effect)
    ensures
        *final(app) == (if found {
            *old(app)
        } else {
            App { notification: Some(Notification::FileNotFound), ..*old(app) }
        }),
        effect == if found {
            Effect::Open(path)
        } else {
            Effect::Nothing
        },
{
    if found {
        Effect::Open(path)
    } else {
        app.notification = Some(Notification::FileNotFound);
        Effect::Nothing
    }
}

/// Chooses the line below the chosen one, the first below the last.
pub fn next_file(app: &mut App)
    ensures
        *final(app) == with_state(
            *old(app),
            PubState {
                selected: Some(
                    old(app).files_list.state.next_index(old(app).files_list.items@.len()) as usize,
                ),
                ..old(app).files_list.state
            },
        ),
{
    let len = app.files_list.items.len();
    app.files_list.state.select_next(len);
}

/// Chooses the line above the chosen one, the last above the first.
pub fn prev_file(app: &mut App)
    ensures
        *final(app) == with_state(
            *old(app),
            PubState {
                selected: Some(
                    old(app).files_list.state.prev_index(old(app).files_list.items@.len()) as usize,
                ),
                ..old(app).files_list.state
            },
        ),
{
    let len = app.files_list.items.len();
    app.files_list.state.select_prev(len);
}

} // verus!
