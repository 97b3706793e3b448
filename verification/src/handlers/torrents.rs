//! The table of jobs.

use vstd::prelude::*;
use crate::api::ApiEvent;
use crate::app::{Action, App, Notification, PubState, Route, TorrentsTable};
use crate::handlers::{
    find_line, is_down, is_plain, is_plain_char, is_shift_char, is_up, line_hit, picked,
};
use crate::input::{Effect, KeyCode, KeyEvent, KeyModifiers, MouseEvent, MouseEventKind, PathProbe};
use crate::model::TorrentInfo;

verus! {

/// Two clicks of the left button no further apart than this many
/// milliseconds are a double click.
pub const DOUBLE_CLICK_MS: u64 = 500;

/// The rows of the table start this many rows below the top of its area.
pub const TABLE_TOP: u8 = 3;

/// The snapshot with another row of the table chosen.
pub open spec fn with_row(app: App, selected: Option<usize>) -> App {
    App {
        torrents_table: TorrentsTable {
            state: PubState { selected, ..app.torrents_table.state },
            items: app.torrents_table.items,
        },
        ..app
    }
}

/// The intent that pauses the job if it runs, and resumes it if not.
pub open spec fn toggled(torrent: TorrentInfo) -> ApiEvent {
    if torrent.state.is_paused() {
        ApiEvent::Resume(torrent.hash)
    } else {
        ApiEvent::Pause(torrent.hash)
    }
}

/// What a key does to the snapshot in the table of jobs. Keys that act on a
/// job do nothing where none is chosen.
pub open spec fn after_key(before: App, key: KeyEvent) -> App {
    let len = before.torrents_table.items@.len();
    if is_plain(key, KeyCode::F(1)) || is_plain_char(key, '?') {
        App { on_help_route: Some(before.current_route), current_route: Route::Help, ..before }
    } else if is_plain_char(key, 'q') || is_plain(key, KeyCode::Esc) {
        App { is_running: false, ..before }
    } else if is_down(key) {
        with_row(before, Some(before.torrents_table.state.next_index(len) as usize))
    } else if is_up(key) {
        with_row(before, Some(before.torrents_table.state.prev_index(len) as usize))
    } else if is_plain_char(key, '/') {
        App { current_route: Route::Search, ..before }
    } else if is_plain_char(key, 'c') {
        App { current_route: Route::Categories, ..before }
    } else if is_plain_char(key, 't') {
        App { current_route: Route::Sort, ..before }
    } else if is_plain_char(key, 'i') {
        match before.selected_torrent() {
            Some(torrent) => App {
                current_torrent: Some(torrent),
                current_route: Route::Info,
                ..before
            },
            None => before,
        }
    } else if is_plain_char(key, 'o') || is_plain(key, KeyCode::Enter) {
        match before.selected_torrent() {
            Some(torrent) => App { current_torrent: Some(torrent), ..before },
            None => before,
        }
    } else if is_plain_char(key, 'x') {
        match before.selected_torrent() {
            Some(_) => App {
                current_action: Some(Action::Delete),
                confirm: false,
                current_route: Route::Dialog,
                ..before
            },
            None => before,
        }
    } else if is_shift_char(key, 'X') {
        match before.selected_torrent() {
            Some(_) => App {
                current_action: Some(Action::DeleteFiles),
                confirm: false,
                current_route: Route::Dialog,
                ..before
            },
            None => before,
        }
    } else {
        before
    }
}

/// What a key in the table of jobs asks of the caller.
pub open spec fn effect_of_key(before: App, key: KeyEvent) -> Effect {
    if is_plain_char(key, 'r') {
        Effect::Send(ApiEvent::Reload)
    } else {
        match before.selected_torrent() {
            Some(torrent) => if is_plain_char(key, 'o') || is_plain(key, KeyCode::Enter) {
                Effect::ProbeContent { path: torrent.content_path, hash: torrent.hash }
            } else if is_plain_char(key, ' ') {
                Effect::Send(toggled(torrent))
            } else if is_plain_char(key, 'p') {
                Effect::Send(ApiEvent::Pause(torrent.hash))
            } else if is_plain_char(key, 's') {
                Effect::Send(ApiEvent::Resume(torrent.hash))
            } else if is_shift_char(key, 'O') {
                Effect::ProbeFolder { path: torrent.content_path }
            } else {
                Effect::Nothing
            },
            None => Effect::Nothing,
        }
    }
}

fn show_info(app: &mut App)
    ensures
        *final(app) == after_key(
            *old(app),
            KeyEvent { code: KeyCode::Char('i'), modifiers: KeyModifiers::Plain },
        ),
{
    let chosen = match app.get_selected_torrent() {
        Some(torrent) => Some(torrent.clone()),
        None => None,
    };
    if chosen.is_some() {
        app.current_torrent = chosen;
        app.current_route = Route::Info;
    }
}

fn begin_open(app: &mut App) -> (effect: Effect)
    ensures
        *final(app) == after_key(
            *old(app),
            KeyEvent { code: KeyCode::Enter, modifiers: KeyModifiers::Plain },
        ),
        effect == effect_of_key(
            *old(app),
            KeyEvent { code: KeyCode::Enter, modifiers: KeyModifiers::Plain },
        ),
{
    let chosen = match app.get_selected_torrent() {
        Some(torrent) => Some(torrent.clone()),
        None => None,
    };
    match chosen {
        Some(torrent) => {
            let effect = Effect::ProbeContent {
                path: torrent.content_path.clone(),
                hash: torrent.hash.clone(),
            };
            app.current_torrent = Some(torrent);
            effect
        },
        None => Effect::Nothing,
    }
}

fn ask(app: &mut App, action: Action)
    ensures
        *final(app) == (match old(app).selected_torrent() {
            Some(_) => App {
                current_action: Some(action),
                confirm: false,
                current_route: Route::Dialog,
                ..*old(app)
            },
            None => *old(app),
        }),
{
    if app.get_selected_torrent().is_some() {
        app.set_current_action(action);
    }
}

fn act_on_chosen(app: &App, key_event: KeyEvent) -> (effect: Effect)
    requires
        is_plain_char(key_event, ' ') || is_plain_char(key_event, 'p') || is_plain_char(
            key_event,
            's',
        ) || is_shift_char(key_event, 'O'),
    ensures
        effect == effect_of_key(*app, key_event),
{
    match app.get_selected_torrent() {
        Some(torrent) => match key_event.code {
            KeyCode::Char(' ') => {
                if torrent.is_running() {
                    Effect::Send(ApiEvent::Pause(torrent.hash.clone()))
                } else {
                    Effect::Send(ApiEvent::Resume(torrent.hash.clone()))
                }
            },
            KeyCode::Char('p') => Effect::Send(ApiEvent::Pause(torrent.hash.clone())),
            KeyCode::Char('s') => Effect::Send(ApiEvent::Resume(torrent.hash.clone())),
            _ => Effect::ProbeFolder { path: torrent.content_path.clone() },
        },
        None => Effect::Nothing,
    }
}

/// Takes a key in the table of jobs.
pub fn handle_key_event(key_event: KeyEvent, app: &mut App) -> (effect: Effect)
    ensures
        *final(app) == after_key(*old(app), key_event),
        effect == effect_of_key(*old(app), key_event),
{
    match key_event.modifiers {
        KeyModifiers::Plain => match key_event.code {
            KeyCode::F(1) | KeyCode::Char('?') => {
                app.on_help_route = Some(app.current_route);
                app.current_route = Route::Help;
                Effect::Nothing
            },
            KeyCode::Char('q') | KeyCode::Esc => {
                app.is_running = false;
                Effect::Nothing
            },
            KeyCode::Char('j') | KeyCode::Down => {
                next_torrent(app);
                Effect::Nothing
            },
            KeyCode::Char('k') | KeyCode::Up => {
                prev_torrent(app);
                Effect::Nothing
            },
            KeyCode::Char('/') => {
                app.current_route = Route::Search;
                Effect::Nothing
            },
            KeyCode::Char('c') => {
                app.current_route = Route::Categories;
                Effect::Nothing
            },
            KeyCode::Char('i') => {
                show_info(app);
                Effect::Nothing
            },
            KeyCode::Char('o') | KeyCode::Enter => begin_open(app),
            KeyCode::Char('r') => Effect::Send(ApiEvent::Reload),
            KeyCode::Char(' ') | KeyCode::Char('p') | KeyCode::Char('s') => act_on_chosen(
                app,
                key_event,
            ),
            KeyCode::Char('x') => {
                ask(app, Action::Delete);
                Effect::Nothing
            },
            KeyCode::Char('t') => {
                app.current_route = Route::Sort;
                Effect::Nothing
            },
            _ => Effect::Nothing,
        },
        KeyModifiers::Shift => match key_event.code {
            KeyCode::Char('O') => act_on_chosen(app, key_event),
            KeyCode::Char('X') => {
                ask(app, Action::DeleteFiles);
                Effect::Nothing
            },
            _ => Effect::Nothing,
        },
        KeyModifiers::Other => Effect::Nothing,
    }
}

/// What the content of a job is like decides how it is opened: a file is
/// opened, the files of a folder are asked for, and what is not there is
/// reported as not found.
pub open spec fn content_opened(before: App, probe: PathProbe) -> App {
    if probe.exists {
        before
    } else {
        App { notification: Some(Notification::FileNotFound), ..before }
    }
}

/// Takes what a look at the content of a job found, after `handle_key_event`
/// or `handle_mouse_event` asked for it.
pub fn open_content(app: &mut App, probe: PathProbe, path: String, hash: String) -> (effect: Effect)
    ensures
        *final(app) == content_opened(*old(app), probe),
        effect == if probe.exists {
            if probe.is_file {
                Effect::Open(path)
            } else {
                Effect::Send(ApiEvent::Files(hash))
            }
        } else {
            Effect::Nothing
        },
{
    if probe.exists {
        if probe.is_file {
            Effect::Open(path)
        } else {
            Effect::Send(ApiEvent::Files(hash))
        }
    } else {
        app.notification = Some(Notification::FileNotFound);
        Effect::Nothing
    }
}

/// Takes what a look at the content of a job found, after `handle_key_event`
/// asked for it to open the job's folder: a folder is opened itself, of
/// anything else the folder that holds it, and where that is not there
/// either it is reported as not found.
pub fn open_folder(app: &mut App, probe: PathProbe, path: String) -> (effect: Effect)
    ensures
        *final(app) == (if (probe.is_dir && probe.exists) || probe.parent_exists {
            *old(app)
        } else {
            App { notification: Some(Notification::FileNotFound), ..*old(app) }
        }),
        effect == if probe.is_dir && probe.exists {
            Effect::Open(path)
        } else if probe.parent_exists {
            Effect::OpenParent(path)
        } else {
            Effect::Nothing
        },
{
    if probe.is_dir && probe.exists {
        Effect::Open(path)
    } else if probe.parent_exists {
        Effect::OpenParent(path)
    } else {
        app.notification = Some(Notification::FileNotFound);
        Effect::Nothing
    }
}

/// The time between the last click and `now`, if the clock did not go back.
pub open spec fn since_click(before: App, now: u64) -> Option<int> {
    if now >= before.left_click_ts {
        Some(now - before.left_click_ts)
    } else {
        None
    }
}

/// The snapshot after a click of the left button, before the click is looked
/// at as the second of a double click: the click is noted, and the row that
/// it lies on is chosen, if it lies on one.
pub open spec fn clicked(before: App, mouse: MouseEvent, now: u64) -> App {
    let noted = App { left_click: (mouse.column, mouse.row), left_click_ts: now, ..before };
    match before.torrents_table_rect {
        Some(area) => App {
            torrents_table: TorrentsTable {
                state: picked(
                    before.torrents_table.state,
                    line_hit(
                        area,
                        TABLE_TOP as int,
                        mouse.column,
                        mouse.row,
                        before.torrents_table.state.offset,
                        before.torrents_table.items@.len(),
                    ),
                ),
                items: before.torrents_table.items,
            },
            ..noted
        },
        None => noted,
    }
}

/// Whether a click of the left button lies in the rows of the table.
pub open spec fn in_table(before: App, mouse: MouseEvent) -> bool {
    before.torrents_table_rect matches Some(area) && crate::handlers::hits_line(
        area,
        TABLE_TOP as int,
        mouse.column,
        mouse.row,
    )
}

/// Whether a click of the left button in the rows of the table is the second
/// of a double click on the job whose files or details were shown last.
pub open spec fn is_double_click(before: App, mouse: MouseEvent, now: u64) -> bool {
    &&& since_click(before, now) matches Some(elapsed)
    &&& elapsed <= DOUBLE_CLICK_MS
    &&& clicked(before, mouse, now).selected_torrent() matches Some(chosen)
    &&& before.current_torrent matches Some(current)
    &&& chosen.hash@ == current.hash@
}

/// What the mouse does to the snapshot in the table of jobs: a click of the
/// left button is noted, chooses the row that it lies on, and makes the
/// chosen job the one whose files or details are shown.
pub open spec fn after_mouse(before: App, mouse: MouseEvent, now: u64) -> App {
    if mouse.kind != MouseEventKind::LeftDown {
        before
    } else if !in_table(before, mouse) {
        clicked(before, mouse, now)
    } else {
        match clicked(before, mouse, now).selected_torrent() {
            Some(chosen) => App { current_torrent: Some(chosen), ..clicked(before, mouse, now) },
            None => clicked(before, mouse, now),
        }
    }
}

/// What the mouse in the table of jobs asks of the caller: a double click
/// asks to open the content of the job.
pub open spec fn effect_of_mouse(before: App, mouse: MouseEvent, now: u64) -> Effect {
    if mouse.kind == MouseEventKind::LeftDown && in_table(before, mouse) && is_double_click(
        before,
        mouse,
        now,
    ) {
        let chosen = clicked(before, mouse, now).selected_torrent()->0;
        Effect::ProbeContent { path: chosen.content_path, hash: chosen.hash }
    } else {
        Effect::Nothing
    }
}

fn note_click(app: &mut App, mouse_event: MouseEvent, now: u64) -> (in_rows: bool)
    ensures
        *final(app) == clicked(*old(app), mouse_event, now),
        in_rows == in_table(*old(app), mouse_event),
{
    app.left_click = (mouse_event.column, mouse_event.row);
    app.left_click_ts = now;
    match app.torrents_table_rect {
        Some(area) => {
            let line = find_line(
                area,
                TABLE_TOP,
                mouse_event.column,
                mouse_event.row,
                app.torrents_table.state.offset,
                app.torrents_table.items.len(),
            );
            if let Some(i) = line {
                app.torrents_table.state.selected = Some(i);
            }
            let row_start: u32 = area.y as u32 + TABLE_TOP as u32;
            mouse_event.column as u32 >= area.x as u32 + 1 && mouse_event.column as u32
                <= area.x as u32 + area.width as u32 && mouse_event.row as u32 >= row_start
        },
        None => false,
    }
}

/// Takes what the mouse did in the table of jobs; `now` is the time in
/// milliseconds.
pub fn handle_mouse_event(mouse_event: MouseEvent, app: &mut App, now: u64) -> (effect: Effect)
    ensures
        *final(app) == after_mouse(*old(app), mouse_event, now),
        effect == effect_of_mouse(*old(app), mouse_event, now),
{
    match mouse_event.kind {
        MouseEventKind::LeftDown => {},
        MouseEventKind::Other => {
            return Effect::Nothing;
        },
    }
    let quick = now >= app.left_click_ts && now - app.left_click_ts <= DOUBLE_CLICK_MS;
    if !note_click(app, mouse_event, now) {
        return Effect::Nothing;
    }
    let chosen = match app.get_selected_torrent() {
        Some(torrent) => Some(torrent.clone()),
        None => None,
    };
    match chosen {
        Some(torrent) => {
            let double = quick && match &app.current_torrent {
                Some(current) => torrent.hash == current.hash,
                None => false,
            };
            let effect = if double {
                Effect::ProbeContent {
                    path: torrent.content_path.clone(),
                    hash: torrent.hash.clone(),
                }
            } else {
                Effect::Nothing
            };
            app.current_torrent = Some(torrent);
            effect
        },
        None => Effect::Nothing,
    }
}

/// Chooses the row below the chosen one, the first below the last.
pub fn next_torrent(app: &mut App)
    ensures
        *final(app) == with_row(
            *old(app),
            Some(
                old(app).torrents_table.state.next_index(old(app).torrents_table.items@.len()) as usize,
            ),
        ),
{
    let len = app.torrents_table.items.len();
    app.torrents_table.state.select_next(len);
}

/// Chooses the row above the chosen one, the last above the first.
pub fn prev_torrent(app: &mut App)
    ensures
        *final(app) == with_row(
            *old(app),
            Some(
                old(app).torrents_table.state.prev_index(old(app).torrents_table.items@.len()) as usize,
            ),
        ),
{
    let len = app.torrents_table.items.len();
    app.torrents_table.state.select_prev(len);
}

} // verus!
