//! The list of categories.

use vstd::prelude::*;
use crate::app::{App, AppListState, PubState, Route, TorrentsTable};
use crate::handlers::{find_line, is_down, is_plain, is_plain_char, is_up, line_hit, picked};
use crate::input::{KeyCode, KeyEvent, KeyModifiers, MouseEvent, MouseEventKind};

verus! {

/// The lines of the list start this many rows below the top of its area.
pub const LIST_TOP: u8 = 1;

/// The snapshot with another state of the list of categories.
pub open spec fn with_state(app: App, state: PubState) -> App {
    App { categories_list: AppListState { state, items: app.categories_list.items }, ..app }
}

/// The snapshot after the chosen line of the list has become the filter: no
/// job is chosen then. Nothing changes where no line is chosen.
pub open spec fn chosen(app: App) -> App {
    match app.categories_list.state.selected {
        Some(i) => App {
            selected_category: App::category_at(i),
            torrents_table: TorrentsTable {
                state: PubState { offset: 0, selected: None },
                items: app.torrents_table.items,
            },
            ..app
        },
        None => app,
    }
}

/// What a key does to the snapshot in the list of categories.
pub open spec fn after_key(before: App, key: KeyEvent) -> App {
    let len = before.categories_list.items@.len();
    if is_plain_char(key, 'q') || is_plain_char(key, 'c') || is_plain(key, KeyCode::Esc) {
        App { current_route: Route::Torrents, ..before }
    } else if is_down(key) {
        with_state(
            before,
            PubState {
                selected: Some(before.categories_list.state.next_index(len) as usize),
                ..before.categories_list.state
            },
        )
    } else if is_up(key) {
        with_state(
            before,
            PubState {
                selected: Some(before.categories_list.state.prev_index(len) as usize),
                ..before.categories_list.state
            },
        )
    } else if is_plain(key, KeyCode::Enter) {
        App { current_route: Route::Torrents, ..chosen(before) }
    } else {
        before
    }
}

/// Takes a key in the list of categories.
pub fn handle_key_event(key_event: KeyEvent, app: &mut App)
    ensures
        *final(app) == after_key(*old(app), key_event),
{
    match key_event.modifiers {
        KeyModifiers::Plain => match key_event.code {
            KeyCode::Char('q') | KeyCode::Char('c') | KeyCode::Esc => {
                app.current_route = Route::Torrents;
            },
            KeyCode::Char('j') | KeyCode::Down => {
                next_category(app);
            },
            KeyCode::Char('k') | KeyCode::Up => {
                prev_category(app);
            },
            KeyCode::Enter => {
                app.choose_selected_category();
                app.current_route = Route::Torrents;
            },
            _ => {},
        },
        _ => {},
    }
}

/// What the mouse does to the snapshot in the list of categories: a click of
/// the left button is noted, and a click on a line makes that line the
/// filter and brings the table of jobs to the front.
pub open spec fn after_mouse(before: App, mouse: MouseEvent) -> App {
    if mouse.kind != MouseEventKind::LeftDown {
        before
    } else {
        let noted = App { left_click: (mouse.column, mouse.row), ..before };
        match before.categories_list_rect {
            Some(area) => match line_hit(
                area,
                LIST_TOP as int,
                mouse.column,
                mouse.row,
                before.categories_list.state.offset,
                before.categories_list.items@.len(),
            ) {
                Some(i) => App {
                    current_route: Route::Torrents,
                    ..chosen(with_state(noted, picked(before.categories_list.state, Some(i))))
                },
                None => noted,
            },
            None => noted,
        }
    }
}

/// Takes what the mouse did in the list of categories.
pub fn handle_mouse_event(mouse_event: MouseEvent, app: &mut App)
    ensures
        *final(app) == after_mouse(*old(app), mouse_event),
{
    match mouse_event.kind {
        MouseEventKind::LeftDown => {},
        MouseEventKind::Other => {
            return ;
        },
    }
    app.left_click = (mouse_event.column, mouse_event.row);
    if let Some(area) = app.categories_list_rect {
        let line = find_line(
            area,
            LIST_TOP,
            mouse_event.column,
            mouse_event.row,
            app.categories_list.state.offset,
            app.categories_list.items.len(),
        );
        if let Some(i) = line {
            app.categories_list.state.select(Some(i));
            app.choose_selected_category();
            app.current_route = Route::Torrents;
        }
    }
}

/// Chooses the line below the chosen one, the first below the last.
pub fn next_category(app: &mut App)
    ensures
        *final(app) == with_state(
            *old(app),
            PubState {
                selected: Some(
                    old(app).categories_list.state.next_index(
                        old(app).categories_list.items@.len(),
                    ) as usize,
                ),
                ..old(app).categories_list.state
            },
        ),
{
    let len = app.categories_list.items.len();
    app.categories_list.state.select_next(len);
}

/// Chooses the line above the chosen one, the last above the first.
pub fn prev_category(app: &mut App)
    ensures
        *final(app) == with_state(
            *old(app),
            PubState {
                selected: Some(
                    old(app).categories_list.state.prev_index(
                        old(app).categories_list.items@.len(),
                    ) as usize,
                ),
                ..old(app).categories_list.state
            },
        ),
{
    let len = app.categories_list.items.len();
    app.categories_list.state.select_prev(len);
}

} // verus!
