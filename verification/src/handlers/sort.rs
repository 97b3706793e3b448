//! The list of the columns to sort by.

use vstd::prelude::*;
use crate::app::{next_sort_order, sort_order_after, App, AppListState, PubState, Route};
use crate::handlers::{find_line, is_down, is_plain, is_plain_char, is_up, line_hit, picked};
use crate::input::{KeyCode, KeyEvent, KeyModifiers, MouseEvent, MouseEventKind};

verus! {

/// The lines of the list start this many rows below the top of its area.
pub const LIST_TOP: u8 = 1;

/// The snapshot with another state of the list of columns.
pub open spec fn with_state(app: App, state: PubState) -> App {
    App { sort_list: AppListState { state, items: app.sort_list.items }, ..app }
}

/// The snapshot after the direction of the column at line `i` has moved on:
/// the lines stand for the category, the name and the status, in this order,
/// and any other line for nothing.
pub open spec fn with_next_order(app: App, i: usize) -> App {
    if i == 0 {
        App { category_sort_order: sort_order_after(app.category_sort_order), ..app }
    } else if i == 1 {
        App { name_sort_order: sort_order_after(app.name_sort_order), ..app }
    } else if i == 2 {
        App { status_sort_order: sort_order_after(app.status_sort_order), ..app }
    } else {
        app
    }
}

/// What a key does to the snapshot in the list of columns.
pub open spec fn after_key(before: App, key: KeyEvent) -> App {
    let len = before.sort_list.items@.len();
    if is_plain_char(key, 'q') || is_plain_char(key, 't') || is_plain(key, KeyCode::Esc) {
        App { current_route: Route::Torrents, ..before }
    } else if is_down(key) {
        with_state(
            before,
            PubState {
                selected: Some(before.sort_list.state.next_index(len) as usize),
                ..before.sort_list.state
            },
        )
    } else if is_up(key) {
        with_state(
            before,
            PubState {
                selected: Some(before.sort_list.state.prev_index(len) as usize),
                ..before.sort_list.state
            },
        )
    } else if is_plain(key, KeyCode::Enter) {
        match before.sort_list.state.selected {
            Some(i) => with_next_order(before, i),
            None => before,
        }
    } else {
        before
    }
}

/// Takes a key in the list of columns.
pub fn handle_key_event(key_event: KeyEvent, app: &mut App)
    ensures
        *final(app) == after_key(*old(app), key_event),
{
    match key_event.modifiers {
        KeyModifiers::Plain => match key_event.code {
            KeyCode::Char('q') | KeyCode::Char('t') | KeyCode::Esc => {
                app.current_route = Route::Torrents;
            },
            KeyCode::Char('j') | KeyCode::Down => {
                next_sort_target(app);
            },
            KeyCode::Char('k') | KeyCode::Up => {
                prev_sort_target(app);
            },
            KeyCode::Enter => {
                if let Some(i) = app.sort_list.state.selected() {
                    handle_sort_order_change(app, i);
                }
            },
            _ => {},
        },
        _ => {},
    }
}

/// What the mouse does to the snapshot in the list of columns: a click of
/// the left button is noted, and a click on a line chooses the line and
/// moves the direction of its column on. The line is counted from the first
/// line shown of the list of categories.
pub open spec fn after_mouse(before: App, mouse: MouseEvent) -> App {
    if mouse.kind != MouseEventKind::LeftDown {
        before
    } else {
        let noted = App { left_click: (mouse.column, mouse.row), ..before };
        match before.sort_list_rect {
            Some(area) => match line_hit(
                area,
                LIST_TOP as int,
                mouse.column,
                mouse.row,
                before.categories_list.state.offset,
                before.sort_list.items@.len(),
            ) {
                Some(i) => with_next_order(
                    with_state(noted, picked(before.sort_list.state, Some(i))),
                    i,
                ),
                None => noted,
            },
            None => noted,
        }
    }
}

/// Takes what the mouse did in the list of columns.
pub fn handle_mouse_event(mouse_event: MouseEvent, app: &mut App)
    ensures
        *final(app) == after_mouse(*old(app), mouse_event),
{
    match mouse_event.kind {
        MouseEventKind::LeftDown => {},
        MouseEventKind::Other => {
            return ;
        },
    }
    app.left_click = (mouse_event.column, mouse_event.row);
    if let Some(area) = app.sort_list_rect {
        let line = find_line(
            area,
            LIST_TOP,
            mouse_event.column,
            mouse_event.row,
            app.categories_list.state.offset,
            app.sort_list.items.len(),
        );
        if let Some(i) = line {
            app.sort_list.state.select(Some(i));
            handle_sort_order_change(app, i);
        }
    }
}

/// Chooses the line below the chosen one, the first below the last.
pub fn next_sort_target(app: &mut App)
    ensures
        *final(app) == with_state(
            *old(app),
            PubState {
                selected: Some(
                    old(app).sort_list.state.next_index(old(app).sort_list.items@.len()) as usize,
                ),
                ..old(app).sort_list.state
            },
        ),
{
    let len = app.sort_list.items.len();
    app.sort_list.state.select_next(len);
}

/// Chooses the line above the chosen one, the last above the first.
pub fn prev_sort_target(app: &mut App)
    ensures
        *final(app) == with_state(
            *old(app),
            PubState {
                selected: Some(
                    old(app).sort_list.state.prev_index(old(app).sort_list.items@.len()) as usize,
                ),
                ..old(app).sort_list.state
            },
        ),
{
    let len = app.sort_list.items.len();
    app.sort_list.state.select_prev(len);
}

/// Moves the direction of the column at line `i` on.
pub fn handle_sort_order_change(app: &mut App, i: usize)
    ensures
        *final(app) == with_next_order(*old(app), i),
{
    if i == 0 {
        app.category_sort_order = next_sort_order(&app.category_sort_order);
    } else if i == 1 {
        app.name_sort_order = next_sort_order(&app.name_sort_order);
    } else if i == 2 {
        app.status_sort_order = next_sort_order(&app.status_sort_order);
    }
}

} // verus!
