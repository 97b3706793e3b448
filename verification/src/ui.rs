//! What the loop that draws and reads input decides: what an event does,
//! what is drawn, and in which words.

use vstd::prelude::*;
use vstd::string::StringExecFns;
use crate::api::{count, counted, ApiEvent};
use crate::app::{Action, App, AppListState, Notification, PubState, Rect, Route, SortOrder};
use crate::input::{Effect, KeyEvent, MouseEvent};
use crate::model::TorrentFile;
use crate::text::{decimal, push_decimal};

verus! {

/// A signal to the loop that draws.
#[derive(Clone, Copy, Debug, PartialEq, Eq, Structural)]
pub enum UiEvent {
    /// Something changed at the service: synchronise at once.
    Tick,
    /// The snapshot changed: draw again.
    Redraw,
}

/// The time between two synchronisations, in milliseconds.
pub const TICK_RATE_MS: u64 = 1000;

/// What the terminal reported.
#[derive(Clone, Copy, Debug, PartialEq, Eq, Structural)]
pub enum Input {
    Key(KeyEvent),
    Mouse(MouseEvent),
    /// The terminal has another size.
    Resize,
    /// Something that no rule here is about.
    Other,
    /// The terminal could not be read.
    Failed,
    /// The terminal reports nothing more.
    Closed,
}

/// What the loop waited for and got.
#[derive(Clone, Copy, Debug, PartialEq, Eq, Structural)]
pub enum LoopEvent {
    /// The terminal reported something.
    Input(Input),
    /// The time between two synchronisations is over.
    Timer,
    /// The dispatcher sent a signal.
    Signal(UiEvent),
    /// The dispatcher will send no more signals.
    SignalsClosed,
}

/// What the loop does after an event.
#[derive(Debug, PartialEq, Eq)]
pub struct Turn {
    /// What is asked of the caller.
    pub effect: Effect,
    /// Whether to draw again.
    pub redraw: bool,
}

/// How long the loop waits for the timer, `elapsed` milliseconds after the
/// last tick: the rest of the time between two synchronisations.
pub fn timeout_ms(elapsed: u64) -> (wait: u64)
    ensures
        wait == if elapsed <= TICK_RATE_MS {
            TICK_RATE_MS - elapsed
        } else {
            0
        },
{
    if elapsed <= TICK_RATE_MS {
        TICK_RATE_MS - elapsed
    } else {
        0
    }
}

/// Whether a new tick starts, `elapsed` milliseconds after the last.
pub fn tick_is_over(elapsed: u64) -> (over: bool)
    ensures
        over == (elapsed >= TICK_RATE_MS),
{
    elapsed >= TICK_RATE_MS
}

/// What an event does to the snapshot. A key goes to the notice where one
/// is shown, to the view that has the keyboard where none is, and to the
/// notice of the lost connection while the service cannot be reached. The
/// mouse is heeded while the service is reachable and no notice is shown.
/// The timer counts a synchronisation that is asked for. The end of the
/// input or of the signals ends the program.
pub open spec fn is_after_event(before: App, event: LoopEvent, now: u64, after: App) -> bool {
    match event {
        LoopEvent::Input(Input::Key(key)) => if !before.is_connected {
            after == crate::handlers::error::after_key(before, key)
        } else if before.notification is Some {
            after == (if crate::handlers::notification::dismisses(key) {
                App { notification: None, ..before }
            } else {
                before
            })
        } else {
            App::is_after_key(before, key, after)
        },
        LoopEvent::Input(Input::Mouse(mouse)) => if before.is_connected
            && before.notification is None {
            after == App::after_mouse(before, mouse, now)
        } else {
            after == before
        },
        LoopEvent::Input(Input::Resize) | LoopEvent::Input(Input::Other) => after == before,
        LoopEvent::Input(Input::Failed)
        | LoopEvent::Input(Input::Closed)
        | LoopEvent::SignalsClosed => after == (App { is_running: false, ..before }),
        LoopEvent::Timer => after == (App {
            trace_send_sync_event_n: counted(before.trace_send_sync_event_n),
            ..before
        }),
        LoopEvent::Signal(_) => after == before,
    }
}

/// What an event asks of the caller: the timer and the signal to
/// synchronise ask for a synchronisation, a key or the mouse for what their
/// handler says.
pub open spec fn effect_of_event(before: App, event: LoopEvent, now: u64) -> Effect {
    match event {
        LoopEvent::Input(Input::Key(key)) => if !before.is_connected {
            if crate::handlers::is_plain_char(key, 'r') {
                Effect::Send(ApiEvent::Reload)
            } else {
                Effect::Nothing
            }
        } else if before.notification is Some {
            Effect::Nothing
        } else {
            App::effect_of_key(before, key)
        },
        LoopEvent::Input(Input::Mouse(mouse)) => if before.is_connected
            && before.notification is None && before.current_route == Route::Torrents {
            crate::handlers::torrents::effect_of_mouse(before, mouse, now)
        } else {
            Effect::Nothing
        },
        LoopEvent::Timer | LoopEvent::Signal(UiEvent::Tick) => Effect::Send(ApiEvent::Sync),
        _ => Effect::Nothing,
    }
}

/// Whether the loop draws again after an event: after all but what no rule
/// is about and the end of the input or of the signals.
pub open spec fn redraws(event: LoopEvent) -> bool {
    match event {
        LoopEvent::Input(Input::Key(_))
        | LoopEvent::Input(Input::Mouse(_))
        | LoopEvent::Input(Input::Resize)
        | LoopEvent::Timer
        | LoopEvent::Signal(_) => true,
        _ => false,
    }
}

fn on_key(app: &mut App, key: KeyEvent) -> (effect: Effect)
    ensures
        is_after_event(*old(app), LoopEvent::Input(Input::Key(key)), 0, *final(app)),
        effect == effect_of_event(*old(app), LoopEvent::Input(Input::Key(key)), 0),
{
    if app.is_connected {
        if app.notification.is_some() {
            app.handle_notification_key_event(key);
            Effect::Nothing
        } else {
            app.handle_key_event(key)
        }
    } else {
        app.handle_disconnected_key_event(key)
    }
}

/// One turn of the loop: takes the event that the loop waited for; `now` is
/// the time in milliseconds. The loop goes on while the snapshot says that
/// the program runs.
pub fn run(app: &mut App, event: LoopEvent, now: u64) -> (turn: Turn)
    ensures
        is_after_event(*old(app), event, now, *final(app)),
        turn.effect == effect_of_event(*old(app), event, now),
        turn.redraw == redraws(event),
{
    match event {
        LoopEvent::Input(Input::Key(key)) => {
            let effect = on_key(app, key);
            Turn { effect, redraw: true }
        },
        LoopEvent::Input(Input::Mouse(mouse)) => {
            let effect = if app.is_connected && app.notification.is_none() {
                app.handle_mouse_event(mouse, now)
            } else {
                Effect::Nothing
            };
            Turn { effect, redraw: true }
        },
        LoopEvent::Input(Input::Resize) => Turn { effect: Effect::Nothing, redraw: true },
        LoopEvent::Input(Input::Other) => Turn { effect: Effect::Nothing, redraw: false },
        LoopEvent::Input(Input::Failed) | LoopEvent::Input(Input::Closed) | LoopEvent::SignalsClosed => {
            app.is_running = false;
            Turn { effect: Effect::Nothing, redraw: false }
        },
        LoopEvent::Timer => {
            let event = app.sync();
            app.trace_send_sync_event_n = count(app.trace_send_sync_event_n);
            Turn { effect: Effect::Send(event), redraw: true }
        },
        LoopEvent::Signal(UiEvent::Tick) => Turn { effect: Effect::Send(app.sync()), redraw: true },
        LoopEvent::Signal(UiEvent::Redraw) => Turn { effect: Effect::Nothing, redraw: true },
    }
}

/// Something that is drawn over the whole terminal or over a part of it.
#[derive(Clone, Copy, Debug, PartialEq, Eq, Structural)]
pub enum Layer {
    Torrents,
    Sort,
    Help,
    Categories,
    Info,
    Files,
    Dialog,
    Notification(Notification),
    ConnectionError,
}

/// What is drawn for a view, from the bottom up.
pub open spec fn view_layers(route: Route) -> Seq<Layer> {
    match route {
        Route::Torrents | Route::Search | Route::Dialog => seq![Layer::Torrents],
        Route::Sort => seq![Layer::Torrents, Layer::Sort],
        Route::Help => seq![Layer::Help],
        Route::Categories => seq![Layer::Categories],
        Route::Info => seq![Layer::Info],
        Route::Files => seq![Layer::Files],
    }
}

/// What is drawn, from the bottom up: the view that has the keyboard, the
/// question while one stands and the service is reachable, the notice while
/// one is shown, and the notice of the lost connection while the service
/// cannot be reached.
pub open spec fn layers_of(app: App) -> Seq<Layer> {
    view_layers(app.current_route) + (if app.is_connected && app.current_action is Some {
        seq![Layer::Dialog]
    } else {
        Seq::empty()
    }) + (match app.notification {
        Some(notification) => seq![Layer::Notification(notification)],
        None => Seq::empty(),
    }) + (if !app.is_connected {
        seq![Layer::ConnectionError]
    } else {
        Seq::empty()
    })
}

/// What is drawn, from the bottom up.
pub fn layers(app: &App) -> (drawn: Vec<Layer>)
    ensures
        drawn@ == layers_of(*app),
{
    let mut drawn: Vec<Layer> = Vec::new();
    match app.current_route {
        Route::Torrents | Route::Search | Route::Dialog => {
            drawn.push(Layer::Torrents);
        },
        Route::Sort => {
            drawn.push(Layer::Torrents);
            drawn.push(Layer::Sort);
        },
        Route::Help => {
            drawn.push(Layer::Help);
        },
        Route::Categories => {
            drawn.push(Layer::Categories);
        },
        Route::Info => {
            drawn.push(Layer::Info);
        },
        Route::Files => {
            drawn.push(Layer::Files);
        },
    }
    assert(drawn@ =~= view_layers(app.current_route));
    if app.is_connected && app.current_action.is_some() {
        drawn.push(Layer::Dialog);
    }
    if let Some(notification) = app.notification {
        drawn.push(Layer::Notification(notification));
    }
    if !app.is_connected {
        drawn.push(Layer::ConnectionError);
    }
    assert(drawn@ =~= layers_of(*app));
    drawn
}

/// The heading of a notice.
pub fn notification_title(notification: Notification) -> (title: &'static str)
    ensures
        title@ == "File not found"@,
{
    match notification {
        Notification::FileNotFound => "File not found",
    }
}

/// The text of a notice.
pub fn notification_text(notification: Notification) -> (text: &'static str)
    ensures
        text@ == "File not found or remote server"@,
{
    match notification {
        Notification::FileNotFound => "File not found or remote server",
    }
}

/// The heading of the notice of the lost connection.
pub fn connection_error_title() -> (title: &'static str)
    ensures
        title@ == "Connection error"@,
{
    "Connection error"
}

/// The text of the notice of the lost connection, with the number of failed
/// attempts.
pub fn connection_error_text(app: &App) -> (text: String)
    ensures
        text@ == "Connection error! Trying to reconnect... "@ + decimal(
            app.error_reconnection_attempt_n as nat,
        ),
{
    let mut text = String::from_str("Connection error! Trying to reconnect... ");
    push_decimal(&mut text, app.error_reconnection_attempt_n as u64);
    text
}

/// The question before a deletion.
pub fn dialog_question(action: Action) -> (question: &'static str)
    ensures
        question@ == (match action {
            Action::Delete => "Are you sure you want to delete the torrent?"@,
            Action::DeleteFiles => "Are you sure you want to delete the torrent AND FILES?"@,
        }),
{
    match action {
        Action::Delete => "Are you sure you want to delete the torrent?",
        Action::DeleteFiles => "Are you sure you want to delete the torrent AND FILES?",
    }
}

/// The width of the question at most, in cells.
pub const DIALOG_MAX_WIDTH: u16 = 60;

/// The height of the question, in rows.
pub const DIALOG_HEIGHT: u16 = 14;

/// Where the question is drawn on a terminal of `size`: in the middle from
/// left to right, a quarter down from the top, two cells narrower than the
/// terminal where that is less than the width at most.
pub open spec fn dialog_area(size: Rect) -> Rect {
    let room: int = if size.width >= 2 {
        size.width - 2
    } else {
        0
    };
    let width: int = if room < DIALOG_MAX_WIDTH {
        room
    } else {
        DIALOG_MAX_WIDTH as int
    };
    Rect {
        x: ((size.width - width) / 2) as u16,
        y: (size.height / 4) as u16,
        width: width as u16,
        height: DIALOG_HEIGHT,
    }
}

/// Where the question is drawn on a terminal of `size`.
pub fn dialog_rect(size: Rect) -> (area: Rect)
    ensures
        area == dialog_area(size),
{
    let room: u16 = if size.width >= 2 {
        size.width - 2
    } else {
        0
    };
    let width: u16 = if room < DIALOG_MAX_WIDTH {
        room
    } else {
        DIALOG_MAX_WIDTH
    };
    Rect { x: (size.width - width) / 2, y: size.height / 4, width, height: DIALOG_HEIGHT }
}

/// Whether the line of the search is drawn: while it has the keyboard, and
/// while it holds a text.
pub fn should_show_search_block(app: &App) -> (shown: bool)
    ensures
        shown == (app.current_route == Route::Search || app.search_value@.len() > 0),
{
    match app.current_route {
        Route::Search => true,
        _ => !app.search_value.as_str().is_empty(),
    }
}

/// The text in the line of the search: what is searched for, and a mark
/// behind it while the line has the keyboard.
pub fn search_line(app: &App) -> (line: String)
    ensures
        line@ == if app.current_route == Route::Search {
            app.search_value@ + "_"@
        } else {
            app.search_value@
        },
{
    let mut line = app.search_value.clone();
    match app.current_route {
        Route::Search => {
            line.append("_");
        },
        _ => {},
    }
    line
}

/// The heading of the line of the search: how to end the search, while the
/// line has the keyboard.
pub fn search_title(app: &App) -> (title: &'static str)
    ensures
        title@ == if app.current_route == Route::Search {
            "Search (Enter - apply, Esc - discard)"@
        } else {
            ""@
        },
{
    match app.current_route {
        Route::Search => "Search (Enter - apply, Esc - discard)",
        _ => "",
    }
}

/// The mark of a direction: an arrow down for upwards, an arrow up for
/// downwards, and nothing for none.
pub open spec fn order_mark(order: Option<SortOrder>) -> Seq<char> {
    match order {
        Some(SortOrder::Asc) => "\u{23f7}"@,
        Some(SortOrder::Desc) => "\u{23f6}"@,
        None => ""@,
    }
}

/// The name of a column with the mark of its direction behind it.
pub open spec fn marked(name: Seq<char>, order: Option<SortOrder>) -> Seq<char> {
    match order {
        Some(_) => name + " "@ + order_mark(order),
        None => name,
    }
}

/// The name of a column with the mark of its direction behind it.
pub fn sort_label(name: &str, order: Option<SortOrder>) -> (label: String)
    ensures
        label@ == marked(name@, order),
{
    let mut label = String::from_str(name);
    match order {
        Some(SortOrder::Asc) => {
            label.append(" ");
            label.append("\u{23f7}");
        },
        Some(SortOrder::Desc) => {
            label.append(" ");
            label.append("\u{23f6}");
        },
        None => {},
    }
    label
}

/// The headings of the ten columns of the table of jobs.
pub open spec fn headers_of(app: App) -> Seq<Seq<char>> {
    seq![
        marked("Category"@, app.category_sort_order),
        order_mark(app.status_sort_order),
        marked("Name"@, app.name_sort_order),
        "Size"@,
        "%"@,
        "Seeds"@,
        "Peers"@,
        "Down"@,
        "Up"@,
        "Eta"@,
    ]
}

/// The headings of the columns of the table of jobs.
pub fn headers(app: &App) -> (cells: Vec<String>)
    ensures
        cells.deep_view() == headers_of(*app),
{
    let mut cells: Vec<String> = Vec::new();
    cells.push(sort_label("Category", app.category_sort_order));
    cells.push(
        String::from_str(
            match app.status_sort_order {
                Some(SortOrder::Asc) => "\u{23f7}",
                Some(SortOrder::Desc) => "\u{23f6}",
                None => "",
            },
        ),
    );
    cells.push(sort_label("Name", app.name_sort_order));
    cells.push(String::from_str("Size"));
    cells.push(String::from_str("%"));
    cells.push(String::from_str("Seeds"));
    cells.push(String::from_str("Peers"));
    cells.push(String::from_str("Down"));
    cells.push(String::from_str("Up"));
    cells.push(String::from_str("Eta"));
    assert(cells.deep_view() =~= headers_of(*app));
    cells
}

/// The lines of the list of columns to sort by.
pub open spec fn sort_options_of(app: App) -> Seq<Seq<char>> {
    seq![
        marked("Category"@, app.category_sort_order),
        marked("Name"@, app.name_sort_order),
        marked("Status"@, app.status_sort_order),
    ]
}

/// Writes the lines of the list of columns to sort by, and chooses the
/// first where none is chosen.
pub fn refresh_sort_list(app: &mut App)
    ensures
        final(app).sort_list.items.deep_view() == sort_options_of(*old(app)),
        final(app).sort_list.state == (match old(app).sort_list.state.selected {
            Some(_) => old(app).sort_list.state,
            None => PubState { selected: Some(0), ..old(app).sort_list.state },
        }),
        *final(app) == (App { sort_list: final(app).sort_list, ..*old(app) }),
{
    let mut items: Vec<String> = Vec::new();
    items.push(sort_label("Category", app.category_sort_order));
    items.push(sort_label("Name", app.name_sort_order));
    items.push(sort_label("Status", app.status_sort_order));
    assert(items.deep_view() =~= sort_options_of(*app));
    app.sort_list.items = items;
    if app.sort_list.state.selected().is_none() {
        app.sort_list.state.select(Some(0));
    }
}

/// The lines of the list of categories: one for all jobs, one for the jobs
/// without a category, and one for each category.
pub open spec fn category_lines_of(app: App) -> Seq<Seq<char>> {
    seq!["All"@, "Uncategorized"@] + app.categories.deep_view()
}

/// Writes the lines of the list of categories.
pub fn refresh_categories_list(app: &mut App)
    ensures
        final(app).categories_list.items.deep_view() == category_lines_of(*old(app)),
        *final(app) == (App {
            categories_list: AppListState {
                state: old(app).categories_list.state,
                items: final(app).categories_list.items,
            },
            ..*old(app)
        }),
{
    let mut items: Vec<String> = Vec::new();
    items.push(String::from_str("All"));
    items.push(String::from_str("Uncategorized"));
    let mut i: usize = 0;
    while i < app.categories.len()
        invariant
            i <= app.categories@.len(),
            items.deep_view() == seq!["All"@, "Uncategorized"@] + app.categories.deep_view().take(
                i as int,
            ),
        decreases app.categories@.len() - i,
    {
        let ghost before = items.deep_view();
        items.push(app.categories[i].clone());
        assert(items.deep_view() =~= before.push(app.categories@[i as int]@));
        i += 1;
    }
    assert(app.categories.deep_view().take(app.categories@.len() as int)
        =~= app.categories.deep_view());
    app.categories_list.items = items;
}

/// The names of the files.
pub open spec fn names_of_files(files: Seq<TorrentFile>) -> Seq<Seq<char>> {
    Seq::new(files.len(), |i: int| files[i].name@)
}

/// The lines of the list of files: the names of the files of the job, and
/// none where the files of no job are known.
pub open spec fn file_lines_of(app: App) -> Seq<Seq<char>> {
    match app.current_torrent_files {
        Some(files) => names_of_files(files@),
        None => Seq::empty(),
    }
}

/// Writes the lines of the list of files.
pub fn refresh_files_list(app: &mut App)
    ensures
        final(app).files_list.items.deep_view() == file_lines_of(*old(app)),
        *final(app) == (App {
            files_list: AppListState {
                state: old(app).files_list.state,
                items: final(app).files_list.items,
            },
            ..*old(app)
        }),
{
    let mut items: Vec<String> = Vec::new();
    if let Some(files) = &app.current_torrent_files {
        let mut i: usize = 0;
        while i < files.len()
            invariant
                i <= files@.len(),
                items.deep_view() == names_of_files(files@.take(i as int)),
            decreases files@.len() - i,
        {
            let ghost before = items.deep_view();
            items.push(files[i].name.clone());
            assert(items.deep_view() =~= before.push(files@[i as int].name@));
            assert(items.deep_view() =~= names_of_files(files@.take(i + 1)));
            i += 1;
        }
        assert(files@.take(files@.len() as int) =~= files@);
    }
    app.files_list.items = items;
}

/// How often a line ends in a text.
pub open spec fn line_breaks(text: Seq<char>) -> nat
    decreases text.len(),
{
    if text.len() == 0 {
        0
    } else {
        line_breaks(text.drop_last()) + if text.last() == '\n' {
            1nat
        } else {
            0nat
        }
    }
}

/// The most line breaks that a cell of a row holds.
pub open spec fn most_line_breaks(cells: Seq<Seq<char>>) -> nat
    decreases cells.len(),
{
    if cells.len() == 0 {
        0
    } else {
        let rest = most_line_breaks(cells.drop_last());
        if line_breaks(cells.last()) > rest {
            line_breaks(cells.last())
        } else {
            rest
        }
    }
}

/// Counts how often a line ends in a text, up to what the count can hold.
pub fn count_line_breaks(text: &str) -> (n: usize)
    ensures
        n == line_breaks(text@) || (n == usize::MAX && line_breaks(text@) > usize::MAX),
{
    let mut n: usize = 0;
    let mut full = false;
    for c in it: text.chars()
        invariant
            it.seq() == text@,
            !full ==> n == line_breaks(text@.take(it.index() as int)),
            full ==> n == usize::MAX && line_breaks(text@.take(it.index() as int)) > usize::MAX,
    {
        proof {
            let k = it.index() as int;
            assert(text@.take(k + 1).drop_last() =~= text@.take(k));
        }
        if c == '\n' {
            if n < usize::MAX {
                n += 1;
            } else {
                full = true;
            }
        }
    }
    assert(text@.take(text@.len() as int) =~= text@);
    n
}

/// The height of a row of the table, in rows of the terminal: one more than
/// the most line breaks that a cell of the row holds.
pub fn row_height(cells: &Vec<String>) -> (height: usize)
    ensures
        height == most_line_breaks(cells.deep_view()) + 1 || (height == usize::MAX
            && most_line_breaks(cells.deep_view()) + 1 > usize::MAX),
{
    let ghost all = cells.deep_view();
    let mut most: usize = 0;
    let mut i: usize = 0;
    while i < cells.len()
        invariant
            i <= cells@.len(),
            all == cells.deep_view(),
            most == most_line_breaks(all.take(i as int)) || (most == usize::MAX
                && most_line_breaks(all.take(i as int)) > usize::MAX),
        decreases cells@.len() - i,
    {
        proof {
            assert(all.take(i + 1).drop_last() =~= all.take(i as int));
            assert(all.take(i + 1).last() == cells@[i as int]@);
        }
        let n = count_line_breaks(cells[i].as_str());
        if n > most {
            most = n;
        }
        i += 1;
    }
    assert(all.take(cells@.len() as int) =~= all);
    if most < usize::MAX {
        most + 1
    } else {
        most
    }
}

} // verus!
