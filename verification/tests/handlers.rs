use qbtui::api::ApiEvent;
use qbtui::app::{Action, App, Notification, Rect, Route, SelectedCategory, SortOrder};
use qbtui::handlers::{
    categories, dialog, error, files, find_line, help, info, notification, scroll_by_key, search,
    sort, torrents,
};
use qbtui::input::{
    Effect, KeyCode, KeyEvent, KeyModifiers, MouseEvent, MouseEventKind, PathProbe,
};
use qbtui::model::{Fraction, TorrentFile, TorrentInfo, TorrentInfoState};

fn plain(code: KeyCode) -> KeyEvent {
    KeyEvent { code, modifiers: KeyModifiers::Plain }
}

fn key(c: char) -> KeyEvent {
    plain(KeyCode::Char(c))
}

fn shift(c: char) -> KeyEvent {
    KeyEvent { code: KeyCode::Char(c), modifiers: KeyModifiers::Shift }
}

fn other(c: char) -> KeyEvent {
    KeyEvent { code: KeyCode::Char(c), modifiers: KeyModifiers::Other }
}

fn click(column: u16, row: u16) -> MouseEvent {
    MouseEvent { kind: MouseEventKind::LeftDown, column, row }
}

fn h_job(hash: &str, state: TorrentInfoState) -> TorrentInfo {
    TorrentInfo {
        added_on: 0,
        amount_left: 0,
        category: String::new(),
        completed: 0,
        completion_on: 0,
        content_path: format!("/data/{hash}"),
        dlspeed: 0,
        downloaded: 0,
        eta: 0,
        hash: String::from(hash),
        magnet_uri: String::new(),
        name: format!("job {hash}"),
        num_complete: 0,
        num_incomplete: 0,
        num_leechs: 0,
        num_seeds: 0,
        progress: Fraction { bits: 0 },
        save_path: String::new(),
        size: 0,
        state,
        upspeed: 0,
    }
}

fn h_app() -> App {
    let mut app = App::new("http://h", 1_000);
    app.torrents = vec![
        h_job("a", TorrentInfoState::Downloading),
        h_job("b", TorrentInfoState::PausedDl),
        h_job("c", TorrentInfoState::PausedUp),
    ];
    app.torrents_table.items =
        vec![vec![String::from("a")], vec![String::from("b")], vec![String::from("c")]];
    app.categories = vec![String::from("movies"), String::from("tv")];
    app.categories_list.items = vec![
        String::from("All"),
        String::from("Uncategorized"),
        String::from("movies"),
        String::from("tv"),
    ];
    app
}

fn h_chosen(row: usize) -> App {
    let mut app = h_app();
    app.torrents_table.state.select(Some(row));
    app
}

fn h_files() -> Vec<TorrentFile> {
    vec![
        TorrentFile { index: 0, name: String::from("one.mkv") },
        TorrentFile { index: 1, name: String::from("two.srt") },
    ]
}

const FOUND_FILE: PathProbe =
    PathProbe { exists: true, is_file: true, is_dir: false, parent_exists: true };
const FOUND_FOLDER: PathProbe =
    PathProbe { exists: true, is_file: false, is_dir: true, parent_exists: true };
const ONLY_PARENT: PathProbe =
    PathProbe { exists: false, is_file: false, is_dir: false, parent_exists: true };
const FOUND_NOTHING: PathProbe =
    PathProbe { exists: false, is_file: false, is_dir: false, parent_exists: false };

#[test]
fn torrents_help_key_notes_where_to_come_back_to() {
    for k in [plain(KeyCode::F(1)), key('?')] {
        let mut app = h_app();
        assert_eq!(torrents::handle_key_event(k, &mut app), Effect::Nothing);
        let mut expected = h_app();
        expected.on_help_route = Some(Route::Torrents);
        expected.current_route = Route::Help;
        assert_eq!(app, expected);
    }
    let mut app = h_app();
    torrents::handle_key_event(plain(KeyCode::F(2)), &mut app);
    assert_eq!(app, h_app());
}

#[test]
fn torrents_quit_keys_end_the_program() {
    for k in [key('q'), plain(KeyCode::Esc)] {
        let mut app = h_app();
        assert_eq!(torrents::handle_key_event(k, &mut app), Effect::Nothing);
        let mut expected = h_app();
        expected.is_running = false;
        assert_eq!(app, expected);
    }
}

#[test]
fn torrents_keys_move_the_choice_round() {
    let mut app = h_app();
    torrents::handle_key_event(key('j'), &mut app);
    assert_eq!(app.torrents_table.state.selected, Some(0));
    torrents::handle_key_event(plain(KeyCode::Down), &mut app);
    torrents::handle_key_event(key('j'), &mut app);
    assert_eq!(app.torrents_table.state.selected, Some(2));
    torrents::handle_key_event(key('j'), &mut app);
    assert_eq!(app.torrents_table.state.selected, Some(0));
    torrents::handle_key_event(key('k'), &mut app);
    assert_eq!(app.torrents_table.state.selected, Some(2));
    torrents::handle_key_event(plain(KeyCode::Up), &mut app);
    assert_eq!(app.torrents_table.state.selected, Some(1));
    torrents::next_torrent(&mut app);
    assert_eq!(app.torrents_table.state.selected, Some(2));
    torrents::prev_torrent(&mut app);
    assert_eq!(app.torrents_table.state.selected, Some(1));
}

#[test]
fn torrents_keys_change_the_view() {
    let cases = [('/', Route::Search), ('c', Route::Categories), ('t', Route::Sort)];
    for (c, route) in cases {
        let mut app = h_app();
        assert_eq!(torrents::handle_key_event(key(c), &mut app), Effect::Nothing);
        let mut expected = h_app();
        expected.current_route = route;
        assert_eq!(app, expected);
    }
}

#[test]
fn torrents_info_key_shows_the_chosen_job() {
    let mut app = h_chosen(1);
    assert_eq!(torrents::handle_key_event(key('i'), &mut app), Effect::Nothing);
    let mut expected = h_chosen(1);
    expected.current_torrent = Some(h_job("b", TorrentInfoState::PausedDl));
    expected.current_route = Route::Info;
    assert_eq!(app, expected);
    let mut none = h_app();
    torrents::handle_key_event(key('i'), &mut none);
    assert_eq!(none, h_app());
}

#[test]
fn torrents_open_key_asks_to_look_at_the_content() {
    for k in [key('o'), plain(KeyCode::Enter)] {
        let mut app = h_chosen(0);
        let effect = torrents::handle_key_event(k, &mut app);
        assert_eq!(
            effect,
            Effect::ProbeContent { path: String::from("/data/a"), hash: String::from("a") }
        );
        let mut expected = h_chosen(0);
        expected.current_torrent = Some(h_job("a", TorrentInfoState::Downloading));
        assert_eq!(app, expected);
        let mut none = h_app();
        assert_eq!(torrents::handle_key_event(k, &mut none), Effect::Nothing);
        assert_eq!(none, h_app());
    }
}

#[test]
fn content_is_opened_listed_or_reported() {
    let path = || String::from("/data/a");
    let hash = || String::from("a");
    let mut app = h_app();
    assert_eq!(
        torrents::open_content(&mut app, FOUND_FILE, path(), hash()),
        Effect::Open(path())
    );
    assert_eq!(app, h_app());
    assert_eq!(
        torrents::open_content(&mut app, FOUND_FOLDER, path(), hash()),
        Effect::Send(ApiEvent::Files(hash()))
    );
    assert_eq!(app, h_app());
    assert_eq!(torrents::open_content(&mut app, ONLY_PARENT, path(), hash()), Effect::Nothing);
    let mut expected = h_app();
    expected.notification = Some(Notification::FileNotFound);
    assert_eq!(app, expected);
}

#[test]
fn folder_of_the_content_is_opened_or_reported() {
    let path = || String::from("/data/a");
    let mut app = h_app();
    assert_eq!(torrents::open_folder(&mut app, FOUND_FOLDER, path()), Effect::Open(path()));
    assert_eq!(torrents::open_folder(&mut app, FOUND_FILE, path()), Effect::OpenParent(path()));
    assert_eq!(torrents::open_folder(&mut app, ONLY_PARENT, path()), Effect::OpenParent(path()));
    assert_eq!(app, h_app());
    assert_eq!(torrents::open_folder(&mut app, FOUND_NOTHING, path()), Effect::Nothing);
    assert_eq!(app.notification, Some(Notification::FileNotFound));
}

#[test]
fn torrents_reload_key_asks_for_everything() {
    let mut app = h_app();
    assert_eq!(torrents::handle_key_event(key('r'), &mut app), Effect::Send(ApiEvent::Reload));
    assert_eq!(app, h_app());
}

#[test]
fn torrents_space_pauses_what_runs_and_resumes_what_is_paused() {
    let mut running = h_chosen(0);
    assert_eq!(
        torrents::handle_key_event(key(' '), &mut running),
        Effect::Send(ApiEvent::Pause(String::from("a")))
    );
    assert_eq!(running, h_chosen(0));
    let mut paused = h_chosen(1);
    assert_eq!(
        torrents::handle_key_event(key(' '), &mut paused),
        Effect::Send(ApiEvent::Resume(String::from("b")))
    );
    let mut seeded = h_chosen(2);
    assert_eq!(
        torrents::handle_key_event(key(' '), &mut seeded),
        Effect::Send(ApiEvent::Resume(String::from("c")))
    );
    let mut none = h_app();
    assert_eq!(torrents::handle_key_event(key(' '), &mut none), Effect::Nothing);
}

#[test]
fn torrents_pause_and_resume_keys() {
    let mut app = h_chosen(1);
    assert_eq!(
        torrents::handle_key_event(key('p'), &mut app),
        Effect::Send(ApiEvent::Pause(String::from("b")))
    );
    assert_eq!(
        torrents::handle_key_event(key('s'), &mut app),
        Effect::Send(ApiEvent::Resume(String::from("b")))
    );
    assert_eq!(app, h_chosen(1));
    let mut none = h_app();
    assert_eq!(torrents::handle_key_event(key('p'), &mut none), Effect::Nothing);
    assert_eq!(torrents::handle_key_event(key('s'), &mut none), Effect::Nothing);
}

#[test]
fn torrents_delete_keys_ask_the_question() {
    let mut app = h_chosen(0);
    app.confirm = true;
    assert_eq!(torrents::handle_key_event(key('x'), &mut app), Effect::Nothing);
    let mut expected = h_chosen(0);
    expected.current_action = Some(Action::Delete);
    expected.current_route = Route::Dialog;
    assert_eq!(app, expected);
    let mut with_files = h_chosen(0);
    assert_eq!(torrents::handle_key_event(shift('X'), &mut with_files), Effect::Nothing);
    expected.current_action = Some(Action::DeleteFiles);
    assert_eq!(with_files, expected);
    let mut none = h_app();
    torrents::handle_key_event(key('x'), &mut none);
    torrents::handle_key_event(shift('X'), &mut none);
    assert_eq!(none, h_app());
}

#[test]
fn torrents_folder_key_asks_to_look_at_the_content() {
    let mut app = h_chosen(2);
    assert_eq!(
        torrents::handle_key_event(shift('O'), &mut app),
        Effect::ProbeFolder { path: String::from("/data/c") }
    );
    assert_eq!(app, h_chosen(2));
    let mut none = h_app();
    assert_eq!(torrents::handle_key_event(shift('O'), &mut none), Effect::Nothing);
}

#[test]
fn torrents_other_keys_do_nothing() {
    for k in [key('z'), shift('Q'), shift('x'), other('q'), other('r'), plain(KeyCode::Left)] {
        let mut app = h_chosen(1);
        assert_eq!(torrents::handle_key_event(k, &mut app), Effect::Nothing);
        assert_eq!(app, h_chosen(1));
    }
}

#[test]
fn click_on_a_row_chooses_it_and_shows_its_job() {
    let mut app = h_app();
    app.torrents_table_rect = Some(Rect { x: 0, y: 0, width: 80, height: 20 });
    let effect = torrents::handle_mouse_event(click(5, 4), &mut app, 5_000);
    assert_eq!(effect, Effect::Nothing);
    assert_eq!(app.left_click, (5, 4));
    assert_eq!(app.left_click_ts, 5_000);
    assert_eq!(app.torrents_table.state.selected, Some(1));
    assert_eq!(app.current_torrent, Some(h_job("b", TorrentInfoState::PausedDl)));
}

#[test]
fn second_click_on_the_same_job_opens_it() {
    let mut app = h_app();
    app.torrents_table_rect = Some(Rect { x: 0, y: 0, width: 80, height: 20 });
    torrents::handle_mouse_event(click(5, 3), &mut app, 5_000);
    let effect = torrents::handle_mouse_event(click(6, 3), &mut app, 5_500);
    assert_eq!(
        effect,
        Effect::ProbeContent { path: String::from("/data/a"), hash: String::from("a") }
    );
    assert_eq!(app.left_click_ts, 5_500);
    let late = torrents::handle_mouse_event(click(6, 3), &mut app, 6_001);
    assert_eq!(late, Effect::Nothing);
    let other_row = torrents::handle_mouse_event(click(6, 4), &mut app, 6_002);
    assert_eq!(other_row, Effect::Nothing);
    assert_eq!(app.current_torrent, Some(h_job("b", TorrentInfoState::PausedDl)));
    let back_in_time = torrents::handle_mouse_event(click(6, 4), &mut app, 6_000);
    assert_eq!(back_in_time, Effect::Nothing);
}

#[test]
fn click_outside_the_rows_is_only_noted() {
    let area = Rect { x: 2, y: 1, width: 10, height: 20 };
    for (column, row) in [(2, 4), (13, 4), (5, 3), (0, 0)] {
        let mut app = h_chosen(2);
        app.torrents_table_rect = Some(area);
        assert_eq!(
            torrents::handle_mouse_event(click(column, row), &mut app, 2_000),
            Effect::Nothing
        );
        let mut expected = h_chosen(2);
        expected.torrents_table_rect = Some(area);
        expected.left_click = (column, row);
        expected.left_click_ts = 2_000;
        assert_eq!(app, expected);
    }
}

#[test]
fn click_below_the_last_row_keeps_the_choice() {
    let mut app = h_chosen(2);
    app.torrents_table_rect = Some(Rect { x: 0, y: 0, width: 80, height: 20 });
    torrents::handle_mouse_event(click(5, 9), &mut app, 9_000);
    assert_eq!(app.torrents_table.state.selected, Some(2));
    assert_eq!(app.current_torrent, Some(h_job("c", TorrentInfoState::PausedUp)));
}

#[test]
fn click_counts_from_the_first_row_shown() {
    let mut app = h_app();
    app.torrents_table_rect = Some(Rect { x: 0, y: 0, width: 80, height: 20 });
    app.torrents_table.state.offset = 2;
    torrents::handle_mouse_event(click(5, 3), &mut app, 9_000);
    assert_eq!(app.torrents_table.state.selected, Some(2));
}

#[test]
fn click_without_a_drawn_table_is_only_noted() {
    let mut app = h_app();
    assert_eq!(torrents::handle_mouse_event(click(5, 4), &mut app, 7_000), Effect::Nothing);
    let mut expected = h_app();
    expected.left_click = (5, 4);
    expected.left_click_ts = 7_000;
    assert_eq!(app, expected);
}

#[test]
fn other_things_the_mouse_does_change_nothing() {
    let moved = MouseEvent { kind: MouseEventKind::Other, column: 5, row: 4 };
    let mut app = h_app();
    app.torrents_table_rect = Some(Rect { x: 0, y: 0, width: 80, height: 20 });
    app.categories_list_rect = Some(Rect { x: 0, y: 0, width: 80, height: 20 });
    app.sort_list_rect = Some(Rect { x: 0, y: 0, width: 80, height: 20 });
    let before = {
        let mut b = h_app();
        b.torrents_table_rect = app.torrents_table_rect;
        b.categories_list_rect = app.categories_list_rect;
        b.sort_list_rect = app.sort_list_rect;
        b
    };
    assert_eq!(torrents::handle_mouse_event(moved, &mut app, 7_000), Effect::Nothing);
    categories::handle_mouse_event(moved, &mut app);
    sort::handle_mouse_event(moved, &mut app);
    assert_eq!(app, before);
}

#[test]
fn line_that_a_click_lies_on() {
    let area = Rect { x: 10, y: 5, width: 20, height: 10 };
    assert_eq!(find_line(area, 1, 11, 6, 0, 4), Some(0));
    assert_eq!(find_line(area, 1, 30, 9, 0, 4), Some(3));
    assert_eq!(find_line(area, 1, 30, 10, 0, 4), None);
    assert_eq!(find_line(area, 1, 10, 6, 0, 4), None);
    assert_eq!(find_line(area, 1, 31, 6, 0, 4), None);
    assert_eq!(find_line(area, 1, 11, 5, 0, 4), None);
    assert_eq!(find_line(area, 3, 11, 8, 0, 4), Some(0));
    assert_eq!(find_line(area, 1, 11, 6, 3, 4), Some(3));
    assert_eq!(find_line(area, 1, 11, 7, 3, 4), None);
    assert_eq!(find_line(area, 1, 11, 6, 4, 4), None);
    assert_eq!(find_line(area, 1, 11, 6, usize::MAX, 4), None);
    assert_eq!(find_line(area, 1, 11, 6, 0, 0), None);
    let edge = Rect { x: u16::MAX, y: u16::MAX, width: u16::MAX, height: 1 };
    assert_eq!(find_line(edge, 3, u16::MAX, u16::MAX, 0, 4), None);
}

#[test]
fn categories_keys() {
    for k in [key('q'), key('c'), plain(KeyCode::Esc)] {
        let mut app = h_app();
        app.current_route = Route::Categories;
        categories::handle_key_event(k, &mut app);
        assert_eq!(app, h_app());
    }
    let mut app = h_app();
    app.current_route = Route::Categories;
    categories::handle_key_event(key('j'), &mut app);
    assert_eq!(app.categories_list.state.selected, Some(1));
    categories::handle_key_event(plain(KeyCode::Down), &mut app);
    categories::handle_key_event(key('j'), &mut app);
    categories::handle_key_event(key('j'), &mut app);
    assert_eq!(app.categories_list.state.selected, Some(0));
    categories::handle_key_event(key('k'), &mut app);
    assert_eq!(app.categories_list.state.selected, Some(3));
    categories::handle_key_event(plain(KeyCode::Up), &mut app);
    assert_eq!(app.categories_list.state.selected, Some(2));
    categories::next_category(&mut app);
    assert_eq!(app.categories_list.state.selected, Some(3));
    categories::prev_category(&mut app);
    assert_eq!(app.categories_list.state.selected, Some(2));
    app.torrents_table.state.select(Some(1));
    categories::handle_key_event(plain(KeyCode::Enter), &mut app);
    assert_eq!(app.selected_category, SelectedCategory::Category(2));
    assert_eq!(app.current_route, Route::Torrents);
    assert_eq!(app.torrents_table.state.selected, None);
    let mut ignored = h_app();
    categories::handle_key_event(shift('J'), &mut ignored);
    categories::handle_key_event(key('x'), &mut ignored);
    assert_eq!(ignored, h_app());
}

#[test]
fn click_on_a_category_makes_it_the_filter() {
    let area = Rect { x: 0, y: 0, width: 40, height: 20 };
    let mut app = h_app();
    app.current_route = Route::Categories;
    app.categories_list_rect = Some(area);
    app.torrents_table.state.select(Some(2));
    categories::handle_mouse_event(click(3, 4), &mut app);
    assert_eq!(app.left_click, (3, 4));
    assert_eq!(app.categories_list.state.selected, Some(3));
    assert_eq!(app.selected_category, SelectedCategory::Category(3));
    assert_eq!(app.current_route, Route::Torrents);
    assert_eq!(app.torrents_table.state.selected, None);
    let mut miss = h_app();
    miss.current_route = Route::Categories;
    miss.categories_list_rect = Some(area);
    categories::handle_mouse_event(click(3, 5), &mut miss);
    assert_eq!(miss.left_click, (3, 5));
    assert_eq!(miss.categories_list.state.selected, Some(0));
    assert_eq!(miss.current_route, Route::Categories);
    let mut undrawn = h_app();
    categories::handle_mouse_event(click(3, 2), &mut undrawn);
    assert_eq!(undrawn.left_click, (3, 2));
    assert_eq!(undrawn.selected_category, SelectedCategory::All);
}

#[test]
fn dialog_keys() {
    let asked = || {
        let mut app = h_chosen(1);
        app.set_current_action(Action::DeleteFiles);
        app
    };
    for k in [key('q'), plain(KeyCode::Esc)] {
        let mut app = asked();
        assert_eq!(dialog::handle_key_event(k, &mut app), None);
        assert_eq!(app, h_chosen(1));
    }
    for k in [key('h'), key('l'), plain(KeyCode::Left), plain(KeyCode::Right)] {
        let mut app = asked();
        assert_eq!(dialog::handle_key_event(k, &mut app), None);
        assert!(app.confirm);
        assert_eq!(dialog::handle_key_event(k, &mut app), None);
        assert_eq!(app, asked());
    }
    let mut app = asked();
    assert_eq!(
        dialog::handle_key_event(plain(KeyCode::Enter), &mut app),
        Some(ApiEvent::DeleteFiles(String::from("b")))
    );
    assert_eq!(app, h_chosen(1));
    let mut ignored = asked();
    assert_eq!(dialog::handle_key_event(key('x'), &mut ignored), None);
    assert_eq!(dialog::handle_key_event(shift('Q'), &mut ignored), None);
    assert_eq!(ignored, asked());
}

#[test]
fn disconnected_keys() {
    for k in [key('q'), plain(KeyCode::Esc)] {
        let mut app = h_app();
        assert_eq!(error::handle_key_event(k, &mut app), None);
        assert!(!app.is_running);
    }
    let mut app = h_app();
    assert_eq!(error::handle_key_event(key('r'), &mut app), Some(ApiEvent::Reload));
    assert_eq!(error::handle_key_event(key('j'), &mut app), None);
    assert_eq!(error::handle_key_event(shift('R'), &mut app), None);
    assert_eq!(app, h_app());
}

#[test]
fn notification_keys() {
    for k in [key('q'), plain(KeyCode::Esc), plain(KeyCode::Enter)] {
        let mut app = h_app();
        app.notification = Some(Notification::FileNotFound);
        notification::handle_key_event(k, &mut app);
        assert_eq!(app, h_app());
    }
    let mut app = h_app();
    app.notification = Some(Notification::FileNotFound);
    notification::handle_key_event(key('x'), &mut app);
    notification::handle_key_event(shift('Q'), &mut app);
    assert_eq!(app.notification, Some(Notification::FileNotFound));
}

#[test]
fn help_keys() {
    for k in [plain(KeyCode::F(1)), key('q'), plain(KeyCode::Esc)] {
        let mut app = h_app();
        app.current_route = Route::Help;
        app.on_help_route = Some(Route::Categories);
        help::handle_key_event(k, &mut app);
        assert_eq!(app.current_route, Route::Categories);
        assert_eq!(app.on_help_route, None);
        help::handle_key_event(k, &mut app);
        assert_eq!(app.current_route, Route::Categories);
    }
    let mut app = h_app();
    help::handle_key_event(key('j'), &mut app);
    help::handle_key_event(plain(KeyCode::Down), &mut app);
    assert_eq!(app.help_state.scroll, 2);
    help::handle_key_event(shift('J'), &mut app);
    assert_eq!(app.help_state.scroll, 12);
    help::handle_key_event(key('k'), &mut app);
    help::handle_key_event(plain(KeyCode::Up), &mut app);
    assert_eq!(app.help_state.scroll, 10);
    help::handle_key_event(shift('K'), &mut app);
    assert_eq!(app.help_state.scroll, 0);
    help::handle_key_event(key('k'), &mut app);
    assert_eq!(app, h_app());
}

#[test]
fn info_keys() {
    for k in [key('q'), plain(KeyCode::Esc)] {
        let mut app = h_app();
        app.current_route = Route::Info;
        info::handle_key_event(k, &mut app);
        assert_eq!(app, h_app());
    }
    let mut app = h_app();
    info::handle_key_event(shift('J'), &mut app);
    info::handle_key_event(key('k'), &mut app);
    assert_eq!(app.info_state.scroll, 9);
    info::handle_key_event(shift('K'), &mut app);
    assert_eq!(app.info_state.scroll, 0);
    info::handle_key_event(plain(KeyCode::F(1)), &mut app);
    assert_eq!(app, h_app());
}

#[test]
fn scrolling_stops_at_both_ends() {
    let mut state = h_app().help_state;
    state.text_height = 3;
    scroll_by_key(&mut state, shift('K'));
    assert_eq!(state.scroll, 0);
    state.scroll = 7;
    scroll_by_key(&mut state, shift('K'));
    assert_eq!(state.scroll, 0);
    state.scroll = u16::MAX - 3;
    scroll_by_key(&mut state, shift('J'));
    assert_eq!(state.scroll, u16::MAX);
    scroll_by_key(&mut state, key('j'));
    assert_eq!(state.scroll, u16::MAX);
    scroll_by_key(&mut state, other('k'));
    assert_eq!(state.scroll, u16::MAX);
    assert_eq!(state.text_height, 3);
}

#[test]
fn search_keys_edit_the_text() {
    let mut app = h_app();
    app.current_route = Route::Search;
    for k in [key('j'), shift('O'), key(' '), key('b')] {
        search::handle_key_event(k, &mut app);
    }
    assert_eq!(app.search_value, "jO b");
    search::handle_key_event(plain(KeyCode::Backspace), &mut app);
    assert_eq!(app.search_value, "jO ");
    search::handle_key_event(other('x'), &mut app);
    search::handle_key_event(plain(KeyCode::Left), &mut app);
    assert_eq!(app.search_value, "jO ");
    assert_eq!(app.current_route, Route::Search);
    for _ in 0..5 {
        search::handle_key_event(plain(KeyCode::Backspace), &mut app);
    }
    assert_eq!(app.search_value, "");
}

#[test]
fn search_is_applied_or_discarded() {
    let mut app = h_app();
    app.current_route = Route::Search;
    app.search_value = String::from("job b");
    search::handle_key_event(plain(KeyCode::Enter), &mut app);
    assert_eq!(app.current_route, Route::Torrents);
    assert_eq!(app.search_value, "job b");
    assert_eq!(app.torrents_table.state.selected, Some(0));
    assert_eq!(app.get_selected_torrent().map(|t| t.hash.as_str()), Some("b"));
    let mut none = h_app();
    none.current_route = Route::Search;
    none.search_value = String::from("nothing like it");
    search::handle_key_event(plain(KeyCode::Enter), &mut none);
    assert_eq!(none.current_route, Route::Torrents);
    assert_eq!(none.torrents_table.state.selected, None);
    search::handle_key_event(plain(KeyCode::Esc), &mut none);
    assert_eq!(none.search_value, "");
    assert_eq!(none.torrents_table.state.selected, Some(0));
}

#[test]
fn files_keys() {
    let listed = || {
        let mut app = h_app();
        app.current_route = Route::Files;
        app.current_torrent = Some(h_job("a", TorrentInfoState::Downloading));
        app.current_torrent_files = Some(h_files());
        app.files_list.items = vec![String::from("one.mkv"), String::from("two.srt")];
        app.files_list.state.select(Some(0));
        app
    };
    for k in [key('q'), plain(KeyCode::Esc)] {
        let mut app = listed();
        assert_eq!(files::handle_key_event(k, &mut app), Effect::Nothing);
        assert_eq!(app.current_torrent_files, None);
        assert_eq!(app.current_route, Route::Torrents);
    }
    let mut app = listed();
    files::handle_key_event(key('j'), &mut app);
    assert_eq!(app.files_list.state.selected, Some(1));
    for k in [key('o'), plain(KeyCode::Enter)] {
        assert_eq!(
            files::handle_key_event(k, &mut app),
            Effect::ProbeFile {
                content_path: String::from("/data/a"),
                name: String::from("two.srt")
            }
        );
    }
    files::handle_key_event(plain(KeyCode::Down), &mut app);
    assert_eq!(app.files_list.state.selected, Some(0));
    files::handle_key_event(key('k'), &mut app);
    assert_eq!(app.files_list.state.selected, Some(1));
    files::handle_key_event(plain(KeyCode::Up), &mut app);
    assert_eq!(app.files_list.state.selected, Some(0));
    files::next_file(&mut app);
    assert_eq!(app.files_list.state.selected, Some(1));
    files::prev_file(&mut app);
    assert_eq!(app.files_list.state.selected, Some(0));
    app.remote = true;
    assert_eq!(files::handle_key_event(key('o'), &mut app), Effect::Nothing);
    app.remote = false;
    app.files_list.state.select(Some(2));
    assert_eq!(files::handle_key_event(key('o'), &mut app), Effect::Nothing);
    app.files_list.state.select(None);
    assert_eq!(files::handle_key_event(key('o'), &mut app), Effect::Nothing);
    app.files_list.state.select(Some(0));
    app.current_torrent = None;
    assert_eq!(files::handle_key_event(key('o'), &mut app), Effect::Nothing);
}

#[test]
fn file_is_opened_or_reported() {
    let mut app = h_app();
    let path = || String::from("/data/one.mkv");
    assert_eq!(files::open_file(&mut app, true, path()), Effect::Open(path()));
    assert_eq!(app, h_app());
    assert_eq!(files::open_file(&mut app, false, path()), Effect::Nothing);
    assert_eq!(app.notification, Some(Notification::FileNotFound));
}

#[test]
fn sort_keys() {
    let listed = || {
        let mut app = h_app();
        app.current_route = Route::Sort;
        app.sort_list.items =
            vec![String::from("Category"), String::from("Name"), String::from("Status")];
        app
    };
    for k in [key('q'), key('t'), plain(KeyCode::Esc)] {
        let mut app = listed();
        sort::handle_key_event(k, &mut app);
        assert_eq!(app.current_route, Route::Torrents);
    }
    let mut app = listed();
    sort::handle_key_event(plain(KeyCode::Enter), &mut app);
    assert_eq!(app, listed());
    sort::handle_key_event(key('j'), &mut app);
    sort::handle_key_event(plain(KeyCode::Enter), &mut app);
    assert_eq!(app.category_sort_order, Some(SortOrder::Asc));
    sort::handle_key_event(plain(KeyCode::Enter), &mut app);
    assert_eq!(app.category_sort_order, Some(SortOrder::Desc));
    sort::handle_key_event(plain(KeyCode::Enter), &mut app);
    assert_eq!(app.category_sort_order, None);
    sort::handle_key_event(plain(KeyCode::Down), &mut app);
    sort::handle_key_event(plain(KeyCode::Enter), &mut app);
    assert_eq!(app.name_sort_order, Some(SortOrder::Asc));
    sort::handle_key_event(key('k'), &mut app);
    sort::handle_key_event(plain(KeyCode::Up), &mut app);
    assert_eq!(app.sort_list.state.selected, Some(2));
    sort::handle_key_event(plain(KeyCode::Enter), &mut app);
    assert_eq!(app.status_sort_order, Some(SortOrder::Asc));
    sort::next_sort_target(&mut app);
    assert_eq!(app.sort_list.state.selected, Some(0));
    sort::prev_sort_target(&mut app);
    assert_eq!(app.sort_list.state.selected, Some(2));
    sort::handle_sort_order_change(&mut app, 3);
    sort::handle_sort_order_change(&mut app, usize::MAX);
    assert_eq!(app.category_sort_order, None);
    assert_eq!(app.name_sort_order, Some(SortOrder::Asc));
    assert_eq!(app.status_sort_order, Some(SortOrder::Asc));
}

#[test]
fn click_on_a_column_moves_its_direction_on() {
    let mut app = h_app();
    app.current_route = Route::Sort;
    app.sort_list.items =
        vec![String::from("Category"), String::from("Name"), String::from("Status")];
    app.sort_list_rect = Some(Rect { x: 10, y: 10, width: 20, height: 5 });
    sort::handle_mouse_event(click(12, 12), &mut app);
    assert_eq!(app.left_click, (12, 12));
    assert_eq!(app.sort_list.state.selected, Some(1));
    assert_eq!(app.name_sort_order, Some(SortOrder::Asc));
    assert_eq!(app.current_route, Route::Sort);
    sort::handle_mouse_event(click(12, 14), &mut app);
    assert_eq!(app.sort_list.state.selected, Some(1));
    app.categories_list.state.offset = 1;
    sort::handle_mouse_event(click(12, 12), &mut app);
    assert_eq!(app.sort_list.state.selected, Some(2));
    assert_eq!(app.status_sort_order, Some(SortOrder::Asc));
}

#[test]
fn keys_go_to_the_view_that_has_the_keyboard() {
    let routes = [
        (Route::Torrents, Route::Categories),
        (Route::Sort, Route::Sort),
        (Route::Search, Route::Search),
        (Route::Help, Route::Help),
        (Route::Categories, Route::Torrents),
        (Route::Dialog, Route::Dialog),
        (Route::Info, Route::Info),
        (Route::Files, Route::Files),
    ];
    for (route, after) in routes {
        let mut app = h_app();
        app.current_route = route;
        assert_eq!(app.handle_key_event(key('c')), Effect::Nothing);
        assert_eq!(app.current_route, after);
        assert_eq!(app.search_value, if route == Route::Search { "c" } else { "" });
    }
    let mut asked = h_chosen(0);
    asked.set_current_action(Action::Delete);
    assert_eq!(
        asked.handle_key_event(plain(KeyCode::Enter)),
        Effect::Send(ApiEvent::Delete(String::from("a")))
    );
    let mut table = h_chosen(0);
    assert_eq!(table.handle_key_event(key('r')), Effect::Send(ApiEvent::Reload));
}

#[test]
fn keys_while_a_notice_or_no_connection() {
    let mut app = h_app();
    app.notification = Some(Notification::FileNotFound);
    app.handle_notification_key_event(key('x'));
    assert_eq!(app.notification, Some(Notification::FileNotFound));
    app.handle_notification_key_event(plain(KeyCode::Enter));
    assert_eq!(app, h_app());
    assert_eq!(app.handle_disconnected_key_event(key('r')), Effect::Send(ApiEvent::Reload));
    assert_eq!(app.handle_disconnected_key_event(key('x')), Effect::Nothing);
    assert_eq!(app, h_app());
    assert_eq!(app.handle_disconnected_key_event(key('q')), Effect::Nothing);
    assert!(!app.is_running);
}

#[test]
fn mouse_goes_to_the_views_that_take_it() {
    let area = Some(Rect { x: 0, y: 0, width: 80, height: 20 });
    for route in [Route::Search, Route::Help, Route::Dialog, Route::Info, Route::Files] {
        let mut app = h_app();
        app.current_route = route;
        app.torrents_table_rect = area;
        app.categories_list_rect = area;
        assert_eq!(app.handle_mouse_event(click(3, 3), 9_000), Effect::Nothing);
        assert_eq!(app.left_click, (0, 0));
        assert_eq!(app.left_click_ts, 1_000);
    }
    let mut table = h_app();
    table.torrents_table_rect = area;
    table.handle_mouse_event(click(3, 3), 9_000);
    assert_eq!(table.torrents_table.state.selected, Some(0));
    let mut list = h_app();
    list.current_route = Route::Categories;
    list.categories_list_rect = area;
    list.handle_mouse_event(click(3, 2), 9_000);
    assert_eq!(list.selected_category, SelectedCategory::Uncategorized);
    assert_eq!(list.left_click_ts, 1_000);
}
