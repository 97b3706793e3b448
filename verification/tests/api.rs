use qbtui::api::{
    count, session_state, Api, ApiError, ApiEvent, ApiHandler, ExternalError, Handled, LoginError,
    Method, Recovery, Reply, Request, SessionState, FORBIDDEN, OK,
};
use qbtui::app::{App, Notification, PubState, Route, SelectedCategory};
use qbtui::model::{
    Category, DeleteTorrentParams, Fraction, GetMainDataParams, GetTorrentFilesParams, Hashes,
    LoginPayload, MainData, SpeedLimitsMode, TorrentFile, TorrentInfo, TorrentInfoState,
    TorrentInfoSync, TransferInfo,
};
use qbtui::reconcile::{ReloadData, SyncOutcome};
use qbtui::ui::UiEvent;

fn api_job(hash: &str, progress: f64) -> TorrentInfo {
    TorrentInfo {
        added_on: 0,
        amount_left: 0,
        category: String::new(),
        completed: 0,
        completion_on: 0,
        content_path: format!("/data/{hash}"),
        dlspeed: 0,
        downloaded: 0,
        eta: 0,
        hash: String::from(hash),
        magnet_uri: String::new(),
        name: String::from(hash),
        num_complete: 0,
        num_incomplete: 0,
        num_leechs: 0,
        num_seeds: 0,
        progress: Fraction { bits: progress.to_bits() },
        save_path: String::new(),
        size: 0,
        state: TorrentInfoState::Downloading,
        upspeed: 0,
    }
}

fn api_handler() -> ApiHandler {
    ApiHandler::new("http://h:8080", false, Some(String::from("admin")), Some(String::from("pw")))
}

fn api_anonymous() -> ApiHandler {
    ApiHandler::new("http://h:8080", true, None, None)
}

fn api_app(jobs: &[&str]) -> App {
    let mut app = App::new("http://h:8080", 0);
    app.torrents = jobs.iter().map(|h| api_job(h, 0.10)).collect();
    app
}

fn api_everything(jobs: &[&str]) -> ReloadData {
    ReloadData {
        transfer_info: TransferInfo::default(),
        torrents: jobs.iter().map(|h| api_job(h, 0.5)).collect(),
        categories: vec![(
            String::from("tv"),
            Category { name: String::from("tv"), save_path: String::new() },
        )],
        speed_limits_mode: SpeedLimitsMode::Global,
    }
}

fn api_progress(hash: &str, progress: f64) -> (String, TorrentInfoSync) {
    let mut delta = TorrentInfoSync::empty();
    delta.progress = Some(Fraction { bits: progress.to_bits() });
    (String::from(hash), delta)
}

fn api_transport_error() -> ApiError {
    ApiError::External(ExternalError::Connection(String::from("timed out")))
}

fn api_files(n: usize) -> Vec<TorrentFile> {
    (0..n).map(|i| TorrentFile { index: i as i32, name: format!("f{i}") }).collect()
}

#[test]
fn url_of_a_path() {
    let api = Api::new("http://h:8080", false, None, None);
    assert_eq!(api.build_url("/sync/maindata"), "http://h:8080/api/v2/sync/maindata");
    assert_eq!(api.build_url(""), "http://h:8080/api/v2");
}

#[test]
fn forbidden_means_no_session() {
    assert_eq!(Api::check_session(403), Err(ApiError::NotAuthenticated));
    assert_eq!(Api::check_session(FORBIDDEN), Err(ApiError::NotAuthenticated));
    for status in [0, 200, 204, 401, 402, 404, 500, u16::MAX] {
        assert_eq!(Api::check_session(status), Ok(()));
    }
}

#[test]
fn login_answers() {
    let api = Api::new("http://h", false, None, None);
    assert_eq!(api.login(OK, "Ok."), Ok(()));
    assert_eq!(api.login(200, "Fails."), Err(ApiError::Login(LoginError::WrongCredentials)));
    assert_eq!(api.login(403, ""), Err(ApiError::Login(LoginError::TooManyAttempts)));
    assert_eq!(api.login(403, "Ok."), Err(ApiError::Login(LoginError::TooManyAttempts)));
    assert_eq!(api.login(500, "Ok."), Err(ApiError::External(ExternalError::Internal)));
    assert_eq!(api.login(200, "ok."), Err(ApiError::External(ExternalError::Internal)));
    assert_eq!(api.login(200, ""), Err(ApiError::External(ExternalError::Internal)));
    assert_eq!(api.login(200, "Ok. "), Err(ApiError::External(ExternalError::Internal)));
}

#[test]
fn logout_answers() {
    let api = Api::new("http://h", false, None, None);
    assert_eq!(api.logout(200), Ok(()));
    assert_eq!(api.logout(500), Ok(()));
    assert_eq!(api.logout(403), Err(ApiError::NotAuthenticated));
}

#[test]
fn login_error_becomes_an_api_error() {
    assert_eq!(
        ApiError::from(LoginError::WrongCredentials),
        ApiError::Login(LoginError::WrongCredentials)
    );
    assert_eq!(
        ApiError::from(LoginError::TooManyAttempts),
        ApiError::Login(LoginError::TooManyAttempts)
    );
}

#[test]
fn login_payload_needs_name_and_password() {
    let both = Api::new("h", false, Some(String::from("u")), Some(String::from("p")));
    assert_eq!(
        both.login_payload(),
        Some(LoginPayload { username: String::from("u"), password: String::from("p") })
    );
    assert_eq!(Api::new("h", false, Some(String::from("u")), None).login_payload(), None);
    assert_eq!(Api::new("h", false, None, Some(String::from("p"))).login_payload(), None);
    assert_eq!(Api::new("h", false, None, None).login_payload(), None);
}

#[test]
fn paths_and_methods_of_the_calls() {
    let login = Request::Login(LoginPayload::new("u", "p"));
    let calls = [
        (login, "/auth/login", Method::Post),
        (Request::Logout, "/auth/logout", Method::Post),
        (Request::TransferInfo, "/transfer/info", Method::Get),
        (Request::SpeedLimitsMode, "/transfer/speedLimitsMode", Method::Get),
        (Request::TorrentsInfo(None), "/torrents/info", Method::Get),
        (
            Request::TorrentsFiles(GetTorrentFilesParams { hash: String::from("a") }),
            "/torrents/files",
            Method::Get,
        ),
        (Request::Categories, "/torrents/categories", Method::Get),
        (Request::Pause(Hashes::join(&["a"])), "/torrents/pause", Method::Post),
        (Request::Resume(Hashes::join(&["a"])), "/torrents/resume", Method::Post),
        (
            Request::Delete(DeleteTorrentParams { hashes: String::from("a"), delete_files: true }),
            "/torrents/delete",
            Method::Post,
        ),
        (Request::SyncMaindata(GetMainDataParams { rid: 1 }), "/sync/maindata", Method::Get),
    ];
    for (request, path, method) in calls {
        assert_eq!(request.path(), path);
        assert_eq!(request.method(), method);
    }
}

#[test]
fn only_the_end_of_the_session_has_a_time_limit() {
    assert_eq!(Request::Logout.timeout_ms(), Some(500));
    assert_eq!(Request::TransferInfo.timeout_ms(), None);
    assert_eq!(Request::SyncMaindata(GetMainDataParams { rid: 1 }).timeout_ms(), None);
}

#[test]
fn new_dispatcher_starts_at_cursor_zero() {
    let handler = api_handler();
    assert_eq!(handler.rid, 0);
    assert_eq!(handler.current_event, ApiEvent::Sync);
    assert_eq!(handler.api.base_url, "http://h:8080");
    assert_eq!(handler.api.username, Some(String::from("admin")));
    assert_eq!(handler.api.password, Some(String::from("pw")));
    assert!(!handler.api.do_not_verify_webui_certificate);
    assert!(api_anonymous().api.do_not_verify_webui_certificate);
}

#[test]
fn each_intent_asks_for_its_calls() {
    let mut handler = api_handler();
    handler.rid = 17;
    let hash = || String::from("abc");
    assert_eq!(
        handler.begin(&ApiEvent::Reload),
        vec![
            Request::TransferInfo,
            Request::TorrentsInfo(None),
            Request::Categories,
            Request::SpeedLimitsMode
        ]
    );
    assert_eq!(handler.current_event, ApiEvent::Reload);
    assert_eq!(
        handler.begin(&ApiEvent::Sync),
        vec![Request::SyncMaindata(GetMainDataParams { rid: 17 })]
    );
    assert_eq!(
        handler.begin(&ApiEvent::Files(hash())),
        vec![Request::TorrentsFiles(GetTorrentFilesParams { hash: hash() })]
    );
    assert_eq!(
        handler.begin(&ApiEvent::Pause(hash())),
        vec![Request::Pause(Hashes { hashes: hash() })]
    );
    assert_eq!(
        handler.begin(&ApiEvent::Resume(hash())),
        vec![Request::Resume(Hashes { hashes: hash() })]
    );
    assert_eq!(
        handler.begin(&ApiEvent::Delete(hash())),
        vec![Request::Delete(DeleteTorrentParams { hashes: hash(), delete_files: false })]
    );
    assert_eq!(
        handler.begin(&ApiEvent::DeleteFiles(hash())),
        vec![Request::Delete(DeleteTorrentParams { hashes: hash(), delete_files: true })]
    );
    assert_eq!(handler.current_event, ApiEvent::DeleteFiles(hash()));
    assert_eq!(handler.rid, 17);
    assert_eq!(ApiHandler::reload_requests().len(), 4);
}

#[test]
fn sync_advances_the_cursor_and_merges() {
    let mut handler = api_handler();
    let mut app = api_app(&["A"]);
    let mut data = MainData::empty(5);
    data.torrents = Some(vec![api_progress("A", 0.35)]);
    assert_eq!(handler.sync(&mut app, data), SyncOutcome::Applied);
    assert_eq!(handler.rid, 5);
    assert_eq!(app.torrents, vec![api_job("A", 0.35)]);
}

#[test]
fn cursor_follows_every_answer_even_one_that_forces_a_reload() {
    let mut handler = api_handler();
    let mut app = api_app(&["A"]);
    assert_eq!(handler.sync(&mut app, MainData::empty(3)), SyncOutcome::Applied);
    assert_eq!(handler.rid, 3);
    let mut unknown = MainData::empty(8);
    unknown.torrents = Some(vec![api_progress("Z", 0.5)]);
    assert_eq!(handler.sync(&mut app, unknown), SyncOutcome::RequiresFullReload);
    assert_eq!(handler.rid, 8);
    let mut full = MainData::empty(2);
    full.full_update = Some(true);
    assert_eq!(handler.sync(&mut app, full), SyncOutcome::RequiresFullReload);
    assert_eq!(handler.rid, 2);
    assert_eq!(handler.sync(&mut app, MainData::empty(-4)), SyncOutcome::Applied);
    assert_eq!(handler.rid, -4);
}

#[test]
fn reload_starts_the_cursor_anew() {
    let mut handler = api_handler();
    handler.rid = 12;
    let mut app = api_app(&["A"]);
    handler.reload(&mut app, api_everything(&["B", "C"]));
    assert_eq!(handler.rid, 0);
    assert_eq!(app.torrents, vec![api_job("B", 0.5), api_job("C", 0.5)]);
    assert_eq!(app.categories, vec!["tv"]);
}

#[test]
fn full_update_replaces_the_snapshot_from_what_is_fetched() {
    let mut handler = api_handler();
    let mut app = api_app(&["A"]);
    app.is_connected = false;
    app.error_reconnection_attempt_n = 3;
    let mut data = MainData::empty(6);
    data.full_update = Some(true);
    data.torrents = Some(vec![api_progress("A", 0.9)]);
    data.torrents_removed = Some(vec![String::from("A")]);
    let event = ApiEvent::Sync;
    assert_eq!(handler.begin(&event), vec![Request::SyncMaindata(GetMainDataParams { rid: 0 })]);
    let first = handler.handle(&mut app, event.clone(), Reply::Sync(data));
    assert_eq!(first, Ok(Handled::Reload));
    assert_eq!(handler.rid, 6);
    assert_eq!(app.torrents, vec![api_job("A", 0.10)]);
    assert!(!app.is_connected);
    assert_eq!(app.trace_handle_sync_event_n, 0);
    let second = handler.handle(&mut app, event, Reply::Reload(api_everything(&["B"])));
    assert_eq!(second, Ok(Handled::Done { signal: None, open: None }));
    assert_eq!(handler.rid, 6);
    assert_eq!(app.torrents, vec![api_job("B", 0.5)]);
    assert_eq!(app.categories, vec!["tv"]);
    assert!(app.is_connected);
    assert_eq!(app.error_reconnection_attempt_n, 0);
    assert_eq!(app.trace_handle_sync_event_n, 1);
}

#[test]
fn sync_intent_that_suffices_is_counted_and_reconnects() {
    let mut handler = api_handler();
    let mut app = api_app(&["A"]);
    app.is_connected = false;
    app.error_reconnection_attempt_n = 2;
    let result = handler.handle(&mut app, ApiEvent::Sync, Reply::Sync(MainData::empty(4)));
    assert_eq!(result, Ok(Handled::Done { signal: None, open: None }));
    let mut expected = api_app(&["A"]);
    expected.trace_handle_sync_event_n = 1;
    assert_eq!(app, expected);
    assert_eq!(handler.rid, 4);
}

#[test]
fn reload_intent_replaces_the_snapshot() {
    let mut handler = api_handler();
    handler.rid = 9;
    let mut app = api_app(&["A"]);
    app.is_connected = false;
    let result = handler.handle(&mut app, ApiEvent::Reload, Reply::Reload(api_everything(&["B"])));
    assert_eq!(result, Ok(Handled::Done { signal: None, open: None }));
    assert_eq!(handler.rid, 0);
    assert_eq!(app.torrents, vec![api_job("B", 0.5)]);
    assert!(app.is_connected);
    assert_eq!(app.trace_handle_sync_event_n, 0);
}

#[test]
fn pause_resume_and_delete_ask_for_a_synchronisation_at_once() {
    let events = [
        ApiEvent::Pause(String::from("A")),
        ApiEvent::Resume(String::from("A")),
        ApiEvent::Delete(String::from("A")),
        ApiEvent::DeleteFiles(String::from("A")),
    ];
    for event in events {
        let mut handler = api_handler();
        handler.rid = 3;
        let mut app = api_app(&["A"]);
        app.is_connected = false;
        app.error_reconnection_attempt_n = 7;
        let result = handler.handle(&mut app, event, Reply::Done);
        assert_eq!(result, Ok(Handled::Done { signal: Some(UiEvent::Tick), open: None }));
        assert_eq!(app, api_app(&["A"]));
        assert_eq!(handler.rid, 3);
    }
}

#[test]
fn files_of_a_job_of_many_files_are_listed() {
    let mut handler = api_handler();
    let mut app = api_app(&["A"]);
    app.current_torrent = Some(api_job("A", 0.1));
    let reply = Reply::Files { files: api_files(2), content_exists: true };
    let result = handler.handle(&mut app, ApiEvent::Files(String::from("A")), reply);
    assert_eq!(result, Ok(Handled::Done { signal: Some(UiEvent::Redraw), open: None }));
    assert_eq!(app.current_torrent_files, Some(api_files(2)));
    assert_eq!(app.files_list.state, PubState { offset: 0, selected: Some(0) });
    assert_eq!(app.current_route, Route::Files);
    assert_eq!(app.notification, None);
}

#[test]
fn files_of_a_job_without_files_are_listed() {
    let mut handler = api_handler();
    let mut app = api_app(&["A"]);
    app.current_torrent = Some(api_job("A", 0.1));
    let reply = Reply::Files { files: api_files(0), content_exists: false };
    let result = handler.handle(&mut app, ApiEvent::Files(String::from("A")), reply);
    assert_eq!(result, Ok(Handled::Done { signal: Some(UiEvent::Redraw), open: None }));
    assert_eq!(app.current_torrent_files, Some(Vec::new()));
    assert_eq!(app.current_route, Route::Files);
}

#[test]
fn single_file_of_a_job_is_opened() {
    let mut handler = api_handler();
    let mut app = api_app(&["A"]);
    app.current_torrent = Some(api_job("A", 0.1));
    let reply = Reply::Files { files: api_files(1), content_exists: true };
    let result = handler.handle(&mut app, ApiEvent::Files(String::from("A")), reply);
    assert_eq!(result, Ok(Handled::Done { signal: None, open: Some(String::from("/data/A")) }));
    let mut expected = api_app(&["A"]);
    expected.current_torrent = Some(api_job("A", 0.1));
    assert_eq!(app, expected);
}

#[test]
fn single_file_that_is_not_here_is_reported() {
    let mut handler = api_handler();
    let mut app = api_app(&["A"]);
    app.current_torrent = Some(api_job("A", 0.1));
    let reply = Reply::Files { files: api_files(1), content_exists: false };
    let result = handler.handle(&mut app, ApiEvent::Files(String::from("A")), reply);
    assert_eq!(result, Ok(Handled::Done { signal: None, open: None }));
    assert_eq!(app.notification, Some(Notification::FileNotFound));
    assert_eq!(app.current_route, Route::Torrents);
    assert_eq!(app.current_torrent_files, None);
}

#[test]
fn files_without_a_job_to_show_change_nothing() {
    let mut handler = api_handler();
    let mut app = api_app(&["A"]);
    app.is_connected = false;
    let reply = Reply::Files { files: api_files(3), content_exists: true };
    let result = handler.handle(&mut app, ApiEvent::Files(String::from("A")), reply);
    assert_eq!(result, Ok(Handled::Done { signal: None, open: None }));
    assert_eq!(app, api_app(&["A"]));
}

#[test]
fn answer_to_other_calls_is_an_error_of_the_protocol() {
    let pairs = [
        (ApiEvent::Reload, Reply::Done),
        (ApiEvent::Reload, Reply::Sync(MainData::empty(1))),
        (ApiEvent::Sync, Reply::Done),
        (ApiEvent::Pause(String::from("A")), Reply::Sync(MainData::empty(1))),
        (ApiEvent::Files(String::from("A")), Reply::Done),
        (ApiEvent::Delete(String::from("A")), Reply::Reload(api_everything(&["B"]))),
    ];
    for (event, reply) in pairs {
        let mut handler = api_handler();
        handler.rid = 4;
        let mut app = api_app(&["A"]);
        app.is_connected = false;
        let result = handler.handle(&mut app, event, reply);
        assert_eq!(result, Err(ApiError::External(ExternalError::Internal)));
        let mut expected = api_app(&["A"]);
        expected.is_connected = false;
        assert_eq!(app, expected);
        assert_eq!(handler.rid, 4);
    }
}

#[test]
fn transport_failure_counts_attempts_and_success_resets_them() {
    let mut handler = api_handler();
    let mut app = api_app(&["A"]);
    app.current_route = Route::Help;
    assert_eq!(session_state(&app), SessionState::Connected);
    assert_eq!(handler.handle_error(&mut app, api_transport_error()), Recovery::Settled);
    assert_eq!(session_state(&app), SessionState::Disconnected(1));
    assert_eq!(app.current_route, Route::Torrents);
    assert!(app.is_running);
    let internal = ApiError::External(ExternalError::Internal);
    assert_eq!(handler.handle_error(&mut app, internal), Recovery::Settled);
    assert_eq!(session_state(&app), SessionState::Disconnected(2));
    let result = handler.handle(&mut app, ApiEvent::Sync, Reply::Sync(MainData::empty(1)));
    assert_eq!(result, Ok(Handled::Done { signal: None, open: None }));
    assert_eq!(session_state(&app), SessionState::Connected);
    assert_eq!(app.error_reconnection_attempt_n, 0);
}

#[test]
fn count_of_attempts_stops_at_the_largest_number() {
    assert_eq!(count(0), 1);
    assert_eq!(count(41), 42);
    assert_eq!(count(usize::MAX - 1), usize::MAX);
    assert_eq!(count(usize::MAX), usize::MAX);
    let mut handler = api_handler();
    let mut app = api_app(&[]);
    app.error_reconnection_attempt_n = usize::MAX;
    handler.handle_error(&mut app, api_transport_error());
    assert_eq!(app.error_reconnection_attempt_n, usize::MAX);
}

#[test]
fn lost_session_is_recovered_by_one_login_and_one_replay() {
    let mut handler = api_handler();
    let mut app = api_app(&["A"]);
    let event = ApiEvent::Pause(String::from("A"));
    assert_eq!(handler.begin(&event), vec![Request::Pause(Hashes { hashes: String::from("A") })]);
    let failure = Api::check_session(403).unwrap_err();
    assert_eq!(failure, ApiError::NotAuthenticated);
    let step = handler.handle_error(&mut app, failure);
    assert_eq!(
        step,
        Recovery::Login(LoginPayload {
            username: String::from("admin"),
            password: String::from("pw")
        })
    );
    assert_eq!(app, api_app(&["A"]));
    let login = handler.api.login(200, "Ok.");
    let replay = handler.relogin(&mut app, login);
    assert_eq!(replay, Some(ApiEvent::Pause(String::from("A"))));
    assert_eq!(app, api_app(&["A"]));
    let again = replay.unwrap();
    assert_eq!(handler.begin(&again), vec![Request::Pause(Hashes { hashes: String::from("A") })]);
    let result = handler.handle(&mut app, again, Reply::Done);
    assert_eq!(result, Ok(Handled::Done { signal: Some(UiEvent::Tick), open: None }));
    assert!(handler.replayed(&mut app, Ok(())));
    assert!(app.is_running);
    assert_eq!(app.forced_shutdown_reason, None);
    assert_eq!(session_state(&app), SessionState::Connected);
}

#[test]
fn failed_relogin_ends_the_program() {
    let mut handler = api_handler();
    let mut app = api_app(&["A"]);
    handler.begin(&ApiEvent::Sync);
    assert!(matches!(
        handler.handle_error(&mut app, ApiError::NotAuthenticated),
        Recovery::Login(_)
    ));
    let login = handler.api.login(200, "Fails.");
    assert_eq!(handler.relogin(&mut app, login), None);
    assert!(!app.is_running);
    assert_eq!(app.forced_shutdown_reason, Some(String::from("Could not relogin")));
    assert_eq!(session_state(&app), SessionState::Fatal);
    let mut expected = api_app(&["A"]);
    expected.is_running = false;
    expected.forced_shutdown_reason = Some(String::from("Could not relogin"));
    assert_eq!(app, expected);
}

#[test]
fn failed_replay_ends_the_program() {
    let mut handler = api_handler();
    let mut app = api_app(&["A"]);
    assert!(!handler.replayed(&mut app, Err(ApiError::NotAuthenticated)));
    assert!(!app.is_running);
    assert_eq!(app.forced_shutdown_reason, Some(String::from("Not authenticated")));
    let mut other = api_app(&["A"]);
    assert!(!handler.replayed(&mut other, Err(api_transport_error())));
    assert_eq!(other.forced_shutdown_reason, Some(String::from("Not authenticated")));
}

#[test]
fn lost_session_without_credentials_ends_the_program() {
    let mut handler = api_anonymous();
    let mut app = api_app(&["A"]);
    assert_eq!(handler.handle_error(&mut app, ApiError::NotAuthenticated), Recovery::Shutdown);
    assert!(!app.is_running);
    assert_eq!(app.forced_shutdown_reason, Some(String::from("Not authenticated")));
}

#[test]
fn lost_session_is_passed_over_while_the_program_ends() {
    let mut handler = api_handler();
    let mut app = api_app(&["A"]);
    app.is_running = false;
    assert_eq!(handler.handle_error(&mut app, ApiError::NotAuthenticated), Recovery::Settled);
    let mut expected = api_app(&["A"]);
    expected.is_running = false;
    assert_eq!(app, expected);
}

#[test]
fn intent_is_copied_as_it_is() {
    let events = [
        ApiEvent::Reload,
        ApiEvent::Sync,
        ApiEvent::Files(String::from("a")),
        ApiEvent::Delete(String::from("b")),
        ApiEvent::DeleteFiles(String::from("c")),
        ApiEvent::Pause(String::from("d")),
        ApiEvent::Resume(String::from("e")),
    ];
    for event in events {
        assert_eq!(event.clone(), event);
    }
}

#[test]
fn forced_reload_leaves_nothing_of_the_answer_but_the_cursor() {
    let mut handler = api_handler();
    let mut app = api_app(&["A"]);
    app.categories = vec![String::from("movies"), String::from("tv")];
    app.selected_category = SelectedCategory::Category(2);
    let mut data = MainData::empty(6);
    data.torrents = Some(vec![api_progress("Z", 0.9)]);
    data.categories_removed = Some(vec![String::from("movies")]);
    let first = handler.handle(&mut app, ApiEvent::Sync, Reply::Sync(data));
    assert_eq!(first, Ok(Handled::Reload));
    assert_eq!(handler.rid, 6);
    assert_eq!(app.categories, vec!["movies", "tv"]);
    assert_eq!(app.selected_category, SelectedCategory::Category(2));
    let mut everything = api_everything(&["Z"]);
    everything.categories.push((
        String::from("movies"),
        Category { name: String::from("movies"), save_path: String::new() },
    ));
    let second = handler.handle(&mut app, ApiEvent::Sync, Reply::Reload(everything));
    assert_eq!(second, Ok(Handled::Done { signal: None, open: None }));
    assert_eq!(handler.rid, 6);
    assert_eq!(app.torrents, vec![api_job("Z", 0.5)]);
    assert_eq!(app.categories, vec!["movies", "tv"]);
    assert_eq!(app.selected_category, SelectedCategory::Category(2));
}
