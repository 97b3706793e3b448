//! The remote client's rules, the dispatcher of intents, and the recovery of
//! a lost session.

use vstd::prelude::*;
use vstd::string::StringExecFns;
use crate::app::{App, AppListState, Notification, PubState, Route};
use crate::model::{
    DeleteTorrentParams, GetMainDataParams, GetTorrentFilesParams, GetTorrentListParams, Hashes,
    LoginPayload, MainData, TorrentFile,
};
use crate::reconcile::{
    after_cycle, outcome_of, reconcile, reconciled, reloaded, replace_snapshot, Cycle, Engine,
    ReloadData, SyncOutcome,
};
use crate::text::str_eq;
use crate::ui::UiEvent;

verus! {

/// What the user or the clock wants of the service.
#[derive(Debug, PartialEq, Eq)]
pub enum ApiEvent {
    Reload,
    Sync,
    Files(String),
    Delete(String),
    DeleteFiles(String),
    Pause(String),
    Resume(String),
}

impl Clone for ApiEvent {
    fn clone(&self) -> (copy: Self)
        ensures
            copy == *self,
    {
        match self {
            ApiEvent::Reload => ApiEvent::Reload,
            ApiEvent::Sync => ApiEvent::Sync,
            ApiEvent::Files(hash) => ApiEvent::Files(hash.clone()),
            ApiEvent::Delete(hash) => ApiEvent::Delete(hash.clone()),
            ApiEvent::DeleteFiles(hash) => ApiEvent::DeleteFiles(hash.clone()),
            ApiEvent::Pause(hash) => ApiEvent::Pause(hash.clone()),
            ApiEvent::Resume(hash) => ApiEvent::Resume(hash.clone()),
        }
    }
}

/// Why the service refused the name and password.
#[derive(Clone, Copy, Debug, PartialEq, Eq, Structural)]
pub enum LoginError {
    WrongCredentials,
    TooManyAttempts,
}

/// A failure that is not about the session.
#[derive(Debug, PartialEq, Eq)]
pub enum ExternalError {
    /// The service could not be reached or did not answer as HTTP asks; the
    /// text says what the transport reported.
    Connection(String),
    /// The service answered what no rule here expects.
    Internal,
}

/// Why a call to the service failed.
#[derive(Debug, PartialEq, Eq)]
pub enum ApiError {
    External(ExternalError),
    /// The service knows no session of ours.
    NotAuthenticated,
    Login(LoginError),
}

impl From<LoginError> for ApiError {
    fn from(value: LoginError) -> (error: Self) {
        ApiError::Login(value)
    }
}

impl vstd::std_specs::convert::FromSpecImpl<LoginError> for ApiError {
    open spec fn obeys_from_spec() -> bool {
        true
    }

    open spec fn from_spec(value: LoginError) -> Self {
        ApiError::Login(value)
    }
}

/// The status with which the service refuses a call for want of a session,
/// and a login for too many attempts.
pub const FORBIDDEN: u16 = 403;

/// The status of an answer that holds what was asked for.
pub const OK: u16 = 200;

/// How a call is made.
#[derive(Clone, Copy, Debug, PartialEq, Eq, Structural)]
pub enum Method {
    Get,
    Post,
}

/// A call to the service.
#[derive(Debug, PartialEq, Eq)]
pub enum Request {
    Login(LoginPayload),
    Logout,
    TransferInfo,
    SpeedLimitsMode,
    TorrentsInfo(Option<GetTorrentListParams>),
    TorrentsFiles(GetTorrentFilesParams),
    Categories,
    Pause(Hashes),
    Resume(Hashes),
    Delete(DeleteTorrentParams),
    SyncMaindata(GetMainDataParams),
}

impl Request {
    /// The path of the call below the root of the interface.
    pub open spec fn path_text(self) -> Seq<char> {
        match self {
            Request::Login(_) => "/auth/login"@,
            Request::Logout => "/auth/logout"@,
            Request::TransferInfo => "/transfer/info"@,
            Request::SpeedLimitsMode => "/transfer/speedLimitsMode"@,
            Request::TorrentsInfo(_) => "/torrents/info"@,
            Request::TorrentsFiles(_) => "/torrents/files"@,
            Request::Categories => "/torrents/categories"@,
            Request::Pause(_) => "/torrents/pause"@,
            Request::Resume(_) => "/torrents/resume"@,
            Request::Delete(_) => "/torrents/delete"@,
            Request::SyncMaindata(_) => "/sync/maindata"@,
        }
    }

    /// Whether the call changes something at the service, and so is a POST.
    pub open spec fn changes(self) -> bool {
        match self {
            Request::Login(_)
            | Request::Logout
            | Request::Pause(_)
            | Request::Resume(_)
            | Request::Delete(_) => true,
            _ => false,
        }
    }

    /// The path of the call below the root of the interface.
    pub fn path(&self) -> (path: &'static str)
        ensures
            path@ == self.path_text(),
    {
        match self {
            Request::Login(_) => "/auth/login",
            Request::Logout => "/auth/logout",
            Request::TransferInfo => "/transfer/info",
            Request::SpeedLimitsMode => "/transfer/speedLimitsMode",
            Request::TorrentsInfo(_) => "/torrents/info",
            Request::TorrentsFiles(_) => "/torrents/files",
            Request::Categories => "/torrents/categories",
            Request::Pause(_) => "/torrents/pause",
            Request::Resume(_) => "/torrents/resume",
            Request::Delete(_) => "/torrents/delete",
            Request::SyncMaindata(_) => "/sync/maindata",
        }
    }

    /// How the call is made: what changes something is posted, what only
    /// reads is got.
    pub fn method(&self) -> (method: Method)
        ensures
            method == if self.changes() {
                Method::Post
            } else {
                Method::Get
            },
    {
        match self {
            Request::Login(_)
            | Request::Logout
            | Request::Pause(_)
            | Request::Resume(_)
            | Request::Delete(_) => Method::Post,
            _ => Method::Get,
        }
    }

    /// How long to wait for the answer at most, in milliseconds, where the
    /// call has a limit of its own: only the end of the session has one.
    pub fn timeout_ms(&self) -> (limit: Option<u64>)
        ensures
            limit == if self is Logout {
                Some(500u64)
            } else {
                None
            },
    {
        match self {
            Request::Logout => Some(500),
            _ => None,
        }
    }
}

/// What the client knows of the service: where it is and who asks.
#[derive(Debug, PartialEq, Eq)]
pub struct Api {
    pub base_url: String,
    pub username: Option<String>,
    pub password: Option<String>,
    /// Whether a certificate that cannot be checked is accepted.
    pub do_not_verify_webui_certificate: bool,
}

impl Api {
    pub fn new(
        base_url: &str,
        do_not_verify_webui_certificate: bool,
        username: Option<String>,
        password: Option<String>,
    ) -> (api: Self)
        ensures
            api.base_url@ == base_url@,
            api.username == username,
            api.password == password,
            api.do_not_verify_webui_certificate == do_not_verify_webui_certificate,
    {
        Api {
            base_url: String::from_str(base_url),
            username,
            password,
            do_not_verify_webui_certificate,
        }
    }

    /// The address of a path of the interface.
    pub fn build_url(&self, path: &str) -> (url: String)
        ensures
            url@ == self.base_url@ + "/api/v2"@ + path@,
    {
        let mut url = self.base_url.clone();
        url.append("/api/v2");
        url.append(path);
        url
    }

    /// Whether a name and a password are there to open a session with.
    pub open spec fn has_credentials(self) -> bool {
        self.username is Some && self.password is Some
    }

    /// Whether a name and a password are there to open a session with.
    pub fn can_login(&self) -> (able: bool)
        ensures
            able == self.has_credentials(),
    {
        self.username.is_some() && self.password.is_some()
    }

    /// What to send to open a session, where a name and a password are there.
    pub fn login_payload(&self) -> (payload: Option<LoginPayload>)
        ensures
            payload is Some <==> self.has_credentials(),
            payload matches Some(p) ==> p.username@ == self.username->0@ && p.password@
                == self.password->0@,
    {
        match (&self.username, &self.password) {
            (Some(username), Some(password)) => Some(
                LoginPayload::new(username.as_str(), password.as_str()),
            ),
            _ => None,
        }
    }

    /// What the status of an answer says of the session: the service refuses
    /// with `FORBIDDEN` where it knows no session, and with nothing else.
    pub fn check_session(status: u16) -> (result: Result<(), ApiError>)
        ensures
            status == FORBIDDEN ==> result == Err::<(), ApiError>(ApiError::NotAuthenticated),
            status != FORBIDDEN ==> result is Ok,
    {
        if status == FORBIDDEN {
            Err(ApiError::NotAuthenticated)
        } else {
            Ok(())
        }
    }

    /// What the answer to a login means, by its status and its text.
    pub open spec fn login_result(status: u16, body: Seq<char>) -> Result<(), ApiError> {
        if status == OK {
            if body == "Ok."@ {
                Ok(())
            } else if body == "Fails."@ {
                Err(ApiError::Login(LoginError::WrongCredentials))
            } else {
                Err(ApiError::External(ExternalError::Internal))
            }
        } else if status == FORBIDDEN {
            Err(ApiError::Login(LoginError::TooManyAttempts))
        } else {
            Err(ApiError::External(ExternalError::Internal))
        }
    }

    /// Reads the answer to a login: the session is open where the service
    /// says `Ok.`; the name or the password is wrong where it says `Fails.`;
    /// too many attempts were made where it refuses with `FORBIDDEN`; and
    /// anything else is not an answer to a login.
    pub fn login(&self, status: u16, body: &str) -> (result: Result<(), ApiError>)
        ensures
            result == Self::login_result(status, body@),
    {
        if status == OK {
            if str_eq(body, "Ok.") {
                Ok(())
            } else if str_eq(body, "Fails.") {
                Err(ApiError::Login(LoginError::WrongCredentials))
            } else {
                Err(ApiError::External(ExternalError::Internal))
            }
        } else if status == FORBIDDEN {
            Err(ApiError::Login(LoginError::TooManyAttempts))
        } else {
            Err(ApiError::External(ExternalError::Internal))
        }
    }

    /// Reads the answer to the end of the session.
    pub fn logout(&self, status: u16) -> (result: Result<(), ApiError>)
        ensures
            status == FORBIDDEN ==> result == Err::<(), ApiError>(ApiError::NotAuthenticated),
            status != FORBIDDEN ==> result is Ok,
    {
        Self::check_session(status)
    }
}

/// What came back from the calls that an intent asked for.
#[derive(Debug, PartialEq, Eq)]
pub enum Reply {
    /// Everything that the service holds.
    Reload(ReloadData),
    /// What changed since the cursor.
    Sync(MainData),
    /// The files of a job, and whether the content of the job whose files
    /// are shown lies on this machine.
    Files { files: Vec<TorrentFile>, content_exists: bool },
    /// The service did what it was told.
    Done,
}

/// What the dispatcher asks of its caller after an answer.
#[derive(Debug, PartialEq, Eq)]
pub enum Handled {
    /// The intent is done. `signal` goes to the loop that draws, if there is
    /// one; the content at `open` is opened, if there is one.
    Done { signal: Option<UiEvent>, open: Option<String> },
    /// The answer does not suffice: everything is to be fetched, and handed
    /// to the dispatcher with the same intent.
    Reload,
}

/// What the recovery asks of its caller.
#[derive(Debug, PartialEq, Eq)]
pub enum Recovery {
    /// Nothing: the failure is noted, and the next tick tries again.
    Settled,
    /// Open a session with this, and hand the answer to `relogin`.
    Login(LoginPayload),
    /// Nothing: the program ends.
    Shutdown,
}

/// The dispatcher: the cursor of the synchronisation, and the intent at work.
#[derive(Debug, PartialEq, Eq)]
pub struct ApiHandler {
    pub api: Api,
    /// The cursor: what the service said to ask with next.
    pub rid: i64,
    /// The intent that was handed to the service last.
    pub current_event: ApiEvent,
}

/// The reason given when a new session could not be opened.
pub open spec fn could_not_relogin() -> Seq<char> {
    "Could not relogin"@
}

/// The reason given when the service knows no session and none can be had.
pub open spec fn not_authenticated() -> Seq<char> {
    "Not authenticated"@
}

/// The snapshot after a round trip that succeeded: connected, with no failed
/// attempt counted.
pub open spec fn connected(app: App) -> App {
    App { is_connected: true, error_reconnection_attempt_n: 0, ..app }
}

/// The snapshot after a failure that ends the program, with its reason.
pub open spec fn is_shut_down(before: App, after: App, reason: Seq<char>) -> bool {
    &&& after.forced_shutdown_reason matches Some(r) && r@ == reason
    &&& after == (App {
        is_running: false,
        forced_shutdown_reason: after.forced_shutdown_reason,
        ..before
    })
}

impl ApiHandler {
    /// A dispatcher that has seen nothing yet: the cursor is zero.
    pub fn new(
        base_url: &str,
        do_not_verify_webui_certificate: bool,
        username: Option<String>,
        password: Option<String>,
    ) -> (handler: Self)
        ensures
            handler.rid == 0,
            handler.current_event == ApiEvent::Sync,
            handler.api.base_url@ == base_url@,
            handler.api.username == username,
            handler.api.password == password,
            handler.api.do_not_verify_webui_certificate == do_not_verify_webui_certificate,
    {
        ApiHandler {
            api: Api::new(base_url, do_not_verify_webui_certificate, username, password),
            rid: 0,
            current_event: ApiEvent::Sync,
        }
    }

    /// The calls that an intent asks for, with the cursor `rid`: four for a
    /// reload, which do not depend on each other, and one for anything else.
    pub open spec fn calls_for(event: ApiEvent, rid: i64, requests: Seq<Request>) -> bool {
        match event {
            ApiEvent::Reload => {
                &&& requests.len() == 4
                &&& requests[0] is TransferInfo
                &&& requests[1] == Request::TorrentsInfo(None)
                &&& requests[2] is Categories
                &&& requests[3] is SpeedLimitsMode
            },
            ApiEvent::Sync => requests == seq![
                Request::SyncMaindata(GetMainDataParams { rid }),
            ],
            ApiEvent::Files(hash) => {
                &&& requests.len() == 1
                &&& requests[0] matches Request::TorrentsFiles(params)
                &&& params.hash == hash
            },
            ApiEvent::Pause(hash) => {
                &&& requests.len() == 1
                &&& requests[0] matches Request::Pause(hashes)
                &&& hashes.hashes == hash
            },
            ApiEvent::Resume(hash) => {
                &&& requests.len() == 1
                &&& requests[0] matches Request::Resume(hashes)
                &&& hashes.hashes == hash
            },
            ApiEvent::Delete(hash) => {
                &&& requests.len() == 1
                &&& requests[0] matches Request::Delete(params)
                &&& params.hashes == hash
                &&& !params.delete_files
            },
            ApiEvent::DeleteFiles(hash) => {
                &&& requests.len() == 1
                &&& requests[0] matches Request::Delete(params)
                &&& params.hashes == hash
                &&& params.delete_files
            },
        }
    }

    /// The four calls of a reload.
    pub fn reload_requests() -> (requests: Vec<Request>)
        ensures
            Self::calls_for(ApiEvent::Reload, 0, requests@),
    {
        let mut requests: Vec<Request> = Vec::new();
        requests.push(Request::TransferInfo);
        requests.push(Request::TorrentsInfo(None));
        requests.push(Request::Categories);
        requests.push(Request::SpeedLimitsMode);
        requests
    }

    /// Takes up an intent: notes it as the one at work, and names the calls
    /// to make for it.
    pub fn begin(&mut self, event: &ApiEvent) -> (requests: Vec<Request>)
        ensures
            final(self).current_event == *event,
            final(self).rid == old(self).rid,
            final(self).api == old(self).api,
            Self::calls_for(*event, old(self).rid, requests@),
    {
        self.current_event = event.clone();
        let mut requests: Vec<Request> = Vec::new();
        match event {
            ApiEvent::Reload => {
                return Self::reload_requests();
            },
            ApiEvent::Sync => {
                requests.push(Request::SyncMaindata(GetMainDataParams { rid: self.rid }));
                assert(requests@ =~= seq![Request::SyncMaindata(GetMainDataParams { rid: self.rid })]);
            },
            ApiEvent::Files(hash) => {
                requests.push(Request::TorrentsFiles(GetTorrentFilesParams { hash: hash.clone() }));
            },
            ApiEvent::Pause(hash) => {
                requests.push(Request::Pause(Hashes { hashes: hash.clone() }));
            },
            ApiEvent::Resume(hash) => {
                requests.push(Request::Resume(Hashes { hashes: hash.clone() }));
            },
            ApiEvent::Delete(hash) => {
                requests.push(
                    Request::Delete(DeleteTorrentParams { hashes: hash.clone(), delete_files: false }),
                );
            },
            ApiEvent::DeleteFiles(hash) => {
                requests.push(
                    Request::Delete(DeleteTorrentParams { hashes: hash.clone(), delete_files: true }),
                );
            },
        }
        requests
    }

    /// Takes over everything that was fetched, and starts the cursor anew.
    pub fn reload(&mut self, app: &mut App, data: ReloadData)
        ensures
            final(self).rid == 0,
            final(self).api == old(self).api,
            final(self).current_event == old(self).current_event,
            final(app)@ == reloaded(old(app)@, data),
            *final(app) == (App {
                torrents: final(app).torrents,
                categories: final(app).categories,
                selected_category: final(app).selected_category,
                transfer_info: final(app).transfer_info,
                ..*old(app)
            }),
    {
        replace_snapshot(app, data);
        self.rid = 0;
    }

    /// Takes over what changed since the cursor: the cursor becomes the one
    /// that the answer carries, whatever else the answer says, and the answer
    /// is merged into the snapshot. Says whether that suffices.
    pub fn sync(&mut self, app: &mut App, data: MainData) -> (outcome: SyncOutcome)
        ensures
            final(self).rid == data.rid,
            final(self).api == old(self).api,
            final(self).current_event == old(self).current_event,
            final(app)@ == reconciled(old(app)@, data),
            outcome == outcome_of(old(app)@, data),
            *final(app) == (App {
                torrents: final(app).torrents,
                categories: final(app).categories,
                selected_category: final(app).selected_category,
                transfer_info: final(app).transfer_info,
                ..*old(app)
            }),
            outcome == SyncOutcome::RequiresFullReload ==> *final(app) == (App {
                torrents: final(app).torrents,
                ..*old(app)
            }),
            data.full_update == Some(true) ==> *final(app) == *old(app),
    {
        self.rid = data.rid;
        reconcile(app, data)
    }

    /// The snapshot after the files of a job came back. Where no job's files
    /// are to be shown nothing changes. One file is opened, or reported as
    /// not found where the content does not lie on this machine. Any other
    /// number of files is listed, with the first chosen.
    pub open spec fn files_shown(before: App, files: Vec<TorrentFile>, content_exists: bool) -> App {
        if before.current_torrent is None {
            before
        } else if files@.len() == 1 {
            if content_exists {
                before
            } else {
                App { notification: Some(Notification::FileNotFound), ..before }
            }
        } else {
            App {
                current_torrent_files: Some(files),
                files_list: AppListState {
                    state: PubState { offset: before.files_list.state.offset, selected: Some(0) },
                    items: before.files_list.items,
                },
                current_route: Route::Files,
                ..before
            }
        }
    }

    /// The signal that goes to the loop that draws after the files of a job
    /// came back: to draw again, where the files are listed.
    pub open spec fn files_signal(before: App, files: Vec<TorrentFile>) -> Option<UiEvent> {
        if before.current_torrent is Some && files@.len() != 1 {
            Some(UiEvent::Redraw)
        } else {
            None
        }
    }

    /// Whether the content of the job is to be opened after its files came
    /// back: where it is a job of one file that lies on this machine.
    pub open spec fn files_opened(before: App, files: Vec<TorrentFile>, content_exists: bool) -> bool {
        before.current_torrent is Some && files@.len() == 1 && content_exists
    }

    fn show_files(app: &mut App, files: Vec<TorrentFile>, content_exists: bool) -> (done: (
        Option<UiEvent>,
        Option<String>,
    ))
        ensures
            *final(app) == Self::files_shown(*old(app), files, content_exists),
            done.0 == Self::files_signal(*old(app), files),
            done.1 is Some <==> Self::files_opened(*old(app), files, content_exists),
            done.1 matches Some(path) ==> path == old(app).current_torrent->0.content_path,
    {
        match &app.current_torrent {
            Some(torrent) => {
                if files.len() == 1 {
                    if content_exists {
                        (None, Some(torrent.content_path.clone()))
                    } else {
                        app.notification = Some(Notification::FileNotFound);
                        (None, None)
                    }
                } else {
                    app.current_torrent_files = Some(files);
                    app.files_list.state.select(Some(0));
                    app.current_route = Route::Files;
                    (Some(UiEvent::Redraw), None)
                }
            },
            None => (None, None),
        }
    }

    fn mark_connected(app: &mut App)
        ensures
            *final(app) == connected(*old(app)),
    {
        app.is_connected = true;
        app.error_reconnection_attempt_n = 0;
    }

    /// Whether an answer is one to the calls of an intent.
    pub open spec fn answers(event: ApiEvent, reply: Reply) -> bool {
        match (event, reply) {
            (ApiEvent::Reload, Reply::Reload(_)) => true,
            (ApiEvent::Sync, Reply::Sync(_)) => true,
            (ApiEvent::Sync, Reply::Reload(_)) => true,
            (ApiEvent::Files(_), Reply::Files { .. }) => true,
            (ApiEvent::Pause(_), Reply::Done) => true,
            (ApiEvent::Resume(_), Reply::Done) => true,
            (ApiEvent::Delete(_), Reply::Done) => true,
            (ApiEvent::DeleteFiles(_), Reply::Done) => true,
            _ => false,
        }
    }

    /// What an answer to the calls of an intent does to the dispatcher and
    /// to the snapshot, and what the dispatcher asks of its caller then.
    ///
    /// Everything fetched for a reload replaces the snapshot and starts the
    /// cursor anew. What changed since the cursor is merged in, and the
    /// cursor moves on; where that does not suffice, nothing but jobs of
    /// the snapshot has changed, everything is asked for, and when it comes
    /// it replaces the snapshot while the cursor stays where the answer put
    /// it. A pause, a resumption or a deletion
    /// that was done asks for a synchronisation at once. Whenever an intent
    /// is done the snapshot is connected, with no failed attempt counted,
    /// and a synchronisation that is done is counted.
    pub open spec fn handled(
        before: ApiHandler,
        app_before: App,
        event: ApiEvent,
        reply: Reply,
        after: ApiHandler,
        app_after: App,
        result: Handled,
    ) -> bool {
        &&& after.api == before.api
        &&& after.current_event == before.current_event
        &&& match (event, reply) {
            (ApiEvent::Reload, Reply::Reload(data)) => {
                &&& after.rid == 0
                &&& result == (Handled::Done { signal: None, open: None })
                &&& app_after@ == reloaded(app_before@, data)
                &&& app_after == connected(
                    App {
                        torrents: app_after.torrents,
                        categories: app_after.categories,
                        selected_category: app_after.selected_category,
                        transfer_info: app_after.transfer_info,
                        ..app_before
                    },
                )
            },
            (ApiEvent::Sync, Reply::Sync(data)) => {
                &&& after.rid == data.rid
                &&& app_after@ == reconciled(app_before@, data)
                &&& match outcome_of(app_before@, data) {
                    SyncOutcome::Applied => {
                        &&& result == (Handled::Done { signal: None, open: None })
                        &&& app_after == connected(
                            App {
                                torrents: app_after.torrents,
                                categories: app_after.categories,
                                selected_category: app_after.selected_category,
                                transfer_info: app_after.transfer_info,
                                trace_handle_sync_event_n: app_after.trace_handle_sync_event_n,
                                ..app_before
                            },
                        )
                        &&& app_after.trace_handle_sync_event_n == counted(
                            app_before.trace_handle_sync_event_n,
                        )
                    },
                    SyncOutcome::RequiresFullReload => {
                        &&& result is Reload
                        &&& app_after == (App { torrents: app_after.torrents, ..app_before })
                        &&& data.full_update == Some(true) ==> app_after == app_before
                    },
                }
            },
            (ApiEvent::Sync, Reply::Reload(data)) => {
                &&& after.rid == before.rid
                &&& result == (Handled::Done { signal: None, open: None })
                &&& app_after@ == reloaded(app_before@, data)
                &&& app_after == connected(
                    App {
                        torrents: app_after.torrents,
                        categories: app_after.categories,
                        selected_category: app_after.selected_category,
                        transfer_info: app_after.transfer_info,
                        trace_handle_sync_event_n: app_after.trace_handle_sync_event_n,
                        ..app_before
                    },
                )
                &&& app_after.trace_handle_sync_event_n == counted(
                    app_before.trace_handle_sync_event_n,
                )
            },
            (ApiEvent::Files(_), Reply::Files { files, content_exists }) => {
                &&& after.rid == before.rid
                &&& result matches Handled::Done { signal, open }
                &&& signal == Self::files_signal(app_before, files)
                &&& open is Some <==> Self::files_opened(app_before, files, content_exists)
                &&& open matches Some(path) ==> path == app_before.current_torrent->0.content_path
                &&& app_after == connected(Self::files_shown(app_before, files, content_exists))
            },
            (ApiEvent::Pause(_), Reply::Done)
            | (ApiEvent::Resume(_), Reply::Done)
            | (ApiEvent::Delete(_), Reply::Done)
            | (ApiEvent::DeleteFiles(_), Reply::Done) => {
                &&& after.rid == before.rid
                &&& result == (Handled::Done { signal: Some(UiEvent::Tick), open: None })
                &&& app_after == connected(app_before)
            },
            _ => false,
        }
    }

    fn count_sync(app: &mut App)
        ensures
            *final(app) == (App {
                trace_handle_sync_event_n: counted(old(app).trace_handle_sync_event_n),
                ..*old(app)
            }),
    {
        app.trace_handle_sync_event_n = count(app.trace_handle_sync_event_n);
    }

    /// Takes in the answer to the calls of an intent. An answer that is none
    /// to these calls is an error of the protocol, and changes nothing.
    pub fn handle(&mut self, app: &mut App, event: ApiEvent, reply: Reply) -> (result: Result<
        Handled,
        ApiError,
    >)
        ensures
            match result {
                Ok(done) => Self::answers(event, reply) && Self::handled(
                    *old(self),
                    *old(app),
                    event,
                    reply,
                    *final(self),
                    *final(app),
                    done,
                ),
                Err(e) => {
                    &&& !Self::answers(event, reply)
                    &&& e == ApiError::External(ExternalError::Internal)
                    &&& *final(self) == *old(self)
                    &&& *final(app) == *old(app)
                },
            },
    {
        match (event, reply) {
            (ApiEvent::Reload, Reply::Reload(data)) => {
                self.reload(app, data);
                Self::mark_connected(app);
                Ok(Handled::Done { signal: None, open: None })
            },
            (ApiEvent::Sync, Reply::Sync(data)) => {
                match self.sync(app, data) {
                    SyncOutcome::Applied => {
                        Self::count_sync(app);
                        Self::mark_connected(app);
                        Ok(Handled::Done { signal: None, open: None })
                    },
                    SyncOutcome::RequiresFullReload => Ok(Handled::Reload),
                }
            },
            (ApiEvent::Sync, Reply::Reload(data)) => {
                replace_snapshot(app, data);
                Self::count_sync(app);
                Self::mark_connected(app);
                Ok(Handled::Done { signal: None, open: None })
            },
            (ApiEvent::Files(_), Reply::Files { files, content_exists }) => {
                let (signal, open) = Self::show_files(app, files, content_exists);
                Self::mark_connected(app);
                Ok(Handled::Done { signal, open })
            },
            (ApiEvent::Pause(_), Reply::Done)
            | (ApiEvent::Resume(_), Reply::Done)
            | (ApiEvent::Delete(_), Reply::Done)
            | (ApiEvent::DeleteFiles(_), Reply::Done) => {
                Self::mark_connected(app);
                Ok(Handled::Done { signal: Some(UiEvent::Tick), open: None })
            },
            _ => Err(ApiError::External(ExternalError::Internal)),
        }
    }

    fn shut_down(app: &mut App, reason: &str)
        ensures
            is_shut_down(*old(app), *final(app), reason@),
    {
        app.is_running = false;
        app.forced_shutdown_reason = Some(String::from_str(reason));
    }

    /// What a failed call does to the snapshot, and what the recovery asks
    /// of its caller then.
    ///
    /// A failure of the transport is counted, the snapshot is disconnected,
    /// and the table of jobs comes to the front. A refusal for want of a
    /// session is passed over where the program is ending anyway; it ends
    /// the program where no name and password are there to open a session
    /// with; else a session is to be opened.
    pub open spec fn recovered(
        handler: ApiHandler,
        before: App,
        e: ApiError,
        after: App,
        step: Recovery,
    ) -> bool {
        match e {
            ApiError::External(_) => {
                &&& step is Settled
                &&& after == (App {
                    is_connected: false,
                    error_reconnection_attempt_n: counted(before.error_reconnection_attempt_n),
                    current_route: Route::Torrents,
                    ..before
                })
            },
            ApiError::NotAuthenticated => if !before.is_running {
                step is Settled && after == before
            } else if !handler.api.has_credentials() {
                step is Shutdown && is_shut_down(before, after, not_authenticated())
            } else {
                &&& after == before
                &&& step matches Recovery::Login(payload)
                &&& payload.username@ == handler.api.username->0@
                &&& payload.password@ == handler.api.password->0@
            },
            ApiError::Login(_) => false,
        }
    }

    /// Takes in the failure of a call. A refusal of a login is none: it
    /// comes from no call that an intent asks for.
    pub fn handle_error(&mut self, app: &mut App, e: ApiError) -> (step: Recovery)
        requires
            e !is Login,
        ensures
            *final(self) == *old(self),
            Self::recovered(*old(self), *old(app), e, *final(app), step),
    {
        match e {
            ApiError::External(_) => {
                app.is_connected = false;
                app.error_reconnection_attempt_n = count(app.error_reconnection_attempt_n);
                app.current_route = Route::Torrents;
                Recovery::Settled
            },
            ApiError::NotAuthenticated => {
                if !app.is_running {
                    return Recovery::Settled;
                }
                match self.api.login_payload() {
                    Some(payload) => Recovery::Login(payload),
                    None => {
                        Self::shut_down(app, "Not authenticated");
                        Recovery::Shutdown
                    },
                }
            },
            ApiError::Login(_) => Recovery::Settled,
        }
    }

    /// Takes in the answer to the login that the recovery asked for. With a
    /// session the intent that was at work when the session was lost is to
    /// be handed to the service once more; without one the program ends.
    pub fn relogin(&mut self, app: &mut App, result: Result<(), ApiError>) -> (replay: Option<
        ApiEvent,
    >)
        ensures
            *final(self) == *old(self),
            result is Ok ==> replay == Some(old(self).current_event) && *final(app) == *old(app),
            result is Err ==> replay is None && is_shut_down(
                *old(app),
                *final(app),
                could_not_relogin(),
            ),
    {
        match result {
            Ok(_) => Some(self.current_event.clone()),
            Err(_) => {
                Self::shut_down(app, "Could not relogin");
                None
            },
        }
    }

    /// Takes in how the intent fared that was handed to the service once
    /// more after a login. A second failure ends the program: a session is
    /// opened once for an intent, and no more.
    pub fn replayed(&mut self, app: &mut App, result: Result<(), ApiError>) -> (running: bool)
        ensures
            *final(self) == *old(self),
            running == result is Ok,
            result is Ok ==> *final(app) == *old(app),
            result is Err ==> is_shut_down(*old(app), *final(app), not_authenticated()),
    {
        match result {
            Ok(_) => true,
            Err(_) => {
                Self::shut_down(app, "Not authenticated");
                false
            },
        }
    }
}

/// A count after one more: it stops at the largest number that it can hold.
pub open spec fn counted(n: usize) -> usize {
    if n < usize::MAX {
        (n + 1) as usize
    } else {
        n
    }
}

/// Counts one more, and stops at the largest number that the count can hold.
pub fn count(n: usize) -> (m: usize)
    ensures
        m == counted(n),
{
    if n < usize::MAX {
        n + 1
    } else {
        n
    }
}

/// Whether the service is reachable, as the snapshot knows it.
#[derive(Clone, Copy, Debug, PartialEq, Eq, Structural)]
pub enum SessionState {
    /// The last round trip succeeded.
    Connected,
    /// This many round trips in a row have failed.
    Disconnected(usize),
    /// No session can be had: the program ends.
    Fatal,
}

/// Whether the service is reachable, as the snapshot knows it.
pub open spec fn session_of(app: App) -> SessionState {
    if app.forced_shutdown_reason is Some {
        SessionState::Fatal
    } else if app.is_connected {
        SessionState::Connected
    } else {
        SessionState::Disconnected(app.error_reconnection_attempt_n)
    }
}

/// Whether the service is reachable, as the snapshot knows it.
pub fn session_state(app: &App) -> (state: SessionState)
    ensures
        state == session_of(*app),
{
    if app.forced_shutdown_reason.is_some() {
        SessionState::Fatal
    } else if app.is_connected {
        SessionState::Connected
    } else {
        SessionState::Disconnected(app.error_reconnection_attempt_n)
    }
}

/// The synchronisation as a whole, as a dispatcher and a snapshot hold it.
pub open spec fn engine_of(handler: ApiHandler, app: App) -> Engine {
    Engine { cursor: handler.rid, snapshot: app@ }
}

/// Every round trip that ends an intent leaves the snapshot connected, with
/// no failed attempt counted, whatever it was before.
pub proof fn law_success_reconnects(
    before: ApiHandler,
    app_before: App,
    event: ApiEvent,
    reply: Reply,
    after: ApiHandler,
    app_after: App,
    result: Handled,
)
    requires
        ApiHandler::handled(before, app_before, event, reply, after, app_after, result),
        result is Done,
    ensures
        app_after.is_connected,
        app_after.error_reconnection_attempt_n == 0,
        app_before.forced_shutdown_reason is None ==> session_of(app_after)
            == SessionState::Connected,
{
}

/// Every failure of the transport counts one more failed attempt, as long as
/// the count can hold it, and leaves the snapshot disconnected.
pub proof fn law_transport_failure_counts(
    handler: ApiHandler,
    before: App,
    e: ApiError,
    after: App,
    step: Recovery,
)
    requires
        e is External,
        ApiHandler::recovered(handler, before, e, after, step),
    ensures
        !after.is_connected,
        after.error_reconnection_attempt_n == counted(before.error_reconnection_attempt_n),
        before.error_reconnection_attempt_n < usize::MAX ==> after.error_reconnection_attempt_n
            == before.error_reconnection_attempt_n + 1,
        after.is_running == before.is_running,
{
}

/// What the dispatcher makes of the answers of one cycle of the
/// synchronisation is what the cycle is said to make of it: whether the
/// answer sufficed, or everything was fetched after it.
pub proof fn law_dispatcher_follows_cycle(
    start: ApiHandler,
    app_start: App,
    cycle: Cycle,
    merged: ApiHandler,
    app_merged: App,
    first: Handled,
    end: ApiHandler,
    app_end: App,
    second: Handled,
)
    requires
        ApiHandler::handled(
            start,
            app_start,
            ApiEvent::Sync,
            Reply::Sync(cycle.answer),
            merged,
            app_merged,
            first,
        ),
        first is Reload ==> ApiHandler::handled(
            merged,
            app_merged,
            ApiEvent::Sync,
            Reply::Reload(cycle.everything),
            end,
            app_end,
            second,
        ),
    ensures
        first is Done ==> engine_of(merged, app_merged) == after_cycle(
            engine_of(start, app_start),
            cycle,
        ),
        first is Reload ==> engine_of(end, app_end) == after_cycle(
            engine_of(start, app_start),
            cycle,
        ),
{
}

} // verus!
