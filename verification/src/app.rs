//! The shared snapshot: what is known of the service, and what the user has
//! selected.

use vstd::prelude::*;
use vstd::string::StringExecFns;
use crate::api::ApiEvent;
use crate::handlers;
use crate::input::{Effect, KeyEvent, MouseEvent};
use crate::model::{TorrentFile, TorrentInfo, TransferInfo};
use crate::text::{
    dotted, lowercase_of, occurs_in, replace_spaces, str_contains, to_lowercase, trim, trim_of,
};

verus! {

/// The view that has the keyboard.
#[derive(Clone, Copy, Debug, PartialEq, Eq, Structural)]
pub enum Route {
    Torrents,
    Sort,
    Categories,
    Search,
    Help,
    Info,
    Files,
    Dialog,
}

impl Default for Route {
    fn default() -> (route: Self)
        ensures
            route == Route::Torrents,
    {
        Route::Torrents
    }
}

/// A rectangle of the terminal, in cells.
#[derive(Clone, Copy, Debug, PartialEq, Eq, Structural)]
pub struct Rect {
    pub x: u16,
    pub y: u16,
    pub width: u16,
    pub height: u16,
}

/// Where a list or a table stands: the first row shown and the row chosen.
#[derive(Clone, Copy, Debug, PartialEq, Eq, Structural)]
pub struct PubState {
    pub offset: usize,
    pub selected: Option<usize>,
}

impl PubState {
    /// A state with nothing chosen, at the top.
    pub fn new() -> (state: Self)
        ensures
            state == (PubState { offset: 0, selected: None }),
    {
        PubState { offset: 0, selected: None }
    }

    pub fn selected(&self) -> (index: Option<usize>)
        ensures
            index == self.selected,
    {
        self.selected
    }

    /// Chooses a row, or none; with none chosen the list goes back to the top.
    pub fn select(&mut self, index: Option<usize>)
        ensures
            final(self).selected == index,
            final(self).offset == if index is None {
                0
            } else {
                old(self).offset
            },
    {
        self.selected = index;
        if index.is_none() {
            self.offset = 0;
        }
    }

    /// The first row shown after the chosen row was brought into a window of
    /// `height` rows: the window moves no further than it must, and stays
    /// where no row is chosen or the window has no height.
    pub open spec fn offset_in_view(self, height: usize) -> usize {
        match self.selected {
            Some(i) => if i < self.offset {
                i
            } else if height > 0 && i - self.offset >= height {
                (i - height + 1) as usize
            } else {
                self.offset
            },
            None => self.offset,
        }
    }

    /// Moves the window of `height` rows so that the chosen row is shown.
    pub fn keep_in_view(&mut self, height: usize)
        ensures
            final(self).selected == old(self).selected,
            final(self).offset == old(self).offset_in_view(height),
    {
        if let Some(i) = self.selected {
            if i < self.offset {
                self.offset = i;
            } else if height > 0 && i - self.offset >= height {
                self.offset = i - height + 1;
            }
        }
    }

    /// After the window was moved, the chosen row lies in it.
    pub proof fn law_chosen_row_is_in_view(self, height: usize)
        requires
            height > 0,
            self.selected is Some,
        ensures
            self.offset_in_view(height) <= self.selected->0 < self.offset_in_view(height)
                + height,
    {
    }

    /// The row after the chosen one among `len` rows, the first after the
    /// last; the first where none is chosen.
    pub open spec fn next_index(self, len: nat) -> nat {
        match self.selected {
            Some(i) => if i + 1 >= len {
                0
            } else {
                (i + 1) as nat
            },
            None => 0,
        }
    }

    /// The row before the chosen one among `len` rows, the last before the
    /// first; the first where none is chosen.
    pub open spec fn prev_index(self, len: nat) -> nat {
        match self.selected {
            Some(i) => if i == 0 {
                if len == 0 {
                    0
                } else {
                    (len - 1) as nat
                }
            } else {
                (i - 1) as nat
            },
            None => 0,
        }
    }

    /// Moves the choice one row down among `len` rows, round the end.
    pub fn select_next(&mut self, len: usize)
        ensures
            final(self).selected == Some(old(self).next_index(len as nat) as usize),
            final(self).offset == old(self).offset,
    {
        let i: usize = match self.selected {
            Some(i) => {
                if len == 0 || i >= len - 1 {
                    0
                } else {
                    i + 1
                }
            },
            None => 0,
        };
        self.select(Some(i));
    }

    /// Moves the choice one row up among `len` rows, round the start.
    pub fn select_prev(&mut self, len: usize)
        ensures
            final(self).selected == Some(old(self).prev_index(len as nat) as usize),
            final(self).offset == old(self).offset,
    {
        let i: usize = match self.selected {
            Some(i) => {
                if i == 0 {
                    if len == 0 {
                        0
                    } else {
                        len - 1
                    }
                } else {
                    i - 1
                }
            },
            None => 0,
        };
        self.select(Some(i));
    }
}

/// The table of jobs: where it stands and the rows last drawn.
#[derive(Debug, PartialEq, Eq)]
pub struct TorrentsTable {
    pub state: PubState,
    pub items: Vec<Vec<String>>,
}

/// A list: where it stands and the lines last drawn.
#[derive(Debug, PartialEq, Eq)]
pub struct AppListState {
    pub state: PubState,
    pub items: Vec<String>,
}

/// How far a text is scrolled, and how high it is.
#[derive(Clone, Copy, Debug, PartialEq, Eq, Structural)]
pub struct ScrollableTextState {
    pub scroll: u16,
    pub text_height: usize,
}

/// The filter on the jobs' category. `Category(i)` stands for line `i` of
/// the list of categories, which starts with the two lines for all jobs and
/// for jobs without a category: it names the category at place `i - 2`.
#[derive(Clone, Copy, Debug, PartialEq, Eq, Structural)]
pub enum SelectedCategory {
    All,
    Uncategorized,
    Category(usize),
}

impl Default for SelectedCategory {
    fn default() -> (selected: Self)
        ensures
            selected == SelectedCategory::All,
    {
        SelectedCategory::All
    }
}

/// The direction in which a column of the table is sorted.
#[derive(Clone, Copy, Debug, PartialEq, Eq, Structural)]
pub enum SortOrder {
    Asc,
    Desc,
}

/// The direction that follows `order` when the user asks for the next:
/// upwards after none, downwards after upwards, none after downwards.
pub open spec fn sort_order_after(order: Option<SortOrder>) -> Option<SortOrder> {
    match order {
        None => Some(SortOrder::Asc),
        Some(SortOrder::Asc) => Some(SortOrder::Desc),
        Some(SortOrder::Desc) => None,
    }
}

/// The direction that follows `order` when the user asks for the next.
pub fn next_sort_order(order: &Option<SortOrder>) -> (next: Option<SortOrder>)
    ensures
        next == sort_order_after(*order),
{
    match order {
        None => Some(SortOrder::Asc),
        Some(SortOrder::Asc) => Some(SortOrder::Desc),
        Some(SortOrder::Desc) => None,
    }
}

/// What the user is asked to confirm.
#[derive(Clone, Copy, Debug, PartialEq, Eq, Structural)]
pub enum Action {
    Delete,
    DeleteFiles,
}

/// What the user is told.
#[derive(Clone, Copy, Debug, PartialEq, Eq, Structural)]
pub enum Notification {
    FileNotFound,
}

/// The shared snapshot.
#[derive(Debug, PartialEq, Eq)]
pub struct App {
    pub host: String,
    /// Whether the last round trip to the service succeeded.
    pub is_connected: bool,
    /// Whether the program goes on; once false it ends.
    pub is_running: bool,
    /// Why the program ends, where it does not end by the user's wish.
    pub forced_shutdown_reason: Option<String>,
    /// Whether the service runs on another machine, so that no file of it
    /// can be opened here.
    pub remote: bool,
    /// How many round trips in a row have failed.
    pub error_reconnection_attempt_n: usize,
    pub notification: Option<Notification>,
    pub torrents: Vec<TorrentInfo>,
    /// The job whose files or details are shown.
    pub current_torrent: Option<TorrentInfo>,
    pub transfer_info: TransferInfo,
    pub categories: Vec<String>,
    pub current_route: Route,
    /// The view to go back to from the help.
    pub on_help_route: Option<Route>,
    pub on_error_route: Option<Route>,
    pub selected_category: SelectedCategory,
    pub category_sort_order: Option<SortOrder>,
    pub name_sort_order: Option<SortOrder>,
    pub status_sort_order: Option<SortOrder>,
    pub sort_list: AppListState,
    pub sort_list_rect: Option<Rect>,
    pub torrents_table: TorrentsTable,
    pub torrents_table_rect: Option<Rect>,
    pub categories_list: AppListState,
    pub categories_list_rect: Option<Rect>,
    pub info_state: ScrollableTextState,
    pub current_torrent_files: Option<Vec<TorrentFile>>,
    pub files_list: AppListState,
    pub files_list_rect: Option<Rect>,
    pub search_value: String,
    pub help_state: ScrollableTextState,
    pub current_action: Option<Action>,
    pub confirm: bool,
    /// Column and row of the last click of the left button.
    pub left_click: (u16, u16),
    /// When the left button was last clicked, in milliseconds.
    pub left_click_ts: u64,
    pub trace_send_sync_event_n: usize,
    pub trace_handle_sync_event_n: usize,
}

/// What the service is known to hold, and the filter that reads it: the part
/// of the snapshot that a synchronisation works on.
pub struct Snapshot {
    pub torrents: Seq<TorrentInfo>,
    pub transfer_info: TransferInfo,
    pub categories: Seq<Seq<char>>,
    pub selected_category: SelectedCategory,
}

impl View for App {
    type V = Snapshot;

    /// The part of the snapshot that a synchronisation works on.
    open spec fn view(&self) -> Snapshot {
        Snapshot {
            torrents: self.torrents@,
            transfer_info: self.transfer_info,
            categories: self.categories.deep_view(),
            selected_category: self.selected_category,
        }
    }
}

impl App {

    /// The snapshot at the start: connected and running, nothing known of the
    /// service, the table of jobs in front, all categories shown, the first
    /// line of the list of categories chosen.
    pub open spec fn is_initial(self, host: Seq<char>, now: u64) -> bool {
        &&& self.host@ == host
        &&& self.is_connected
        &&& self.is_running
        &&& self.forced_shutdown_reason is None
        &&& !self.remote
        &&& self.error_reconnection_attempt_n == 0
        &&& self.notification is None
        &&& self.torrents@.len() == 0
        &&& self.current_torrent is None
        &&& self.transfer_info == TransferInfo::zero()
        &&& self.categories@.len() == 0
        &&& self.current_route == Route::Torrents
        &&& self.on_help_route is None
        &&& self.on_error_route is None
        &&& self.selected_category == SelectedCategory::All
        &&& self.category_sort_order is None
        &&& self.name_sort_order is None
        &&& self.status_sort_order is None
        &&& self.sort_list.state == (PubState { offset: 0, selected: None })
        &&& self.sort_list.items@.len() == 0
        &&& self.sort_list_rect is None
        &&& self.torrents_table.state == (PubState { offset: 0, selected: None })
        &&& self.torrents_table.items@.len() == 0
        &&& self.torrents_table_rect is None
        &&& self.categories_list.state == (PubState { offset: 0, selected: Some(0) })
        &&& self.categories_list.items@.len() == 0
        &&& self.categories_list_rect is None
        &&& self.info_state == (ScrollableTextState { scroll: 0, text_height: 0 })
        &&& self.current_torrent_files is None
        &&& self.files_list.state == (PubState { offset: 0, selected: None })
        &&& self.files_list.items@.len() == 0
        &&& self.files_list_rect is None
        &&& self.search_value@.len() == 0
        &&& self.help_state == (ScrollableTextState { scroll: 0, text_height: 0 })
        &&& self.current_action is None
        &&& !self.confirm
        &&& self.left_click == (0u16, 0u16)
        &&& self.left_click_ts == now
        &&& self.trace_send_sync_event_n == 0
        &&& self.trace_handle_sync_event_n == 0
    }

    /// The snapshot at the start, for the service at `host`; `now` is the
    /// time in milliseconds.
    pub fn new(host: &str, now: u64) -> (app: Self)
        ensures
            app.is_initial(host@, now),
    {
        let mut categories_list = AppListState { state: PubState::new(), items: Vec::new() };
        categories_list.state.select(Some(0));
        App {
            host: String::from_str(host),
            is_connected: true,
            is_running: true,
            forced_shutdown_reason: None,
            remote: false,
            error_reconnection_attempt_n: 0,
            notification: None,
            torrents: Vec::new(),
            current_torrent: None,
            transfer_info: TransferInfo::default(),
            categories: Vec::new(),
            current_route: Route::Torrents,
            on_help_route: None,
            on_error_route: None,
            selected_category: SelectedCategory::All,
            category_sort_order: None,
            name_sort_order: None,
            status_sort_order: None,
            sort_list: AppListState { state: PubState::new(), items: Vec::new() },
            sort_list_rect: None,
            torrents_table: TorrentsTable { state: PubState::new(), items: Vec::new() },
            torrents_table_rect: None,
            categories_list,
            categories_list_rect: None,
            info_state: ScrollableTextState { scroll: 0, text_height: 0 },
            current_torrent_files: None,
            files_list: AppListState { state: PubState::new(), items: Vec::new() },
            files_list_rect: None,
            search_value: String::new(),
            help_state: ScrollableTextState { scroll: 0, text_height: 0 },
            current_action: None,
            confirm: false,
            left_click: (0, 0),
            left_click_ts: now,
            trace_send_sync_event_n: 0,
            trace_handle_sync_event_n: 0,
        }
    }

    /// Asks the user to confirm `action`.
    pub fn set_current_action(&mut self, action: Action)
        ensures
            *final(self) == (App {
                current_action: Some(action),
                confirm: false,
                current_route: Route::Dialog,
                ..*old(self)
            }),
    {
        self.current_action = Some(action);
        self.confirm = false;
        self.current_route = Route::Dialog;
    }

    /// Drops what the user was asked to confirm.
    pub fn reset_current_action(&mut self)
        ensures
            *final(self) == (App {
                current_action: None,
                confirm: false,
                current_route: Route::Torrents,
                ..*old(self)
            }),
    {
        self.current_action = None;
        self.confirm = false;
        self.current_route = Route::Torrents;
    }

    /// The filter that line `i` of the list of categories stands for.
    pub open spec fn category_at(i: usize) -> SelectedCategory {
        if i == 0 {
            SelectedCategory::All
        } else if i == 1 {
            SelectedCategory::Uncategorized
        } else {
            SelectedCategory::Category(i)
        }
    }

    /// Makes the chosen line of the list of categories the filter, and
    /// chooses no job; does nothing where no line is chosen.
    pub fn choose_selected_category(&mut self)
        ensures
            old(self).categories_list.state.selected is None ==> *final(self) == *old(self),
            old(self).categories_list.state.selected matches Some(i) ==> *final(self) == (App {
                selected_category: Self::category_at(i),
                torrents_table: TorrentsTable {
                    state: PubState { offset: 0, selected: None },
                    items: old(self).torrents_table.items,
                },
                ..*old(self)
            }),
    {
        if let Some(i) = self.categories_list.state.selected() {
            self.selected_category = if i == 0 {
                SelectedCategory::All
            } else if i == 1 {
                SelectedCategory::Uncategorized
            } else {
                SelectedCategory::Category(i)
            };
            self.torrents_table.state.select(None);
        }
    }

    /// Whether the filter on the category lets the job through: a filter
    /// that refers to no category that is there lets none through.
    pub open spec fn in_category(self, torrent: TorrentInfo) -> bool {
        match self.selected_category {
            SelectedCategory::All => true,
            SelectedCategory::Uncategorized => torrent.category@.len() == 0,
            SelectedCategory::Category(i) => 2 <= i && i - 2 < self.categories@.len()
                && torrent.category@ == self.categories@[i - 2]@,
        }
    }

    /// What is looked for in the names of the jobs: the text of the search
    /// without the whitespace round it, in lower case.
    pub open spec fn search_text(self) -> Seq<char> {
        lowercase_of(trim_of(self.search_value@))
    }

    /// Whether the search lets the job through: its name in lower case
    /// holds what is looked for, as it is or with full stops for spaces.
    pub open spec fn named_like(self, torrent: TorrentInfo) -> bool {
        holds_either(
            lowercase_of(torrent.name@),
            self.search_text(),
            dotted(self.search_text()),
        )
    }

    /// The test that a job passes to be shown.
    pub open spec fn shows(self) -> spec_fn(TorrentInfo) -> bool {
        |torrent: TorrentInfo| self.in_category(torrent) && self.named_like(torrent)
    }

    /// The jobs that are shown, in the order of the snapshot.
    pub open spec fn visible(self) -> Seq<TorrentInfo> {
        self.torrents@.filter(self.shows())
    }

    /// The job that is chosen in the table, if one is.
    pub open spec fn selected_torrent(self) -> Option<TorrentInfo> {
        match self.torrents_table.state.selected {
            Some(i) => if i < self.visible().len() {
                Some(self.visible()[i as int])
            } else {
                None
            },
            None => None,
        }
    }

    fn passes_category(&self, torrent: &TorrentInfo) -> (passes: bool)
        ensures
            passes == self.in_category(*torrent),
    {
        match self.selected_category {
            SelectedCategory::All => true,
            SelectedCategory::Uncategorized => torrent.category.as_str().is_empty(),
            SelectedCategory::Category(i) => {
                2 <= i && i - 2 < self.categories.len() && torrent.category == self.categories[i - 2]
            },
        }
    }

    /// The jobs that are shown: those that the filter on the category and
    /// the search let through.
    pub fn get_visible_torrents(&self) -> (shown: Vec<&TorrentInfo>)
        ensures
            pointees(shown@) == self.visible(),
    {
        let normal_value = to_lowercase(trim(self.search_value.as_str()));
        let dotted_value = replace_spaces(normal_value.as_str());
        let ghost keep = self.shows();
        let mut shown: Vec<&TorrentInfo> = Vec::new();
        proof {
            reveal(Seq::filter);
            assert(pointees(shown@) =~= self.torrents@.take(0).filter(keep));
        }
        let mut i: usize = 0;
        while i < self.torrents.len()
            invariant
                i <= self.torrents@.len(),
                keep == self.shows(),
                normal_value@ == self.search_text(),
                dotted_value@ == dotted(self.search_text()),
                pointees(shown@) == self.torrents@.take(i as int).filter(keep),
            decreases self.torrents@.len() - i,
        {
            let torrent = &self.torrents[i];
            let ghost before = pointees(shown@);
            proof {
                reveal(Seq::filter);
                assert(self.torrents@.take(i + 1).drop_last() =~= self.torrents@.take(i as int));
            }
            if self.passes_category(torrent) {
                let torrent_name = to_lowercase(torrent.name.as_str());
                if search_matches(
                    torrent_name.as_str(),
                    normal_value.as_str(),
                    dotted_value.as_str(),
                ) {
                    shown.push(torrent);
                    assert(pointees(shown@) =~= before.push(*torrent));
                }
            }
            i += 1;
        }
        assert(self.torrents@.take(self.torrents@.len() as int) =~= self.torrents@);
        shown
    }

    /// The job that is chosen in the table, if one is.
    pub fn get_selected_torrent(&self) -> (chosen: Option<&TorrentInfo>)
        ensures
            match chosen {
                Some(torrent) => self.selected_torrent() == Some(*torrent),
                None => self.selected_torrent() is None,
            },
    {
        match self.torrents_table.state.selected() {
            Some(i) => {
                let shown = self.get_visible_torrents();
                if i < shown.len() {
                    assert(pointees(shown@)[i as int] == *shown@[i as int]);
                    Some(shown[i])
                } else {
                    None
                }
            },
            None => None,
        }
    }

    /// Chooses the first of the jobs that are shown, if any is shown.
    pub fn select_first_torrent(&mut self)
        ensures
            old(self).visible().len() == 0 ==> *final(self) == *old(self),
            old(self).visible().len() > 0 ==> *final(self) == (App {
                torrents_table: TorrentsTable {
                    state: PubState {
                        offset: old(self).torrents_table.state.offset,
                        selected: Some(0),
                    },
                    items: old(self).torrents_table.items,
                },
                ..*old(self)
            }),
    {
        if self.get_visible_torrents().len() == 0 {
            return ;
        }
        self.torrents_table.state.select(Some(0));
    }

    /// The intent of a tick of the clock: to synchronise.
    pub fn sync(&self) -> (event: ApiEvent)
        ensures
            event == ApiEvent::Sync,
    {
        ApiEvent::Sync
    }

    /// The intent that carries out `action` on the job.
    pub open spec fn intent_of(action: Option<Action>, torrent: TorrentInfo) -> Option<ApiEvent> {
        match action {
            Some(Action::Delete) => Some(ApiEvent::Delete(torrent.hash)),
            Some(Action::DeleteFiles) => Some(ApiEvent::DeleteFiles(torrent.hash)),
            None => None,
        }
    }

    /// Carries out what the user was asked to confirm, on the chosen job:
    /// gives the intent to hand to the dispatcher, and drops the question.
    /// Does nothing where no job is chosen.
    pub fn apply_current_action(&mut self) -> (event: Option<ApiEvent>)
        ensures
            old(self).selected_torrent() is None ==> event is None && *final(self) == *old(self),
            old(self).selected_torrent() matches Some(torrent) ==> event == Self::intent_of(
                old(self).current_action,
                torrent,
            ) && *final(self) == (App {
                current_action: None,
                confirm: false,
                current_route: Route::Torrents,
                ..*old(self)
            }),
    {
        let event = match self.get_selected_torrent() {
            Some(torrent) => {
                match self.current_action {
                    Some(Action::Delete) => Some(ApiEvent::Delete(torrent.hash.clone())),
                    Some(Action::DeleteFiles) => Some(ApiEvent::DeleteFiles(torrent.hash.clone())),
                    None => None,
                }
            },
            None => {
                return None;
            },
        };
        self.reset_current_action();
        self.current_route = Route::Torrents;
        event
    }

    /// What a key does to the snapshot while the service is reachable and no
    /// notice is shown: what it does in the view that has the keyboard.
    pub open spec fn is_after_key(before: App, key: KeyEvent, after: App) -> bool {
        match before.current_route {
            Route::Torrents => after == handlers::torrents::after_key(before, key),
            Route::Sort => after == handlers::sort::after_key(before, key),
            Route::Search => handlers::search::is_after_key(before, key, after),
            Route::Help => after == handlers::help::after_key(before, key),
            Route::Categories => after == handlers::categories::after_key(before, key),
            Route::Dialog => after == handlers::dialog::after_key(before, key),
            Route::Info => after == handlers::info::after_key(before, key),
            Route::Files => after == handlers::files::after_key(before, key),
        }
    }

    /// What a key asks of the caller while the service is reachable and no
    /// notice is shown.
    pub open spec fn effect_of_key(before: App, key: KeyEvent) -> Effect {
        match before.current_route {
            Route::Torrents => handlers::torrents::effect_of_key(before, key),
            Route::Dialog => sending(handlers::dialog::intent_of_key(before, key)),
            Route::Files => handlers::files::effect_of_key(before, key),
            _ => Effect::Nothing,
        }
    }

    /// Takes a key while the service is reachable and no notice is shown.
    pub fn handle_key_event(&mut self, event: KeyEvent) -> (effect: Effect)
        ensures
            Self::is_after_key(*old(self), event, *final(self)),
            effect == Self::effect_of_key(*old(self), event),
    {
        match self.current_route {
            Route::Torrents => handlers::torrents::handle_key_event(event, self),
            Route::Sort => {
                handlers::sort::handle_key_event(event, self);
                Effect::Nothing
            },
            Route::Search => {
                handlers::search::handle_key_event(event, self);
                Effect::Nothing
            },
            Route::Help => {
                handlers::help::handle_key_event(event, self);
                Effect::Nothing
            },
            Route::Categories => {
                handlers::categories::handle_key_event(event, self);
                Effect::Nothing
            },
            Route::Dialog => send(handlers::dialog::handle_key_event(event, self)),
            Route::Info => {
                handlers::info::handle_key_event(event, self);
                Effect::Nothing
            },
            Route::Files => handlers::files::handle_key_event(event, self),
        }
    }

    /// Takes a key while a notice is shown.
    pub fn handle_notification_key_event(&mut self, event: KeyEvent)
        ensures
            *final(self) == (if handlers::notification::dismisses(event) {
                App { notification: None, ..*old(self) }
            } else {
                *old(self)
            }),
    {
        handlers::notification::handle_key_event(event, self);
    }

    /// Takes a key while the service cannot be reached.
    pub fn handle_disconnected_key_event(&mut self, event: KeyEvent) -> (effect: Effect)
        ensures
            *final(self) == handlers::error::after_key(*old(self), event),
            effect == if handlers::is_plain_char(event, 'r') {
                Effect::Send(ApiEvent::Reload)
            } else {
                Effect::Nothing
            },
    {
        send(handlers::error::handle_key_event(event, self))
    }

    /// What the mouse does to the snapshot: what it does in the view that
    /// has the keyboard, where that view takes the mouse.
    pub open spec fn after_mouse(before: App, mouse: MouseEvent, now: u64) -> App {
        match before.current_route {
            Route::Torrents => handlers::torrents::after_mouse(before, mouse, now),
            Route::Categories => handlers::categories::after_mouse(before, mouse),
            Route::Sort => handlers::sort::after_mouse(before, mouse),
            _ => before,
        }
    }

    /// Takes what the mouse did; `now` is the time in milliseconds.
    pub fn handle_mouse_event(&mut self, event: MouseEvent, now: u64) -> (effect: Effect)
        ensures
            *final(self) == Self::after_mouse(*old(self), event, now),
            effect == if old(self).current_route == Route::Torrents {
                handlers::torrents::effect_of_mouse(*old(self), event, now)
            } else {
                Effect::Nothing
            },
    {
        match self.current_route {
            Route::Torrents => handlers::torrents::handle_mouse_event(event, self, now),
            Route::Categories => {
                handlers::categories::handle_mouse_event(event, self);
                Effect::Nothing
            },
            Route::Sort => {
                handlers::sort::handle_mouse_event(event, self);
                Effect::Nothing
            },
            _ => Effect::Nothing,
        }
    }
}

/// Whether `name` holds `wanted` or `dotted_value` as a run of consecutive
/// characters.
pub open spec fn holds_either(name: Seq<char>, wanted: Seq<char>, dotted_value: Seq<char>) -> bool {
    occurs_in(wanted, name) || occurs_in(dotted_value, name)
}

/// Whether a name holds what is looked for, as it is or in the form with
/// full stops for spaces. The search hands in the name and what is looked
/// for in lower case.
pub fn search_matches(name: &str, wanted: &str, dotted_value: &str) -> (found: bool)
    ensures
        found == holds_either(name@, wanted@, dotted_value@),
{
    str_contains(name, wanted) || str_contains(name, dotted_value)
}

/// The jobs that a list of references refers to.
pub open spec fn pointees(refs: Seq<&TorrentInfo>) -> Seq<TorrentInfo> {
    Seq::new(refs.len(), |i: int| *refs[i])
}

/// The request to hand an intent to the dispatcher, if there is one.
pub open spec fn sending(event: Option<ApiEvent>) -> Effect {
    match event {
        Some(event) => Effect::Send(event),
        None => Effect::Nothing,
    }
}

/// The request to hand an intent to the dispatcher, if there is one.
pub fn send(event: Option<ApiEvent>) -> (effect: Effect)
    ensures
        effect == sending(event),
{
    match event {
        Some(event) => Effect::Send(event),
        None => Effect::Nothing,
    }
}

} // verus!
