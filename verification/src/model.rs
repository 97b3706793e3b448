//! The data that the remote service reports and accepts.

use vstd::prelude::*;
use vstd::string::StringExecFns;
use crate::humanize::{eta_text, humanize_eta};
use crate::text::{decimal, push_decimal, push_signed, signed_decimal, str_eq};

verus! {

/// The value that replaces `old` when a delta carries `new`: an absent field
/// leaves the old value.
pub open spec fn or_old<T>(new: Option<T>, old: T) -> T {
    match new {
        Some(v) => v,
        None => old,
    }
}

/// Puts the value that a delta carries into `slot`; leaves `slot` as it is
/// where the delta carries none.
pub fn replace_if_some<T>(slot: &mut T, new: Option<T>)
    ensures
        *final(slot) == or_old(new, *old(slot)),
{
    if let Some(v) = new {
        *slot = v;
    }
}

/// A copy of a text that may be absent.
fn clone_text(text: &Option<String>) -> (copy: Option<String>)
    ensures
        copy == *text,
{
    match text {
        Some(s) => Some(s.clone()),
        None => None,
    }
}

/// A real number, kept as the bit pattern of the IEEE 754 double that the
/// service sent, so that it is carried and compared exactly.
#[derive(Clone, Copy, Debug, PartialEq, Eq, Structural)]
pub struct Fraction {
    pub bits: u64,
}

/// Which pair of rate limits is in force.
#[derive(Clone, Copy, Debug, PartialEq, Eq, Structural)]
pub enum SpeedLimitsMode {
    Global,
    Alternative,
}

impl SpeedLimitsMode {
    /// The mode that the service's answer names: `0` is global, `1` is
    /// alternative, and nothing else is an answer.
    pub open spec fn parsed(value: Seq<char>) -> Option<SpeedLimitsMode> {
        if value == seq!['0'] {
            Some(SpeedLimitsMode::Global)
        } else if value == seq!['1'] {
            Some(SpeedLimitsMode::Alternative)
        } else {
            None
        }
    }

    /// Reads the answer of the service to a question for the mode.
    pub fn from_text(value: &str) -> (mode: Option<SpeedLimitsMode>)
        ensures
            mode == Self::parsed(value@),
    {
        proof {
            reveal_strlit("0");
            reveal_strlit("1");
        }
        assert("0"@ =~= seq!['0']);
        assert("1"@ =~= seq!['1']);
        if str_eq(value, "0") {
            Some(SpeedLimitsMode::Global)
        } else if str_eq(value, "1") {
            Some(SpeedLimitsMode::Alternative)
        } else {
            None
        }
    }
}

/// A rate limit to set, in bytes per second.
#[derive(Debug, PartialEq, Eq)]
pub struct SetSpeedLimit {
    pub limit: i32,
}

/// How the service is connected to its network.
#[derive(Clone, Copy, Debug, PartialEq, Eq, Structural)]
pub enum ConnectionStatus {
    Connected,
    Firewalled,
    Disconnected,
}

impl ConnectionStatus {
    /// The sign shown for the status.
    pub open spec fn icon_text(self) -> Seq<char> {
        match self {
            ConnectionStatus::Connected => seq!['\u{1f517}'],
            ConnectionStatus::Firewalled => seq!['\u{1f322}'],
            ConnectionStatus::Disconnected => seq!['\u{23cf}'],
        }
    }

    /// The sign shown for the status.
    pub fn to_icon(&self) -> (icon: &'static str)
        ensures
            icon@ == self.icon_text(),
    {
        proof {
            reveal_strlit("\u{1f517}");
            reveal_strlit("\u{1f322}");
            reveal_strlit("\u{23cf}");
        }
        let icon = match self {
            ConnectionStatus::Connected => "\u{1f517}",
            ConnectionStatus::Firewalled => "\u{1f322}",
            ConnectionStatus::Disconnected => "\u{23cf}",
        };
        assert(icon@ =~= self.icon_text());
        icon
    }
}

impl Default for ConnectionStatus {
    fn default() -> (status: Self)
        ensures
            status == ConnectionStatus::Disconnected,
    {
        ConnectionStatus::Disconnected
    }
}

/// The transfer statistics of the whole service.
#[derive(Clone, Copy, Debug, PartialEq, Eq, Structural)]
pub struct TransferInfo {
    /// Download rate of all jobs, in bytes per second.
    pub dl_info_speed: i64,
    /// Bytes downloaded in this session.
    pub dl_info_data: i64,
    /// Upload rate of all jobs, in bytes per second.
    pub up_info_speed: i64,
    /// Bytes uploaded in this session.
    pub up_info_data: i64,
    /// Download rate limit, in bytes per second.
    pub dl_rate_limit: i64,
    /// Upload rate limit, in bytes per second.
    pub up_rate_limit: i64,
    /// Number of DHT nodes connected to.
    pub dht_nodes: i64,
    pub connection_status: ConnectionStatus,
    /// Whether the alternative rate limits are in force.
    pub use_alt_speed_limits: bool,
}

/// The byte counts of a `TransferInfo` in words, as the formatter of byte
/// counts gives them: each without a unit of time.
#[derive(Debug, PartialEq, Eq)]
pub struct HumanTransfer {
    pub dl_info_speed: String,
    pub dl_info_data: String,
    pub up_info_speed: String,
    pub up_info_data: String,
    pub dl_rate_limit: String,
    pub up_rate_limit: String,
}

impl Default for TransferInfo {
    fn default() -> (info: Self)
        ensures
            info == TransferInfo::zero(),
    {
        TransferInfo {
            dl_info_speed: 0,
            dl_info_data: 0,
            up_info_speed: 0,
            up_info_data: 0,
            dl_rate_limit: 0,
            up_rate_limit: 0,
            dht_nodes: 0,
            connection_status: ConnectionStatus::Disconnected,
            use_alt_speed_limits: false,
        }
    }
}

impl TransferInfo {
    /// The statistics before anything is known: nothing moves, disconnected.
    pub open spec fn zero() -> TransferInfo {
        TransferInfo {
            dl_info_speed: 0,
            dl_info_data: 0,
            up_info_speed: 0,
            up_info_data: 0,
            dl_rate_limit: 0,
            up_rate_limit: 0,
            dht_nodes: 0,
            connection_status: ConnectionStatus::Disconnected,
            use_alt_speed_limits: false,
        }
    }

    /// The statistics after a delta: each field that the delta carries
    /// replaces the old one.
    pub open spec fn merged(self, delta: TransferInfoSync) -> TransferInfo {
        TransferInfo {
            dl_info_speed: or_old(delta.dl_info_speed, self.dl_info_speed),
            dl_info_data: or_old(delta.dl_info_data, self.dl_info_data),
            up_info_speed: or_old(delta.up_info_speed, self.up_info_speed),
            up_info_data: or_old(delta.up_info_data, self.up_info_data),
            dl_rate_limit: or_old(delta.dl_rate_limit, self.dl_rate_limit),
            up_rate_limit: or_old(delta.up_rate_limit, self.up_rate_limit),
            dht_nodes: or_old(delta.dht_nodes, self.dht_nodes),
            connection_status: or_old(delta.connection_status, self.connection_status),
            use_alt_speed_limits: or_old(delta.use_alt_speed_limits, self.use_alt_speed_limits),
        }
    }

    /// Takes over every field that the delta carries.
    pub fn merge(&mut self, delta: &TransferInfoSync)
        ensures
            *final(self) == old(self).merged(*delta),
    {
        replace_if_some(&mut self.dl_info_speed, delta.dl_info_speed);
        replace_if_some(&mut self.dl_info_data, delta.dl_info_data);
        replace_if_some(&mut self.up_info_speed, delta.up_info_speed);
        replace_if_some(&mut self.up_info_data, delta.up_info_data);
        replace_if_some(&mut self.dl_rate_limit, delta.dl_rate_limit);
        replace_if_some(&mut self.up_rate_limit, delta.up_rate_limit);
        replace_if_some(&mut self.dht_nodes, delta.dht_nodes);
        replace_if_some(&mut self.connection_status, delta.connection_status);
        replace_if_some(&mut self.use_alt_speed_limits, delta.use_alt_speed_limits);
    }

    /// A rate limit as the status line shows it: in brackets while the
    /// alternative limits are in force, and not at all otherwise.
    pub open spec fn limit_text(self, limit: Seq<char>) -> Seq<char> {
        if self.use_alt_speed_limits {
            "["@ + limit + "/s]"@
        } else {
            Seq::empty()
        }
    }

    /// The name of the limits in force, as the status line shows it.
    pub open spec fn mode_text(self) -> Seq<char> {
        if self.use_alt_speed_limits {
            "ALT"@
        } else {
            "GLO"@
        }
    }

    /// The status line: nodes, host and connection, then rate, limit and
    /// session total of each direction, then the limits in force.
    pub open spec fn stats_text(self, host: Seq<char>, human: HumanTransfer) -> Seq<char> {
        "DHT: "@ + signed_decimal(self.dht_nodes as int) + " nodes | "@ + host + " "@
            + self.connection_status.icon_text() + " | \u{2bef} "@ + human.dl_info_speed@ + "/s "@
            + self.limit_text(human.dl_rate_limit@) + " ("@ + human.dl_info_data@
            + ") | \u{1f81d} "@ + human.up_info_speed@ + "/s "@ + self.limit_text(
            human.up_rate_limit@,
        ) + " ("@ + human.up_info_data@ + ") | "@ + self.mode_text() + " |"@
    }

    fn push_limit(&self, out: &mut String, limit: &str)
        ensures
            final(out)@ == old(out)@ + self.limit_text(limit@),
    {
        if self.use_alt_speed_limits {
            out.append("[");
            out.append(limit);
            out.append("/s]");
            assert(out@ =~= old(out)@ + self.limit_text(limit@));
        } else {
            assert(out@ =~= old(out)@ + self.limit_text(limit@));
        }
    }

    /// The status line for the service at `host`.
    pub fn to_stats_string(&self, host: &str, human: &HumanTransfer) -> (line: String)
        ensures
            line@ == self.stats_text(host@, *human),
    {
        let mut line = String::from_str("DHT: ");
        push_signed(&mut line, self.dht_nodes);
        line.append(" nodes | ");
        line.append(host);
        line.append(" ");
        line.append(self.connection_status.to_icon());
        line.append(" | \u{2bef} ");
        line.append(human.dl_info_speed.as_str());
        line.append("/s ");
        self.push_limit(&mut line, human.dl_rate_limit.as_str());
        line.append(" (");
        line.append(human.dl_info_data.as_str());
        line.append(") | \u{1f81d} ");
        line.append(human.up_info_speed.as_str());
        line.append("/s ");
        self.push_limit(&mut line, human.up_rate_limit.as_str());
        line.append(" (");
        line.append(human.up_info_data.as_str());
        line.append(") | ");
        if self.use_alt_speed_limits {
            line.append("ALT");
        } else {
            line.append("GLO");
        }
        line.append(" |");
        assert(line@ =~= self.stats_text(host@, *human));
        line
    }
}

/// What a delta says of the transfer statistics: a field that is absent is
/// unchanged.
#[derive(Clone, Copy, Debug, PartialEq, Eq, Structural)]
pub struct TransferInfoSync {
    pub dl_info_speed: Option<i64>,
    pub dl_info_data: Option<i64>,
    pub up_info_speed: Option<i64>,
    pub up_info_data: Option<i64>,
    pub dl_rate_limit: Option<i64>,
    pub up_rate_limit: Option<i64>,
    pub dht_nodes: Option<i64>,
    pub connection_status: Option<ConnectionStatus>,
    pub use_alt_speed_limits: Option<bool>,
}

impl TransferInfoSync {
    /// The delta carries no field.
    pub open spec fn is_empty(self) -> bool {
        &&& self.dl_info_speed is None
        &&& self.dl_info_data is None
        &&& self.up_info_speed is None
        &&& self.up_info_data is None
        &&& self.dl_rate_limit is None
        &&& self.up_rate_limit is None
        &&& self.dht_nodes is None
        &&& self.connection_status is None
        &&& self.use_alt_speed_limits is None
    }
}

/// The query of the list of jobs.
#[derive(Debug, PartialEq, Eq)]
pub struct GetTorrentListParams {
    /// A state to filter by.
    pub filter: Option<String>,
    /// A category to filter by; the empty name stands for no category.
    pub category: Option<String>,
    /// A tag to filter by; the empty name stands for no tag.
    pub tag: Option<String>,
    /// The field to sort by.
    pub sort: Option<String>,
    /// Whether to sort downwards.
    pub reverse: Option<bool>,
    /// The largest number of jobs to return.
    pub limit: Option<i32>,
    /// Where to start; a negative number counts from the end.
    pub offset: Option<i32>,
    /// Hashes to filter by, separated by `|`.
    pub hashes: Option<String>,
}

impl Clone for GetTorrentListParams {
    fn clone(&self) -> (copy: Self)
        ensures
            copy == *self,
    {
        GetTorrentListParams {
            filter: clone_text(&self.filter),
            category: clone_text(&self.category),
            tag: clone_text(&self.tag),
            sort: clone_text(&self.sort),
            reverse: self.reverse,
            limit: self.limit,
            offset: self.offset,
            hashes: clone_text(&self.hashes),
        }
    }
}

/// What a job is doing, as the service reports it.
#[derive(Clone, Copy, Debug, PartialEq, Eq, Structural)]
pub enum TorrentInfoState {
    Unknown,
    ForcedDl,
    Downloading,
    ForcedMetaDL,
    MetaDl,
    StalledDl,
    ForcedUp,
    Uploading,
    StalledUp,
    CheckingResumeData,
    QueuedDl,
    QueuedUp,
    CheckingUp,
    CheckingDl,
    PausedDl,
    PausedUp,
    Moving,
    MissingFiles,
    Error,
    Allocating,
}

impl TorrentInfoState {
    /// The sign shown for the state.
    pub open spec fn icon_text(self) -> Seq<char> {
        match self {
            TorrentInfoState::Downloading
            | TorrentInfoState::ForcedDl
            | TorrentInfoState::MetaDl
            | TorrentInfoState::ForcedMetaDL
            | TorrentInfoState::StalledDl => seq!['\u{2bef}'],
            TorrentInfoState::StalledUp => seq!['\u{2bed}'],
            TorrentInfoState::Uploading | TorrentInfoState::ForcedUp => seq!['\u{1f81d}'],
            TorrentInfoState::PausedDl => seq!['\u{23f8}'],
            TorrentInfoState::PausedUp => seq!['\u{2714}'],
            TorrentInfoState::QueuedDl | TorrentInfoState::QueuedUp => seq!['\u{23f1}'],
            TorrentInfoState::CheckingDl
            | TorrentInfoState::CheckingUp
            | TorrentInfoState::CheckingResumeData
            | TorrentInfoState::Moving
            | TorrentInfoState::Allocating => seq!['\u{1f5d8}'],
            TorrentInfoState::Unknown
            | TorrentInfoState::MissingFiles
            | TorrentInfoState::Error => seq!['!'],
        }
    }

    /// The job is in one of the two paused states.
    pub open spec fn is_paused(self) -> bool {
        self == TorrentInfoState::PausedUp || self == TorrentInfoState::PausedDl
    }

    /// The sign shown for the state.
    pub fn to_icon(&self) -> (icon: &'static str)
        ensures
            icon@ == self.icon_text(),
    {
        proof {
            reveal_strlit("\u{2bef}");
            reveal_strlit("\u{2bed}");
            reveal_strlit("\u{1f81d}");
            reveal_strlit("\u{23f8}");
            reveal_strlit("\u{2714}");
            reveal_strlit("\u{23f1}");
            reveal_strlit("\u{1f5d8}");
            reveal_strlit("!");
        }
        let icon = match self {
            TorrentInfoState::Downloading
            | TorrentInfoState::ForcedDl
            | TorrentInfoState::MetaDl
            | TorrentInfoState::ForcedMetaDL => "\u{2bef}",
            TorrentInfoState::StalledDl => "\u{2bef}",
            TorrentInfoState::StalledUp => "\u{2bed}",
            TorrentInfoState::Uploading | TorrentInfoState::ForcedUp => "\u{1f81d}",
            TorrentInfoState::PausedDl => "\u{23f8}",
            TorrentInfoState::PausedUp => "\u{2714}",
            TorrentInfoState::QueuedDl | TorrentInfoState::QueuedUp => "\u{23f1}",
            TorrentInfoState::CheckingDl
            | TorrentInfoState::CheckingUp
            | TorrentInfoState::CheckingResumeData
            | TorrentInfoState::Moving
            | TorrentInfoState::Allocating => "\u{1f5d8}",
            TorrentInfoState::Unknown
            | TorrentInfoState::MissingFiles
            | TorrentInfoState::Error => "!",
        };
        assert(icon@ =~= self.icon_text());
        icon
    }
}

/// A job of the service. Its hash names it and never changes.
#[derive(Debug, PartialEq, Eq)]
pub struct TorrentInfo {
    /// When the job was added, in seconds since the epoch.
    pub added_on: i64,
    /// Bytes still to download.
    pub amount_left: i64,
    /// The category of the job; the empty name stands for none.
    pub category: String,
    /// Bytes completed.
    pub completed: i64,
    /// When the job was completed, in seconds since the epoch.
    pub completion_on: i64,
    /// Where the content lies: the file of a job of one file, else the folder.
    pub content_path: String,
    /// Download rate, in bytes per second.
    pub dlspeed: i64,
    /// Bytes downloaded.
    pub downloaded: i64,
    /// Remaining time, in seconds.
    pub eta: i64,
    pub hash: String,
    pub magnet_uri: String,
    pub name: String,
    /// Seeds in the swarm.
    pub num_complete: u64,
    /// Leechers in the swarm.
    pub num_incomplete: u64,
    /// Leechers connected to.
    pub num_leechs: u64,
    /// Seeds connected to.
    pub num_seeds: u64,
    /// The part that is done, from 0 to 1.
    pub progress: Fraction,
    pub save_path: String,
    /// Bytes in all.
    pub size: i64,
    pub state: TorrentInfoState,
    /// Upload rate, in bytes per second.
    pub upspeed: i64,
}

/// The numbers of a `TorrentInfo` in words, as the formatters of byte counts
/// and of percentages give them: the rates without a unit of time.
#[derive(Debug, PartialEq, Eq)]
pub struct HumanTorrent {
    pub size: String,
    pub progress: String,
    pub dlspeed: String,
    pub upspeed: String,
}

impl Clone for TorrentInfo {
    fn clone(&self) -> (copy: Self)
        ensures
            copy == *self,
    {
        TorrentInfo {
            added_on: self.added_on,
            amount_left: self.amount_left,
            category: self.category.clone(),
            completed: self.completed,
            completion_on: self.completion_on,
            content_path: self.content_path.clone(),
            dlspeed: self.dlspeed,
            downloaded: self.downloaded,
            eta: self.eta,
            hash: self.hash.clone(),
            magnet_uri: self.magnet_uri.clone(),
            name: self.name.clone(),
            num_complete: self.num_complete,
            num_incomplete: self.num_incomplete,
            num_leechs: self.num_leechs,
            num_seeds: self.num_seeds,
            progress: self.progress,
            save_path: self.save_path.clone(),
            size: self.size,
            state: self.state,
            upspeed: self.upspeed,
        }
    }
}

impl TorrentInfo {
    /// The job after a delta: each field that the delta carries replaces the
    /// old one. The hash, the link and the counts of peers are in no delta.
    pub open spec fn merged(self, delta: TorrentInfoSync) -> TorrentInfo {
        TorrentInfo {
            added_on: or_old(delta.added_on, self.added_on),
            amount_left: or_old(delta.amount_left, self.amount_left),
            category: or_old(delta.category, self.category),
            completed: or_old(delta.completed, self.completed),
            completion_on: or_old(delta.completion_on, self.completion_on),
            content_path: or_old(delta.content_path, self.content_path),
            dlspeed: or_old(delta.dlspeed, self.dlspeed),
            downloaded: or_old(delta.downloaded, self.downloaded),
            eta: or_old(delta.eta, self.eta),
            name: or_old(delta.name, self.name),
            progress: or_old(delta.progress, self.progress),
            save_path: or_old(delta.save_path, self.save_path),
            size: or_old(delta.size, self.size),
            state: or_old(delta.state, self.state),
            upspeed: or_old(delta.upspeed, self.upspeed),
            ..self
        }
    }

    /// Takes over every field that the delta carries.
    pub fn merge(&mut self, delta: TorrentInfoSync)
        ensures
            *final(self) == old(self).merged(delta),
    {
        replace_if_some(&mut self.added_on, delta.added_on);
        replace_if_some(&mut self.amount_left, delta.amount_left);
        replace_if_some(&mut self.category, delta.category);
        replace_if_some(&mut self.completed, delta.completed);
        replace_if_some(&mut self.completion_on, delta.completion_on);
        replace_if_some(&mut self.content_path, delta.content_path);
        replace_if_some(&mut self.downloaded, delta.downloaded);
        replace_if_some(&mut self.eta, delta.eta);
        replace_if_some(&mut self.name, delta.name);
        replace_if_some(&mut self.progress, delta.progress);
        replace_if_some(&mut self.save_path, delta.save_path);
        replace_if_some(&mut self.state, delta.state);
        replace_if_some(&mut self.size, delta.size);
        replace_if_some(&mut self.dlspeed, delta.dlspeed);
        replace_if_some(&mut self.upspeed, delta.upspeed);
    }

    /// A count of peers as a row shows it: those connected to, then those
    /// of the swarm in brackets.
    pub open spec fn peers_text(connected: u64, all: u64) -> Seq<char> {
        decimal(connected as nat) + " ("@ + decimal(all as nat) + ")"@
    }

    /// The ten cells of the job's row in the table.
    pub open spec fn row_text(self, human: HumanTorrent) -> Seq<Seq<char>> {
        seq![
            self.category@,
            self.state.icon_text(),
            self.name@,
            human.size@,
            human.progress@,
            Self::peers_text(self.num_seeds, self.num_complete),
            Self::peers_text(self.num_leechs, self.num_incomplete),
            human.dlspeed@ + "/s"@,
            human.upspeed@ + "/s"@,
            eta_text(self.eta as int),
        ]
    }

    /// The text of the job's page of details.
    pub open spec fn info_text(self, size: Seq<char>) -> Seq<char> {
        "Name: "@ + self.name@ + "\nSize: "@ + size + "\nSave path: "@ + self.save_path@
            + "\nHash: "@ + self.hash@
    }

    fn peers(connected: u64, all: u64) -> (cell: String)
        ensures
            cell@ == Self::peers_text(connected, all),
    {
        let mut cell = String::new();
        push_decimal(&mut cell, connected);
        cell.append(" (");
        push_decimal(&mut cell, all);
        cell.append(")");
        assert(cell@ =~= Self::peers_text(connected, all));
        cell
    }

    fn per_second(rate: &str) -> (cell: String)
        ensures
            cell@ == rate@ + "/s"@,
    {
        let mut cell = String::from_str(rate);
        cell.append("/s");
        cell
    }

    /// The cells of the job's row in the table.
    pub fn to_row(&self, human: &HumanTorrent) -> (row: Vec<String>)
        ensures
            row.deep_view() == self.row_text(*human),
    {
        let mut row: Vec<String> = Vec::new();
        row.push(self.category.clone());
        row.push(String::from_str(self.state.to_icon()));
        row.push(self.name.clone());
        row.push(human.size.clone());
        row.push(human.progress.clone());
        row.push(Self::peers(self.num_seeds, self.num_complete));
        row.push(Self::peers(self.num_leechs, self.num_incomplete));
        row.push(Self::per_second(human.dlspeed.as_str()));
        row.push(Self::per_second(human.upspeed.as_str()));
        row.push(humanize_eta(self.eta));
        assert(row.deep_view() =~= self.row_text(*human));
        row
    }

    /// The text of the job's page of details; `size` is the size in words.
    pub fn to_info_page(&self, size: &str) -> (page: String)
        ensures
            page@ == self.info_text(size@),
    {
        let mut page = String::from_str("Name: ");
        page.append(self.name.as_str());
        page.append("\nSize: ");
        page.append(size);
        page.append("\nSave path: ");
        page.append(self.save_path.as_str());
        page.append("\nHash: ");
        page.append(self.hash.as_str());
        assert(page@ =~= self.info_text(size@));
        page
    }

    /// Whether the job is other than paused.
    pub fn is_running(&self) -> (running: bool)
        ensures
            running == !self.state.is_paused(),
    {
        match self.state {
            TorrentInfoState::PausedUp | TorrentInfoState::PausedDl => false,
            _ => true,
        }
    }
}

/// What a delta says of one job: a field that is absent is unchanged.
#[derive(Debug, PartialEq, Eq)]
pub struct TorrentInfoSync {
    pub added_on: Option<i64>,
    pub amount_left: Option<i64>,
    pub category: Option<String>,
    pub completed: Option<i64>,
    pub completion_on: Option<i64>,
    pub content_path: Option<String>,
    pub downloaded: Option<i64>,
    pub eta: Option<i64>,
    pub name: Option<String>,
    pub progress: Option<Fraction>,
    pub save_path: Option<String>,
    pub state: Option<TorrentInfoState>,
    pub size: Option<i64>,
    pub dlspeed: Option<i64>,
    pub upspeed: Option<i64>,
}

impl Clone for TorrentInfoSync {
    fn clone(&self) -> (copy: Self)
        ensures
            copy == *self,
    {
        TorrentInfoSync {
            added_on: self.added_on,
            amount_left: self.amount_left,
            category: clone_text(&self.category),
            completed: self.completed,
            completion_on: self.completion_on,
            content_path: clone_text(&self.content_path),
            downloaded: self.downloaded,
            eta: self.eta,
            name: clone_text(&self.name),
            progress: self.progress,
            save_path: clone_text(&self.save_path),
            state: self.state,
            size: self.size,
            dlspeed: self.dlspeed,
            upspeed: self.upspeed,
        }
    }
}

impl TorrentInfoSync {
    /// The delta carries no field.
    pub open spec fn is_empty(self) -> bool {
        &&& self.added_on is None
        &&& self.amount_left is None
        &&& self.category is None
        &&& self.completed is None
        &&& self.completion_on is None
        &&& self.content_path is None
        &&& self.downloaded is None
        &&& self.eta is None
        &&& self.name is None
        &&& self.progress is None
        &&& self.save_path is None
        &&& self.state is None
        &&& self.size is None
        &&& self.dlspeed is None
        &&& self.upspeed is None
    }

    /// A delta that carries no field.
    pub fn empty() -> (delta: Self)
        ensures
            delta.is_empty(),
    {
        TorrentInfoSync {
            added_on: None,
            amount_left: None,
            category: None,
            completed: None,
            completion_on: None,
            content_path: None,
            downloaded: None,
            eta: None,
            name: None,
            progress: None,
            save_path: None,
            state: None,
            size: None,
            dlspeed: None,
            upspeed: None,
        }
    }
}

/// The properties of one job in detail.
#[derive(Debug, PartialEq, Eq)]
pub struct TorrentProperties {
    pub save_path: String,
    /// When the job's file was made, in seconds since the epoch.
    pub creation_date: i32,
    /// Bytes in a piece.
    pub piece_size: i32,
    pub comment: String,
    /// Bytes wasted.
    pub total_wasted: i32,
    /// Bytes uploaded.
    pub total_uploaded: i32,
    /// Bytes uploaded in this session.
    pub total_uploaded_session: i32,
    /// Bytes downloaded.
    pub total_downloaded: i32,
    /// Bytes downloaded in this session.
    pub total_downloaded_session: i32,
    /// Upload limit, in bytes per second.
    pub up_limit: i32,
    /// Download limit, in bytes per second.
    pub dl_limit: i32,
    /// Seconds the job has been active.
    pub time_elapsed: i32,
    /// Seconds the job has been active while complete.
    pub seeding_time: i32,
    pub nb_connections: i32,
    pub nb_connections_limit: i32,
    pub share_ratio: Fraction,
    /// When the job was added, in seconds since the epoch.
    pub addition_date: i32,
    /// When the job was completed, in seconds since the epoch.
    pub completion_date: i32,
    pub created_by: String,
    /// Mean download rate, in bytes per second.
    pub dl_speed_avg: i32,
    /// Download rate, in bytes per second.
    pub dl_speed: i32,
    /// Remaining time, in seconds.
    pub eta: i32,
    /// When the job was last seen complete, in seconds since the epoch.
    pub last_seen: i32,
    /// Peers connected to.
    pub peers: i32,
    /// Peers in the swarm.
    pub peers_total: i32,
    /// Pieces owned.
    pub pieces_have: i32,
    /// Pieces in all.
    pub pieces_num: i32,
    /// Seconds until the next announce.
    pub reannounce: i32,
    /// Seeds connected to.
    pub seeds: i32,
    /// Seeds in the swarm.
    pub seeds_total: i32,
    /// Bytes in all.
    pub total_size: i32,
    /// Mean upload rate, in bytes per second.
    pub up_speed_avg: i32,
    /// Upload rate, in bytes per second.
    pub up_speed: i32,
}

impl Clone for TorrentProperties {
    fn clone(&self) -> (copy: Self)
        ensures
            copy == *self,
    {
        TorrentProperties {
            save_path: self.save_path.clone(),
            creation_date: self.creation_date,
            piece_size: self.piece_size,
            comment: self.comment.clone(),
            total_wasted: self.total_wasted,
            total_uploaded: self.total_uploaded,
            total_uploaded_session: self.total_uploaded_session,
            total_downloaded: self.total_downloaded,
            total_downloaded_session: self.total_downloaded_session,
            up_limit: self.up_limit,
            dl_limit: self.dl_limit,
            time_elapsed: self.time_elapsed,
            seeding_time: self.seeding_time,
            nb_connections: self.nb_connections,
            nb_connections_limit: self.nb_connections_limit,
            share_ratio: self.share_ratio,
            addition_date: self.addition_date,
            completion_date: self.completion_date,
            created_by: self.created_by.clone(),
            dl_speed_avg: self.dl_speed_avg,
            dl_speed: self.dl_speed,
            eta: self.eta,
            last_seen: self.last_seen,
            peers: self.peers,
            peers_total: self.peers_total,
            pieces_have: self.pieces_have,
            pieces_num: self.pieces_num,
            reannounce: self.reannounce,
            seeds: self.seeds,
            seeds_total: self.seeds_total,
            total_size: self.total_size,
            up_speed_avg: self.up_speed_avg,
            up_speed: self.up_speed,
        }
    }
}

/// One file of a job.
#[derive(Debug, PartialEq, Eq)]
pub struct TorrentFile {
    /// The place of the file among the job's files.
    pub index: i32,
    /// The name of the file, with its path below the job's folder.
    pub name: String,
}

/// How urgently a file is downloaded.
#[derive(Clone, Copy, Debug, PartialEq, Eq, Structural)]
pub enum Priority {
    DoNotDownload,
    Normal,
    High,
    Maximal,
}

impl Priority {
    /// The number that stands for the priority on the wire.
    pub open spec fn code_of(self) -> int {
        match self {
            Priority::DoNotDownload => 0,
            Priority::Normal => 1,
            Priority::High => 6,
            Priority::Maximal => 7,
        }
    }

    /// The number that stands for the priority on the wire.
    pub fn code(&self) -> (code: u8)
        ensures
            code == self.code_of(),
    {
        match self {
            Priority::DoNotDownload => 0,
            Priority::Normal => 1,
            Priority::High => 6,
            Priority::Maximal => 7,
        }
    }
}

/// The query of the files of one job.
#[derive(Debug, PartialEq, Eq)]
pub struct GetTorrentFilesParams {
    pub hash: String,
}

impl Clone for GetTorrentFilesParams {
    fn clone(&self) -> (copy: Self)
        ensures
            copy == *self,
    {
        GetTorrentFilesParams {
            hash: self.hash.clone(),
        }
    }
}

impl From<String> for GetTorrentFilesParams {
    fn from(hash: String) -> (params: Self)
    {
        GetTorrentFilesParams { hash }
    }
}

impl vstd::std_specs::convert::FromSpecImpl<String> for GetTorrentFilesParams {
    open spec fn obeys_from_spec() -> bool {
        true
    }

    open spec fn from_spec(hash: String) -> Self {
        GetTorrentFilesParams { hash }
    }
}

/// A category of jobs.
#[derive(Debug, PartialEq, Eq)]
pub struct Category {
    pub name: String,
    pub save_path: String,
}

impl Clone for Category {
    fn clone(&self) -> (copy: Self)
        ensures
            copy == *self,
    {
        Category {
            name: self.name.clone(),
            save_path: self.save_path.clone(),
        }
    }
}

/// The order to delete jobs, with or without their files.
#[derive(Debug, PartialEq, Eq)]
pub struct DeleteTorrentParams {
    /// The hashes of the jobs, separated by `|`.
    pub hashes: String,
    pub delete_files: bool,
}

impl Clone for DeleteTorrentParams {
    fn clone(&self) -> (copy: Self)
        ensures
            copy == *self,
    {
        DeleteTorrentParams {
            hashes: self.hashes.clone(),
            delete_files: self.delete_files,
        }
    }
}

/// The answer to a question for what changed since a cursor. Each list is in
/// the order in which it is applied.
#[derive(Debug, PartialEq, Eq)]
pub struct MainData {
    /// The cursor to ask with next.
    pub rid: i64,
    /// Whether the answer stands for everything rather than for a change.
    pub full_update: Option<bool>,
    /// The jobs that changed, each hash with what changed of the job.
    pub torrents: Option<Vec<(String, TorrentInfoSync)>>,
    /// The hashes of the jobs that are gone.
    pub torrents_removed: Option<Vec<String>>,
    /// The categories that are new or changed, each name with the category.
    pub categories: Option<Vec<(String, Category)>>,
    /// The names of the categories that are gone.
    pub categories_removed: Option<Vec<String>>,
    /// What changed of the transfer statistics.
    pub server_state: Option<TransferInfoSync>,
}

impl MainData {
    /// No hash stands twice among the jobs that changed, and no name twice
    /// among the categories: the lists stand for maps, and the order of each
    /// is one in which its map was read.
    pub open spec fn well_formed(self) -> bool {
        &&& self.torrents matches Some(updates) ==> forall|i: int, j: int|
            0 <= i < j < updates@.len() ==> (#[trigger] updates@[i]).0@ != (
            #[trigger] updates@[j]).0@
        &&& self.categories matches Some(added) ==> forall|i: int, j: int|
            0 <= i < j < added@.len() ==> (#[trigger] added@[i]).0@ != (#[trigger] added@[j]).0@
    }

    /// The answer says that nothing changed: it does not stand for
    /// everything, names no job as gone or changed and no category as new or
    /// gone, and carries no field of the transfer statistics.
    pub open spec fn is_empty(self) -> bool {
        &&& self.full_update != Some(true)
        &&& self.torrents matches Some(updates) ==> updates@.len() == 0
        &&& self.torrents_removed matches Some(removed) ==> removed@.len() == 0
        &&& self.categories matches Some(added) ==> added@.len() == 0
        &&& self.categories_removed matches Some(removed) ==> removed@.len() == 0
        &&& self.server_state matches Some(delta) ==> delta.is_empty()
    }

    /// An answer that carries the cursor `rid` and says that nothing changed.
    pub fn empty(rid: i64) -> (data: Self)
        ensures
            data == (MainData {
                rid,
                full_update: None,
                torrents: None,
                torrents_removed: None,
                categories: None,
                categories_removed: None,
                server_state: None,
            }),
            data.is_empty(),
    {
        MainData {
            rid,
            full_update: None,
            torrents: None,
            torrents_removed: None,
            categories: None,
            categories_removed: None,
            server_state: None,
        }
    }
}

/// The question for what changed since the cursor `rid`.
#[derive(Clone, Copy, Debug, PartialEq, Eq, Structural)]
pub struct GetMainDataParams {
    pub rid: i64,
}

/// The names and the password to open a session with.
#[derive(Debug, PartialEq, Eq)]
pub struct LoginPayload {
    pub username: String,
    pub password: String,
}

impl LoginPayload {
    pub fn new(username: &str, password: &str) -> (payload: Self)
        ensures
            payload.username@ == username@,
            payload.password@ == password@,
    {
        LoginPayload { username: String::from_str(username), password: String::from_str(password) }
    }
}

/// Hashes of jobs, separated by `|`.
#[derive(Debug, PartialEq, Eq)]
pub struct Hashes {
    pub hashes: String,
}

/// The strings of `parts` in a row, with `|` between each two.
pub open spec fn joined(parts: Seq<Seq<char>>) -> Seq<char>
    decreases parts.len(),
{
    if parts.len() == 0 {
        Seq::empty()
    } else if parts.len() == 1 {
        parts[0]
    } else {
        joined(parts.drop_last()) + seq!['|'] + parts.last()
    }
}

impl Hashes {
    /// The hashes in a row, with `|` between each two.
    pub fn join(value: &[&str]) -> (joined_hashes: Self)
        ensures
            joined_hashes.hashes@ == joined(value@.map_values(|s: &str| s@)),
    {
        let ghost parts = value@.map_values(|s: &str| s@);
        let mut hashes = String::new();
        let mut i: usize = 0;
        while i < value.len()
            invariant
                i <= value.len(),
                parts == value@.map_values(|s: &str| s@),
                hashes@ == joined(parts.take(i as int)),
            decreases value.len() - i,
        {
            proof {
                reveal_strlit("|");
                assert(parts.take(i + 1).drop_last() =~= parts.take(i as int));
                assert("|"@ =~= seq!['|']);
            }
            if i > 0 {
                hashes.append("|");
            }
            hashes.append(value[i]);
            i += 1;
            assert(hashes@ =~= joined(parts.take(i as int)));
        }
        assert(parts.take(value.len() as int) =~= parts);
        Hashes { hashes }
    }
}

impl<'a, 'b> From<&'a [&'b str]> for Hashes {
    /// The hashes in a row, with `|` between each two. What comes out is
    /// stated here: no expression of a specification builds a `String`, so
    /// the conversion has no `from_spec` to go by.
    fn from(value: &'a [&'b str]) -> (joined_hashes: Self)
        ensures
            joined_hashes.hashes@ == joined(value@.map_values(|s: &str| s@)),
    {
        Hashes::join(value)
    }
}

impl<'a, 'b> vstd::std_specs::convert::FromSpecImpl<&'a [&'b str]> for Hashes {
    open spec fn obeys_from_spec() -> bool {
        false
    }

    open spec fn from_spec(value: &'a [&'b str]) -> Self {
        arbitrary()
    }
}

} // verus!
