//! `pull`: following a randomly chosen entry of a repository list, through
//! nested lists, to a reward that is scanned, confirmed and downloaded.
//!
//! The network, the terminal and the disk are the caller's: the functions
//! here decide, from what the caller reports back, what is done next. A
//! pull is driven by [`follow_start`] and [`follow_step`] for one reward
//! and by [`rounds_begin`] and [`rounds_step`] for the repeated pulls.
use vstd::prelude::*;
use rand::seq::IndexedRandom;
use crate::archive::{codec_for, detect_type, spec_detect_type, Codec};
use crate::download::{size_label, size_text};
use crate::repository::{
    parse_repository, spec_parse_repository, sync_selection, RepositoryType, Repositories,
};
use crate::text::opt_view;
use crate::util::{filename_from_url, reward_file_name};

verus! {

/// The settings of a pull (the configuration, overridden by the flags).
pub struct PullSettings {
    /// How deep nested repositories are followed; 0 for no limit.
    pub max_depth: u32,
    /// How many rewards to pull.
    pub repeat: u32,
    /// Skip every confirmation dialog.
    pub no_confirm: bool,
    /// Show the reward without downloading it.
    pub dry_run: bool,
    /// Scan a reward's URL with VirusTotal before downloading it.
    pub scan_reward_url: bool,
    /// The VirusTotal API key.
    pub vt_api_key: Option<String>,
}

/// A downloadable reward: a plain file or an archive to unpack.
#[derive(Clone, Copy, Debug, PartialEq, Eq, Structural)]
pub enum RewardKind {
    File,
    Archive,
}

/// How following a list ended.
pub enum FollowOutcome {
    /// A reward was obtained, previewed, or declined at the depth limit.
    Done,
    /// Try another random entry.
    Retry,
    /// Following failed, with this message.
    Error(String),
}

/// What is reported when following ends.
pub enum Notice {
    Nothing,
    /// "Max depth reached." (without a dialog).
    MaxDepth,
    /// "scan_reward_url is enabled but vt_api_key is not set."
    MissingApiKey,
    /// "Reward is not downloaded because it is a dry run."
    DryRun,
    /// "Download successful."
    Downloaded,
    /// The download was cancelled: "Re-rolling...".
    Rerolled,
    /// "Download failed: <message>" and "Retrying...".
    DownloadFailed(String),
    /// "An error occured: <message>" for the archive request.
    RequestFailed(String),
    /// "Server responded: <status>".
    BadStatus(u16),
    /// "An error occured: <message>" while reading the archive's first bytes.
    ReadFailed(String),
    /// "Extracting..." then "Extraction failed: unknown archive type".
    UnknownArchive,
    /// "Extraction failed: <message>".
    ExtractFailed(String),
    /// "Unrecognised line format, retrying...".
    Unrecognised,
}

/// Where following a list stands, waiting for the answer to a command.
pub enum FollowState {
    /// The depth limit was reached; waiting for the answer to "Retry?".
    AskedRetry,
    /// The reward at `url` was announced.
    Announced { kind: RewardKind, url: String },
    /// The URL scan of the reward at `url` is running.
    Scanning { kind: RewardKind, url: String },
    /// Waiting for the announced size of the reward at `url`.
    Sizing { kind: RewardKind, url: String },
    /// Waiting for the answer to "Download this reward?".
    Confirming { kind: RewardKind, url: String },
    /// The file reward is being downloaded.
    Downloading,
    /// The nested list is being fetched at this depth.
    FetchingNested { depth: u32 },
    /// The archive is being requested.
    FetchingArchive,
    /// The archive's first six bytes are being read.
    ReadingMagic,
    /// The archive is being unpacked.
    Extracting,
    /// Nothing more to do.
    Over,
}

/// What the caller is asked to do.
pub enum FollowCommand {
    /// Say "Max depth reached." and ask "Retry?".
    AskRetry,
    /// Announce the reward: "Reward: <name>." or "Archived Reward: <name>".
    Announce { kind: RewardKind, name: String },
    /// Scan `url` with VirusTotal and show the report or the error.
    Scan { url: String, api_key: String },
    /// Ask the server for the size of the reward at `url`.
    QuerySize { url: String },
    /// Show the reward's name and size, and ask "Download this reward?".
    AskDownload { kind: RewardKind, name: String, size: String },
    /// Download the file reward at `url`, saved under `name`.
    Download { url: String, name: String },
    /// Fetch the repository list at `url`.
    FetchNested { url: String },
    /// Follow the fetched list `lines` at `depth`.
    Descend { depth: u32, lines: Vec<String> },
    /// Request the archive at `url`.
    FetchArchive { url: String },
    /// Read the archive's first six bytes.
    ReadMagic,
    /// Unpack the archive through this decompressor.
    Extract { codec: Codec },
    /// Following is over.
    Finish { outcome: FollowOutcome, notice: Notice },
    /// Stop the program: the user's answer to the download dialog could
    /// not be read, or the depth of nested lists overflowed.
    Abort,
}

/// What came back for the last command.
pub enum FollowEvent {
    /// The answer to a dialog, or the error that reading it gave.
    Answer(Result<bool, String>),
    /// An announcement or a scan is done.
    Ack,
    /// The size the server announced, if any.
    Size(Option<u64>),
    /// The result of a download.
    Downloaded(Result<(), String>),
    /// The entries of a fetched list, or the fetch error.
    Fetched(Result<Vec<String>, String>),
    /// The HTTP status of the archive request, or the request error.
    Response(Result<u16, String>),
    /// The archive's first bytes, or the read error.
    Magic(Result<Vec<u8>, String>),
    /// The result of unpacking.
    Extracted(Result<(), String>),
}

// ----- views -----

pub enum OutcomeView {
    Done,
    Retry,
    Error(Seq<char>),
}

pub enum NoticeView {
    Nothing,
    MaxDepth,
    MissingApiKey,
    DryRun,
    Downloaded,
    Rerolled,
    DownloadFailed(Seq<char>),
    RequestFailed(Seq<char>),
    BadStatus(u16),
    ReadFailed(Seq<char>),
    UnknownArchive,
    ExtractFailed(Seq<char>),
    Unrecognised,
}

pub enum StateView {
    AskedRetry,
    Announced { kind: RewardKind, url: Seq<char> },
    Scanning { kind: RewardKind, url: Seq<char> },
    Sizing { kind: RewardKind, url: Seq<char> },
    Confirming { kind: RewardKind, url: Seq<char> },
    Downloading,
    FetchingNested { depth: u32 },
    FetchingArchive,
    ReadingMagic,
    Extracting,
    Over,
}

pub enum CommandView {
    AskRetry,
    Announce { kind: RewardKind, name: Seq<char> },
    Scan { url: Seq<char>, api_key: Seq<char> },
    QuerySize { url: Seq<char> },
    AskDownload { kind: RewardKind, name: Seq<char>, size: Seq<char> },
    Download { url: Seq<char>, name: Seq<char> },
    FetchNested { url: Seq<char> },
    Descend { depth: u32, lines: Seq<Seq<char>> },
    FetchArchive { url: Seq<char> },
    ReadMagic,
    Extract { codec: Codec },
    Finish { outcome: OutcomeView, notice: NoticeView },
    Abort,
}

pub enum EventView {
    Answer(Result<bool, Seq<char>>),
    Ack,
    Size(Option<u64>),
    Downloaded(Result<(), Seq<char>>),
    Fetched(Result<Seq<Seq<char>>, Seq<char>>),
    Response(Result<u16, Seq<char>>),
    Magic(Result<Seq<u8>, Seq<char>>),
    Extracted(Result<(), Seq<char>>),
}

pub open spec fn err_view<T, U>(r: Result<T, String>, ok: spec_fn(T) -> U) -> Result<U, Seq<char>> {
    match r {
        Ok(t) => Ok(ok(t)),
        Err(e) => Err(e@),
    }
}

impl View for FollowOutcome {
    type V = OutcomeView;

    open spec fn view(&self) -> OutcomeView {
        match self {
            FollowOutcome::Done => OutcomeView::Done,
            FollowOutcome::Retry => OutcomeView::Retry,
            FollowOutcome::Error(e) => OutcomeView::Error(e@),
        }
    }
}

impl View for Notice {
    type V = NoticeView;

    open spec fn view(&self) -> NoticeView {
        match self {
            Notice::Nothing => NoticeView::Nothing,
            Notice::MaxDepth => NoticeView::MaxDepth,
            Notice::MissingApiKey => NoticeView::MissingApiKey,
            Notice::DryRun => NoticeView::DryRun,
            Notice::Downloaded => NoticeView::Downloaded,
            Notice::Rerolled => NoticeView::Rerolled,
            Notice::DownloadFailed(e) => NoticeView::DownloadFailed(e@),
            Notice::RequestFailed(e) => NoticeView::RequestFailed(e@),
            Notice::BadStatus(s) => NoticeView::BadStatus(*s),
            Notice::ReadFailed(e) => NoticeView::ReadFailed(e@),
            Notice::UnknownArchive => NoticeView::UnknownArchive,
            Notice::ExtractFailed(e) => NoticeView::ExtractFailed(e@),
            Notice::Unrecognised => NoticeView::Unrecognised,
        }
    }
}

impl View for FollowState {
    type V = StateView;

    open spec fn view(&self) -> StateView {
        match self {
            FollowState::AskedRetry => StateView::AskedRetry,
            FollowState::Announced { kind, url } => StateView::Announced { kind: *kind, url: url@ },
            FollowState::Scanning { kind, url } => StateView::Scanning { kind: *kind, url: url@ },
            FollowState::Sizing { kind, url } => StateView::Sizing { kind: *kind, url: url@ },
            FollowState::Confirming { kind, url } => StateView::Confirming { kind: *kind, url: url@ },
            FollowState::Downloading => StateView::Downloading,
            FollowState::FetchingNested { depth } => StateView::FetchingNested { depth: *depth },
            FollowState::FetchingArchive => StateView::FetchingArchive,
            FollowState::ReadingMagic => StateView::ReadingMagic,
            FollowState::Extracting => StateView::Extracting,
            FollowState::Over => StateView::Over,
        }
    }
}

impl View for FollowCommand {
    type V = CommandView;

    open spec fn view(&self) -> CommandView {
        match self {
            FollowCommand::AskRetry => CommandView::AskRetry,
            FollowCommand::Announce { kind, name } => CommandView::Announce { kind: *kind, name: name@ },
            FollowCommand::Scan { url, api_key } => CommandView::Scan { url: url@, api_key: api_key@ },
            FollowCommand::QuerySize { url } => CommandView::QuerySize { url: url@ },
            FollowCommand::AskDownload { kind, name, size } => CommandView::AskDownload {
                kind: *kind,
                name: name@,
                size: size@,
            },
            FollowCommand::Download { url, name } => CommandView::Download { url: url@, name: name@ },
            FollowCommand::FetchNested { url } => CommandView::FetchNested { url: url@ },
            FollowCommand::Descend { depth, lines } => CommandView::Descend {
                depth: *depth,
                lines: lines@.map_values(|l: String| l@),
            },
            FollowCommand::FetchArchive { url } => CommandView::FetchArchive { url: url@ },
            FollowCommand::ReadMagic => CommandView::ReadMagic,
            FollowCommand::Extract { codec } => CommandView::Extract { codec: *codec },
            FollowCommand::Finish { outcome, notice } => CommandView::Finish {
                outcome: outcome@,
                notice: notice@,
            },
            FollowCommand::Abort => CommandView::Abort,
        }
    }
}

impl View for FollowEvent {
    type V = EventView;

    open spec fn view(&self) -> EventView {
        match self {
            FollowEvent::Answer(a) => EventView::Answer(err_view(*a, |b: bool| b)),
            FollowEvent::Ack => EventView::Ack,
            FollowEvent::Size(s) => EventView::Size(*s),
            FollowEvent::Downloaded(r) => EventView::Downloaded(err_view(*r, |u: ()| u)),
            FollowEvent::Fetched(r) => EventView::Fetched(
                err_view(*r, |v: Vec<String>| v@.map_values(|l: String| l@)),
            ),
            FollowEvent::Response(r) => EventView::Response(err_view(*r, |s: u16| s)),
            FollowEvent::Magic(r) => EventView::Magic(err_view(*r, |b: Vec<u8>| b@)),
            FollowEvent::Extracted(r) => EventView::Extracted(err_view(*r, |u: ()| u)),
        }
    }
}

// ----- the rules of following -----

/// "Repository has no lines."
pub open spec fn no_lines_text() -> Seq<char> {
    "Repository has no lines."@
}

/// "unknown archive type"
pub open spec fn unknown_archive_text() -> Seq<char> {
    "unknown archive type"@
}

/// Following is over with this outcome and notice.
pub open spec fn finish(outcome: OutcomeView, notice: NoticeView) -> (StateView, CommandView) {
    (StateView::Over, CommandView::Finish { outcome, notice })
}

/// Following has gone deeper than the limit (0 means no limit).
pub open spec fn depth_exceeded(depth: u32, max_depth: u32) -> bool {
    depth > max_depth && max_depth > 0
}

/// What follows the choice of a line at `depth`: a reward or an archive is
/// announced under its file name; a nested list is fetched; a line of
/// unknown form is retried.
pub open spec fn spec_follow_line(depth: u32, line: Seq<char>) -> (StateView, CommandView) {
    let (t, url) = spec_parse_repository(line);
    match t {
        RepositoryType::Reward => (
            StateView::Announced { kind: RewardKind::File, url: url->0 },
            CommandView::Announce { kind: RewardKind::File, name: reward_file_name(url->0) },
        ),
        RepositoryType::Archive => (
            StateView::Announced { kind: RewardKind::Archive, url: url->0 },
            CommandView::Announce { kind: RewardKind::Archive, name: reward_file_name(url->0) },
        ),
        RepositoryType::Nested => (
            StateView::FetchingNested { depth },
            CommandView::FetchNested { url: url->0 },
        ),
        RepositoryType::Unknown => finish(OutcomeView::Retry, NoticeView::Unrecognised),
    }
}

/// After the announcement and the scan: a dry run stops here; otherwise
/// the reward's size is asked for.
pub open spec fn spec_after_scan(s: PullSettings, kind: RewardKind, url: Seq<char>) -> (StateView, CommandView) {
    if s.dry_run {
        finish(OutcomeView::Done, NoticeView::DryRun)
    } else {
        (StateView::Sizing { kind, url }, CommandView::QuerySize { url })
    }
}

/// The download proper: a file is downloaded, an archive requested.
pub open spec fn spec_fetch(kind: RewardKind, url: Seq<char>) -> (StateView, CommandView) {
    match kind {
        RewardKind::File => (
            StateView::Downloading,
            CommandView::Download { url, name: reward_file_name(url) },
        ),
        RewardKind::Archive => (StateView::FetchingArchive, CommandView::FetchArchive { url }),
    }
}

/// The size shown in the download dialog.
pub open spec fn size_label_text(size: Option<u64>) -> Seq<char> {
    match size {
        Some(b) => size_text(b),
        None => "unknown"@,
    }
}

/// The event answers the command that left following in this state.
pub open spec fn event_fits(st: StateView, ev: EventView) -> bool {
    match (st, ev) {
        (StateView::AskedRetry, EventView::Answer(_)) => true,
        (StateView::Announced { .. }, EventView::Ack) => true,
        (StateView::Scanning { .. }, EventView::Ack) => true,
        (StateView::Sizing { .. }, EventView::Size(_)) => true,
        (StateView::Confirming { .. }, EventView::Answer(_)) => true,
        (StateView::Downloading, EventView::Downloaded(_)) => true,
        (StateView::FetchingNested { .. }, EventView::Fetched(_)) => true,
        (StateView::FetchingArchive, EventView::Response(_)) => true,
        (StateView::ReadingMagic, EventView::Magic(_)) => true,
        (StateView::Extracting, EventView::Extracted(_)) => true,
        _ => false,
    }
}

/// One step of following a list.
pub open spec fn follow_next(s: PullSettings, st: StateView, ev: EventView) -> (StateView, CommandView) {
    match (st, ev) {
        (StateView::AskedRetry, EventView::Answer(a)) => match a {
            Ok(true) => finish(OutcomeView::Retry, NoticeView::Nothing),
            Ok(false) => finish(OutcomeView::Done, NoticeView::Nothing),
            Err(e) => finish(OutcomeView::Error(e), NoticeView::Nothing),
        },
        (StateView::Announced { kind, url }, EventView::Ack) => if s.scan_reward_url {
            match opt_view(s.vt_api_key) {
                Some(k) => (StateView::Scanning { kind, url }, CommandView::Scan { url, api_key: k }),
                None => finish(OutcomeView::Retry, NoticeView::MissingApiKey),
            }
        } else {
            spec_after_scan(s, kind, url)
        },
        (StateView::Scanning { kind, url }, EventView::Ack) => spec_after_scan(s, kind, url),
        (StateView::Sizing { kind, url }, EventView::Size(size)) => if s.no_confirm {
            spec_fetch(kind, url)
        } else {
            (
                StateView::Confirming { kind, url },
                CommandView::AskDownload {
                    kind,
                    name: reward_file_name(url),
                    size: size_label_text(size),
                },
            )
        },
        (StateView::Confirming { kind, url }, EventView::Answer(a)) => match a {
            Ok(true) => spec_fetch(kind, url),
            Ok(false) => finish(OutcomeView::Retry, NoticeView::Nothing),
            Err(_) => (StateView::Over, CommandView::Abort),
        },
        (StateView::Downloading, EventView::Downloaded(r)) => match r {
            Ok(_) => finish(OutcomeView::Done, NoticeView::Downloaded),
            Err(e) => if e == "cancelled"@ {
                finish(OutcomeView::Retry, NoticeView::Rerolled)
            } else {
                finish(OutcomeView::Retry, NoticeView::DownloadFailed(e))
            },
        },
        (StateView::FetchingNested { depth }, EventView::Fetched(r)) => match r {
            Ok(lines) => if depth < u32::MAX {
                (StateView::Over, CommandView::Descend { depth: (depth + 1) as u32, lines })
            } else {
                (StateView::Over, CommandView::Abort)
            },
            Err(e) => finish(OutcomeView::Error(e), NoticeView::Nothing),
        },
        (StateView::FetchingArchive, EventView::Response(r)) => match r {
            Ok(status) => if status == 200 {
                (StateView::ReadingMagic, CommandView::ReadMagic)
            } else {
                finish(OutcomeView::Retry, NoticeView::BadStatus(status))
            },
            Err(e) => finish(OutcomeView::Retry, NoticeView::RequestFailed(e)),
        },
        (StateView::ReadingMagic, EventView::Magic(r)) => match r {
            Ok(bytes) => match spec_detect_type(bytes) {
                crate::archive::ArchiveType::Gz => (
                    StateView::Extracting,
                    CommandView::Extract { codec: Codec::Gzip },
                ),
                crate::archive::ArchiveType::Xz => (
                    StateView::Extracting,
                    CommandView::Extract { codec: Codec::Xz },
                ),
                crate::archive::ArchiveType::Unknown => finish(
                    OutcomeView::Error(unknown_archive_text()),
                    NoticeView::UnknownArchive,
                ),
            },
            Err(e) => finish(OutcomeView::Error(e), NoticeView::ReadFailed(e)),
        },
        (StateView::Extracting, EventView::Extracted(r)) => match r {
            Ok(_) => finish(OutcomeView::Done, NoticeView::Nothing),
            Err(e) => finish(OutcomeView::Error(e), NoticeView::ExtractFailed(e)),
        },
        _ => (StateView::Over, CommandView::Abort),
    }
}


// ----- executing the rules -----

fn finished(outcome: FollowOutcome, notice: Notice) -> (r: (FollowState, FollowCommand))
    ensures
        (r.0@, r.1@) == finish(outcome@, notice@),
{
    (FollowState::Over, FollowCommand::Finish { outcome, notice })
}

/// Acts on the line chosen at `depth` (see [`spec_follow_line`]).
pub fn follow_line(depth: u32, line: String) -> (r: (FollowState, FollowCommand))
    ensures
        (r.0@, r.1@) == spec_follow_line(depth, line@),
{
    let repo = parse_repository(line);
    match repo.repo_type {
        RepositoryType::Reward => {
            let url = repo.url.unwrap();
            let name = filename_from_url(url.as_str());
            (
                FollowState::Announced { kind: RewardKind::File, url },
                FollowCommand::Announce { kind: RewardKind::File, name },
            )
        },
        RepositoryType::Archive => {
            let url = repo.url.unwrap();
            let name = filename_from_url(url.as_str());
            (
                FollowState::Announced { kind: RewardKind::Archive, url },
                FollowCommand::Announce { kind: RewardKind::Archive, name },
            )
        },
        RepositoryType::Nested => {
            let url = repo.url.unwrap();
            (FollowState::FetchingNested { depth }, FollowCommand::FetchNested { url })
        },
        RepositoryType::Unknown => finished(FollowOutcome::Retry, Notice::Unrecognised),
    }
}

/// One item of `items`, chosen at random (`IndexedRandom::choose` with
/// the thread-local generator). The contract claims that the result is
/// absent exactly for an empty list and is otherwise one of the items;
/// which one is left to chance.
#[verifier::external_body]
fn choose_one(items: &Vec<String>) -> (r: Option<String>)
    ensures
        items@.len() == 0 <==> r is None,
        r matches Some(x) ==> exists|i: int| 0 <= i < items@.len() && items@[i]@ == x@,
{
    items.as_slice().choose(&mut rand::rng()).cloned()
}

/// Starts following `lines` at `depth` (the top list is at depth 1):
/// beyond the depth limit the user is asked whether to retry (unless
/// dialogs are skipped, when it is retried); otherwise a line is chosen at
/// random and acted on.
pub fn follow_start(settings: &PullSettings, depth: u32, lines: &Vec<String>) -> (r: (FollowState, FollowCommand))
    ensures
        depth_exceeded(depth, settings.max_depth) ==> (r.0@, r.1@) == if settings.no_confirm {
            finish(OutcomeView::Retry, NoticeView::MaxDepth)
        } else {
            (StateView::AskedRetry, CommandView::AskRetry)
        },
        !depth_exceeded(depth, settings.max_depth) && lines@.len() == 0 ==> (r.0@, r.1@) == finish(
            OutcomeView::Error(no_lines_text()),
            NoticeView::Nothing,
        ),
        !depth_exceeded(depth, settings.max_depth) && lines@.len() > 0 ==> exists|i: int|
            0 <= i < lines@.len() && (r.0@, r.1@) == spec_follow_line(depth, #[trigger] lines@[i]@),
{
    if depth > settings.max_depth && settings.max_depth > 0 {
        if settings.no_confirm {
            return finished(FollowOutcome::Retry, Notice::MaxDepth);
        }
        return (FollowState::AskedRetry, FollowCommand::AskRetry);
    }
    match choose_one(lines) {
        Some(line) => follow_line(depth, line),
        None => finished(
            FollowOutcome::Error(String::from_str("Repository has no lines.")),
            Notice::Nothing,
        ),
    }
}

fn after_scan(settings: &PullSettings, kind: RewardKind, url: String) -> (r: (FollowState, FollowCommand))
    ensures
        (r.0@, r.1@) == spec_after_scan(*settings, kind, url@),
{
    if settings.dry_run {
        finished(FollowOutcome::Done, Notice::DryRun)
    } else {
        let u = url.clone();
        (FollowState::Sizing { kind, url }, FollowCommand::QuerySize { url: u })
    }
}

fn fetch(kind: RewardKind, url: String) -> (r: (FollowState, FollowCommand))
    ensures
        (r.0@, r.1@) == spec_fetch(kind, url@),
{
    match kind {
        RewardKind::File => {
            let name = filename_from_url(url.as_str());
            (FollowState::Downloading, FollowCommand::Download { url, name })
        },
        RewardKind::Archive => (FollowState::FetchingArchive, FollowCommand::FetchArchive { url }),
    }
}

/// One step of following a list: acts on what came back for the last
/// command (see [`follow_next`]).
pub fn follow_step(settings: &PullSettings, state: FollowState, event: FollowEvent) -> (r: (FollowState, FollowCommand))
    requires
        event_fits(state@, event@),
    ensures
        (r.0@, r.1@) == follow_next(*settings, state@, event@),
{
    match state {
        FollowState::AskedRetry => match event {
            FollowEvent::Answer(Ok(true)) => finished(FollowOutcome::Retry, Notice::Nothing),
            FollowEvent::Answer(Ok(false)) => finished(FollowOutcome::Done, Notice::Nothing),
            FollowEvent::Answer(Err(e)) => finished(FollowOutcome::Error(e), Notice::Nothing),
            _ => (FollowState::Over, FollowCommand::Abort),
        },
        FollowState::Announced { kind, url } => {
            if settings.scan_reward_url {
                match &settings.vt_api_key {
                    Some(k) => {
                        let u = url.clone();
                        (
                            FollowState::Scanning { kind, url },
                            FollowCommand::Scan { url: u, api_key: k.clone() },
                        )
                    },
                    None => finished(FollowOutcome::Retry, Notice::MissingApiKey),
                }
            } else {
                after_scan(settings, kind, url)
            }
        },
        FollowState::Scanning { kind, url } => after_scan(settings, kind, url),
        FollowState::Sizing { kind, url } => match event {
            FollowEvent::Size(size) => {
                if settings.no_confirm {
                    fetch(kind, url)
                } else {
                    let name = filename_from_url(url.as_str());
                    let size = size_label(size);
                    (
                        FollowState::Confirming { kind, url },
                        FollowCommand::AskDownload { kind, name, size },
                    )
                }
            },
            _ => (FollowState::Over, FollowCommand::Abort),
        },
        FollowState::Confirming { kind, url } => match event {
            FollowEvent::Answer(Ok(true)) => fetch(kind, url),
            FollowEvent::Answer(Ok(false)) => finished(FollowOutcome::Retry, Notice::Nothing),
            _ => (FollowState::Over, FollowCommand::Abort),
        },
        FollowState::Downloading => match event {
            FollowEvent::Downloaded(Ok(_)) => finished(FollowOutcome::Done, Notice::Downloaded),
            FollowEvent::Downloaded(Err(e)) => {
                if e == String::from_str("cancelled") {
                    finished(FollowOutcome::Retry, Notice::Rerolled)
                } else {
                    finished(FollowOutcome::Retry, Notice::DownloadFailed(e))
                }
            },
            _ => (FollowState::Over, FollowCommand::Abort),
        },
        FollowState::FetchingNested { depth } => match event {
            FollowEvent::Fetched(Ok(lines)) => {
                if depth < u32::MAX {
                    (FollowState::Over, FollowCommand::Descend { depth: depth + 1, lines })
                } else {
                    (FollowState::Over, FollowCommand::Abort)
                }
            },
            FollowEvent::Fetched(Err(e)) => finished(FollowOutcome::Error(e), Notice::Nothing),
            _ => (FollowState::Over, FollowCommand::Abort),
        },
        FollowState::FetchingArchive => match event {
            FollowEvent::Response(Ok(status)) => {
                if status == 200 {
                    (FollowState::ReadingMagic, FollowCommand::ReadMagic)
                } else {
                    finished(FollowOutcome::Retry, Notice::BadStatus(status))
                }
            },
            FollowEvent::Response(Err(e)) => finished(FollowOutcome::Retry, Notice::RequestFailed(e)),
            _ => (FollowState::Over, FollowCommand::Abort),
        },
        FollowState::ReadingMagic => match event {
            FollowEvent::Magic(Ok(bytes)) => match codec_for(detect_type(bytes.as_slice())) {
                Ok(codec) => (FollowState::Extracting, FollowCommand::Extract { codec }),
                Err(err) => finished(FollowOutcome::Error(err.message()), Notice::UnknownArchive),
            },
            FollowEvent::Magic(Err(e)) => {
                let m = e.clone();
                finished(FollowOutcome::Error(e), Notice::ReadFailed(m))
            },
            _ => (FollowState::Over, FollowCommand::Abort),
        },
        FollowState::Extracting => match event {
            FollowEvent::Extracted(Ok(_)) => finished(FollowOutcome::Done, Notice::Nothing),
            FollowEvent::Extracted(Err(e)) => {
                let m = e.clone();
                finished(FollowOutcome::Error(e), Notice::ExtractFailed(m))
            },
            _ => (FollowState::Over, FollowCommand::Abort),
        },
        FollowState::Over => (FollowState::Over, FollowCommand::Abort),
    }
}


// ----- laws of following -----

/// The commands that show a dialog.
pub open spec fn is_dialog(c: CommandView) -> bool {
    c is AskRetry || c is AskDownload
}

/// The commands that reach for the reward itself.
pub open spec fn touches_reward(c: CommandView) -> bool {
    ||| c is QuerySize
    ||| c is AskDownload
    ||| c is Download
    ||| c is FetchArchive
    ||| c is ReadMagic
    ||| c is Extract
}

/// The states on the way to downloading a reward.
pub open spec fn downloading_stage(st: StateView) -> bool {
    ||| st is Sizing
    ||| st is Confirming
    ||| st is Downloading
    ||| st is FetchingArchive
    ||| st is ReadingMagic
    ||| st is Extracting
}

/// With dialogs skipped, following never asks the user anything: neither
/// at the depth limit nor before a download.
pub proof fn law_no_confirm_no_dialog(s: PullSettings, depth: u32, line: Seq<char>, st: StateView, ev: EventView)
    requires
        s.no_confirm,
    ensures
        !is_dialog(spec_follow_line(depth, line).1),
        event_fits(st, ev) ==> !is_dialog(follow_next(s, st, ev).1),
{
}

/// A dry run never reaches for the reward: from the choice of a line on,
/// following never enters a download stage and never asks for the
/// reward's size, the reward, or its bytes.
pub proof fn law_dry_run_never_downloads(s: PullSettings, depth: u32, line: Seq<char>, st: StateView, ev: EventView)
    requires
        s.dry_run,
    ensures
        !downloading_stage(spec_follow_line(depth, line).0),
        !touches_reward(spec_follow_line(depth, line).1),
        event_fits(st, ev) && !downloading_stage(st) ==> {
            &&& !downloading_stage(follow_next(s, st, ev).0)
            &&& !touches_reward(follow_next(s, st, ev).1)
        },
{
}

/// With URL scanning on, an announced reward is scanned before anything
/// else, and is not fetched at all when no API key is set.
pub proof fn law_scan_before_download(s: PullSettings, kind: RewardKind, url: Seq<char>)
    requires
        s.scan_reward_url,
    ensures
        match opt_view(s.vt_api_key) {
            Some(k) => follow_next(s, StateView::Announced { kind, url }, EventView::Ack) == (
                StateView::Scanning { kind, url },
                CommandView::Scan { url, api_key: k },
            ),
            None => follow_next(s, StateView::Announced { kind, url }, EventView::Ack) == finish(
                OutcomeView::Retry,
                NoticeView::MissingApiKey,
            ),
        },
{
}

/// At the depth limit, "yes" to "Retry?" ends following with a retry (so
/// another entry is followed) and "no" ends it as done: the two answers
/// lead to different outcomes, and neither shows anything.
pub proof fn law_retry_answer(s: PullSettings)
    ensures
        follow_next(s, StateView::AskedRetry, EventView::Answer(Ok(true))) == (
            StateView::Over,
            CommandView::Finish { outcome: OutcomeView::Retry, notice: NoticeView::Nothing },
        ),
        follow_next(s, StateView::AskedRetry, EventView::Answer(Ok(false))) == (
            StateView::Over,
            CommandView::Finish { outcome: OutcomeView::Done, notice: NoticeView::Nothing },
        ),
        follow_next(s, StateView::AskedRetry, EventView::Answer(Ok(true))) != follow_next(
            s,
            StateView::AskedRetry,
            EventView::Answer(Ok(false)),
        ),
{
}

/// A confirmed reward is fetched by its kind, exactly as it is when
/// dialogs are skipped: an archive is requested (never saved as a plain
/// file), a file is downloaded under its reward name.
pub proof fn law_confirmed_fetch(
    s: PullSettings,
    skipping: PullSettings,
    kind: RewardKind,
    url: Seq<char>,
    size: Option<u64>,
)
    requires
        skipping.no_confirm,
    ensures
        follow_next(s, StateView::Confirming { kind, url }, EventView::Answer(Ok(true)))
            == follow_next(skipping, StateView::Sizing { kind, url }, EventView::Size(size)),
        kind == RewardKind::Archive ==> follow_next(
            s,
            StateView::Confirming { kind, url },
            EventView::Answer(Ok(true)),
        ) == (StateView::FetchingArchive, CommandView::FetchArchive { url }),
        kind == RewardKind::File ==> follow_next(
            s,
            StateView::Confirming { kind, url },
            EventView::Answer(Ok(true)),
        ) == (StateView::Downloading, CommandView::Download { url, name: reward_file_name(url) }),
{
}

/// The decompressor asked for matches the archive's first bytes: gzip
/// (`1F 8B`) is read through gzip, xz (`FD 37 7A 58 5A 00`) through xz, and
/// any other start fails with "unknown archive type".
pub proof fn law_codec_matches_magic(s: PullSettings, b: Seq<u8>)
    ensures
        b.len() >= 2 && b[0] == 0x1f && b[1] == 0x8b ==> follow_next(
            s,
            StateView::ReadingMagic,
            EventView::Magic(Ok(b)),
        ) == (StateView::Extracting, CommandView::Extract { codec: Codec::Gzip }),
        b.len() >= 6 && b[0] == 0xfd && b[1] == 0x37 && b[2] == 0x7a && b[3] == 0x58 && b[4]
            == 0x5a && b[5] == 0x00 ==> follow_next(
            s,
            StateView::ReadingMagic,
            EventView::Magic(Ok(b)),
        ) == (StateView::Extracting, CommandView::Extract { codec: Codec::Xz }),
        !(b.len() >= 2 && b[0] == 0x1f && b[1] == 0x8b) && !(b.len() >= 6 && b[0] == 0xfd && b[1]
            == 0x37 && b[2] == 0x7a && b[3] == 0x58 && b[4] == 0x5a && b[5] == 0x00)
            ==> follow_next(s, StateView::ReadingMagic, EventView::Magic(Ok(b))) == (
            StateView::Over,
            CommandView::Finish {
                outcome: OutcomeView::Error("unknown archive type"@),
                notice: NoticeView::UnknownArchive,
            },
        ),
{
}

/// A line of unknown form is retried at once, without any request.
pub proof fn law_unrecognised_retried(depth: u32, line: Seq<char>)
    requires
        spec_parse_repository(line).0 == RepositoryType::Unknown,
    ensures
        spec_follow_line(depth, line) == finish(OutcomeView::Retry, NoticeView::Unrecognised),
{
}

/// A nested list is followed one level deeper than the list that named
/// it, and only lists within the depth limit are read from.
pub proof fn law_depth(depth: u32, line: Seq<char>, lines: Seq<Seq<char>>, s: PullSettings)
    ensures
        spec_follow_line(depth, line).1 is FetchNested ==> spec_follow_line(depth, line).0
            == (StateView::FetchingNested { depth }),
        depth < u32::MAX ==> follow_next(
            s,
            StateView::FetchingNested { depth },
            EventView::Fetched(Ok(lines)),
        ).1 == (CommandView::Descend { depth: (depth + 1) as u32, lines }),
{
}

// ----- the rounds of a pull -----

/// The rounds move on only when a reward was obtained (or declined at the
/// depth limit) or the user answers "no" to "Continue? "; a "yes" keeps
/// the round and follows again, and a retry follows again without asking.
pub proof fn law_round_progress(s: PullSettings, completed: u32, ev: RoundEventView)
    requires
        completed < s.repeat,
    ensures
        rounds_next(s, completed, RoundEventView::Continue(Ok(true))) == (
            completed,
            RoundCommandView::Follow { after_error: None },
        ),
        rounds_next(s, completed, RoundEventView::Followed(OutcomeView::Retry)) == (
            completed,
            RoundCommandView::Follow { after_error: None },
        ),
        rounds_next(s, completed, ev).0 == if ev == RoundEventView::Followed(OutcomeView::Done)
            || ev == RoundEventView::Continue(Ok(false)) {
            completed + 1
        } else {
            completed as int
        },
{
}

/// What the rounds of a pull ask for.
pub enum RoundCommand {
    /// Follow the top list, after showing the error of the last attempt
    /// if there is one.
    Follow { after_error: Option<String> },
    /// Show `error` and ask "Continue? ".
    AskContinue { error: String },
    /// Every round is done.
    Finished,
    /// The pull fails with this message.
    Fail(String),
}

/// What came back for the last round command.
pub enum RoundEvent {
    /// Following ended so.
    Followed(FollowOutcome),
    /// The answer to "Continue? ", or the error that reading it gave.
    Continue(Result<bool, String>),
}

pub enum RoundCommandView {
    Follow { after_error: Option<Seq<char>> },
    AskContinue { error: Seq<char> },
    Finished,
    Fail(Seq<char>),
}

pub enum RoundEventView {
    Followed(OutcomeView),
    Continue(Result<bool, Seq<char>>),
}

impl View for RoundCommand {
    type V = RoundCommandView;

    open spec fn view(&self) -> RoundCommandView {
        match self {
            RoundCommand::Follow { after_error } => RoundCommandView::Follow { after_error: opt_view(*after_error) },
            RoundCommand::AskContinue { error } => RoundCommandView::AskContinue { error: error@ },
            RoundCommand::Finished => RoundCommandView::Finished,
            RoundCommand::Fail(e) => RoundCommandView::Fail(e@),
        }
    }
}

impl View for RoundEvent {
    type V = RoundEventView;

    open spec fn view(&self) -> RoundEventView {
        match self {
            RoundEvent::Followed(o) => RoundEventView::Followed(o@),
            RoundEvent::Continue(a) => RoundEventView::Continue(err_view(*a, |b: bool| b)),
        }
    }
}

/// A round is over: the next one starts, or the pull is done.
pub open spec fn round_over(s: PullSettings, completed: u32) -> (u32, RoundCommandView) {
    let c = (completed + 1) as u32;
    if c >= s.repeat {
        (c, RoundCommandView::Finished)
    } else {
        (c, RoundCommandView::Follow { after_error: None })
    }
}

/// One step of the rounds, `completed` rounds being over: a reward
/// obtained (or declined at the depth limit) ends the round; a retry
/// follows again; an error is shown and followed by a new attempt, after
/// asking "Continue? " unless dialogs are skipped, where "no" ends the
/// round and an unreadable answer fails the pull.
pub open spec fn rounds_next(s: PullSettings, completed: u32, ev: RoundEventView) -> (u32, RoundCommandView) {
    match ev {
        RoundEventView::Followed(OutcomeView::Done) => round_over(s, completed),
        RoundEventView::Followed(OutcomeView::Retry) => (completed, RoundCommandView::Follow { after_error: None }),
        RoundEventView::Followed(OutcomeView::Error(e)) => if s.no_confirm {
            (completed, RoundCommandView::Follow { after_error: Some(e) })
        } else {
            (completed, RoundCommandView::AskContinue { error: e })
        },
        RoundEventView::Continue(Ok(true)) => (completed, RoundCommandView::Follow { after_error: None }),
        RoundEventView::Continue(Ok(false)) => round_over(s, completed),
        RoundEventView::Continue(Err(e)) => (completed, RoundCommandView::Fail(e)),
    }
}

/// Starts the rounds of a pull: `repeat` rounds, none over yet.
pub fn rounds_begin(settings: &PullSettings) -> (r: (u32, RoundCommand))
    ensures
        r.0 == 0,
        r.1@ == if settings.repeat == 0 {
            RoundCommandView::Finished
        } else {
            RoundCommandView::Follow { after_error: None }
        },
{
    if settings.repeat == 0 {
        (0, RoundCommand::Finished)
    } else {
        (0, RoundCommand::Follow { after_error: None })
    }
}

fn end_round(settings: &PullSettings, completed: u32) -> (r: (u32, RoundCommand))
    requires
        completed < settings.repeat,
    ensures
        (r.0, r.1@) == round_over(*settings, completed),
{
    let c = completed + 1;
    if c >= settings.repeat {
        (c, RoundCommand::Finished)
    } else {
        (c, RoundCommand::Follow { after_error: None })
    }
}

/// One step of the rounds (see [`rounds_next`]). The rounds finish once
/// `repeat` rounds are over, and never ask "Continue? " when dialogs are
/// skipped.
pub fn rounds_step(settings: &PullSettings, completed: u32, event: RoundEvent) -> (r: (u32, RoundCommand))
    requires
        completed < settings.repeat,
    ensures
        (r.0, r.1@) == rounds_next(*settings, completed, event@),
        r.0 <= settings.repeat,
        r.1 is Finished <==> r.0 == settings.repeat,
        r.0 == completed || r.0 == completed + 1,
        settings.no_confirm ==> !(r.1 is AskContinue),
{
    match event {
        RoundEvent::Followed(FollowOutcome::Done) => end_round(settings, completed),
        RoundEvent::Followed(FollowOutcome::Retry) => (completed, RoundCommand::Follow { after_error: None }),
        RoundEvent::Followed(FollowOutcome::Error(e)) => {
            if settings.no_confirm {
                (completed, RoundCommand::Follow { after_error: Some(e) })
            } else {
                (completed, RoundCommand::AskContinue { error: e })
            }
        },
        RoundEvent::Continue(Ok(true)) => (completed, RoundCommand::Follow { after_error: None }),
        RoundEvent::Continue(Ok(false)) => end_round(settings, completed),
        RoundEvent::Continue(Err(e)) => (completed, RoundCommand::Fail(e)),
    }
}

/// Chooses at random the enabled repository whose synced list a pull
/// follows; none when no repository is enabled.
pub fn pick_repository(repos: &Repositories) -> (r: Option<String>)
    ensures
        sync_selection(repos@, seq![]).len() == 0 <==> r is None,
        r matches Some(n) ==> exists|i: int|
            0 <= i < sync_selection(repos@, seq![]).len() && (#[trigger] sync_selection(
                repos@,
                seq![],
            )[i]).0 == n@,
{
    let none: Vec<String> = Vec::new();
    assert(crate::text::string_views(none@) =~= seq![]);
    let targets = repos.sync_targets(&none);
    let ghost sel = sync_selection(repos@, seq![]);
    let mut names: Vec<String> = Vec::new();
    let mut i: usize = 0;
    while i < targets.len()
        invariant
            crate::repository::entry_views(targets@) == sel,
            i <= targets@.len(),
            names@.len() == i,
            forall|j: int| 0 <= j < i ==> names@[j]@ == sel[j].0,
        decreases targets@.len() - i,
    {
        names.push(targets[i].name.clone());
        i = i + 1;
    }
    let r = choose_one(&names);
    proof {
        if r is Some {
            let n = r->0;
            let j = choose|j: int| 0 <= j < names@.len() && names@[j]@ == n@;
            assert(sel[j].0 == n@);
        }
    }
    r
}


/// How many nested lists are fetched when following from `depth`, the
/// line chosen on each level being the next of `chosen`: on a level within
/// the depth limit, the chosen line is acted on ([`spec_follow_line`]);
/// when that fetches a nested list, following goes on at the depth that
/// [`follow_next`] descends to. Beyond the limit no line is chosen
/// ([`follow_start`]).
pub open spec fn nested_fetches(s: PullSettings, depth: u32, chosen: Seq<Seq<char>>) -> nat
    decreases chosen.len(),
{
    if chosen.len() == 0 || depth_exceeded(depth, s.max_depth) {
        0
    } else {
        let (st, cmd) = spec_follow_line(depth, chosen[0]);
        if cmd is FetchNested {
            match follow_next(s, st, EventView::Fetched(Ok(seq![]))).1 {
                CommandView::Descend { depth: next, .. } => 1 + nested_fetches(s, next, chosen.drop_first()),
                _ => 1,
            }
        } else {
            0
        }
    }
}

/// With a depth limit, following from depth `depth` (at least 1) fetches
/// at most `max_depth + 1 - depth` nested lists (none beyond the limit),
/// whatever lines are chosen, so no cycle of nested lists goes on forever.
pub proof fn law_nested_fetches_bounded(s: PullSettings, depth: u32, chosen: Seq<Seq<char>>)
    requires
        s.max_depth > 0,
        depth >= 1,
    ensures
        nested_fetches(s, depth, chosen) <= if depth > s.max_depth {
            0
        } else {
            s.max_depth + 1 - depth
        },
    decreases chosen.len(),
{
    if chosen.len() > 0 && !depth_exceeded(depth, s.max_depth) {
        let (st, cmd) = spec_follow_line(depth, chosen[0]);
        if cmd is FetchNested && depth < u32::MAX {
            law_nested_fetches_bounded(s, (depth + 1) as u32, chosen.drop_first());
        }
    }
}

} // verus!
