//! The download orchestrator: for one request it decides, step by step,
//! what is to be done next, from what the last step brought.
//!
//! The orchestrator does no work of its own. It hands out an `Action`; its
//! driver performs the action and reports the outcome as an `Event`; the
//! orchestrator answers with the next action, and with the progress
//! records to pass on to the subscriber.

use crate::command::{
    listing_args, listing_args_of, metadata_args, metadata_args_of, transfer_args,
    transfer_args_of,
};
use crate::locator::{
    get_installation_instructions, installation_instructions, Platform, ToolName,
};
use crate::metadata::{
    info_in, info_model, lemma_listed_urls_bounded, lines_of, listed_total, listed_urls,
    parse_playlist, parse_video_info, InfoModel, VideoInfo,
};
use crate::naming::{
    artifact_path, artifact_path_of, classify_url, file_stem, file_stem_of, is_artifact,
    is_separator, lemma_artifact_is_mp3, lemma_artifact_path_is_mp3, names_artifact,
    parent_dir, parent_dir_of, sanitize_filename, sanitized, url_kind, url_video_id,
    video_id_of, UrlKind,
};
use crate::progress::{
    lemma_valid_preserved, record_models, signal_of, title_in, DownloadProgress, Phase,
    ProgressModel, ProgressState, RecordModel,
};
use crate::text::{
    append_chars, append_str, chars_of, copy_text, ends_with, owned, signed_decimal,
    signed_decimal_of, string_of, text_model, texts,
};
use vstd::prelude::*;

verus! {

// ---------------------------------------------------------------------------
// Requests and results
// ---------------------------------------------------------------------------

/// What the caller asks for.
#[derive(Clone, Debug, PartialEq, Eq)]
pub struct DownloadRequest {
    pub url: String,
    pub output_directory: String,
    pub target_bitrate_kbps: u32,
}

/// One artifact on disk.
#[derive(Clone, Debug, PartialEq, Eq)]
pub struct DownloadResult {
    pub output_path: String,
    pub title: Option<String>,
    /// The duration in seconds, as the decimal number that was reported.
    pub duration: Option<String>,
    pub file_size: Option<u64>,
}

/// The outcome of a playlist request. There may be fewer artifacts than
/// items: an item whose transfer fails is left out.
#[derive(Clone, Debug, PartialEq, Eq)]
pub struct PlaylistDownloadResult {
    pub output_folder: String,
    /// The number of items of the playlist, fixed when it was listed.
    pub total_videos: usize,
    pub downloaded_videos: Vec<DownloadResult>,
}

/// The outcome of a request.
#[derive(Clone, Debug, PartialEq, Eq)]
pub enum DownloadResponse {
    Single(DownloadResult),
    Playlist(PlaylistDownloadResult),
}

/// Why a request failed.
#[derive(Clone, Debug, PartialEq, Eq)]
pub enum DownloadError {
    /// The URL has none of the accepted shapes.
    InvalidUrl,
    /// A tool could not be made ready.
    Provisioning { tool: ToolName, message: String },
    /// The tool at `program` could not be launched.
    ProcessSpawn { program: String, message: String },
    /// The playlist has no items, or none could be listed; `stderr` is
    /// what the fetcher wrote about it.
    EmptyPlaylist { stderr: String },
    /// The fetcher ran a transfer and reported failure.
    DownloadFailed { exit_code: Option<i32>, stderr: String },
    /// The transfer succeeded but its artifact is not on disk.
    ArtifactMissing { path: String },
    /// The caller called the request off.
    Cancelled,
    /// The driver reported something that does not answer the pending
    /// action.
    UnexpectedEvent,
}

/// One file of the output directory.
#[derive(Clone, Debug, PartialEq, Eq)]
pub struct FileEntry {
    pub path: String,
    pub size: u64,
}

/// What the driver reports.
#[derive(Clone, Debug, PartialEq, Eq)]
pub enum Event {
    /// The request begins.
    Start,
    /// The tool is ready at `path`.
    ToolReady { path: String },
    /// The tool could not be made ready.
    ToolFailed { message: String },
    /// A one-shot run of the fetcher has ended.
    Output { success: bool, stdout: Vec<u8>, stderr: String },
    /// The fetcher could not be launched.
    SpawnFailed { message: String },
    /// Whether the file exists, and its size where that could be read.
    Stat { exists: bool, size: Option<u64> },
    /// The files of the output directory; none where it cannot be read.
    Listing { files: Vec<FileEntry> },
    /// The running transfer wrote a diagnostic line.
    Line { text: String },
    /// The running transfer has ended.
    Exited { success: bool, exit_code: Option<i32>, stderr: String },
    /// The caller calls the request off. The driver ends a transfer that
    /// is running; artifacts that are complete stay.
    Cancel,
}

/// What the driver is to do next.
#[derive(Clone, Debug, PartialEq, Eq)]
pub enum Action {
    /// Make the tool ready; report `ToolReady` or `ToolFailed`.
    Provision { tool: ToolName },
    /// Run `program` once with `args`; report `Output` or `SpawnFailed`.
    RunOnce { program: String, args: Vec<String> },
    /// Look for the file at `path`; report `Stat`.
    Stat { path: String },
    /// List the files of `directory`; report `Listing`.
    List { directory: String },
    /// Launch `program` with `args` and report each line of its error
    /// stream as `Line`, then `Exited`; or report `SpawnFailed`.
    Transfer { program: String, args: Vec<String> },
    /// Go on reading the running transfer.
    Read,
    /// The request is done.
    Finish { response: DownloadResponse },
    /// The request has failed.
    Fail { error: DownloadError },
}

/// The orchestrator's answer to an event.
#[derive(Clone, Debug, PartialEq, Eq)]
pub struct Step {
    pub action: Action,
    /// The records to pass on to the subscriber, in this order.
    pub progress: Vec<DownloadProgress>,
}

/// Where a request stands.
#[derive(Clone, Copy, Debug, PartialEq, Eq, Structural)]
pub enum Stage {
    Created,
    ProvisioningFetcher,
    ProvisioningConverter,
    MetadataQuery,
    Enumerating,
    Snapshot,
    ItemMetadata,
    SkipCheck,
    Transferring,
    Confirming,
    Collecting,
    Done,
    Failed,
}

// ---------------------------------------------------------------------------
// Models
// ---------------------------------------------------------------------------

pub struct ResultModel {
    pub output_path: Seq<char>,
    pub title: Option<Seq<char>>,
    pub duration: Option<Seq<char>>,
    pub file_size: Option<u64>,
}

pub struct PlaylistModel {
    pub output_folder: Seq<char>,
    pub total_videos: nat,
    pub downloaded_videos: Seq<ResultModel>,
}

pub enum ResponseModel {
    Single(ResultModel),
    Playlist(PlaylistModel),
}

pub enum ErrorModel {
    InvalidUrl,
    Provisioning { tool: ToolName, message: Seq<char> },
    ProcessSpawn { program: Seq<char>, message: Seq<char> },
    EmptyPlaylist { stderr: Seq<char> },
    DownloadFailed { exit_code: Option<i32>, stderr: Seq<char> },
    ArtifactMissing { path: Seq<char> },
    Cancelled,
    UnexpectedEvent,
}

pub struct FileModel {
    pub path: Seq<char>,
    pub size: u64,
}

pub enum EventModel {
    Start,
    ToolReady { path: Seq<char> },
    ToolFailed { message: Seq<char> },
    Output { success: bool, stdout: Seq<u8>, stderr: Seq<char> },
    SpawnFailed { message: Seq<char> },
    Stat { exists: bool, size: Option<u64> },
    Listing { files: Seq<FileModel> },
    Line { text: Seq<char> },
    Exited { success: bool, exit_code: Option<i32>, stderr: Seq<char> },
    Cancel,
}

pub enum ActionModel {
    Provision { tool: ToolName },
    RunOnce { program: Seq<char>, args: Seq<Seq<char>> },
    Stat { path: Seq<char> },
    List { directory: Seq<char> },
    Transfer { program: Seq<char>, args: Seq<Seq<char>> },
    Read,
    Finish { response: ResponseModel },
    Fail { error: ErrorModel },
}

pub struct StepModel {
    pub action: ActionModel,
    pub progress: Seq<RecordModel>,
}

impl View for DownloadResult {
    type V = ResultModel;

    open spec fn view(&self) -> ResultModel {
        ResultModel {
            output_path: self.output_path@,
            title: text_model(self.title),
            duration: text_model(self.duration),
            file_size: self.file_size,
        }
    }
}

/// The models of a sequence of results.
pub open spec fn result_models(v: Seq<DownloadResult>) -> Seq<ResultModel> {
    Seq::new(v.len(), |i: int| v[i]@)
}

impl View for PlaylistDownloadResult {
    type V = PlaylistModel;

    open spec fn view(&self) -> PlaylistModel {
        PlaylistModel {
            output_folder: self.output_folder@,
            total_videos: self.total_videos as nat,
            downloaded_videos: result_models(self.downloaded_videos@),
        }
    }
}

impl View for DownloadResponse {
    type V = ResponseModel;

    open spec fn view(&self) -> ResponseModel {
        match *self {
            DownloadResponse::Single(r) => ResponseModel::Single(r@),
            DownloadResponse::Playlist(p) => ResponseModel::Playlist(p@),
        }
    }
}

impl View for DownloadError {
    type V = ErrorModel;

    open spec fn view(&self) -> ErrorModel {
        match *self {
            DownloadError::InvalidUrl => ErrorModel::InvalidUrl,
            DownloadError::Provisioning { tool, message } => ErrorModel::Provisioning {
                tool,
                message: message@,
            },
            DownloadError::ProcessSpawn { program, message } => ErrorModel::ProcessSpawn {
                program: program@,
                message: message@,
            },
            DownloadError::EmptyPlaylist { stderr } => ErrorModel::EmptyPlaylist {
                stderr: stderr@,
            },
            DownloadError::DownloadFailed { exit_code, stderr } => ErrorModel::DownloadFailed {
                exit_code,
                stderr: stderr@,
            },
            DownloadError::ArtifactMissing { path } => ErrorModel::ArtifactMissing { path: path@ },
            DownloadError::Cancelled => ErrorModel::Cancelled,
            DownloadError::UnexpectedEvent => ErrorModel::UnexpectedEvent,
        }
    }
}

impl View for FileEntry {
    type V = FileModel;

    open spec fn view(&self) -> FileModel {
        FileModel { path: self.path@, size: self.size }
    }
}

/// The models of a sequence of files.
pub open spec fn file_models(v: Seq<FileEntry>) -> Seq<FileModel> {
    Seq::new(v.len(), |i: int| v[i]@)
}

impl View for Event {
    type V = EventModel;

    open spec fn view(&self) -> EventModel {
        match *self {
            Event::Start => EventModel::Start,
            Event::ToolReady { path } => EventModel::ToolReady { path: path@ },
            Event::ToolFailed { message } => EventModel::ToolFailed { message: message@ },
            Event::Output { success, stdout, stderr } => EventModel::Output {
                success,
                stdout: stdout@,
                stderr: stderr@,
            },
            Event::SpawnFailed { message } => EventModel::SpawnFailed { message: message@ },
            Event::Stat { exists, size } => EventModel::Stat { exists, size },
            Event::Listing { files } => EventModel::Listing { files: file_models(files@) },
            Event::Line { text } => EventModel::Line { text: text@ },
            Event::Exited { success, exit_code, stderr } => EventModel::Exited {
                success,
                exit_code,
                stderr: stderr@,
            },
            Event::Cancel => EventModel::Cancel,
        }
    }
}

impl View for Action {
    type V = ActionModel;

    open spec fn view(&self) -> ActionModel {
        match *self {
            Action::Provision { tool } => ActionModel::Provision { tool },
            Action::RunOnce { program, args } => ActionModel::RunOnce {
                program: program@,
                args: texts(args@),
            },
            Action::Stat { path } => ActionModel::Stat { path: path@ },
            Action::List { directory } => ActionModel::List { directory: directory@ },
            Action::Transfer { program, args } => ActionModel::Transfer {
                program: program@,
                args: texts(args@),
            },
            Action::Read => ActionModel::Read,
            Action::Finish { response } => ActionModel::Finish { response: response@ },
            Action::Fail { error } => ActionModel::Fail { error: error@ },
        }
    }
}

impl View for Step {
    type V = StepModel;

    open spec fn view(&self) -> StepModel {
        StepModel { action: self.action@, progress: record_models(self.progress@) }
    }
}

// ---------------------------------------------------------------------------
// The orchestrator: model
// ---------------------------------------------------------------------------

/// The state of a request as mathematical values.
pub struct OrchestratorModel {
    pub url: Seq<char>,
    pub directory: Seq<char>,
    pub bitrate: nat,
    pub kind: UrlKind,
    pub stage: Stage,
    /// Where the fetcher is, once it is ready.
    pub fetcher: Seq<char>,
    /// The directory in which the fetcher is told to find the converter,
    /// if any.
    pub converter: Option<Seq<char>>,
    pub progress: ProgressModel,
    /// The URLs of the playlist's items that can be fetched.
    pub items: Seq<Seq<char>>,
    /// The number of items of the request.
    pub total: nat,
    /// The index of the current item.
    pub index: nat,
    /// The artifacts confirmed so far.
    pub results: Seq<ResultModel>,
    /// The artifacts that are accounted for.
    pub known: Seq<Seq<char>>,
    /// The current item's title, made safe as a file name.
    pub title: Option<Seq<char>>,
    pub duration: Option<Seq<char>>,
    /// Where the current item's artifact is expected.
    pub expected: Seq<char>,
    /// The number of transfers started.
    pub transfers: nat,
    /// The number of items skipped because their artifact was there.
    pub skipped: nat,
}

/// A state with the answer that it gives.
pub struct Outcome {
    pub next: OrchestratorModel,
    pub step: StepModel,
}

/// The path names a place, not a command to look up: it holds a path
/// separator.
pub open spec fn names_location(path: Seq<char>) -> bool {
    exists|i: int| 0 <= i < path.len() && is_separator(#[trigger] path[i])
}

/// The paths of the artifacts among `files`, in order.
pub open spec fn artifact_paths(files: Seq<FileModel>) -> Seq<Seq<char>>
    decreases files.len(),
{
    if files.len() == 0 {
        Seq::<Seq<char>>::empty()
    } else {
        let before = artifact_paths(files.drop_last());
        if is_artifact(files.last().path) {
            before.push(files.last().path)
        } else {
            before
        }
    }
}

/// The file is an artifact that is not accounted for.
pub open spec fn is_new_artifact(file: FileModel, known: Seq<Seq<char>>) -> bool {
    is_artifact(file.path) && !known.contains(file.path)
}

/// The position of the first file at or after `from` that is a new
/// artifact.
pub open spec fn first_new_from(files: Seq<FileModel>, known: Seq<Seq<char>>, from: int) -> Option<
    int,
>
    decreases files.len() - from,
{
    if from < 0 || from >= files.len() {
        None
    } else if is_new_artifact(files[from], known) {
        Some(from)
    } else {
        first_new_from(files, known, from + 1)
    }
}

/// The title for the file name: the reported title made safe.
pub open spec fn safe_title(info: Option<InfoModel>) -> Option<Seq<char>> {
    match info {
        Some(i) => match i.title {
            Some(t) => Some(sanitized(t)),
            None => None,
        },
        None => None,
    }
}

/// The reported duration.
pub open spec fn reported_duration(info: Option<InfoModel>) -> Option<Seq<char>> {
    match info {
        Some(i) => i.duration,
        None => None,
    }
}

/// The identifier to name a single video by when it has no title: the
/// reported one, else the one that the URL carries.
pub open spec fn fallback_id(info: Option<InfoModel>, url: Seq<char>) -> Option<Seq<char>> {
    match info {
        Some(i) => match i.id {
            Some(id) => Some(id),
            None => url_video_id(url),
        },
        None => url_video_id(url),
    }
}

/// What is fixed for an item once its metadata is in, as mathematical
/// values.
pub struct PlanModel {
    pub title: Option<Seq<char>>,
    pub duration: Option<Seq<char>>,
    pub path: Seq<char>,
}

/// What is fixed for an item once its metadata is in. Its title is the
/// reported one made safe as a file name. Its artifact lies in `directory`
/// and is named by the title; without one, by an identifier; without
/// that, a single video is named `video`, and an item of a playlist by its
/// position, counted from one. The identifier of a single video is the
/// reported one, else the one that its URL carries; that of a playlist's
/// item is the one that its URL carries. The duration is kept for a single
/// video only.
pub open spec fn planned(
    directory: Seq<char>,
    info: Option<InfoModel>,
    kind: UrlKind,
    url: Seq<char>,
    position: nat,
) -> PlanModel {
    PlanModel {
        title: safe_title(info),
        duration: match kind {
            UrlKind::Single => reported_duration(info),
            UrlKind::Playlist => None,
        },
        path: match kind {
            UrlKind::Single => artifact_path(
                directory,
                safe_title(info),
                fallback_id(info, url),
                None,
            ),
            UrlKind::Playlist => artifact_path(
                directory,
                safe_title(info),
                url_video_id(url),
                Some(position),
            ),
        },
    }
}

impl OrchestratorModel {
    /// The state of a request that has not begun.
    pub open spec fn initial(url: Seq<char>, directory: Seq<char>, bitrate: nat, kind: UrlKind)
        -> OrchestratorModel {
        OrchestratorModel {
            url,
            directory,
            bitrate,
            kind,
            stage: Stage::Created,
            fetcher: Seq::<char>::empty(),
            converter: None,
            progress: ProgressModel::initial(1),
            items: Seq::<Seq<char>>::empty(),
            total: 1,
            index: 0,
            results: Seq::<ResultModel>::empty(),
            known: Seq::<Seq<char>>::empty(),
            title: None,
            duration: None,
            expected: Seq::<char>::empty(),
            transfers: 0,
            skipped: 0,
        }
    }

    /// An item is in work.
    pub open spec fn item_in_work(self) -> bool {
        self.stage == Stage::ItemMetadata || self.stage == Stage::SkipCheck || self.stage
            == Stage::Transferring || self.stage == Stage::Collecting
    }

    /// No item has been taken up yet.
    pub open spec fn before_items(self) -> bool {
        self.stage == Stage::Created || self.stage == Stage::ProvisioningFetcher || self.stage
            == Stage::ProvisioningConverter || self.stage == Stage::Enumerating || self.stage
            == Stage::Snapshot
    }

    /// The current item has been decided on, and its transfer was started.
    pub open spec fn in_transfer(self) -> bool {
        self.stage == Stage::Transferring || self.stage == Stage::Collecting || self.stage
            == Stage::Confirming
    }

    /// The number of items to work on: one for a single video, and for a
    /// playlist the number of its items that can be fetched.
    pub open spec fn item_count(self) -> nat {
        match self.kind {
            UrlKind::Single => 1,
            UrlKind::Playlist => self.items.len(),
        }
    }

    /// The counters fit the stage. Every item before the current one was
    /// either skipped or transferred, and the current one too once its
    /// transfer has started; each item gave at most one artifact; a
    /// request that is done has gone through all its items; and every
    /// artifact, expected or confirmed, is an MP3 file by its name.
    pub open spec fn valid(self) -> bool {
        &&& self.progress.valid()
        &&& self.items.len() <= self.total
        &&& self.index <= self.item_count()
        &&& self.results.len() <= self.index
        &&& self.stage != Stage::Failed ==> self.transfers + self.skipped == self.index
            + if self.in_transfer() {
            1nat
        } else {
            0nat
        }
        &&& self.index <= self.transfers + self.skipped <= self.index + 1
        &&& self.stage == Stage::Done ==> self.index == self.item_count()
        &&& self.before_items() ==> self.index == 0
        &&& (self.stage == Stage::SkipCheck || self.in_transfer()) ==> ends_with(
            self.expected,
            ".mp3"@,
        )
        &&& forall|i: int|
            0 <= i < self.results.len() ==> ends_with(
                (#[trigger] self.results[i]).output_path,
                ".mp3"@,
            )
        &&& (self.item_in_work() || self.stage == Stage::MetadataQuery || self.stage
            == Stage::Confirming) ==> self.index < self.item_count()
        &&& match self.kind {
            UrlKind::Single => {
                &&& self.items.len() == 0
                &&& self.stage != Stage::Enumerating
                &&& self.stage != Stage::Snapshot
                &&& self.stage != Stage::ItemMetadata
                &&& self.stage != Stage::Collecting
            },
            UrlKind::Playlist => {
                &&& self.stage != Stage::MetadataQuery
                &&& self.stage != Stage::Confirming
            },
        }
    }

    /// The current item's URL.
    pub open spec fn item_url(self) -> Seq<char> {
        match self.kind {
            UrlKind::Single => self.url,
            UrlKind::Playlist => self.items[self.index as int],
        }
    }

    /// The request fails with `error`.
    pub open spec fn failed(self, error: ErrorModel) -> Outcome {
        Outcome {
            next: OrchestratorModel { stage: Stage::Failed, ..self },
            step: StepModel {
                action: ActionModel::Fail { error },
                progress: Seq::<RecordModel>::empty(),
            },
        }
    }

    /// The playlist is done: everything is complete, whatever came before.
    pub open spec fn completed(self, sofar: Seq<RecordModel>) -> Outcome {
        Outcome {
            next: OrchestratorModel {
                stage: Stage::Done,
                index: self.items.len(),
                progress: self.progress.finished(),
                ..self
            },
            step: StepModel {
                action: ActionModel::Finish {
                    response: ResponseModel::Playlist(
                        PlaylistModel {
                            output_folder: self.directory,
                            total_videos: self.total,
                            downloaded_videos: self.results,
                        },
                    ),
                },
                progress: sofar.push(self.progress.final_record()),
            },
        }
    }

    /// Work on item `i` of the playlist begins with a query for its
    /// metadata; if there is no such item, the playlist is done.
    pub open spec fn begun_at(self, i: nat, sofar: Seq<RecordModel>) -> Outcome {
        if i < self.items.len() {
            let progress = self.progress.begun(i);
            Outcome {
                next: OrchestratorModel {
                    stage: Stage::ItemMetadata,
                    index: i,
                    progress,
                    title: None,
                    duration: None,
                    expected: Seq::<char>::empty(),
                    ..self
                },
                step: StepModel {
                    action: ActionModel::RunOnce {
                        program: self.fetcher,
                        args: metadata_args(self.items[i as int]),
                    },
                    progress: sofar.push(progress.record()),
                },
            }
        } else {
            self.completed(sofar)
        }
    }

    /// The metadata of the current item is in: the place of its artifact
    /// is fixed and looked at.
    pub open spec fn with_metadata(self, info: Option<InfoModel>) -> Outcome {
        let plan = planned(self.directory, info, self.kind, self.item_url(), self.index + 1);
        let progress = match plan.title {
            Some(t) => self.progress.titled(t),
            None => self.progress,
        };
        Outcome {
            next: OrchestratorModel {
                stage: Stage::SkipCheck,
                progress,
                title: plan.title,
                duration: plan.duration,
                expected: plan.path,
                ..self
            },
            step: StepModel {
                action: ActionModel::Stat { path: plan.path },
                progress: match plan.title {
                    Some(t) => seq![progress.record()],
                    None => Seq::<RecordModel>::empty(),
                },
            },
        }
    }

    /// The result for the current item's expected artifact.
    pub open spec fn expected_result(self, size: Option<u64>) -> ResultModel {
        ResultModel {
            output_path: self.expected,
            title: self.title,
            duration: self.duration,
            file_size: size,
        }
    }

    /// The current item's artifact is there already: no transfer is
    /// started for it.
    pub open spec fn skipped_item(self, size: Option<u64>) -> Outcome {
        let progress = self.progress.closed(Phase::Skipped);
        let result = self.expected_result(size);
        let after = OrchestratorModel {
            progress,
            results: self.results.push(result),
            skipped: self.skipped + 1,
            ..self
        };
        match self.kind {
            UrlKind::Single => Outcome {
                next: OrchestratorModel { stage: Stage::Done, index: self.index + 1, ..after },
                step: StepModel {
                    action: ActionModel::Finish { response: ResponseModel::Single(result) },
                    progress: seq![progress.record()],
                },
            },
            UrlKind::Playlist => after.begun_at(self.index + 1, seq![progress.record()]),
        }
    }

    /// The transfer of the current item is started.
    pub open spec fn transfer_started(self) -> Outcome {
        Outcome {
            next: OrchestratorModel {
                stage: Stage::Transferring,
                transfers: self.transfers + 1,
                ..self
            },
            step: StepModel {
                action: ActionModel::Transfer {
                    program: self.fetcher,
                    args: transfer_args(
                        self.bitrate,
                        self.directory,
                        self.item_url(),
                        self.converter,
                    ),
                },
                progress: Seq::<RecordModel>::empty(),
            },
        }
    }

    /// The transfer of the current item has ended well: its artifact is
    /// looked for.
    pub open spec fn transfer_succeeded(self) -> Outcome {
        let progress = self.progress.closed(Phase::Complete);
        Outcome {
            next: OrchestratorModel {
                stage: match self.kind {
                    UrlKind::Single => Stage::Confirming,
                    UrlKind::Playlist => Stage::Collecting,
                },
                progress,
                ..self
            },
            step: StepModel {
                action: match self.kind {
                    UrlKind::Single => ActionModel::Stat { path: self.expected },
                    UrlKind::Playlist => ActionModel::List { directory: self.directory },
                },
                progress: seq![progress.record()],
            },
        }
    }

    /// The transfer of the current item has failed: that ends a request
    /// for one video, and leaves out one item of a playlist.
    pub open spec fn transfer_failed(self, exit_code: Option<i32>, stderr: Seq<char>) -> Outcome {
        match self.kind {
            UrlKind::Single => self.failed(ErrorModel::DownloadFailed { exit_code, stderr }),
            UrlKind::Playlist => self.begun_at(self.index + 1, Seq::<RecordModel>::empty()),
        }
    }

    /// The output directory has been listed after a transfer: the first
    /// artifact in it that is not accounted for is the item's.
    pub open spec fn collected(self, files: Seq<FileModel>) -> Outcome {
        let after = match first_new_from(files, self.known, 0) {
            Some(k) => OrchestratorModel {
                results: self.results.push(
                    ResultModel {
                        output_path: files[k].path,
                        title: Some(file_stem(files[k].path)),
                        duration: None,
                        file_size: Some(files[k].size),
                    },
                ),
                known: self.known.push(files[k].path),
                ..self
            },
            None => self,
        };
        after.begun_at(self.index + 1, Seq::<RecordModel>::empty())
    }

    /// The playlist has been listed. What counts is what the listing
    /// holds, whatever the fetcher reported of its own success.
    pub open spec fn enumerated(self, stdout: Seq<u8>, stderr: Seq<char>) -> Outcome {
        let lines = lines_of(stdout);
        if listed_total(lines) == 0 {
            self.failed(ErrorModel::EmptyPlaylist { stderr })
        } else {
            Outcome {
                next: OrchestratorModel {
                    stage: Stage::Snapshot,
                    items: listed_urls(lines),
                    total: listed_total(lines),
                    progress: ProgressModel::initial(listed_total(lines)),
                    ..self
                },
                step: StepModel {
                    action: ActionModel::List { directory: self.directory },
                    progress: Seq::<RecordModel>::empty(),
                },
            }
        }
    }

    /// The request is still under way.
    pub open spec fn under_way(self) -> bool {
        self.stage != Stage::Done && self.stage != Stage::Failed
    }

    /// The state and the answer after `event`. Cancelling fails a request
    /// that is under way, whatever it was waiting for.
    pub open spec fn step(self, event: EventModel) -> Outcome {
        if event is Cancel {
            if self.under_way() {
                self.failed(ErrorModel::Cancelled)
            } else {
                self.failed(ErrorModel::UnexpectedEvent)
            }
        } else {
            self.answered(event)
        }
    }

    /// The state and the answer after an event other than cancelling.
    pub open spec fn answered(self, event: EventModel) -> Outcome {
        match (self.stage, event) {
            (Stage::Created, EventModel::Start) => Outcome {
                next: OrchestratorModel { stage: Stage::ProvisioningFetcher, ..self },
                step: StepModel {
                    action: ActionModel::Provision { tool: ToolName::Fetcher },
                    progress: Seq::<RecordModel>::empty(),
                },
            },
            (Stage::ProvisioningFetcher, EventModel::ToolReady { path }) => Outcome {
                next: OrchestratorModel {
                    stage: Stage::ProvisioningConverter,
                    fetcher: path,
                    ..self
                },
                step: StepModel {
                    action: ActionModel::Provision { tool: ToolName::Converter },
                    progress: Seq::<RecordModel>::empty(),
                },
            },
            (Stage::ProvisioningFetcher, EventModel::ToolFailed { message }) => self.failed(
                ErrorModel::Provisioning { tool: ToolName::Fetcher, message },
            ),
            (Stage::ProvisioningConverter, EventModel::ToolReady { path }) => Outcome {
                next: OrchestratorModel {
                    stage: match self.kind {
                        UrlKind::Single => Stage::MetadataQuery,
                        UrlKind::Playlist => Stage::Enumerating,
                    },
                    converter: if names_location(path) {
                        Some(parent_dir(path))
                    } else {
                        None
                    },
                    ..self
                },
                step: StepModel {
                    action: ActionModel::RunOnce {
                        program: self.fetcher,
                        args: match self.kind {
                            UrlKind::Single => metadata_args(self.url),
                            UrlKind::Playlist => listing_args(self.url),
                        },
                    },
                    progress: Seq::<RecordModel>::empty(),
                },
            },
            (Stage::ProvisioningConverter, EventModel::ToolFailed { message }) => self.failed(
                ErrorModel::Provisioning { tool: ToolName::Converter, message },
            ),
            (Stage::MetadataQuery, EventModel::Output { success, stdout, stderr }) => if success {
                self.with_metadata(info_in(stdout))
            } else {
                self.with_metadata(None)
            },
            (Stage::MetadataQuery, EventModel::SpawnFailed { message }) => self.failed(
                ErrorModel::ProcessSpawn { program: self.fetcher, message },
            ),
            (Stage::Enumerating, EventModel::Output { success, stdout, stderr }) =>
                self.enumerated(stdout, stderr),
            (Stage::Enumerating, EventModel::SpawnFailed { message }) => self.failed(
                ErrorModel::ProcessSpawn { program: self.fetcher, message },
            ),
            (Stage::Snapshot, EventModel::Listing { files }) => (OrchestratorModel {
                known: artifact_paths(files),
                ..self
            }).begun_at(0, Seq::<RecordModel>::empty()),
            (Stage::ItemMetadata, EventModel::Output { success, stdout, stderr }) => if success {
                self.with_metadata(info_in(stdout))
            } else {
                self.with_metadata(None)
            },
            (Stage::ItemMetadata, EventModel::SpawnFailed { message }) => self.with_metadata(None),
            (Stage::SkipCheck, EventModel::Stat { exists, size }) => if exists {
                self.skipped_item(size)
            } else {
                self.transfer_started()
            },
            (Stage::Transferring, EventModel::Line { text }) => Outcome {
                next: OrchestratorModel { progress: self.progress.advance(text), ..self },
                step: StepModel {
                    action: ActionModel::Read,
                    progress: self.progress.emitted(text),
                },
            },
            (Stage::Transferring, EventModel::Exited { success, exit_code, stderr }) => if success {
                self.transfer_succeeded()
            } else {
                self.transfer_failed(exit_code, stderr)
            },
            (Stage::Transferring, EventModel::SpawnFailed { message }) => self.failed(
                ErrorModel::ProcessSpawn { program: self.fetcher, message },
            ),
            (Stage::Confirming, EventModel::Stat { exists, size }) => if exists {
                let result = self.expected_result(size);
                Outcome {
                    next: OrchestratorModel {
                        stage: Stage::Done,
                        index: self.index + 1,
                        results: self.results.push(result),
                        progress: self.progress.finished(),
                        ..self
                    },
                    step: StepModel {
                        action: ActionModel::Finish { response: ResponseModel::Single(result) },
                        progress: seq![self.progress.final_record()],
                    },
                }
            } else {
                self.failed(ErrorModel::ArtifactMissing { path: self.expected })
            },
            (Stage::Collecting, EventModel::Listing { files }) => self.collected(files),
            _ => self.failed(ErrorModel::UnexpectedEvent),
        }
    }
}

// ---------------------------------------------------------------------------
// The orchestrator: laws
// ---------------------------------------------------------------------------

/// The first new artifact, where there is one, is one of the files and is
/// an artifact.
pub proof fn lemma_first_new(files: Seq<FileModel>, known: Seq<Seq<char>>, from: int)
    requires
        0 <= from,
    ensures
        first_new_from(files, known, from) matches Some(k) ==> from <= k < files.len()
            && is_new_artifact(files[k], known),
    decreases files.len() - from,
{
    if from < files.len() && !is_new_artifact(files[from], known) {
        lemma_first_new(files, known, from + 1);
    }
}

/// A request that has not begun is in a valid state.
pub proof fn lemma_initial_valid(
    url: Seq<char>,
    directory: Seq<char>,
    bitrate: nat,
    kind: UrlKind,
)
    ensures
        OrchestratorModel::initial(url, directory, bitrate, kind).valid(),
{
}

/// Every step leaves a valid state valid, and never changes what was
/// asked for. The number of items and their URLs are fixed when the
/// playlist is listed.
pub proof fn lemma_step_valid(m: OrchestratorModel, event: EventModel)
    requires
        m.valid(),
    ensures
        m.step(event).next.valid(),
        m.step(event).next.kind == m.kind,
        m.step(event).next.url == m.url,
        m.step(event).next.directory == m.directory,
        m.step(event).next.bitrate == m.bitrate,
        m.stage != Stage::Enumerating ==> m.step(event).next.total == m.total
            && m.step(event).next.items == m.items,
{
    let next = m.step(event).next;
    assert forall|i: int| 0 <= i < next.results.len() implies ends_with(
        (#[trigger] next.results[i]).output_path,
        ".mp3"@,
    ) by {
        if i < m.results.len() {
            assert(next.results[i] == m.results[i]);
        } else {
            match (m.stage, event) {
                (Stage::Collecting, EventModel::Listing { files }) => {
                    lemma_first_new(files, m.known, 0);
                    let k = first_new_from(files, m.known, 0).unwrap();
                    lemma_artifact_is_mp3(files[k].path);
                },
                _ => {},
            }
        }
    }
    match (m.stage, event) {
        (Stage::MetadataQuery, EventModel::Output { success, stdout, stderr }) => {
            let info = if success {
                info_in(stdout)
            } else {
                None
            };
            lemma_artifact_path_is_mp3(
                m.directory,
                safe_title(info),
                fallback_id(info, m.url),
                None,
            );
        },
        (Stage::ItemMetadata, EventModel::Output { success, stdout, stderr }) => {
            let info = if success {
                info_in(stdout)
            } else {
                None
            };
            lemma_artifact_path_is_mp3(
                m.directory,
                safe_title(info),
                url_video_id(m.item_url()),
                Some(m.index + 1),
            );
        },
        (Stage::ItemMetadata, EventModel::SpawnFailed { message }) => {
            lemma_artifact_path_is_mp3(
                m.directory,
                None,
                url_video_id(m.item_url()),
                Some(m.index + 1),
            );
        },
        (Stage::Enumerating, EventModel::Output { success, stdout, stderr }) => {
            lemma_listed_urls_bounded(lines_of(stdout));
        },
        (Stage::Transferring, EventModel::Line { text }) => {
            lemma_valid_preserved(m.progress, signal_of(text), title_in(text));
            lemma_valid_preserved(
                m.progress.after_signal(signal_of(text)),
                signal_of(text),
                title_in(text),
            );
        },
        _ => {},
    }
}

/// Cancelling ends a request that is under way: it fails, no progress
/// record goes out with that answer or any later one, and the artifacts
/// confirmed so far stay.
pub proof fn lemma_cancel_is_final(m: OrchestratorModel, later: EventModel)
    requires
        m.under_way(),
    ensures
        ({
            let cancelled = m.step(EventModel::Cancel);
            &&& cancelled.step.action == (ActionModel::Fail { error: ErrorModel::Cancelled })
            &&& cancelled.step.progress.len() == 0
            &&& cancelled.next.stage == Stage::Failed
            &&& cancelled.next.results == m.results
            &&& cancelled.next.step(later).step.action is Fail
            &&& cancelled.next.step(later).step.progress.len() == 0
            &&& cancelled.next.step(later).next.results == m.results
        }),
{
}

/// A transfer is started exactly when the skip check finds no artifact,
/// and each start is counted once.
pub proof fn lemma_transfer_counted(m: OrchestratorModel, event: EventModel)
    requires
        m.valid(),
    ensures
        m.step(event).step.action is Transfer <==> m.stage == Stage::SkipCheck
            && event matches EventModel::Stat { exists: false, .. },
        m.step(event).next.transfers == m.transfers + if m.step(event).step.action is Transfer {
            1nat
        } else {
            0nat
        },
{
}

/// An item is counted as skipped exactly when the skip check finds its
/// artifact.
pub proof fn lemma_skip_counted(m: OrchestratorModel, event: EventModel)
    requires
        m.valid(),
    ensures
        m.step(event).next.skipped == m.skipped + if m.stage == Stage::SkipCheck
            && event matches EventModel::Stat { exists: true, .. } {
            1nat
        } else {
            0nat
        },
{
}

/// The state after a run of events.
pub open spec fn state_after(m: OrchestratorModel, events: Seq<EventModel>) -> OrchestratorModel
    decreases events.len(),
{
    if events.len() == 0 {
        m
    } else {
        state_after(m, events.drop_last()).step(events.last()).next
    }
}

/// The number of transfers that are started in a run of events.
pub open spec fn transfer_attempts(m: OrchestratorModel, events: Seq<EventModel>) -> nat
    decreases events.len(),
{
    if events.len() == 0 {
        0
    } else {
        transfer_attempts(m, events.drop_last()) + if state_after(m, events.drop_last()).step(
            events.last(),
        ).step.action is Transfer {
            1nat
        } else {
            0nat
        }
    }
}

/// The number of items whose artifact the skip check finds in a run of
/// events.
pub open spec fn artifacts_found(m: OrchestratorModel, events: Seq<EventModel>) -> nat
    decreases events.len(),
{
    if events.len() == 0 {
        0
    } else {
        artifacts_found(m, events.drop_last()) + if state_after(m, events.drop_last()).stage
            == Stage::SkipCheck && events.last() matches EventModel::Stat { exists: true, .. } {
            1nat
        } else {
            0nat
        }
    }
}

/// Over a run of events the state stays valid, and its counters grow by
/// the transfers started and the artifacts found.
pub proof fn lemma_run_counted(m: OrchestratorModel, events: Seq<EventModel>)
    requires
        m.valid(),
    ensures
        state_after(m, events).valid(),
        state_after(m, events).kind == m.kind,
        state_after(m, events).transfers == m.transfers + transfer_attempts(m, events),
        state_after(m, events).skipped == m.skipped + artifacts_found(m, events),
    decreases events.len(),
{
    if events.len() > 0 {
        lemma_run_counted(m, events.drop_last());
        let before = state_after(m, events.drop_last());
        lemma_step_valid(before, events.last());
        lemma_transfer_counted(before, events.last());
        lemma_skip_counted(before, events.last());
    }
}

/// Re-running a request skips what is there: when a request is done, the
/// number of transfers that were started is the number of its items less
/// the number of items whose artifact was found in place. For a playlist
/// of M items that can be fetched, N of them present, that is M - N.
pub proof fn lemma_skip_idempotence(
    url: Seq<char>,
    directory: Seq<char>,
    bitrate: nat,
    kind: UrlKind,
    events: Seq<EventModel>,
)
    requires
        state_after(OrchestratorModel::initial(url, directory, bitrate, kind), events).stage
            == Stage::Done,
    ensures
        ({
            let start = OrchestratorModel::initial(url, directory, bitrate, kind);
            let end = state_after(start, events);
            &&& artifacts_found(start, events) <= end.item_count()
            &&& transfer_attempts(start, events) == end.item_count() - artifacts_found(
                start,
                events,
            )
        }),
{
    let start = OrchestratorModel::initial(url, directory, bitrate, kind);
    lemma_initial_valid(url, directory, bitrate, kind);
    lemma_run_counted(start, events);
}

/// Every artifact that a request reports is an MP3 file by its name:
/// the result of a single video, and each result of a playlist.
pub proof fn lemma_results_are_mp3(m: OrchestratorModel, event: EventModel)
    requires
        m.valid(),
    ensures
        match m.step(event).step.action {
            ActionModel::Finish { response: ResponseModel::Single(result) } => ends_with(
                result.output_path,
                ".mp3"@,
            ),
            ActionModel::Finish { response: ResponseModel::Playlist(playlist) } => forall|i: int|
                0 <= i < playlist.downloaded_videos.len() ==> ends_with(
                    (#[trigger] playlist.downloaded_videos[i]).output_path,
                    ".mp3"@,
                ),
            _ => true,
        },
{
    lemma_step_valid(m, event);
    let next = m.step(event).next;
    match m.step(event).step.action {
        ActionModel::Finish { response: ResponseModel::Single(result) } => {
            assert(next.results.len() > 0);
            assert(next.results.last() == result);
        },
        ActionModel::Finish { response: ResponseModel::Playlist(playlist) } => {
            assert(playlist.downloaded_videos == next.results);
        },
        _ => {},
    }
}

/// A playlist's result never holds more artifacts than the playlist has
/// items.
pub proof fn lemma_results_bounded(m: OrchestratorModel)
    requires
        m.valid(),
        m.kind == UrlKind::Playlist,
    ensures
        m.results.len() <= m.total,
{
}

// ---------------------------------------------------------------------------
// Error messages
// ---------------------------------------------------------------------------

/// The words for a tool that could not be made ready: what went wrong, how
/// to install the tool by hand, and where to find it.
pub open spec fn setup_message(tool: ToolName, message: Seq<char>, platform: Platform) -> Seq<
    char,
> {
    match tool {
        ToolName::Fetcher => "Failed to setup yt-dlp: "@ + message
            + "\n\nPlease install yt-dlp manually:\n"@ + installation_instructions(platform)
            + "\n\nOr visit: https://github.com/yt-dlp/yt-dlp"@,
        ToolName::Converter => "Failed to setup FFmpeg: "@ + message
            + "\n\nPlease install FFmpeg manually:\n"@ + installation_instructions(platform)
            + "\n\nOr visit: https://ffmpeg.org/download.html"@,
    }
}

/// The words for a transfer that failed: the exit code where the tool
/// gave one, and what the tool wrote.
pub open spec fn transfer_message(exit_code: Option<i32>, stderr: Seq<char>) -> Seq<char> {
    match exit_code {
        Some(code) => "Download failed (exit code "@ + signed_decimal(code as int) + "): "@
            + stderr,
        None => "Download failed: "@ + stderr,
    }
}

/// The words in which an error is told to the user.
pub open spec fn error_message(error: ErrorModel, platform: Platform) -> Seq<char> {
    match error {
        ErrorModel::InvalidUrl => "Invalid YouTube URL. Please provide a valid YouTube video URL."@,
        ErrorModel::Provisioning { tool, message } => setup_message(tool, message, platform),
        ErrorModel::ProcessSpawn { program, message } => "Failed to run "@ + program + ": "@
            + message,
        ErrorModel::EmptyPlaylist { stderr } => if stderr.len() == 0 {
            "Playlist appears to be empty or could not be accessed."@
        } else {
            "Playlist appears to be empty or could not be accessed.\n\n"@ + stderr
        },
        ErrorModel::DownloadFailed { exit_code, stderr } => transfer_message(exit_code, stderr),
        ErrorModel::ArtifactMissing { path } => "Download finished but no file was found at "@
            + path,
        ErrorModel::Cancelled => "The download was cancelled."@,
        ErrorModel::UnexpectedEvent => "The download was driven out of order."@,
    }
}

impl DownloadError {
    /// The words in which the error is told to the user on `platform`.
    pub fn message(&self, platform: Platform) -> (r: String)
        ensures
            r@ == error_message(self@, platform),
    {
        match self {
            DownloadError::InvalidUrl => owned(
                "Invalid YouTube URL. Please provide a valid YouTube video URL.",
            ),
            DownloadError::Provisioning { tool, message } => {
                let instructions = get_installation_instructions(platform);
                match tool {
                    ToolName::Fetcher => {
                        let mut v = chars_of("Failed to setup yt-dlp: ");
                        append_str(&mut v, message.as_str());
                        append_str(&mut v, "\n\nPlease install yt-dlp manually:\n");
                        append_str(&mut v, instructions.as_str());
                        append_str(&mut v, "\n\nOr visit: https://github.com/yt-dlp/yt-dlp");
                        assert(v@ =~= setup_message(*tool, message@, platform));
                        string_of(&v)
                    },
                    ToolName::Converter => {
                        let mut v = chars_of("Failed to setup FFmpeg: ");
                        append_str(&mut v, message.as_str());
                        append_str(&mut v, "\n\nPlease install FFmpeg manually:\n");
                        append_str(&mut v, instructions.as_str());
                        append_str(&mut v, "\n\nOr visit: https://ffmpeg.org/download.html");
                        assert(v@ =~= setup_message(*tool, message@, platform));
                        string_of(&v)
                    },
                }
            },
            DownloadError::ProcessSpawn { program, message } => {
                let mut v = chars_of("Failed to run ");
                append_str(&mut v, program.as_str());
                append_str(&mut v, ": ");
                append_str(&mut v, message.as_str());
                assert(v@ =~= error_message(self@, platform));
                string_of(&v)
            },
            DownloadError::EmptyPlaylist { stderr } => {
                if stderr.as_str().is_empty() {
                    owned("Playlist appears to be empty or could not be accessed.")
                } else {
                    let mut v = chars_of(
                        "Playlist appears to be empty or could not be accessed.\n\n",
                    );
                    append_str(&mut v, stderr.as_str());
                    string_of(&v)
                }
            },
            DownloadError::DownloadFailed { exit_code, stderr } => {
                let mut v: Vec<char> = Vec::new();
                match exit_code {
                    Some(code) => {
                        append_str(&mut v, "Download failed (exit code ");
                        let digits = signed_decimal_of(*code);
                        append_chars(&mut v, &digits);
                        append_str(&mut v, "): ");
                    },
                    None => {
                        append_str(&mut v, "Download failed: ");
                    },
                }
                append_str(&mut v, stderr.as_str());
                assert(v@ =~= transfer_message(*exit_code, stderr@));
                string_of(&v)
            },
            DownloadError::ArtifactMissing { path } => {
                let mut v = chars_of("Download finished but no file was found at ");
                append_str(&mut v, path.as_str());
                string_of(&v)
            },
            DownloadError::Cancelled => owned("The download was cancelled."),
            DownloadError::UnexpectedEvent => owned("The download was driven out of order."),
        }
    }
}

// ---------------------------------------------------------------------------
// The orchestrator: code
// ---------------------------------------------------------------------------

/// What is fixed for an item once its metadata is in.
#[derive(Clone, Debug, PartialEq, Eq)]
pub struct ArtifactPlan {
    /// The title, made safe as a file name.
    pub title: Option<String>,
    pub duration: Option<String>,
    /// Where the artifact is expected.
    pub path: String,
}

impl View for ArtifactPlan {
    type V = PlanModel;

    open spec fn view(&self) -> PlanModel {
        PlanModel {
            title: text_model(self.title),
            duration: text_model(self.duration),
            path: self.path@,
        }
    }
}

/// Fixes the title, the duration and the place of the artifact of the item
/// at `url`, from the metadata that the fetcher reported, if it reported
/// any. `position` is the item's position in its playlist, counted from
/// one.
pub fn plan_artifact(
    directory: &str,
    info: Option<VideoInfo>,
    kind: UrlKind,
    url: &str,
    position: usize,
) -> (plan: ArtifactPlan)
    ensures
        plan@ == planned(directory@, info_model(info), kind, url@, position as nat),
{
    let mut title: Option<String> = None;
    let mut duration: Option<String> = None;
    let mut id: Option<Vec<char>> = None;
    match info {
        Some(i) => {
            match i.title {
                Some(t) => {
                    title = Some(sanitize_filename(t.as_str()));
                },
                None => {},
            }
            duration = i.duration;
            match i.id {
                Some(x) => {
                    id = Some(chars_of(x.as_str()));
                },
                None => {},
            }
        },
        None => {},
    }
    let path = match kind {
        UrlKind::Single => {
            if id.is_none() {
                id = video_id_of(&chars_of(url));
            }
            artifact_path_of(directory, &title, &id, None)
        },
        UrlKind::Playlist => {
            duration = None;
            let from_url = video_id_of(&chars_of(url));
            artifact_path_of(directory, &title, &from_url, Some(position))
        },
    };
    ArtifactPlan { title, duration, path }
}

/// A copy of a result.
fn copy_result(r: &DownloadResult) -> (c: DownloadResult)
    ensures
        c@ == r@,
{
    DownloadResult {
        output_path: r.output_path.clone(),
        title: copy_text(&r.title),
        duration: copy_text(&r.duration),
        file_size: r.file_size,
    }
}

/// A copy of a sequence of results.
fn copy_results(v: &Vec<DownloadResult>) -> (c: Vec<DownloadResult>)
    ensures
        result_models(c@) == result_models(v@),
{
    let mut c: Vec<DownloadResult> = Vec::new();
    let mut i: usize = 0;
    while i < v.len()
        invariant
            i <= v.len(),
            c@.len() == i,
            forall|j: int| 0 <= j < i ==> c@[j]@ == v@[j]@,
        decreases v.len() - i,
    {
        c.push(copy_result(&v[i]));
        i = i + 1;
    }
    assert(result_models(c@) =~= result_models(v@));
    c
}

/// Whether `path` holds a path separator.
fn holds_separator(path: &str) -> (b: bool)
    ensures
        b == names_location(path@),
{
    let v = chars_of(path);
    let mut i: usize = 0;
    while i < v.len()
        invariant
            i <= v.len(),
            v@ == path@,
            forall|j: int| 0 <= j < i ==> !is_separator(#[trigger] v@[j]),
        decreases v.len() - i,
    {
        if v[i] == '/' || v[i] == '\\' {
            return true;
        }
        i = i + 1;
    }
    false
}

/// Whether `path` is among `known`.
fn is_known(known: &Vec<String>, path: &String) -> (b: bool)
    ensures
        b == texts(known@).contains(path@),
{
    let mut i: usize = 0;
    while i < known.len()
        invariant
            i <= known.len(),
            forall|j: int| 0 <= j < i ==> texts(known@)[j] != path@,
        decreases known.len() - i,
    {
        if known[i] == *path {
            assert(texts(known@)[i as int] == path@);
            return true;
        }
        i = i + 1;
    }
    false
}

/// The paths of the artifacts among `files`, in order.
fn artifact_paths_of(files: &Vec<FileEntry>) -> (r: Vec<String>)
    ensures
        texts(r@) == artifact_paths(file_models(files@)),
{
    let mut r: Vec<String> = Vec::new();
    let mut i: usize = 0;
    assert(file_models(files@).subrange(0, 0) =~= Seq::<FileModel>::empty());
    assert(texts(r@) =~= Seq::<Seq<char>>::empty());
    while i < files.len()
        invariant
            i <= files.len(),
            texts(r@) == artifact_paths(file_models(files@).subrange(0, i as int)),
        decreases files.len() - i,
    {
        let ghost before = file_models(files@).subrange(0, i as int);
        let ghost next = file_models(files@).subrange(0, i + 1);
        let ghost old_r = texts(r@);
        proof {
            assert(next.drop_last() =~= before);
            assert(next.last() == files@[i as int]@);
        }
        let v = chars_of(files[i].path.as_str());
        if names_artifact(&v) {
            r.push(files[i].path.clone());
            assert(texts(r@) =~= old_r.push(files@[i as int].path@));
        }
        i = i + 1;
    }
    assert(file_models(files@).subrange(0, files@.len() as int) =~= file_models(files@));
    r
}

/// The position of the first file that is an artifact not among `known`.
fn find_new_artifact(files: &Vec<FileEntry>, known: &Vec<String>) -> (r: Option<usize>)
    ensures
        match r {
            Some(k) => first_new_from(file_models(files@), texts(known@), 0) == Some(k as int)
                && k < files.len() && is_artifact(files@[k as int].path@),
            None => first_new_from(file_models(files@), texts(known@), 0) is None,
        },
{
    let mut i: usize = 0;
    while i < files.len()
        invariant
            i <= files.len(),
            first_new_from(file_models(files@), texts(known@), 0) == first_new_from(
                file_models(files@),
                texts(known@),
                i as int,
            ),
        decreases files.len() - i,
    {
        let v = chars_of(files[i].path.as_str());
        if names_artifact(&v) && !is_known(known, &files[i].path) {
            return Some(i);
        }
        i = i + 1;
    }
    None
}

/// The state of a request, without its invariant.
struct Machine {
    url: String,
    directory: String,
    bitrate: u32,
    kind: UrlKind,
    stage: Stage,
    fetcher: String,
    converter: Option<String>,
    progress: ProgressState,
    items: Vec<String>,
    total: usize,
    index: usize,
    results: Vec<DownloadResult>,
    known: Vec<String>,
    title: Option<String>,
    duration: Option<String>,
    expected: String,
    transfers: usize,
    skipped: usize,
}

impl View for Machine {
    type V = OrchestratorModel;

    closed spec fn view(&self) -> OrchestratorModel {
        OrchestratorModel {
            url: self.url@,
            directory: self.directory@,
            bitrate: self.bitrate as nat,
            kind: self.kind,
            stage: self.stage,
            fetcher: self.fetcher@,
            converter: text_model(self.converter),
            progress: self.progress@,
            items: texts(self.items@),
            total: self.total as nat,
            index: self.index as nat,
            results: result_models(self.results@),
            known: texts(self.known@),
            title: text_model(self.title),
            duration: text_model(self.duration),
            expected: self.expected@,
            transfers: self.transfers as nat,
            skipped: self.skipped as nat,
        }
    }
}

/// No records.
fn no_records() -> (v: Vec<DownloadProgress>)
    ensures
        record_models(v@) == Seq::<RecordModel>::empty(),
{
    let v: Vec<DownloadProgress> = Vec::new();
    assert(record_models(v@) =~= Seq::<RecordModel>::empty());
    v
}

/// `sofar` with `record` behind it.
fn with_record(sofar: Vec<DownloadProgress>, record: DownloadProgress) -> (v: Vec<
    DownloadProgress,
>)
    ensures
        record_models(v@) == record_models(sofar@).push(record@),
{
    let mut v = sofar;
    v.push(record);
    assert(record_models(v@) =~= record_models(sofar@).push(record@));
    v
}

impl Machine {
    fn fail(&mut self, error: DownloadError) -> (s: Step)
        ensures
            final(self)@ == old(self)@.failed(error@).next,
            s@ == old(self)@.failed(error@).step,
    {
        self.stage = Stage::Failed;
        Step { action: Action::Fail { error }, progress: no_records() }
    }

    fn complete(&mut self, sofar: Vec<DownloadProgress>) -> (s: Step)
        ensures
            final(self)@ == old(self)@.completed(record_models(sofar@)).next,
            s@ == old(self)@.completed(record_models(sofar@)).step,
    {
        self.stage = Stage::Done;
        self.index = self.items.len();
        let last = self.progress.finish();
        let response = DownloadResponse::Playlist(
            PlaylistDownloadResult {
                output_folder: self.directory.clone(),
                total_videos: self.total,
                downloaded_videos: copy_results(&self.results),
            },
        );
        Step { action: Action::Finish { response }, progress: with_record(sofar, last) }
    }

    fn begin_at(&mut self, i: usize, sofar: Vec<DownloadProgress>) -> (s: Step)
        ensures
            final(self)@ == old(self)@.begun_at(i as nat, record_models(sofar@)).next,
            s@ == old(self)@.begun_at(i as nat, record_models(sofar@)).step,
    {
        if i < self.items.len() {
            let record = self.progress.begin_item(i);
            self.stage = Stage::ItemMetadata;
            self.index = i;
            self.title = None;
            self.duration = None;
            self.expected = String::new();
            let args = metadata_args_of(self.items[i].as_str());
            Step {
                action: Action::RunOnce { program: self.fetcher.clone(), args },
                progress: with_record(sofar, record),
            }
        } else {
            self.complete(sofar)
        }
    }

    fn with_metadata(&mut self, info: Option<VideoInfo>) -> (s: Step)
        requires
            old(self)@.kind == UrlKind::Playlist ==> old(self)@.index < old(self)@.items.len(),
            old(self)@.index < usize::MAX,
        ensures
            final(self)@ == old(self)@.with_metadata(info_model(info)).next,
            s@ == old(self)@.with_metadata(info_model(info)).step,
    {
        let url = self.item_url();
        let plan = plan_artifact(
            self.directory.as_str(),
            info,
            self.kind,
            url.as_str(),
            self.index + 1,
        );
        let progress = match &plan.title {
            Some(t) => {
                let record = self.progress.set_title(t.clone());
                with_record(no_records(), record)
            },
            None => no_records(),
        };
        self.stage = Stage::SkipCheck;
        self.title = plan.title;
        self.duration = plan.duration;
        self.expected = plan.path.clone();
        assert(record_models(progress@) =~= old(self)@.with_metadata(
            info_model(info),
        ).step.progress);
        Step { action: Action::Stat { path: plan.path }, progress }
    }

    fn expected_result(&self, size: Option<u64>) -> (r: DownloadResult)
        ensures
            r@ == self@.expected_result(size),
    {
        DownloadResult {
            output_path: self.expected.clone(),
            title: copy_text(&self.title),
            duration: copy_text(&self.duration),
            file_size: size,
        }
    }

    fn push_result(&mut self, result: DownloadResult)
        ensures
            final(self)@ == (OrchestratorModel {
                results: old(self)@.results.push(result@),
                ..old(self)@
            }),
    {
        self.results.push(result);
        assert(result_models(self.results@) =~= result_models(old(self).results@).push(result@));
    }

    fn skipped_item(&mut self, size: Option<u64>) -> (s: Step)
        requires
            old(self)@.valid(),
            old(self)@.stage == Stage::SkipCheck,
        ensures
            final(self)@ == old(self)@.skipped_item(size).next,
            s@ == old(self)@.skipped_item(size).step,
    {
        let result = self.expected_result(size);
        let record = self.progress.mark_skipped();
        let sofar = with_record(no_records(), record);
        self.skipped = self.skipped + 1;
        match self.kind {
            UrlKind::Single => {
                let copy = copy_result(&result);
                self.push_result(result);
                self.stage = Stage::Done;
                self.index = self.index + 1;
                Step {
                    action: Action::Finish { response: DownloadResponse::Single(copy) },
                    progress: sofar,
                }
            },
            UrlKind::Playlist => {
                self.push_result(result);
                let next = self.index + 1;
                self.begin_at(next, sofar)
            },
        }
    }

    fn item_url(&self) -> (r: String)
        requires
            self@.kind == UrlKind::Playlist ==> self@.index < self@.items.len(),
        ensures
            r@ == self@.item_url(),
    {
        match self.kind {
            UrlKind::Single => self.url.clone(),
            UrlKind::Playlist => self.items[self.index].clone(),
        }
    }

    fn start_transfer(&mut self) -> (s: Step)
        requires
            old(self)@.valid(),
            old(self)@.stage == Stage::SkipCheck,
        ensures
            final(self)@ == old(self)@.transfer_started().next,
            s@ == old(self)@.transfer_started().step,
    {
        let url = self.item_url();
        let args = transfer_args_of(
            self.bitrate,
            self.directory.as_str(),
            url.as_str(),
            &self.converter,
        );
        self.stage = Stage::Transferring;
        self.transfers = self.transfers + 1;
        Step {
            action: Action::Transfer { program: self.fetcher.clone(), args },
            progress: no_records(),
        }
    }

    fn transfer_succeeded(&mut self) -> (s: Step)
        ensures
            final(self)@ == old(self)@.transfer_succeeded().next,
            s@ == old(self)@.transfer_succeeded().step,
    {
        let record = self.progress.mark_complete();
        let progress = with_record(no_records(), record);
        match self.kind {
            UrlKind::Single => {
                self.stage = Stage::Confirming;
                Step { action: Action::Stat { path: self.expected.clone() }, progress }
            },
            UrlKind::Playlist => {
                self.stage = Stage::Collecting;
                Step { action: Action::List { directory: self.directory.clone() }, progress }
            },
        }
    }

    fn transfer_failed(&mut self, exit_code: Option<i32>, stderr: String) -> (s: Step)
        requires
            old(self)@.valid(),
            old(self)@.stage == Stage::Transferring,
        ensures
            final(self)@ == old(self)@.transfer_failed(exit_code, stderr@).next,
            s@ == old(self)@.transfer_failed(exit_code, stderr@).step,
    {
        match self.kind {
            UrlKind::Single => self.fail(DownloadError::DownloadFailed { exit_code, stderr }),
            UrlKind::Playlist => {
                let next = self.index + 1;
                self.begin_at(next, no_records())
            },
        }
    }

    fn collected(&mut self, files: Vec<FileEntry>) -> (s: Step)
        requires
            old(self)@.valid(),
            old(self)@.stage == Stage::Collecting,
        ensures
            final(self)@ == old(self)@.collected(file_models(files@)).next,
            s@ == old(self)@.collected(file_models(files@)).step,
    {
        match find_new_artifact(&files, &self.known) {
            Some(k) => {
                let path = files[k].path.clone();
                let stem = file_stem_of(&chars_of(path.as_str()));
                let result = DownloadResult {
                    output_path: path.clone(),
                    title: Some(string_of(&stem)),
                    duration: None,
                    file_size: Some(files[k].size),
                };
                self.push_result(result);
                self.known.push(path);
                assert(texts(self.known@) =~= texts(old(self).known@).push(path@));
            },
            None => {},
        }
        let next = self.index + 1;
        self.begin_at(next, no_records())
    }

    fn enumerated(&mut self, stdout: Vec<u8>, stderr: String) -> (s: Step)
        ensures
            final(self)@ == old(self)@.enumerated(stdout@, stderr@).next,
            s@ == old(self)@.enumerated(stdout@, stderr@).step,
    {
        let listing = parse_playlist(stdout.as_slice());
        if listing.total == 0 {
            self.fail(DownloadError::EmptyPlaylist { stderr })
        } else {
            self.stage = Stage::Snapshot;
            self.items = listing.urls;
            self.total = listing.total;
            self.progress = ProgressState::new(listing.total);
            Step {
                action: Action::List { directory: self.directory.clone() },
                progress: no_records(),
            }
        }
    }

    fn at_created(&mut self, event: Event) -> (s: Step)
        requires
            old(self)@.valid(),
            old(self)@.stage == Stage::Created,
            !(event is Cancel),
        ensures
            final(self)@ == old(self)@.step(event@).next,
            s@ == old(self)@.step(event@).step,
    {
        match event {
            Event::Start => {
                self.stage = Stage::ProvisioningFetcher;
                Step {
                    action: Action::Provision { tool: ToolName::Fetcher },
                    progress: no_records(),
                }
            },
            _ => self.fail(DownloadError::UnexpectedEvent),
        }
    }

    fn at_provisioning_fetcher(&mut self, event: Event) -> (s: Step)
        requires
            old(self)@.valid(),
            old(self)@.stage == Stage::ProvisioningFetcher,
            !(event is Cancel),
        ensures
            final(self)@ == old(self)@.step(event@).next,
            s@ == old(self)@.step(event@).step,
    {
        match event {
            Event::ToolReady { path } => {
                self.stage = Stage::ProvisioningConverter;
                self.fetcher = path;
                Step {
                    action: Action::Provision { tool: ToolName::Converter },
                    progress: no_records(),
                }
            },
            Event::ToolFailed { message } => self.fail(
                DownloadError::Provisioning { tool: ToolName::Fetcher, message },
            ),
            _ => self.fail(DownloadError::UnexpectedEvent),
        }
    }

    fn at_provisioning_converter(&mut self, event: Event) -> (s: Step)
        requires
            old(self)@.valid(),
            old(self)@.stage == Stage::ProvisioningConverter,
            !(event is Cancel),
        ensures
            final(self)@ == old(self)@.step(event@).next,
            s@ == old(self)@.step(event@).step,
    {
        match event {
            Event::ToolReady { path } => {
                self.converter = if holds_separator(path.as_str()) {
                    Some(string_of(&parent_dir_of(&chars_of(path.as_str()))))
                } else {
                    None
                };
                let args = match self.kind {
                    UrlKind::Single => {
                        self.stage = Stage::MetadataQuery;
                        metadata_args_of(self.url.as_str())
                    },
                    UrlKind::Playlist => {
                        self.stage = Stage::Enumerating;
                        listing_args_of(self.url.as_str())
                    },
                };
                Step {
                    action: Action::RunOnce { program: self.fetcher.clone(), args },
                    progress: no_records(),
                }
            },
            Event::ToolFailed { message } => self.fail(
                DownloadError::Provisioning { tool: ToolName::Converter, message },
            ),
            _ => self.fail(DownloadError::UnexpectedEvent),
        }
    }

    fn at_metadata_query(&mut self, event: Event) -> (s: Step)
        requires
            old(self)@.valid(),
            old(self)@.stage == Stage::MetadataQuery,
            !(event is Cancel),
        ensures
            final(self)@ == old(self)@.step(event@).next,
            s@ == old(self)@.step(event@).step,
    {
        match event {
            Event::Output { success, stdout, stderr } => {
                if success {
                    let info = parse_video_info(stdout.as_slice());
                    self.with_metadata(info)
                } else {
                    self.with_metadata(None)
                }
            },
            Event::SpawnFailed { message } => {
                let program = self.fetcher.clone();
                self.fail(DownloadError::ProcessSpawn { program, message })
            },
            _ => self.fail(DownloadError::UnexpectedEvent),
        }
    }

    fn at_enumerating(&mut self, event: Event) -> (s: Step)
        requires
            old(self)@.valid(),
            old(self)@.stage == Stage::Enumerating,
            !(event is Cancel),
        ensures
            final(self)@ == old(self)@.step(event@).next,
            s@ == old(self)@.step(event@).step,
    {
        match event {
            Event::Output { success, stdout, stderr } => self.enumerated(stdout, stderr),
            Event::SpawnFailed { message } => {
                let program = self.fetcher.clone();
                self.fail(DownloadError::ProcessSpawn { program, message })
            },
            _ => self.fail(DownloadError::UnexpectedEvent),
        }
    }

    fn at_snapshot(&mut self, event: Event) -> (s: Step)
        requires
            old(self)@.valid(),
            old(self)@.stage == Stage::Snapshot,
            !(event is Cancel),
        ensures
            final(self)@ == old(self)@.step(event@).next,
            s@ == old(self)@.step(event@).step,
    {
        match event {
            Event::Listing { files } => {
                self.known = artifact_paths_of(&files);
                self.begin_at(0, no_records())
            },
            _ => self.fail(DownloadError::UnexpectedEvent),
        }
    }

    fn at_item_metadata(&mut self, event: Event) -> (s: Step)
        requires
            old(self)@.valid(),
            old(self)@.stage == Stage::ItemMetadata,
            !(event is Cancel),
        ensures
            final(self)@ == old(self)@.step(event@).next,
            s@ == old(self)@.step(event@).step,
    {
        match event {
            Event::Output { success, stdout, stderr } => {
                if success {
                    let info = parse_video_info(stdout.as_slice());
                    self.with_metadata(info)
                } else {
                    self.with_metadata(None)
                }
            },
            Event::SpawnFailed { message } => self.with_metadata(None),
            _ => self.fail(DownloadError::UnexpectedEvent),
        }
    }

    fn at_skip_check(&mut self, event: Event) -> (s: Step)
        requires
            old(self)@.valid(),
            old(self)@.stage == Stage::SkipCheck,
            !(event is Cancel),
        ensures
            final(self)@ == old(self)@.step(event@).next,
            s@ == old(self)@.step(event@).step,
    {
        match event {
            Event::Stat { exists, size } => {
                if exists {
                    self.skipped_item(size)
                } else {
                    self.start_transfer()
                }
            },
            _ => self.fail(DownloadError::UnexpectedEvent),
        }
    }

    fn at_transferring(&mut self, event: Event) -> (s: Step)
        requires
            old(self)@.valid(),
            old(self)@.stage == Stage::Transferring,
            !(event is Cancel),
        ensures
            final(self)@ == old(self)@.step(event@).next,
            s@ == old(self)@.step(event@).step,
    {
        match event {
            Event::Line { text } => {
                let progress = self.progress.process_line(text.as_str());
                Step { action: Action::Read, progress }
            },
            Event::Exited { success, exit_code, stderr } => {
                if success {
                    self.transfer_succeeded()
                } else {
                    self.transfer_failed(exit_code, stderr)
                }
            },
            Event::SpawnFailed { message } => {
                let program = self.fetcher.clone();
                self.fail(DownloadError::ProcessSpawn { program, message })
            },
            _ => self.fail(DownloadError::UnexpectedEvent),
        }
    }

    fn at_confirming(&mut self, event: Event) -> (s: Step)
        requires
            old(self)@.valid(),
            old(self)@.stage == Stage::Confirming,
            !(event is Cancel),
        ensures
            final(self)@ == old(self)@.step(event@).next,
            s@ == old(self)@.step(event@).step,
    {
        match event {
            Event::Stat { exists, size } => {
                if exists {
                    let result = self.expected_result(size);
                    let copy = copy_result(&result);
                    self.push_result(result);
                    let last = self.progress.finish();
                    self.stage = Stage::Done;
                    self.index = self.index + 1;
                    Step {
                        action: Action::Finish { response: DownloadResponse::Single(copy) },
                        progress: with_record(no_records(), last),
                    }
                } else {
                    let path = self.expected.clone();
                    self.fail(DownloadError::ArtifactMissing { path })
                }
            },
            _ => self.fail(DownloadError::UnexpectedEvent),
        }
    }

    fn at_collecting(&mut self, event: Event) -> (s: Step)
        requires
            old(self)@.valid(),
            old(self)@.stage == Stage::Collecting,
            !(event is Cancel),
        ensures
            final(self)@ == old(self)@.step(event@).next,
            s@ == old(self)@.step(event@).step,
    {
        match event {
            Event::Listing { files } => self.collected(files),
            _ => self.fail(DownloadError::UnexpectedEvent),
        }
    }

    fn step(&mut self, event: Event) -> (s: Step)
        requires
            old(self)@.valid(),
        ensures
            final(self)@ == old(self)@.step(event@).next,
            s@ == old(self)@.step(event@).step,
            final(self)@.valid(),
    {
        proof {
            lemma_step_valid(old(self)@, event@);
        }
        if let Event::Cancel = event {
            return if self.stage != Stage::Done && self.stage != Stage::Failed {
                self.fail(DownloadError::Cancelled)
            } else {
                self.fail(DownloadError::UnexpectedEvent)
            };
        }
        match self.stage {
            Stage::Created => self.at_created(event),
            Stage::ProvisioningFetcher => self.at_provisioning_fetcher(event),
            Stage::ProvisioningConverter => self.at_provisioning_converter(event),
            Stage::MetadataQuery => self.at_metadata_query(event),
            Stage::Enumerating => self.at_enumerating(event),
            Stage::Snapshot => self.at_snapshot(event),
            Stage::ItemMetadata => self.at_item_metadata(event),
            Stage::SkipCheck => self.at_skip_check(event),
            Stage::Transferring => self.at_transferring(event),
            Stage::Confirming => self.at_confirming(event),
            Stage::Collecting => self.at_collecting(event),
            Stage::Done => self.fail(DownloadError::UnexpectedEvent),
            Stage::Failed => self.fail(DownloadError::UnexpectedEvent),
        }
    }
}

/// The orchestrator of one request.
pub struct Orchestrator {
    machine: Machine,
}

impl View for Orchestrator {
    type V = OrchestratorModel;

    closed spec fn view(&self) -> OrchestratorModel {
        self.machine@
    }
}

impl Orchestrator {
    #[verifier::type_invariant]
    spec fn well_formed(self) -> bool {
        self.machine@.valid()
    }

    /// Validates the request and classifies its URL. A URL that has none
    /// of the accepted shapes is refused, and nothing has been done.
    pub fn new(request: DownloadRequest) -> (r: Result<Orchestrator, DownloadError>)
        ensures
            match r {
                Ok(o) => url_kind(request.url@) matches Some(kind) && o@
                    == OrchestratorModel::initial(
                    request.url@,
                    request.output_directory@,
                    request.target_bitrate_kbps as nat,
                    kind,
                ),
                Err(e) => url_kind(request.url@) is None && e@ == ErrorModel::InvalidUrl,
            },
    {
        match classify_url(request.url.as_str()) {
            None => Err(DownloadError::InvalidUrl),
            Some(kind) => {
                let machine = Machine {
                    url: request.url,
                    directory: request.output_directory,
                    bitrate: request.target_bitrate_kbps,
                    kind,
                    stage: Stage::Created,
                    fetcher: String::new(),
                    converter: None,
                    progress: ProgressState::new(1),
                    items: Vec::new(),
                    total: 1,
                    index: 0,
                    results: Vec::new(),
                    known: Vec::new(),
                    title: None,
                    duration: None,
                    expected: String::new(),
                    transfers: 0,
                    skipped: 0,
                };
                assert(machine@ =~= OrchestratorModel::initial(
                    request.url@,
                    request.output_directory@,
                    request.target_bitrate_kbps as nat,
                    kind,
                )) by {
                    assert(texts(machine.items@) =~= Seq::<Seq<char>>::empty());
                    assert(texts(machine.known@) =~= Seq::<Seq<char>>::empty());
                    assert(result_models(machine.results@) =~= Seq::<ResultModel>::empty());
                }
                Ok(Orchestrator { machine })
            },
        }
    }

    /// Answers `event` with the next action and the progress records to
    /// pass on. An event that does not answer the pending action fails the
    /// request.
    pub fn step(self, event: Event) -> (r: (Orchestrator, Step))
        ensures
            r.0@ == self@.step(event@).next,
            r.1@ == self@.step(event@).step,
    {
        proof {
            use_type_invariant(&self);
        }
        let mut machine = self.machine;
        let s = machine.step(event);
        (Orchestrator { machine }, s)
    }

    /// Where the request stands.
    pub fn stage(&self) -> (r: Stage)
        ensures
            r == self@.stage,
    {
        self.machine.stage
    }

    /// What the request's URL asks for.
    pub fn kind(&self) -> (r: UrlKind)
        ensures
            r == self@.kind,
    {
        self.machine.kind
    }

    /// The number of items of the request.
    pub fn total_items(&self) -> (r: usize)
        ensures
            r == self@.total,
    {
        self.machine.total
    }

    /// The number of transfers started so far.
    pub fn transfers_started(&self) -> (r: usize)
        ensures
            r == self@.transfers,
    {
        self.machine.transfers
    }

    /// The number of items skipped so far because their artifact was there.
    pub fn items_skipped(&self) -> (r: usize)
        ensures
            r == self@.skipped,
    {
        self.machine.skipped
    }
}

} // verus!
