//! The binary provisioner: it decides, step by step, how a verified and
//! executable copy of a tool comes to lie in the per-user cache.
//!
//! The provisioner does no work of its own. It hands out a
//! `ProvisionAction`; its driver performs the action and reports the
//! outcome as a `ProvisionEvent`. A fresh copy is written beside its final
//! place, made executable there, and only then renamed onto the final
//! place, so that nobody ever finds a partly written or non-executable
//! file at the final place.

use crate::command::{version_flag, version_flag_of};
use crate::locator::{
    architecture_dir, cache_path_of, platform_dir, resource_path_of, tool_program, ToolBinary,
};
use crate::naming::{join_path, joined};
use crate::text::{append_str, chars_of, owned, string_of};
use vstd::prelude::*;

verus! {

/// Where a provisioning stands.
#[derive(Clone, Copy, Debug, PartialEq, Eq, Structural)]
pub enum ProvisionStage {
    Idle,
    Locking,
    CacheStat,
    Probing,
    Removing,
    Resolving,
    CreatingDir,
    Copying,
    SettingMode,
    Publishing,
    Verifying,
    Discarding,
    Ready,
    Failed,
}

/// Why a provisioning failed.
#[derive(Clone, Debug, PartialEq, Eq)]
pub enum ProvisionError {
    /// The packaged resource is missing or a placeholder.
    Extraction { message: String },
    /// The fresh copy does not run.
    Verification { message: String },
    /// The cache could not be written.
    CacheIo { message: String },
    /// The driver reported something that does not answer the pending
    /// action.
    UnexpectedEvent,
}

/// What the driver reports.
#[derive(Clone, Debug, PartialEq, Eq)]
pub enum ProvisionEvent {
    /// The provisioning begins.
    Start,
    /// The pending action has been carried out.
    Completed,
    /// The pending action could not be carried out.
    IoFailed { message: String },
    /// Whether the cached copy exists, and its size; zero where the size
    /// cannot be read.
    Stat { exists: bool, size: u64 },
    /// Whether the version probe ran and reported success.
    Probed { success: bool },
    /// The packaged resource lies at `path`; whether it exists, and its
    /// size.
    Resolved { path: String, exists: bool, size: u64 },
    /// The packaged resource has no place: it was never bundled.
    Unresolved,
}

/// What the driver is to do next.
#[derive(Clone, Debug, PartialEq, Eq)]
pub enum ProvisionAction {
    /// Take the extraction lock; report `Completed`. The lock is given
    /// back when `Ready` or `Fail` is answered.
    Lock,
    /// Look at the cached copy; report `Stat`.
    StatCache { path: String },
    /// Delete the cached copy; report `Completed` or `IoFailed`.
    Remove { path: String },
    /// Run `program` with `flag`; report `Probed`.
    Probe { program: String, flag: String },
    /// Find the packaged resource at `relative` below the resource root;
    /// report `Resolved` or `Unresolved`.
    Resolve { relative: String },
    /// Create `path` and the directories above it; report `Completed` or
    /// `IoFailed`.
    CreateDir { path: String },
    /// Copy the file `from` to `to`; report `Completed` or `IoFailed`.
    Copy { from: String, to: String },
    /// Make the file executable; report `Completed` or `IoFailed`.
    MakeExecutable { path: String },
    /// Rename the file `from` onto `to` in one step; report `Completed` or
    /// `IoFailed`.
    Rename { from: String, to: String },
    /// The tool is ready at `path`.
    Ready { path: String },
    /// The provisioning has failed.
    Fail { error: ProvisionError },
}

// ---------------------------------------------------------------------------
// Models
// ---------------------------------------------------------------------------

pub enum ProvisionErrorModel {
    Extraction { message: Seq<char> },
    Verification { message: Seq<char> },
    CacheIo { message: Seq<char> },
    UnexpectedEvent,
}

pub enum ProvisionEventModel {
    Start,
    Completed,
    IoFailed { message: Seq<char> },
    Stat { exists: bool, size: u64 },
    Probed { success: bool },
    Resolved { path: Seq<char>, exists: bool, size: u64 },
    Unresolved,
}

pub enum ProvisionActionModel {
    Lock,
    StatCache { path: Seq<char> },
    Remove { path: Seq<char> },
    Probe { program: Seq<char>, flag: Seq<char> },
    Resolve { relative: Seq<char> },
    CreateDir { path: Seq<char> },
    Copy { from: Seq<char>, to: Seq<char> },
    MakeExecutable { path: Seq<char> },
    Rename { from: Seq<char>, to: Seq<char> },
    Ready { path: Seq<char> },
    Fail { error: ProvisionErrorModel },
}

impl View for ProvisionError {
    type V = ProvisionErrorModel;

    open spec fn view(&self) -> ProvisionErrorModel {
        match *self {
            ProvisionError::Extraction { message } => ProvisionErrorModel::Extraction {
                message: message@,
            },
            ProvisionError::Verification { message } => ProvisionErrorModel::Verification {
                message: message@,
            },
            ProvisionError::CacheIo { message } => ProvisionErrorModel::CacheIo {
                message: message@,
            },
            ProvisionError::UnexpectedEvent => ProvisionErrorModel::UnexpectedEvent,
        }
    }
}

impl View for ProvisionEvent {
    type V = ProvisionEventModel;

    open spec fn view(&self) -> ProvisionEventModel {
        match *self {
            ProvisionEvent::Start => ProvisionEventModel::Start,
            ProvisionEvent::Completed => ProvisionEventModel::Completed,
            ProvisionEvent::IoFailed { message } => ProvisionEventModel::IoFailed {
                message: message@,
            },
            ProvisionEvent::Stat { exists, size } => ProvisionEventModel::Stat { exists, size },
            ProvisionEvent::Probed { success } => ProvisionEventModel::Probed { success },
            ProvisionEvent::Resolved { path, exists, size } => ProvisionEventModel::Resolved {
                path: path@,
                exists,
                size,
            },
            ProvisionEvent::Unresolved => ProvisionEventModel::Unresolved,
        }
    }
}

impl View for ProvisionAction {
    type V = ProvisionActionModel;

    open spec fn view(&self) -> ProvisionActionModel {
        match *self {
            ProvisionAction::Lock => ProvisionActionModel::Lock,
            ProvisionAction::StatCache { path } => ProvisionActionModel::StatCache { path: path@ },
            ProvisionAction::Remove { path } => ProvisionActionModel::Remove { path: path@ },
            ProvisionAction::Probe { program, flag } => ProvisionActionModel::Probe {
                program: program@,
                flag: flag@,
            },
            ProvisionAction::Resolve { relative } => ProvisionActionModel::Resolve {
                relative: relative@,
            },
            ProvisionAction::CreateDir { path } => ProvisionActionModel::CreateDir { path: path@ },
            ProvisionAction::Copy { from, to } => ProvisionActionModel::Copy {
                from: from@,
                to: to@,
            },
            ProvisionAction::MakeExecutable { path } => ProvisionActionModel::MakeExecutable {
                path: path@,
            },
            ProvisionAction::Rename { from, to } => ProvisionActionModel::Rename {
                from: from@,
                to: to@,
            },
            ProvisionAction::Ready { path } => ProvisionActionModel::Ready { path: path@ },
            ProvisionAction::Fail { error } => ProvisionActionModel::Fail { error: error@ },
        }
    }
}

/// The state of a provisioning as mathematical values.
pub struct ProvisionModel {
    pub tool: ToolBinary,
    pub stage: ProvisionStage,
    /// The directory of the cache.
    pub cache_dir: Seq<char>,
    /// The final place of the tool in the cache.
    pub cache_path: Seq<char>,
    /// Where the packaged resource lies, once that is known.
    pub source: Seq<char>,
    /// The size of the packaged resource, once that is known.
    pub source_size: u64,
    /// The size of the cached copy as far as is known; zero where there is
    /// none.
    pub cached_size: u64,
}

/// What is believed of a tool's copy in the cache, as mathematical values.
pub struct CachedStateModel {
    pub path: Seq<char>,
    pub size: u64,
    pub verified: bool,
}

/// A state with the answer that it gives.
pub struct ProvisionOutcome {
    pub next: ProvisionModel,
    pub action: ProvisionActionModel,
}

/// The place beside `path` where a fresh copy is prepared.
pub open spec fn temp_path(path: Seq<char>) -> Seq<char> {
    path + ".tmp"@
}

/// What to tell the user when the resource was never bundled.
pub open spec fn not_bundled_message(tool: ToolBinary) -> Seq<char> {
    "Resource '"@ + resource_path_of(tool)
        + "' is not bundled. Make sure binaries are placed in src-tauri/binaries/"@ + platform_dir(
        tool.platform,
    ) + seq!['/'] + architecture_dir(tool.architecture)
        + "/ and tauri.conf.json includes 'binaries/**' in bundle.resources"@
}

/// What to tell the user when the resource is not where it should be.
pub open spec fn missing_message(path: Seq<char>) -> Seq<char> {
    "Bundled binary does not exist at resolved path: "@ + path
}

/// What to tell the user when the resource is an empty placeholder.
pub open spec fn placeholder_message(path: Seq<char>, tool: ToolBinary) -> Seq<char> {
    "Bundled binary at "@ + path
        + " is empty (0 bytes). This is likely a placeholder file.\n\nPlease replace it with an actual "@
        + tool_program(tool.name)
        + " binary:\n- yt-dlp: https://github.com/yt-dlp/yt-dlp/releases/latest\n- ffmpeg: https://ffmpeg.org/download.html"@
}

/// What to tell the user when the fresh copy does not run.
pub open spec fn not_working_message(path: Seq<char>, tool: ToolBinary) -> Seq<char> {
    "Extracted "@ + tool_program(tool.name) + " binary at "@ + path + " is not working"@
}

/// What went wrong, and the system's own words for it.
pub open spec fn io_message(what: Seq<char>, detail: Seq<char>) -> Seq<char> {
    what + ": "@ + detail
}

/// How far a stage is along the way. No step leads back.
pub open spec fn stage_rank(stage: ProvisionStage) -> nat {
    match stage {
        ProvisionStage::Idle => 0,
        ProvisionStage::Locking => 1,
        ProvisionStage::CacheStat => 2,
        ProvisionStage::Probing => 3,
        ProvisionStage::Removing => 4,
        ProvisionStage::Resolving => 5,
        ProvisionStage::CreatingDir => 6,
        ProvisionStage::Copying => 7,
        ProvisionStage::SettingMode => 8,
        ProvisionStage::Publishing => 9,
        ProvisionStage::Verifying => 10,
        ProvisionStage::Discarding => 11,
        ProvisionStage::Ready => 12,
        ProvisionStage::Failed => 13,
    }
}

impl ProvisionModel {
    /// The state of a provisioning that has not begun.
    pub open spec fn initial(tool: ToolBinary, app_data_dir: Seq<char>) -> ProvisionModel {
        ProvisionModel {
            tool,
            stage: ProvisionStage::Idle,
            cache_dir: joined(app_data_dir, "bin"@),
            cache_path: cache_path_of(app_data_dir, tool),
            source: Seq::<char>::empty(),
            source_size: 0,
            cached_size: 0,
        }
    }

    /// The sizes fit the stage: a copy that is probed or handed out is not
    /// empty, and neither is a resource that is being copied.
    pub open spec fn valid(self) -> bool {
        &&& (self.stage == ProvisionStage::Probing || self.stage == ProvisionStage::Verifying
            || self.stage == ProvisionStage::Ready) ==> self.cached_size > 0
        &&& (self.stage == ProvisionStage::CreatingDir || self.stage == ProvisionStage::Copying
            || self.stage == ProvisionStage::SettingMode || self.stage
            == ProvisionStage::Publishing) ==> self.source_size > 0
    }

    /// What is believed of the copy in the cache: it is verified once it
    /// has been handed out.
    pub open spec fn cached_state(self) -> CachedStateModel {
        CachedStateModel {
            path: self.cache_path,
            size: self.cached_size,
            verified: self.stage == ProvisionStage::Ready,
        }
    }

    /// The cached copy is to be deleted, and counts as gone.
    pub open spec fn removing(self, stage: ProvisionStage) -> ProvisionOutcome {
        ProvisionOutcome {
            next: ProvisionModel { stage, cached_size: 0, ..self },
            action: ProvisionActionModel::Remove { path: self.cache_path },
        }
    }

    /// The state at stage `stage`, with the action `action` pending.
    pub open spec fn moved(self, stage: ProvisionStage, action: ProvisionActionModel)
        -> ProvisionOutcome {
        ProvisionOutcome { next: ProvisionModel { stage, ..self }, action }
    }

    /// The provisioning fails with `error`.
    pub open spec fn failed(self, error: ProvisionErrorModel) -> ProvisionOutcome {
        self.moved(ProvisionStage::Failed, ProvisionActionModel::Fail { error })
    }

    /// The version probe of the cached copy.
    pub open spec fn probe(self) -> ProvisionActionModel {
        ProvisionActionModel::Probe {
            program: self.cache_path,
            flag: version_flag(self.tool.name),
        }
    }

    /// The state and the answer after `event`.
    pub open spec fn step(self, event: ProvisionEventModel) -> ProvisionOutcome {
        match (self.stage, event) {
            (ProvisionStage::Idle, ProvisionEventModel::Start) => self.moved(
                ProvisionStage::Locking,
                ProvisionActionModel::Lock,
            ),
            (ProvisionStage::Locking, ProvisionEventModel::Completed) => self.moved(
                ProvisionStage::CacheStat,
                ProvisionActionModel::StatCache { path: self.cache_path },
            ),
            (ProvisionStage::CacheStat, ProvisionEventModel::Stat { exists, size }) => if !exists {
                self.moved(
                    ProvisionStage::Resolving,
                    ProvisionActionModel::Resolve { relative: resource_path_of(self.tool) },
                )
            } else if size == 0 {
                self.removing(ProvisionStage::Removing)
            } else {
                (ProvisionModel { cached_size: size, ..self }).moved(
                    ProvisionStage::Probing,
                    self.probe(),
                )
            },
            (ProvisionStage::Probing, ProvisionEventModel::Probed { success }) => if success {
                self.moved(
                    ProvisionStage::Ready,
                    ProvisionActionModel::Ready { path: self.cache_path },
                )
            } else {
                self.removing(ProvisionStage::Removing)
            },
            (ProvisionStage::Removing, ProvisionEventModel::Completed) => self.moved(
                ProvisionStage::Resolving,
                ProvisionActionModel::Resolve { relative: resource_path_of(self.tool) },
            ),
            (ProvisionStage::Removing, ProvisionEventModel::IoFailed { message }) => self.moved(
                ProvisionStage::Resolving,
                ProvisionActionModel::Resolve { relative: resource_path_of(self.tool) },
            ),
            (ProvisionStage::Resolving, ProvisionEventModel::Unresolved) => self.failed(
                ProvisionErrorModel::Extraction { message: not_bundled_message(self.tool) },
            ),
            (ProvisionStage::Resolving, ProvisionEventModel::Resolved { path, exists, size }) =>
                if !exists {
                self.failed(ProvisionErrorModel::Extraction { message: missing_message(path) })
            } else if size == 0 {
                self.failed(
                    ProvisionErrorModel::Extraction {
                        message: placeholder_message(path, self.tool),
                    },
                )
            } else {
                ProvisionOutcome {
                    next: ProvisionModel {
                        stage: ProvisionStage::CreatingDir,
                        source: path,
                        source_size: size,
                        ..self
                    },
                    action: ProvisionActionModel::CreateDir { path: self.cache_dir },
                }
            },
            (ProvisionStage::CreatingDir, ProvisionEventModel::Completed) => self.moved(
                ProvisionStage::Copying,
                ProvisionActionModel::Copy { from: self.source, to: temp_path(self.cache_path) },
            ),
            (ProvisionStage::CreatingDir, ProvisionEventModel::IoFailed { message }) => self.failed(
                ProvisionErrorModel::CacheIo {
                    message: io_message("Failed to create bin directory"@, message),
                },
            ),
            (ProvisionStage::Copying, ProvisionEventModel::Completed) => self.moved(
                ProvisionStage::SettingMode,
                ProvisionActionModel::MakeExecutable { path: temp_path(self.cache_path) },
            ),
            (ProvisionStage::Copying, ProvisionEventModel::IoFailed { message }) => self.failed(
                ProvisionErrorModel::CacheIo {
                    message: io_message("Failed to copy binary to temp location"@, message),
                },
            ),
            (ProvisionStage::SettingMode, ProvisionEventModel::Completed) => self.moved(
                ProvisionStage::Publishing,
                ProvisionActionModel::Rename {
                    from: temp_path(self.cache_path),
                    to: self.cache_path,
                },
            ),
            (ProvisionStage::SettingMode, ProvisionEventModel::IoFailed { message }) => self.failed(
                ProvisionErrorModel::CacheIo {
                    message: io_message("Failed to set executable permissions"@, message),
                },
            ),
            (ProvisionStage::Publishing, ProvisionEventModel::Completed) => (ProvisionModel {
                cached_size: self.source_size,
                ..self
            }).moved(ProvisionStage::Verifying, self.probe()),
            (ProvisionStage::Publishing, ProvisionEventModel::IoFailed { message }) => self.failed(
                ProvisionErrorModel::CacheIo {
                    message: io_message(
                        "Failed to rename temp file to final destination"@,
                        message,
                    ),
                },
            ),
            (ProvisionStage::Verifying, ProvisionEventModel::Probed { success }) => if success {
                self.moved(
                    ProvisionStage::Ready,
                    ProvisionActionModel::Ready { path: self.cache_path },
                )
            } else {
                self.removing(ProvisionStage::Discarding)
            },
            (ProvisionStage::Discarding, ProvisionEventModel::Completed) => self.failed(
                ProvisionErrorModel::Verification {
                    message: not_working_message(self.cache_path, self.tool),
                },
            ),
            (ProvisionStage::Discarding, ProvisionEventModel::IoFailed { message }) => self.failed(
                ProvisionErrorModel::Verification {
                    message: not_working_message(self.cache_path, self.tool),
                },
            ),
            _ => self.failed(ProvisionErrorModel::UnexpectedEvent),
        }
    }

    /// The state after a run of events.
    pub open spec fn after(self, events: Seq<ProvisionEventModel>) -> ProvisionModel
        decreases events.len(),
    {
        if events.len() == 0 {
            self
        } else {
            self.after(events.drop_last()).step(events.last()).next
        }
    }

    /// The answer to event `k` of a run of events.
    pub open spec fn answer(self, events: Seq<ProvisionEventModel>, k: int) -> ProvisionActionModel
        recommends
            0 <= k < events.len(),
    {
        self.after(events.take(k)).step(events[k]).action
    }
}

// ---------------------------------------------------------------------------
// Laws
// ---------------------------------------------------------------------------

/// No step leads back to an earlier stage, and none changes the tool or
/// the place of its cached copy.
pub proof fn lemma_step_forward(m: ProvisionModel, event: ProvisionEventModel)
    ensures
        stage_rank(m.step(event).next.stage) >= stage_rank(m.stage),
        m.step(event).next.tool == m.tool,
        m.step(event).next.cache_path == m.cache_path,
        m.step(event).next.cache_dir == m.cache_dir,
{
}

/// Over a run of events the stage never falls back, and the tool and the
/// place of its cached copy stay.
pub proof fn lemma_run_forward(m: ProvisionModel, events: Seq<ProvisionEventModel>, k: int)
    requires
        0 <= k <= events.len(),
    ensures
        stage_rank(m.after(events).stage) >= stage_rank(m.after(events.take(k)).stage),
        m.after(events).tool == m.tool,
        m.after(events).cache_path == m.cache_path,
    decreases events.len(),
{
    if k == events.len() {
        assert(events.take(k) =~= events);
        if events.len() > 0 {
            lemma_run_forward(m, events.drop_last(), 0);
            lemma_step_forward(m.after(events.drop_last()), events.last());
        }
    } else {
        assert(events.drop_last().take(k) =~= events.take(k));
        lemma_run_forward(m, events.drop_last(), k);
        lemma_step_forward(m.after(events.drop_last()), events.last());
    }
}

/// A provisioning that has not begun is in a valid state.
pub proof fn lemma_initial_provision_valid(tool: ToolBinary, app_data_dir: Seq<char>)
    ensures
        ProvisionModel::initial(tool, app_data_dir).valid(),
{
}

/// Every step leaves a valid state valid.
pub proof fn lemma_provision_step_valid(m: ProvisionModel, event: ProvisionEventModel)
    requires
        m.valid(),
    ensures
        m.step(event).next.valid(),
{
}

/// Over a run of events a valid state stays valid.
pub proof fn lemma_run_valid(m: ProvisionModel, events: Seq<ProvisionEventModel>)
    requires
        m.valid(),
    ensures
        m.after(events).valid(),
    decreases events.len(),
{
    if events.len() > 0 {
        lemma_run_valid(m, events.drop_last());
        lemma_provision_step_valid(m.after(events.drop_last()), events.last());
    }
}

/// The path of an empty file is never handed out: whenever a run of
/// events from the start is answered with `Ready`, the copy in the cache
/// is believed to hold something, and it is the copy at the final place.
pub proof fn lemma_ready_copy_is_not_empty(
    tool: ToolBinary,
    app_data_dir: Seq<char>,
    events: Seq<ProvisionEventModel>,
    k: int,
)
    requires
        0 <= k < events.len(),
        ProvisionModel::initial(tool, app_data_dir).answer(events, k) is Ready,
    ensures
        ({
            let start = ProvisionModel::initial(tool, app_data_dir);
            let end = start.after(events.take(k + 1));
            &&& start.answer(events, k) == (ProvisionActionModel::Ready {
                path: cache_path_of(app_data_dir, tool),
            })
            &&& end.cached_state().verified
            &&& end.cached_state().size > 0
            &&& end.cached_state().path == cache_path_of(app_data_dir, tool)
        }),
{
    let start = ProvisionModel::initial(tool, app_data_dir);
    let upto = events.take(k);
    lemma_initial_provision_valid(tool, app_data_dir);
    lemma_run_valid(start, upto);
    lemma_run_forward(start, upto, 0);
    let before = start.after(upto);
    lemma_ready_is_verified(before, events[k]);
    lemma_provision_step_valid(before, events[k]);
    let longer = events.take(k + 1);
    assert(longer.drop_last() =~= upto);
    assert(longer.last() == events[k]);
}

/// An answer that looks at files, changes them, runs the tool or hands it
/// out.
pub open spec fn needs_lock(action: ProvisionActionModel) -> bool {
    !(action is Lock) && !(action is Fail)
}

/// Everything happens under the extraction lock: in a run from the start,
/// an answer that needs the lock comes only after the first answer asked
/// for the lock and the driver reported that it holds it.
pub proof fn lemma_lock_comes_first(
    tool: ToolBinary,
    app_data_dir: Seq<char>,
    events: Seq<ProvisionEventModel>,
    k: int,
)
    requires
        0 <= k < events.len(),
        needs_lock(ProvisionModel::initial(tool, app_data_dir).answer(events, k)),
    ensures
        k >= 1,
        ProvisionModel::initial(tool, app_data_dir).answer(events, 0) is Lock,
        events[1] is Completed,
{
    let start = ProvisionModel::initial(tool, app_data_dir);
    let upto = events.take(k);
    assert(events.take(0) =~= Seq::<ProvisionEventModel>::empty());
    if k == 0 {
        assert(upto =~= Seq::<ProvisionEventModel>::empty());
    } else {
        let one = events.take(1);
        assert(one.drop_last() =~= Seq::<ProvisionEventModel>::empty());
        assert(one.last() == events[0]);
        assert(start.after(one) == start.step(events[0]).next);
        assert(upto.take(1) =~= one);
        lemma_run_forward(start, upto, 1);
        if k >= 2 {
            let two = events.take(2);
            assert(two.drop_last() =~= one);
            assert(two.last() == events[1]);
            assert(upto.take(2) =~= two);
            lemma_run_forward(start, upto, 2);
        }
    }
}

/// A cached copy is handed out only after a version probe of it has just
/// succeeded.
pub proof fn lemma_ready_is_verified(m: ProvisionModel, event: ProvisionEventModel)
    requires
        m.step(event).action is Ready,
    ensures
        m.stage == ProvisionStage::Probing || m.stage == ProvisionStage::Verifying,
        event == (ProvisionEventModel::Probed { success: true }),
        m.step(event).action == (ProvisionActionModel::Ready { path: m.cache_path }),
{
}

/// A cached file of zero bytes is a placeholder: it is deleted, never
/// probed and never handed out, and a fresh extraction follows whatever
/// the deletion reports.
pub proof fn lemma_zero_byte_cache_is_deleted(
    m: ProvisionModel,
    outcome: ProvisionEventModel,
)
    requires
        m.stage == ProvisionStage::CacheStat,
        outcome is Completed || outcome is IoFailed,
    ensures
        ({
            let found = m.step(ProvisionEventModel::Stat { exists: true, size: 0 });
            &&& found.action == (ProvisionActionModel::Remove { path: m.cache_path })
            &&& found.next.stage == ProvisionStage::Removing
            &&& found.next.cached_size == 0
            &&& found.next.step(outcome).action == (ProvisionActionModel::Resolve {
                relative: resource_path_of(m.tool),
            })
            &&& found.next.step(outcome).next.stage == ProvisionStage::Resolving
        }),
{
}

/// Nothing but a rename puts a file at the final place of the cached
/// copy: a copy goes to the place beside it, which is another path, and
/// permissions are set there.
pub proof fn lemma_only_rename_fills_final_place(m: ProvisionModel, event: ProvisionEventModel)
    ensures
        temp_path(m.cache_path) != m.cache_path,
        match m.step(event).action {
            ProvisionActionModel::Copy { from, to } => to == temp_path(m.cache_path),
            ProvisionActionModel::MakeExecutable { path } => path == temp_path(m.cache_path),
            ProvisionActionModel::Rename { from, to } => from == temp_path(m.cache_path) && to
                == m.cache_path,
            _ => true,
        },
{
    assert(temp_path(m.cache_path).len() == m.cache_path.len() + ".tmp"@.len());
    reveal_strlit(".tmp");
}

/// The final place of the cached copy is written by a rename alone, and
/// that rename comes directly after the fresh copy has been written beside
/// the final place and made executable there: if the answer to event `k`
/// is a rename, it renames the prepared file onto the final place, events
/// `k - 1` and `k` report success, the answer to event `k - 1` made that
/// file executable, and the answer to event `k - 2` copied the resource to
/// it.
pub proof fn lemma_publication_is_atomic(
    m: ProvisionModel,
    events: Seq<ProvisionEventModel>,
    k: int,
)
    requires
        m.stage == ProvisionStage::Idle,
        0 <= k < events.len(),
        m.answer(events, k) is Rename,
    ensures
        k >= 2,
        m.answer(events, k) == (ProvisionActionModel::Rename {
            from: temp_path(m.cache_path),
            to: m.cache_path,
        }),
        events[k] is Completed,
        events[k - 1] is Completed,
        m.answer(events, k - 1) == (ProvisionActionModel::MakeExecutable {
            path: temp_path(m.cache_path),
        }),
        m.answer(events, k - 2) matches ProvisionActionModel::Copy { from, to } && to == temp_path(
            m.cache_path,
        ),
        temp_path(m.cache_path) != m.cache_path,
{
    let s2 = m.after(events.take(k));
    lemma_run_forward(m, events.take(k), 0);
    assert(s2.stage == ProvisionStage::SettingMode);
    assert(events.take(k).take(0) =~= Seq::<ProvisionEventModel>::empty());
    assert(k >= 1);
    let upto1 = events.take(k - 1);
    assert(events.take(k).drop_last() =~= upto1);
    assert(events.take(k).last() == events[k - 1]);
    let s1 = m.after(upto1);
    assert(s2 == s1.step(events[k - 1]).next);
    assert(s1.stage == ProvisionStage::Copying);
    lemma_run_forward(m, upto1, 0);
    assert(upto1.take(0) =~= Seq::<ProvisionEventModel>::empty());
    assert(k >= 2);
    let upto0 = events.take(k - 2);
    assert(upto1.drop_last() =~= upto0);
    assert(upto1.last() == events[k - 2]);
    let s0 = m.after(upto0);
    assert(s1 == s0.step(events[k - 2]).next);
    assert(s0.stage == ProvisionStage::CreatingDir);
    lemma_run_forward(m, upto0, 0);
    lemma_step_forward(s0, events[k - 2]);
    lemma_step_forward(s1, events[k - 1]);
    assert(temp_path(m.cache_path).len() == m.cache_path.len() + ".tmp"@.len());
    reveal_strlit(".tmp");
}

/// Once a placeholder or a broken copy has been found in the cache, the
/// tool is handed out only after a fresh extraction: in a run that starts
/// before the cache has been looked at, if event `i` finds the state in a
/// stage past the probe of the old copy, every later `Ready` comes from
/// the verification of a file that was renamed onto the final place two
/// answers before.
pub proof fn lemma_ready_after_removal_is_fresh(
    m: ProvisionModel,
    events: Seq<ProvisionEventModel>,
    i: int,
    k: int,
)
    requires
        stage_rank(m.stage) <= stage_rank(ProvisionStage::CacheStat),
        0 <= i <= k < events.len(),
        stage_rank(m.after(events.take(i)).stage) >= stage_rank(ProvisionStage::Removing),
        m.answer(events, k) is Ready,
    ensures
        m.answer(events, k) == (ProvisionActionModel::Ready { path: m.cache_path }),
        m.after(events.take(k)).stage == ProvisionStage::Verifying,
        k >= 2,
        m.answer(events, k - 1) == m.after(events.take(k - 1)).probe(),
        events[k - 1] is Completed,
        m.answer(events, k - 2) == (ProvisionActionModel::Rename {
            from: temp_path(m.cache_path),
            to: m.cache_path,
        }),
        events[k - 2] is Completed,
{
    let upto = events.take(k);
    assert(upto.take(i) =~= events.take(i));
    lemma_run_forward(m, upto, i);
    lemma_run_forward(m, upto, 0);
    let s = m.after(upto);
    lemma_ready_is_verified(s, events[k]);
    assert(s.stage == ProvisionStage::Verifying);
    assert(upto.take(0) =~= Seq::<ProvisionEventModel>::empty());
    assert(k >= 1);
    let upto1 = events.take(k - 1);
    assert(upto.drop_last() =~= upto1);
    assert(upto.last() == events[k - 1]);
    let s1 = m.after(upto1);
    assert(s1.stage == ProvisionStage::Publishing);
    lemma_run_forward(m, upto1, 0);
    assert(upto1.take(0) =~= Seq::<ProvisionEventModel>::empty());
    assert(k >= 2);
    let upto2 = events.take(k - 2);
    assert(upto1.drop_last() =~= upto2);
    assert(upto1.last() == events[k - 2]);
    let s2 = m.after(upto2);
    assert(s2.stage == ProvisionStage::SettingMode);
    lemma_run_forward(m, upto2, 0);
}

// ---------------------------------------------------------------------------
// Code
// ---------------------------------------------------------------------------

/// `what`, a colon and `detail`.
fn io_message_of(what: &str, detail: &str) -> (r: String)
    ensures
        r@ == io_message(what@, detail@),
{
    let mut v = chars_of(what);
    append_str(&mut v, ": ");
    append_str(&mut v, detail);
    string_of(&v)
}

/// The place beside `path` where a fresh copy is prepared.
fn temp_path_of(path: &str) -> (r: String)
    ensures
        r@ == temp_path(path@),
{
    let mut v = chars_of(path);
    append_str(&mut v, ".tmp");
    string_of(&v)
}

impl ProvisionErrorModel {
    /// The words in which the error is told to the user.
    pub open spec fn message(self) -> Seq<char> {
        match self {
            ProvisionErrorModel::Extraction { message } => message,
            ProvisionErrorModel::Verification { message } => message,
            ProvisionErrorModel::CacheIo { message } => message,
            ProvisionErrorModel::UnexpectedEvent => "The provisioning was driven out of order."@,
        }
    }
}

impl ProvisionError {
    /// The words in which the error is told to the user.
    pub fn message(&self) -> (r: String)
        ensures
            r@ == self@.message(),
    {
        match self {
            ProvisionError::Extraction { message } => message.clone(),
            ProvisionError::Verification { message } => message.clone(),
            ProvisionError::CacheIo { message } => message.clone(),
            ProvisionError::UnexpectedEvent => owned("The provisioning was driven out of order."),
        }
    }
}

/// The provisioner of one tool.
pub struct Provisioner {
    tool: ToolBinary,
    stage: ProvisionStage,
    cache_dir: String,
    cache_path: String,
    source: String,
    source_size: u64,
    cached_size: u64,
}

/// What is believed of a tool's copy in the cache.
#[derive(Clone, Debug, PartialEq, Eq)]
pub struct CachedBinaryState {
    pub path: String,
    /// The size of the copy; zero where there is none.
    pub size: u64,
    /// Whether the copy has passed its version probe.
    pub verified: bool,
}

impl View for CachedBinaryState {
    type V = CachedStateModel;

    open spec fn view(&self) -> CachedStateModel {
        CachedStateModel { path: self.path@, size: self.size, verified: self.verified }
    }
}

impl View for Provisioner {
    type V = ProvisionModel;

    closed spec fn view(&self) -> ProvisionModel {
        ProvisionModel {
            tool: self.tool,
            stage: self.stage,
            cache_dir: self.cache_dir@,
            cache_path: self.cache_path@,
            source: self.source@,
            source_size: self.source_size,
            cached_size: self.cached_size,
        }
    }
}

impl Provisioner {
    /// A provisioner for `tool` whose cache lies below `app_data_dir`.
    pub fn new(tool: ToolBinary, app_data_dir: &str) -> (p: Provisioner)
        ensures
            p@ == ProvisionModel::initial(tool, app_data_dir@),
    {
        let dir = join_path(&chars_of(app_data_dir), &chars_of("bin"));
        Provisioner {
            tool,
            stage: ProvisionStage::Idle,
            cache_dir: string_of(&dir),
            cache_path: tool.cache_path(app_data_dir),
            source: String::new(),
            source_size: 0,
            cached_size: 0,
        }
    }

    /// What is believed of the copy in the cache.
    pub fn cached_state(&self) -> (r: CachedBinaryState)
        ensures
            r@ == self@.cached_state(),
    {
        CachedBinaryState {
            path: self.cache_path.clone(),
            size: self.cached_size,
            verified: self.stage == ProvisionStage::Ready,
        }
    }

    /// Where the provisioning stands.
    pub fn stage(&self) -> (r: ProvisionStage)
        ensures
            r == self@.stage,
    {
        self.stage
    }

    /// The final place of the tool in the cache.
    pub fn cache_path(&self) -> (r: String)
        ensures
            r@ == self@.cache_path,
    {
        self.cache_path.clone()
    }

    fn fail(&mut self, error: ProvisionError) -> (a: ProvisionAction)
        ensures
            final(self)@ == old(self)@.failed(error@).next,
            a@ == old(self)@.failed(error@).action,
    {
        self.stage = ProvisionStage::Failed;
        ProvisionAction::Fail { error }
    }

    fn probe(&self) -> (a: ProvisionAction)
        ensures
            a@ == self@.probe(),
    {
        ProvisionAction::Probe {
            program: self.cache_path.clone(),
            flag: owned(version_flag_of(self.tool.name)),
        }
    }

    fn remove(&mut self, stage: ProvisionStage) -> (a: ProvisionAction)
        ensures
            final(self)@ == old(self)@.removing(stage).next,
            a@ == old(self)@.removing(stage).action,
    {
        self.stage = stage;
        self.cached_size = 0;
        ProvisionAction::Remove { path: self.cache_path.clone() }
    }

    fn resolve(&mut self) -> (a: ProvisionAction)
        ensures
            final(self)@ == old(self)@.moved(
                ProvisionStage::Resolving,
                ProvisionActionModel::Resolve { relative: resource_path_of(old(self)@.tool) },
            ).next,
            a@ == (ProvisionActionModel::Resolve { relative: resource_path_of(old(self)@.tool) }),
    {
        self.stage = ProvisionStage::Resolving;
        ProvisionAction::Resolve { relative: self.tool.resource_path() }
    }

    fn ready(&mut self) -> (a: ProvisionAction)
        ensures
            final(self)@ == old(self)@.moved(
                ProvisionStage::Ready,
                ProvisionActionModel::Ready { path: old(self)@.cache_path },
            ).next,
            a@ == (ProvisionActionModel::Ready { path: old(self)@.cache_path }),
    {
        self.stage = ProvisionStage::Ready;
        ProvisionAction::Ready { path: self.cache_path.clone() }
    }

    fn not_bundled(&self) -> (r: String)
        ensures
            r@ == not_bundled_message(self@.tool),
    {
        let mut v = chars_of("Resource '");
        let relative = self.tool.resource_path();
        append_str(&mut v, relative.as_str());
        append_str(
            &mut v,
            "' is not bundled. Make sure binaries are placed in src-tauri/binaries/",
        );
        append_str(&mut v, self.tool.platform.dir_name());
        v.push('/');
        append_str(&mut v, self.tool.architecture.dir_name());
        append_str(&mut v, "/ and tauri.conf.json includes 'binaries/**' in bundle.resources");
        assert(v@ =~= not_bundled_message(self@.tool));
        string_of(&v)
    }

    fn missing(path: &str) -> (r: String)
        ensures
            r@ == missing_message(path@),
    {
        let mut v = chars_of("Bundled binary does not exist at resolved path: ");
        append_str(&mut v, path);
        string_of(&v)
    }

    fn placeholder(&self, path: &str) -> (r: String)
        ensures
            r@ == placeholder_message(path@, self@.tool),
    {
        let mut v = chars_of("Bundled binary at ");
        append_str(&mut v, path);
        append_str(
            &mut v,
            " is empty (0 bytes). This is likely a placeholder file.\n\nPlease replace it with an actual ",
        );
        append_str(&mut v, self.tool.name.program());
        append_str(
            &mut v,
            " binary:\n- yt-dlp: https://github.com/yt-dlp/yt-dlp/releases/latest\n- ffmpeg: https://ffmpeg.org/download.html",
        );
        assert(v@ =~= placeholder_message(path@, self@.tool));
        string_of(&v)
    }

    fn not_working(&self) -> (r: String)
        ensures
            r@ == not_working_message(self@.cache_path, self@.tool),
    {
        let mut v = chars_of("Extracted ");
        append_str(&mut v, self.tool.name.program());
        append_str(&mut v, " binary at ");
        append_str(&mut v, self.cache_path.as_str());
        append_str(&mut v, " is not working");
        assert(v@ =~= not_working_message(self@.cache_path, self@.tool));
        string_of(&v)
    }

    fn at_cache(&mut self, event: ProvisionEvent) -> (a: ProvisionAction)
        requires
            old(self)@.stage == ProvisionStage::CacheStat || old(self)@.stage
                == ProvisionStage::Probing || old(self)@.stage == ProvisionStage::Removing,
        ensures
            final(self)@ == old(self)@.step(event@).next,
            a@ == old(self)@.step(event@).action,
    {
        match self.stage {
            ProvisionStage::CacheStat => match event {
                ProvisionEvent::Stat { exists, size } => {
                    if !exists {
                        self.resolve()
                    } else if size == 0 {
                        self.remove(ProvisionStage::Removing)
                    } else {
                        self.stage = ProvisionStage::Probing;
                        self.cached_size = size;
                        self.probe()
                    }
                },
                _ => self.fail(ProvisionError::UnexpectedEvent),
            },
            ProvisionStage::Probing => match event {
                ProvisionEvent::Probed { success } => {
                    if success {
                        self.ready()
                    } else {
                        self.remove(ProvisionStage::Removing)
                    }
                },
                _ => self.fail(ProvisionError::UnexpectedEvent),
            },
            _ => match event {
                ProvisionEvent::Completed => self.resolve(),
                ProvisionEvent::IoFailed { message } => self.resolve(),
                _ => self.fail(ProvisionError::UnexpectedEvent),
            },
        }
    }

    fn at_resolving(&mut self, event: ProvisionEvent) -> (a: ProvisionAction)
        requires
            old(self)@.stage == ProvisionStage::Resolving,
        ensures
            final(self)@ == old(self)@.step(event@).next,
            a@ == old(self)@.step(event@).action,
    {
        match event {
            ProvisionEvent::Unresolved => {
                let message = self.not_bundled();
                self.fail(ProvisionError::Extraction { message })
            },
            ProvisionEvent::Resolved { path, exists, size } => {
                if !exists {
                    let message = Provisioner::missing(path.as_str());
                    self.fail(ProvisionError::Extraction { message })
                } else if size == 0 {
                    let message = self.placeholder(path.as_str());
                    self.fail(ProvisionError::Extraction { message })
                } else {
                    self.stage = ProvisionStage::CreatingDir;
                    self.source = path;
                    self.source_size = size;
                    ProvisionAction::CreateDir { path: self.cache_dir.clone() }
                }
            },
            _ => self.fail(ProvisionError::UnexpectedEvent),
        }
    }

    fn at_extraction(&mut self, event: ProvisionEvent) -> (a: ProvisionAction)
        requires
            old(self)@.stage == ProvisionStage::CreatingDir || old(self)@.stage
                == ProvisionStage::Copying || old(self)@.stage == ProvisionStage::SettingMode
                || old(self)@.stage == ProvisionStage::Publishing,
        ensures
            final(self)@ == old(self)@.step(event@).next,
            a@ == old(self)@.step(event@).action,
    {
        match event {
            ProvisionEvent::Completed => match self.stage {
                ProvisionStage::CreatingDir => {
                    self.stage = ProvisionStage::Copying;
                    ProvisionAction::Copy {
                        from: self.source.clone(),
                        to: temp_path_of(self.cache_path.as_str()),
                    }
                },
                ProvisionStage::Copying => {
                    self.stage = ProvisionStage::SettingMode;
                    ProvisionAction::MakeExecutable { path: temp_path_of(self.cache_path.as_str()) }
                },
                ProvisionStage::SettingMode => {
                    self.stage = ProvisionStage::Publishing;
                    ProvisionAction::Rename {
                        from: temp_path_of(self.cache_path.as_str()),
                        to: self.cache_path.clone(),
                    }
                },
                _ => {
                    self.stage = ProvisionStage::Verifying;
                    self.cached_size = self.source_size;
                    self.probe()
                },
            },
            ProvisionEvent::IoFailed { message } => {
                let what = match self.stage {
                    ProvisionStage::CreatingDir => "Failed to create bin directory",
                    ProvisionStage::Copying => "Failed to copy binary to temp location",
                    ProvisionStage::SettingMode => "Failed to set executable permissions",
                    _ => "Failed to rename temp file to final destination",
                };
                let message = io_message_of(what, message.as_str());
                self.fail(ProvisionError::CacheIo { message })
            },
            _ => self.fail(ProvisionError::UnexpectedEvent),
        }
    }

    fn at_verification(&mut self, event: ProvisionEvent) -> (a: ProvisionAction)
        requires
            old(self)@.stage == ProvisionStage::Verifying || old(self)@.stage
                == ProvisionStage::Discarding,
        ensures
            final(self)@ == old(self)@.step(event@).next,
            a@ == old(self)@.step(event@).action,
    {
        match self.stage {
            ProvisionStage::Verifying => match event {
                ProvisionEvent::Probed { success } => {
                    if success {
                        self.ready()
                    } else {
                        self.remove(ProvisionStage::Discarding)
                    }
                },
                _ => self.fail(ProvisionError::UnexpectedEvent),
            },
            _ => match event {
                ProvisionEvent::Completed => {
                    let message = self.not_working();
                    self.fail(ProvisionError::Verification { message })
                },
                ProvisionEvent::IoFailed { message } => {
                    let message = self.not_working();
                    self.fail(ProvisionError::Verification { message })
                },
                _ => self.fail(ProvisionError::UnexpectedEvent),
            },
        }
    }

    /// Answers `event` with the next action. An event that does not answer
    /// the pending action fails the provisioning.
    pub fn step(&mut self, event: ProvisionEvent) -> (a: ProvisionAction)
        ensures
            final(self)@ == old(self)@.step(event@).next,
            a@ == old(self)@.step(event@).action,
    {
        match self.stage {
            ProvisionStage::Idle => match event {
                ProvisionEvent::Start => {
                    self.stage = ProvisionStage::Locking;
                    ProvisionAction::Lock
                },
                _ => self.fail(ProvisionError::UnexpectedEvent),
            },
            ProvisionStage::Locking => match event {
                ProvisionEvent::Completed => {
                    self.stage = ProvisionStage::CacheStat;
                    ProvisionAction::StatCache { path: self.cache_path.clone() }
                },
                _ => self.fail(ProvisionError::UnexpectedEvent),
            },
            ProvisionStage::CacheStat | ProvisionStage::Probing | ProvisionStage::Removing =>
                self.at_cache(event),
            ProvisionStage::Resolving => self.at_resolving(event),
            ProvisionStage::CreatingDir
            | ProvisionStage::Copying
            | ProvisionStage::SettingMode
            | ProvisionStage::Publishing => self.at_extraction(event),
            ProvisionStage::Verifying | ProvisionStage::Discarding => self.at_verification(event),
            ProvisionStage::Ready => self.fail(ProvisionError::UnexpectedEvent),
            ProvisionStage::Failed => self.fail(ProvisionError::UnexpectedEvent),
        }
    }
}

} // verus!
