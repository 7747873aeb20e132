//! The run of the patch manager as a state machine.
//!
//! A run recovers the library folder (an install cut short is completed or
//! undone), reads the committed patch number, asks the server for a newer
//! patch, and either downloads, checks and installs it, or resumes a patch
//! that was downloaded earlier. Each call of [`WingbirdPatchManager::step`]
//! takes the outcome of the previous action and returns the next one; the
//! caller performs it and reports back, until the action is `Finish`.

use vstd::prelude::*;
use crate::digest::{digest_hex, verify_file_hash};
use crate::layout::FileKind;
use crate::manager::{WingbirdPatchManager, WingbirdPatchManagerConfig};
use crate::types::{LibCache, LibVersion, PatchConfig, PatchMetadata};
use crate::version::parse_version_text;

verus! {

/// A change to the files (or a download); reported back as `Event::Done`.
#[derive(Debug, PartialEq, Eq)]
pub enum Effect {
    /// Create the patch and library directories (with their parents).
    CreateDirs,
    /// Remove the file if it exists.
    Remove(FileKind),
    /// Rename the first file to the second.
    Rename(FileKind, FileKind),
    /// Write the version file's text for this version.
    WriteVersion(LibVersion),
    /// Write the install record as JSON.
    WriteCache(LibCache),
    /// Write the patch record as JSON.
    WritePatchConfig(PatchConfig),
    /// Download the patch with this id into `FileKind::TempPatch`.
    Download(String),
}

/// Why a run failed.
#[derive(Debug, Clone, Copy, PartialEq, Eq)]
pub enum RunError {
    /// A file operation or the download failed.
    Io,
    /// The downloaded patch could not be read, or its hash is not the announced one.
    DownloadVerificationFailed,
    /// The patched library's hash is not the announced one.
    PatchVerificationFailed,
}

/// What the caller is to do next.
#[derive(Debug, PartialEq, Eq)]
pub enum Action {
    /// Perform the effect; answer `Event::Done`.
    Perform(Effect),
    /// Tell whether the file exists; answer `Event::Exists`.
    Exists(FileKind),
    /// Read the version file as text; answer `Event::VersionText`.
    ReadVersion,
    /// Read and decode the install record; answer `Event::CacheRead`.
    ReadCache,
    /// Read and decode the patch record; answer `Event::PatchConfigRead`.
    ReadPatchConfig,
    /// Read the file's bytes; answer `Event::Bytes`.
    ReadFile(FileKind),
    /// Ask the server for the newest patch; answer `Event::LatestPatch`.
    CheckLatestPatch(CheckRequest),
    /// Produce the patched library from `Patch` and `NativeLibapp` into
    /// `TempLibapp` (through `PatchedOutput`); answer `Event::Patched`.
    ApplyPatchFiles,
    /// The run is over, with this result.
    Finish(Result<(), RunError>),
}

/// What the server is asked for: the newest patch of this application,
/// release, channel, platform and architecture above `current_patch_number`.
#[derive(Debug, PartialEq, Eq)]
pub struct CheckRequest {
    pub app_id: String,
    pub version: String,
    pub channel: String,
    pub platform: String,
    pub architecture: String,
    pub current_patch_number: u32,
}

/// The outcome of the last action.
#[derive(Debug, PartialEq, Eq)]
pub enum Event {
    /// The run begins.
    Start,
    /// The effect succeeded (`true`) or failed.
    Done(bool),
    /// Whether the file exists.
    Exists(bool),
    /// The version file's text, or `None` if it could not be read.
    VersionText(Option<String>),
    /// The install record, or `None` if it could not be read or decoded.
    CacheRead(Option<LibCache>),
    /// The patch record, or `None` if it could not be read or decoded.
    PatchConfigRead(Option<PatchConfig>),
    /// The file's bytes, or `None` if it could not be read.
    Bytes(Option<Vec<u8>>),
    /// The server's answer: `None` if the request failed, else whether a newer patch exists.
    LatestPatch(Option<Option<PatchMetadata>>),
    /// The patched library's hash (lower-case hex), or `None` if patching failed.
    Patched(Option<String>),
}

/// A patch to install into the library folder.
#[derive(Debug, PartialEq, Eq)]
pub struct ApplyJob {
    pub libapp_hash: String,
    pub patch_number: u32,
    pub version: String,
    /// Whether this resumes a patch downloaded by an earlier run (a failure
    /// then discards the patch instead of failing the run).
    pub in_recovery: bool,
}

/// What follows once a plan of effects is done.
#[derive(Debug, PartialEq, Eq)]
pub enum Next {
    LibProbe,
    CurrentPatchNumber,
    VerifyDownload(PatchMetadata),
    Apply(ApplyJob),
    ApplyFiles(ApplyJob, bool),
    Finish,
}

/// What a failed effect leads to.
#[derive(Debug, Clone, Copy, PartialEq, Eq)]
pub enum OnError {
    /// The run fails.
    Abort,
    /// The downloaded patch is discarded and the run ends well.
    CleanupPatch,
}

/// A fixed sequence of effects.
#[derive(Debug, PartialEq, Eq)]
pub enum Plan {
    EnsureDirs,
    CleanupLib,
    DropCache,
    DropCacheAndTemp,
    /// Commit the library in place, which hashes to the given hex.
    CommitLibapp(LibVersion, String),
    /// Move the temporary library, which hashes to the given hex, into place and commit it.
    CommitTemp(LibVersion, String),
    DropTempThenCleanupLib,
    CleanupPatch,
    StagePatch(PatchConfig, String),
    PromotePatch,
    RecordCache(LibCache),
    /// Install the patched library, which hashes to the given hex (dropping
    /// the old version file first when the flag is set).
    Install(bool, LibVersion, String),
}

/// Where a run stands.
#[derive(Debug, PartialEq, Eq)]
pub enum Stage {
    Start,
    Performing { plan: Plan, index: usize, then: Next, on_error: OnError },
    LibProbeVersion,
    LibProbeCache { version: bool },
    LibProbeTemp { version: bool, cache: bool },
    LibProbeLib { version: bool, cache: bool, temp: bool },
    LibReadVersion { cache: bool },
    LibReadCache { temp: bool, lib: bool },
    LibCheckLib { cache: LibCache, temp: bool },
    LibCheckTemp { cache: LibCache },
    NumberProbe,
    NumberRead,
    Checking,
    VerifyDownload { meta: PatchMetadata },
    PatchProbe,
    PatchProbeConfig { patch: bool },
    PatchReadConfig,
    PatchCheck { config: PatchConfig },
    ApplyProbeVersion { job: ApplyJob },
    Applying { job: ApplyJob, version_existed: bool },
    Finished,
}

pub open spec fn install_tail(v: LibVersion) -> Seq<Effect> {
    seq![
        Effect::Rename(FileKind::TempLibapp, FileKind::Libapp),
        Effect::WriteVersion(v),
        Effect::Remove(FileKind::Cache),
        Effect::Remove(FileKind::TempPatch),
        Effect::Remove(FileKind::Patch),
        Effect::Remove(FileKind::PatchConfig),
    ]
}

/// The effects of each plan, in order.
pub open spec fn plan_effects(p: Plan) -> Seq<Effect> {
    match p {
        Plan::EnsureDirs => seq![Effect::CreateDirs],
        Plan::CleanupLib => seq![
            Effect::Remove(FileKind::Cache),
            Effect::Remove(FileKind::TempLibapp),
            Effect::Remove(FileKind::Libapp),
        ],
        Plan::DropCache => seq![Effect::Remove(FileKind::Cache)],
        Plan::DropCacheAndTemp => seq![
            Effect::Remove(FileKind::Cache),
            Effect::Remove(FileKind::TempLibapp),
        ],
        Plan::CommitLibapp(v, _) => seq![
            Effect::WriteVersion(v),
            Effect::Remove(FileKind::Cache),
            Effect::Remove(FileKind::TempLibapp),
        ],
        Plan::CommitTemp(v, _) => seq![
            Effect::Rename(FileKind::TempLibapp, FileKind::Libapp),
            Effect::WriteVersion(v),
            Effect::Remove(FileKind::Cache),
        ],
        Plan::DropTempThenCleanupLib => seq![
            Effect::Remove(FileKind::TempLibapp),
            Effect::Remove(FileKind::Cache),
            Effect::Remove(FileKind::TempLibapp),
            Effect::Remove(FileKind::Libapp),
        ],
        Plan::CleanupPatch => seq![
            Effect::Remove(FileKind::TempPatch),
            Effect::Remove(FileKind::Patch),
            Effect::Remove(FileKind::PatchConfig),
        ],
        Plan::StagePatch(c, id) => seq![
            Effect::Remove(FileKind::TempPatch),
            Effect::Remove(FileKind::PatchConfig),
            Effect::Remove(FileKind::Patch),
            Effect::WritePatchConfig(c),
            Effect::Download(id),
        ],
        Plan::PromotePatch => seq![Effect::Rename(FileKind::TempPatch, FileKind::Patch)],
        Plan::RecordCache(c) => seq![Effect::WriteCache(c)],
        Plan::Install(drop_version, v, _) => if drop_version {
            seq![Effect::Remove(FileKind::Version)] + install_tail(v)
        } else {
            install_tail(v)
        },
    }
}

pub open spec fn finish_spec(r: Result<(), RunError>) -> (Stage, Action) {
    (Stage::Finished, Action::Finish(r))
}

/// Start a plan (every plan has at least one effect).
pub open spec fn perform_spec(plan: Plan, then: Next, on_error: OnError) -> (Stage, Action) {
    (
        Stage::Performing { plan, index: 0, then, on_error },
        Action::Perform(plan_effects(plan)[0]),
    )
}

/// The first action of what follows a plan.
pub open spec fn enter_spec(next: Next) -> (Stage, Action) {
    match next {
        Next::LibProbe => (Stage::LibProbeVersion, Action::Exists(FileKind::Version)),
        Next::CurrentPatchNumber => (Stage::NumberProbe, Action::Exists(FileKind::Version)),
        Next::VerifyDownload(meta) => (
            Stage::VerifyDownload { meta },
            Action::ReadFile(FileKind::TempPatch),
        ),
        Next::Apply(job) => (Stage::ApplyProbeVersion { job }, Action::Exists(FileKind::Version)),
        Next::ApplyFiles(job, version_existed) => (
            Stage::Applying { job, version_existed },
            Action::ApplyPatchFiles,
        ),
        Next::Finish => finish_spec(Ok(())),
    }
}

pub open spec fn job_on_error(job: ApplyJob) -> OnError {
    if job.in_recovery {
        OnError::CleanupPatch
    } else {
        OnError::Abort
    }
}

/// An install that failed: a resumed patch is discarded, a fresh one fails the run.
pub open spec fn apply_failed_spec(job: ApplyJob, err: RunError) -> (Stage, Action) {
    if job.in_recovery {
        perform_spec(Plan::CleanupPatch, Next::Finish, OnError::Abort)
    } else {
        finish_spec(Err(err))
    }
}

/// The committed patch number of release `version`: the number that the
/// version file's text gives when the text is readable, valid and names
/// that release; 0 otherwise (a version file of another release commits no
/// patch of this one).
pub open spec fn patch_number_of(version: Seq<char>, text: Option<String>) -> u32 {
    match text {
        Some(t) => match parse_version_text(t@) {
            Some((release, n)) => if release == version {
                n
            } else {
                0
            },
            None => 0,
        },
        None => 0,
    }
}

/// The request for the newest patch above `n`, with the configured fields.
pub open spec fn check_request(cfg: WingbirdPatchManagerConfig, n: u32) -> CheckRequest {
    CheckRequest {
        app_id: cfg.app_id,
        version: cfg.version,
        channel: cfg.channel,
        platform: cfg.platform,
        architecture: cfg.architecture,
        current_patch_number: n,
    }
}

/// The version to commit from an install record.
pub open spec fn version_of_cache(c: LibCache) -> LibVersion {
    LibVersion { release_version: c.release_version, patch_number: c.patch_number }
}

/// Whether `event` is an answer to the action that led to `stage`.
pub open spec fn accepts(stage: Stage, event: Event) -> bool {
    match stage {
        Stage::Start => event is Start,
        Stage::Performing { .. } => event is Done,
        Stage::LibProbeVersion | Stage::LibProbeCache { .. } | Stage::LibProbeTemp { .. }
        | Stage::LibProbeLib { .. } | Stage::NumberProbe | Stage::PatchProbe
        | Stage::PatchProbeConfig { .. } | Stage::ApplyProbeVersion { .. } => event is Exists,
        Stage::LibReadVersion { .. } | Stage::NumberRead => match event {
            // reading the text panics where it has no `:`
            Event::VersionText(Some(t)) => t@.contains(':'),
            Event::VersionText(None) => true,
            _ => false,
        },
        Stage::LibReadCache { .. } => event is CacheRead,
        Stage::LibCheckLib { .. } | Stage::LibCheckTemp { .. } | Stage::VerifyDownload { .. }
        | Stage::PatchCheck { .. } => event is Bytes,
        Stage::Checking => event is LatestPatch,
        Stage::PatchReadConfig => event is PatchConfigRead,
        Stage::Applying { .. } => event is Patched,
        Stage::Finished => false,
    }
}

/// The next step while a plan is carried out: its next effect, or what
/// follows it once all are done; a failed effect ends it as `on_error` says.
pub open spec fn next_step_performing(plan: Plan, index: usize, then: Next, on_error: OnError, event: Event) -> (Stage, Action) {
    match event {
        Event::Done(true) => if index + 1 < plan_effects(plan).len() {
            (
                Stage::Performing { plan, index: (index + 1) as usize, then, on_error },
                Action::Perform(plan_effects(plan)[index + 1]),
            )
        } else {
            enter_spec(then)
        },
        _ => match on_error {
            OnError::Abort => finish_spec(Err(RunError::Io)),
            OnError::CleanupPatch => perform_spec(Plan::CleanupPatch, Next::Finish, OnError::Abort),
        },
    }
}

/// The next stage and action of a run of the manager configured with `cfg`.
pub open spec fn next_step(cfg: WingbirdPatchManagerConfig, stage: Stage, event: Event) -> (Stage, Action) {
    let version = cfg.version;
    match stage {
        Stage::Start => perform_spec(Plan::EnsureDirs, Next::LibProbe, OnError::Abort),
        Stage::Performing { plan, index, then, on_error } => next_step_performing(
            plan,
            index,
            then,
            on_error,
            event,
        ),
        // recover_from_lib_broken: which of the library files exist
        Stage::LibProbeVersion => match event {
            Event::Exists(v) => (Stage::LibProbeCache { version: v }, Action::Exists(FileKind::Cache)),
            _ => finish_spec(Err(RunError::Io)),
        },
        Stage::LibProbeCache { version: v } => match event {
            Event::Exists(c) => (
                Stage::LibProbeTemp { version: v, cache: c },
                Action::Exists(FileKind::TempLibapp),
            ),
            _ => finish_spec(Err(RunError::Io)),
        },
        Stage::LibProbeTemp { version: v, cache: c } => match event {
            Event::Exists(t) => (
                Stage::LibProbeLib { version: v, cache: c, temp: t },
                Action::Exists(FileKind::Libapp),
            ),
            _ => finish_spec(Err(RunError::Io)),
        },
        Stage::LibProbeLib { version: v, cache: c, temp: t } => match event {
            Event::Exists(l) => if v {
                (Stage::LibReadVersion { cache: c }, Action::ReadVersion)
            } else if c {
                (Stage::LibReadCache { temp: t, lib: l }, Action::ReadCache)
            } else {
                perform_spec(Plan::CleanupLib, Next::CurrentPatchNumber, OnError::Abort)
            },
            _ => finish_spec(Err(RunError::Io)),
        },
        // a committed version exists: keep it only for this release
        Stage::LibReadVersion { cache: c } => match event {
            Event::VersionText(Some(t)) => match parse_version_text(t@) {
                Some((release, _)) => if release != version@ {
                    perform_spec(Plan::CleanupLib, Next::CurrentPatchNumber, OnError::Abort)
                } else if c {
                    perform_spec(Plan::DropCache, Next::CurrentPatchNumber, OnError::Abort)
                } else {
                    enter_spec(Next::CurrentPatchNumber)
                },
                None => perform_spec(Plan::CleanupLib, Next::CurrentPatchNumber, OnError::Abort),
            },
            _ => perform_spec(Plan::CleanupLib, Next::CurrentPatchNumber, OnError::Abort),
        },
        // no committed version but an install record: finish the install if a library matches it
        Stage::LibReadCache { temp: t, lib: l } => match event {
            Event::CacheRead(Some(cache)) => if cache.release_version@ != version@ {
                perform_spec(Plan::DropCacheAndTemp, Next::CurrentPatchNumber, OnError::Abort)
            } else if l {
                (Stage::LibCheckLib { cache, temp: t }, Action::ReadFile(FileKind::Libapp))
            } else if t {
                (Stage::LibCheckTemp { cache }, Action::ReadFile(FileKind::TempLibapp))
            } else {
                perform_spec(Plan::CleanupLib, Next::CurrentPatchNumber, OnError::Abort)
            },
            _ => perform_spec(Plan::DropCacheAndTemp, Next::CurrentPatchNumber, OnError::Abort),
        },
        Stage::LibCheckLib { cache, temp: t } => match event {
            Event::Bytes(Some(b)) => if digest_hex(b@) == cache.libapp_hash@ {
                perform_spec(
                    Plan::CommitLibapp(version_of_cache(cache), cache.libapp_hash),
                    Next::CurrentPatchNumber,
                    OnError::Abort,
                )
            } else if t {
                (Stage::LibCheckTemp { cache }, Action::ReadFile(FileKind::TempLibapp))
            } else {
                perform_spec(Plan::CleanupLib, Next::CurrentPatchNumber, OnError::Abort)
            },
            _ => finish_spec(Err(RunError::Io)),
        },
        Stage::LibCheckTemp { cache } => match event {
            Event::Bytes(Some(b)) => if digest_hex(b@) == cache.libapp_hash@ {
                perform_spec(
                    Plan::CommitTemp(version_of_cache(cache), cache.libapp_hash),
                    Next::CurrentPatchNumber,
                    OnError::Abort,
                )
            } else {
                perform_spec(Plan::DropTempThenCleanupLib, Next::CurrentPatchNumber, OnError::Abort)
            },
            _ => finish_spec(Err(RunError::Io)),
        },
        // get_current_patch_number
        Stage::NumberProbe => match event {
            Event::Exists(true) => (Stage::NumberRead, Action::ReadVersion),
            _ => (Stage::Checking, Action::CheckLatestPatch(check_request(cfg, 0))),
        },
        Stage::NumberRead => match event {
            Event::VersionText(t) => (
                Stage::Checking,
                Action::CheckLatestPatch(check_request(cfg, patch_number_of(version@, t))),
            ),
            _ => (Stage::Checking, Action::CheckLatestPatch(check_request(cfg, 0))),
        },
        // the server's answer
        Stage::Checking => match event {
            Event::LatestPatch(Some(Some(meta))) => perform_spec(
                Plan::StagePatch(
                    PatchConfig {
                        patch_number: meta.patch_number,
                        patch_hash: meta.patch_hash,
                        libapp_hash: meta.libapp_hash,
                        release_version: version,
                    },
                    meta.id,
                ),
                Next::VerifyDownload(meta),
                OnError::Abort,
            ),
            _ => (Stage::PatchProbe, Action::Exists(FileKind::Patch)),
        },
        Stage::VerifyDownload { meta } => match event {
            Event::Bytes(Some(b)) => if digest_hex(b@) == meta.patch_hash@ {
                perform_spec(
                    Plan::PromotePatch,
                    Next::Apply(
                        ApplyJob {
                            libapp_hash: meta.libapp_hash,
                            patch_number: meta.patch_number,
                            version,
                            in_recovery: false,
                        },
                    ),
                    OnError::Abort,
                )
            } else {
                finish_spec(Err(RunError::DownloadVerificationFailed))
            },
            _ => finish_spec(Err(RunError::DownloadVerificationFailed)),
        },
        // recover_from_patch_broken: resume a downloaded patch of this release
        Stage::PatchProbe => match event {
            Event::Exists(p) => (Stage::PatchProbeConfig { patch: p }, Action::Exists(FileKind::PatchConfig)),
            _ => finish_spec(Err(RunError::Io)),
        },
        Stage::PatchProbeConfig { patch: p } => match event {
            Event::Exists(c) => if p && c {
                (Stage::PatchReadConfig, Action::ReadPatchConfig)
            } else {
                finish_spec(Ok(()))
            },
            _ => finish_spec(Err(RunError::Io)),
        },
        Stage::PatchReadConfig => match event {
            Event::PatchConfigRead(Some(config)) => if config.release_version@ != version@ {
                perform_spec(Plan::CleanupPatch, Next::Finish, OnError::Abort)
            } else {
                (Stage::PatchCheck { config }, Action::ReadFile(FileKind::Patch))
            },
            _ => perform_spec(Plan::CleanupPatch, Next::Finish, OnError::Abort),
        },
        Stage::PatchCheck { config } => match event {
            Event::Bytes(Some(b)) => if digest_hex(b@) == config.patch_hash@ {
                enter_spec(
                    Next::Apply(
                        ApplyJob {
                            libapp_hash: config.libapp_hash,
                            patch_number: config.patch_number,
                            version: config.release_version,
                            in_recovery: true,
                        },
                    ),
                )
            } else {
                perform_spec(Plan::CleanupPatch, Next::Finish, OnError::Abort)
            },
            _ => finish_spec(Err(RunError::Io)),
        },
        // apply_patch
        Stage::ApplyProbeVersion { job } => match event {
            Event::Exists(ve) => perform_spec(
                Plan::RecordCache(
                    LibCache {
                        libapp_hash: job.libapp_hash,
                        release_version: job.version,
                        patch_number: job.patch_number,
                    },
                ),
                Next::ApplyFiles(job, ve),
                job_on_error(job),
            ),
            _ => finish_spec(Err(RunError::Io)),
        },
        Stage::Applying { job, version_existed } => match event {
            Event::Patched(Some(h)) => if h@ == job.libapp_hash@ {
                perform_spec(
                    Plan::Install(
                        version_existed,
                        LibVersion { release_version: job.version, patch_number: job.patch_number },
                        job.libapp_hash,
                    ),
                    Next::Finish,
                    job_on_error(job),
                )
            } else {
                apply_failed_spec(job, RunError::PatchVerificationFailed)
            },
            _ => apply_failed_spec(job, RunError::Io),
        },
        Stage::Finished => finish_spec(Ok(())),
    }
}


/// Every plan has at least one effect.
pub proof fn lemma_plan_nonempty(p: Plan)
    ensures
        plan_effects(p).len() > 0,
{
}

fn copy_string(s: &String) -> (r: String)
    ensures
        r == *s,
{
    s.clone()
}

fn copy_version(v: &LibVersion) -> (r: LibVersion)
    ensures
        r == *v,
{
    LibVersion { release_version: copy_string(&v.release_version), patch_number: v.patch_number }
}

fn copy_cache(c: &LibCache) -> (r: LibCache)
    ensures
        r == *c,
{
    LibCache {
        libapp_hash: copy_string(&c.libapp_hash),
        release_version: copy_string(&c.release_version),
        patch_number: c.patch_number,
    }
}

fn copy_config(c: &PatchConfig) -> (r: PatchConfig)
    ensures
        r == *c,
{
    PatchConfig {
        patch_number: c.patch_number,
        patch_hash: copy_string(&c.patch_hash),
        libapp_hash: copy_string(&c.libapp_hash),
        release_version: copy_string(&c.release_version),
    }
}

fn plan_len(p: &Plan) -> (n: usize)
    ensures
        n == plan_effects(*p).len(),
{
    match p {
        Plan::EnsureDirs => 1,
        Plan::CleanupLib => 3,
        Plan::DropCache => 1,
        Plan::DropCacheAndTemp => 2,
        Plan::CommitLibapp(_, _) => 3,
        Plan::CommitTemp(_, _) => 3,
        Plan::DropTempThenCleanupLib => 4,
        Plan::CleanupPatch => 3,
        Plan::StagePatch(_, _) => 5,
        Plan::PromotePatch => 1,
        Plan::RecordCache(_) => 1,
        Plan::Install(drop_version, _, _) => if *drop_version {
            7
        } else {
            6
        },
    }
}

fn install_tail_effect(v: &LibVersion, j: usize) -> (e: Effect)
    requires
        j < 6,
    ensures
        e == install_tail(*v)[j as int],
{
    match j {
        0 => Effect::Rename(FileKind::TempLibapp, FileKind::Libapp),
        1 => Effect::WriteVersion(copy_version(v)),
        2 => Effect::Remove(FileKind::Cache),
        3 => Effect::Remove(FileKind::TempPatch),
        4 => Effect::Remove(FileKind::Patch),
        _ => Effect::Remove(FileKind::PatchConfig),
    }
}

/// The `i`-th effect of a plan.
fn plan_effect(p: &Plan, i: usize) -> (e: Effect)
    requires
        i < plan_effects(*p).len(),
    ensures
        e == plan_effects(*p)[i as int],
{
    match p {
        Plan::EnsureDirs => Effect::CreateDirs,
        Plan::CleanupLib => match i {
            0 => Effect::Remove(FileKind::Cache),
            1 => Effect::Remove(FileKind::TempLibapp),
            _ => Effect::Remove(FileKind::Libapp),
        },
        Plan::DropCache => Effect::Remove(FileKind::Cache),
        Plan::DropCacheAndTemp => if i == 0 {
            Effect::Remove(FileKind::Cache)
        } else {
            Effect::Remove(FileKind::TempLibapp)
        },
        Plan::CommitLibapp(v, _) => match i {
            0 => Effect::WriteVersion(copy_version(v)),
            1 => Effect::Remove(FileKind::Cache),
            _ => Effect::Remove(FileKind::TempLibapp),
        },
        Plan::CommitTemp(v, _) => match i {
            0 => Effect::Rename(FileKind::TempLibapp, FileKind::Libapp),
            1 => Effect::WriteVersion(copy_version(v)),
            _ => Effect::Remove(FileKind::Cache),
        },
        Plan::DropTempThenCleanupLib => match i {
            0 => Effect::Remove(FileKind::TempLibapp),
            1 => Effect::Remove(FileKind::Cache),
            2 => Effect::Remove(FileKind::TempLibapp),
            _ => Effect::Remove(FileKind::Libapp),
        },
        Plan::CleanupPatch => match i {
            0 => Effect::Remove(FileKind::TempPatch),
            1 => Effect::Remove(FileKind::Patch),
            _ => Effect::Remove(FileKind::PatchConfig),
        },
        Plan::StagePatch(c, id) => match i {
            0 => Effect::Remove(FileKind::TempPatch),
            1 => Effect::Remove(FileKind::PatchConfig),
            2 => Effect::Remove(FileKind::Patch),
            3 => Effect::WritePatchConfig(copy_config(c)),
            _ => Effect::Download(copy_string(id)),
        },
        Plan::PromotePatch => Effect::Rename(FileKind::TempPatch, FileKind::Patch),
        Plan::RecordCache(c) => Effect::WriteCache(copy_cache(c)),
        Plan::Install(drop_version, v, _) => {
            if *drop_version {
                if i == 0 {
                    Effect::Remove(FileKind::Version)
                } else {
                    install_tail_effect(v, i - 1)
                }
            } else {
                install_tail_effect(v, i)
            }
        },
    }
}

fn finish(r: Result<(), RunError>) -> (out: (Stage, Action))
    ensures
        out == finish_spec(r),
{
    (Stage::Finished, Action::Finish(r))
}

fn perform(plan: Plan, then: Next, on_error: OnError) -> (out: (Stage, Action))
    ensures
        out == perform_spec(plan, then, on_error),
{
    proof {
        lemma_plan_nonempty(plan);
    }
    let e = plan_effect(&plan, 0);
    (Stage::Performing { plan, index: 0, then, on_error }, Action::Perform(e))
}

fn enter(next: Next) -> (out: (Stage, Action))
    ensures
        out == enter_spec(next),
{
    match next {
        Next::LibProbe => (Stage::LibProbeVersion, Action::Exists(FileKind::Version)),
        Next::CurrentPatchNumber => (Stage::NumberProbe, Action::Exists(FileKind::Version)),
        Next::VerifyDownload(meta) => (
            Stage::VerifyDownload { meta },
            Action::ReadFile(FileKind::TempPatch),
        ),
        Next::Apply(job) => (Stage::ApplyProbeVersion { job }, Action::Exists(FileKind::Version)),
        Next::ApplyFiles(job, version_existed) => (
            Stage::Applying { job, version_existed },
            Action::ApplyPatchFiles,
        ),
        Next::Finish => finish(Ok(())),
    }
}

fn on_error_of(job: &ApplyJob) -> (r: OnError)
    ensures
        r == job_on_error(*job),
{
    if job.in_recovery {
        OnError::CleanupPatch
    } else {
        OnError::Abort
    }
}

fn apply_failed(job: ApplyJob, err: RunError) -> (out: (Stage, Action))
    ensures
        out == apply_failed_spec(job, err),
{
    if job.in_recovery {
        perform(Plan::CleanupPatch, Next::Finish, OnError::Abort)
    } else {
        finish(Err(err))
    }
}

fn patch_number_of_text(version: &String, text: &Option<String>) -> (n: u32)
    requires
        text matches Some(t) ==> t@.contains(':'),
    ensures
        n == patch_number_of(version@, *text),
{
    match text {
        Some(t) => match LibVersion::from_file_content(t.as_str()) {
            Ok(v) => if v.release_version == *version {
                v.patch_number
            } else {
                0
            },
            Err(_) => 0,
        },
        None => 0,
    }
}

impl WingbirdPatchManager {
    /// The committed patch number of the configured release, from the
    /// version file's text (`None` when the file is missing or unreadable):
    /// 0 unless the text holds a valid number and names the configured release.
    pub fn get_current_patch_number(&self, version_text: Option<&str>) -> (n: u32)
        requires
            version_text matches Some(t) ==> t@.contains(':'),
        ensures
            n == match version_text {
                Some(t) => match parse_version_text(t@) {
                    Some((release, n)) => if release == self.config.version@ {
                        n
                    } else {
                        0
                    },
                    None => 0,
                },
                None => 0,
            },
    {
        match version_text {
            Some(t) => match LibVersion::from_file_content(t) {
                Ok(v) => if v.release_version == self.config.version {
                    v.patch_number
                } else {
                    0
                },
                Err(_) => 0,
            },
            None => 0,
        }
    }

    fn request(&self, n: u32) -> (r: CheckRequest)
        ensures
            r == check_request(self.config, n),
    {
        CheckRequest {
            app_id: copy_string(&self.config.app_id),
            version: copy_string(&self.config.version),
            channel: copy_string(&self.config.channel),
            platform: copy_string(&self.config.platform),
            architecture: copy_string(&self.config.architecture),
            current_patch_number: n,
        }
    }

    fn step_performing(plan: Plan, index: usize, then: Next, on_error: OnError, event: Event) -> (out: (Stage, Action))
        ensures
            out == next_step_performing(plan, index, then, on_error, event),
    {
        match event {
            Event::Done(true) => {
                let n = plan_len(&plan);
                if index < n - 1 {
                    let e = plan_effect(&plan, index + 1);
                    (Stage::Performing { plan, index: index + 1, then, on_error }, Action::Perform(e))
                } else {
                    proof {
                        lemma_plan_nonempty(plan);
                    }
                    enter(then)
                }
            },
            _ => match on_error {
                OnError::Abort => finish(Err(RunError::Io)),
                OnError::CleanupPatch => perform(Plan::CleanupPatch, Next::Finish, OnError::Abort),
            },
        }
    }

    fn step_lib(&self, stage: Stage, event: Event) -> (out: (Stage, Action))
        requires
            event matches Event::VersionText(Some(t)) ==> t@.contains(':'),
            stage is LibProbeVersion || stage is LibProbeCache || stage is LibProbeTemp
                || stage is LibProbeLib || stage is LibReadVersion || stage is LibReadCache
                || stage is LibCheckLib || stage is LibCheckTemp,
        ensures
            out == next_step(self.config, stage, event),
    {
        match stage {
            Stage::LibProbeVersion => match event {
                Event::Exists(v) => (Stage::LibProbeCache { version: v }, Action::Exists(FileKind::Cache)),
                _ => finish(Err(RunError::Io)),
            },
            Stage::LibProbeCache { version: v } => match event {
                Event::Exists(c) => (
                    Stage::LibProbeTemp { version: v, cache: c },
                    Action::Exists(FileKind::TempLibapp),
                ),
                _ => finish(Err(RunError::Io)),
            },
            Stage::LibProbeTemp { version: v, cache: c } => match event {
                Event::Exists(t) => (
                    Stage::LibProbeLib { version: v, cache: c, temp: t },
                    Action::Exists(FileKind::Libapp),
                ),
                _ => finish(Err(RunError::Io)),
            },
            Stage::LibProbeLib { version: v, cache: c, temp: t } => match event {
                Event::Exists(l) => if v {
                    (Stage::LibReadVersion { cache: c }, Action::ReadVersion)
                } else if c {
                    (Stage::LibReadCache { temp: t, lib: l }, Action::ReadCache)
                } else {
                    perform(Plan::CleanupLib, Next::CurrentPatchNumber, OnError::Abort)
                },
                _ => finish(Err(RunError::Io)),
            },
            Stage::LibReadVersion { cache: c } => match event {
                Event::VersionText(Some(t)) => match LibVersion::from_file_content(t.as_str()) {
                    Ok(v) => if !(v.release_version == self.config.version) {
                        perform(Plan::CleanupLib, Next::CurrentPatchNumber, OnError::Abort)
                    } else if c {
                        perform(Plan::DropCache, Next::CurrentPatchNumber, OnError::Abort)
                    } else {
                        enter(Next::CurrentPatchNumber)
                    },
                    Err(_) => perform(Plan::CleanupLib, Next::CurrentPatchNumber, OnError::Abort),
                },
                _ => perform(Plan::CleanupLib, Next::CurrentPatchNumber, OnError::Abort),
            },
            Stage::LibReadCache { temp: t, lib: l } => match event {
                Event::CacheRead(Some(cache)) => if !(cache.release_version == self.config.version) {
                    perform(Plan::DropCacheAndTemp, Next::CurrentPatchNumber, OnError::Abort)
                } else if l {
                    (Stage::LibCheckLib { cache, temp: t }, Action::ReadFile(FileKind::Libapp))
                } else if t {
                    (Stage::LibCheckTemp { cache }, Action::ReadFile(FileKind::TempLibapp))
                } else {
                    perform(Plan::CleanupLib, Next::CurrentPatchNumber, OnError::Abort)
                },
                _ => perform(Plan::DropCacheAndTemp, Next::CurrentPatchNumber, OnError::Abort),
            },
            Stage::LibCheckLib { cache, temp: t } => match event {
                Event::Bytes(Some(b)) => if verify_file_hash(b.as_slice(), cache.libapp_hash.as_str()) {
                    let v = LibVersion {
                        release_version: cache.release_version,
                        patch_number: cache.patch_number,
                    };
                    perform(Plan::CommitLibapp(v, cache.libapp_hash), Next::CurrentPatchNumber, OnError::Abort)
                } else if t {
                    (Stage::LibCheckTemp { cache }, Action::ReadFile(FileKind::TempLibapp))
                } else {
                    perform(Plan::CleanupLib, Next::CurrentPatchNumber, OnError::Abort)
                },
                _ => finish(Err(RunError::Io)),
            },
            Stage::LibCheckTemp { cache } => match event {
                Event::Bytes(Some(b)) => if verify_file_hash(b.as_slice(), cache.libapp_hash.as_str()) {
                    let v = LibVersion {
                        release_version: cache.release_version,
                        patch_number: cache.patch_number,
                    };
                    perform(Plan::CommitTemp(v, cache.libapp_hash), Next::CurrentPatchNumber, OnError::Abort)
                } else {
                    perform(Plan::DropTempThenCleanupLib, Next::CurrentPatchNumber, OnError::Abort)
                },
                _ => finish(Err(RunError::Io)),
            },
            _ => finish(Ok(())),
        }
    }

    fn step_patch(&self, stage: Stage, event: Event) -> (out: (Stage, Action))
        requires
            event matches Event::VersionText(Some(t)) ==> t@.contains(':'),
            stage is NumberProbe || stage is NumberRead || stage is Checking
                || stage is VerifyDownload || stage is PatchProbe || stage is PatchProbeConfig
                || stage is PatchReadConfig || stage is PatchCheck || stage is ApplyProbeVersion
                || stage is Applying,
        ensures
            out == next_step(self.config, stage, event),
    {
        match stage {
            Stage::NumberProbe => match event {
                Event::Exists(true) => (Stage::NumberRead, Action::ReadVersion),
                _ => (Stage::Checking, Action::CheckLatestPatch(self.request(0))),
            },
            Stage::NumberRead => match event {
                Event::VersionText(t) => {
                    let n = patch_number_of_text(&self.config.version, &t);
                    (Stage::Checking, Action::CheckLatestPatch(self.request(n)))
                },
                _ => (Stage::Checking, Action::CheckLatestPatch(self.request(0))),
            },
            Stage::Checking => match event {
                Event::LatestPatch(Some(Some(meta))) => {
                    let config = PatchConfig {
                        patch_number: meta.patch_number,
                        patch_hash: copy_string(&meta.patch_hash),
                        libapp_hash: copy_string(&meta.libapp_hash),
                        release_version: copy_string(&self.config.version),
                    };
                    let id = copy_string(&meta.id);
                    perform(Plan::StagePatch(config, id), Next::VerifyDownload(meta), OnError::Abort)
                },
                _ => (Stage::PatchProbe, Action::Exists(FileKind::Patch)),
            },
            Stage::VerifyDownload { meta } => match event {
                Event::Bytes(Some(b)) => if verify_file_hash(b.as_slice(), meta.patch_hash.as_str()) {
                    let job = ApplyJob {
                        libapp_hash: meta.libapp_hash,
                        patch_number: meta.patch_number,
                        version: copy_string(&self.config.version),
                        in_recovery: false,
                    };
                    perform(Plan::PromotePatch, Next::Apply(job), OnError::Abort)
                } else {
                    finish(Err(RunError::DownloadVerificationFailed))
                },
                _ => finish(Err(RunError::DownloadVerificationFailed)),
            },
            Stage::PatchProbe => match event {
                Event::Exists(p) => (Stage::PatchProbeConfig { patch: p }, Action::Exists(FileKind::PatchConfig)),
                _ => finish(Err(RunError::Io)),
            },
            Stage::PatchProbeConfig { patch: p } => match event {
                Event::Exists(c) => if p && c {
                    (Stage::PatchReadConfig, Action::ReadPatchConfig)
                } else {
                    finish(Ok(()))
                },
                _ => finish(Err(RunError::Io)),
            },
            Stage::PatchReadConfig => match event {
                Event::PatchConfigRead(Some(config)) => if !(config.release_version == self.config.version) {
                    perform(Plan::CleanupPatch, Next::Finish, OnError::Abort)
                } else {
                    (Stage::PatchCheck { config }, Action::ReadFile(FileKind::Patch))
                },
                _ => perform(Plan::CleanupPatch, Next::Finish, OnError::Abort),
            },
            Stage::PatchCheck { config } => match event {
                Event::Bytes(Some(b)) => if verify_file_hash(b.as_slice(), config.patch_hash.as_str()) {
                    let job = ApplyJob {
                        libapp_hash: config.libapp_hash,
                        patch_number: config.patch_number,
                        version: config.release_version,
                        in_recovery: true,
                    };
                    enter(Next::Apply(job))
                } else {
                    perform(Plan::CleanupPatch, Next::Finish, OnError::Abort)
                },
                _ => finish(Err(RunError::Io)),
            },
            Stage::ApplyProbeVersion { job } => match event {
                Event::Exists(ve) => {
                    let cache = LibCache {
                        libapp_hash: copy_string(&job.libapp_hash),
                        release_version: copy_string(&job.version),
                        patch_number: job.patch_number,
                    };
                    let on_error = on_error_of(&job);
                    perform(Plan::RecordCache(cache), Next::ApplyFiles(job, ve), on_error)
                },
                _ => finish(Err(RunError::Io)),
            },
            Stage::Applying { job, version_existed } => match event {
                Event::Patched(Some(h)) => if h == job.libapp_hash {
                    let on_error = on_error_of(&job);
                    let v = LibVersion { release_version: job.version, patch_number: job.patch_number };
                    perform(Plan::Install(version_existed, v, job.libapp_hash), Next::Finish, on_error)
                } else {
                    apply_failed(job, RunError::PatchVerificationFailed)
                },
                _ => apply_failed(job, RunError::Io),
            },
            _ => finish(Ok(())),
        }
    }

    /// One step of a run: from where the run stands and the outcome of the
    /// last action, where it stands next and the action to perform.
    pub fn step(&self, stage: Stage, event: Event) -> (out: (Stage, Action))
        requires
            event matches Event::VersionText(Some(t)) ==> t@.contains(':'),
        ensures
            out == next_step(self.config, stage, event),
    {
        match stage {
            Stage::Start => perform(Plan::EnsureDirs, Next::LibProbe, OnError::Abort),
            Stage::Performing { plan, index, then, on_error } => Self::step_performing(plan, index, then, on_error, event),
            Stage::Finished => finish(Ok(())),
            Stage::LibProbeVersion | Stage::LibProbeCache { .. } | Stage::LibProbeTemp { .. }
            | Stage::LibProbeLib { .. } | Stage::LibReadVersion { .. } | Stage::LibReadCache { .. }
            | Stage::LibCheckLib { .. } | Stage::LibCheckTemp { .. } => self.step_lib(stage, event),
            _ => self.step_patch(stage, event),
        }
    }
}

} // verus!
