//! Properties of every run of the patch manager.

use vstd::prelude::*;
use crate::digest::digest_hex;
use crate::machine::{check_request, patch_number_of, ApplyJob, CheckRequest, OnError, accepts, install_tail, lemma_plan_nonempty, next_step, plan_effects, version_of_cache, Action, Effect, Event, Next, Plan, Stage};
use crate::manager::WingbirdPatchManagerConfig;
use crate::layout::FileKind;
use crate::types::LibCache;
use crate::world::{answers, file_exists, hashes_to, holds_bytes, transition, Stored, World};

verus! {

/// The steps that at most remain after what follows a plan begins.
pub open spec fn enter_rank(next: Next) -> nat {
    match next {
        Next::Finish => 0,
        Next::ApplyFiles(_, _) => 13,
        Next::Apply(_) => 20,
        Next::VerifyDownload(_) => 23,
        Next::CurrentPatchNumber => 32,
        Next::LibProbe => 44,
    }
}

/// A bound on the steps that remain from a stage.
pub open spec fn rank(s: Stage) -> nat {
    match s {
        Stage::Finished => 0,
        Stage::Performing { plan, index, then, on_error } => {
            let left = if index < plan_effects(plan).len() {
                (plan_effects(plan).len() - index) as nat
            } else {
                0
            };
            1 + enter_rank(then) + left + (if on_error is CleanupPatch {
                4nat
            } else {
                0nat
            })
        },
        Stage::Applying { .. } => 13,
        Stage::ApplyProbeVersion { .. } => 20,
        Stage::PatchCheck { .. } => 21,
        Stage::PatchReadConfig => 22,
        Stage::PatchProbeConfig { .. } => 23,
        Stage::PatchProbe => 24,
        Stage::VerifyDownload { .. } => 23,
        Stage::Checking => 30,
        Stage::NumberRead => 31,
        Stage::NumberProbe => 32,
        Stage::LibCheckTemp { .. } => 38,
        Stage::LibCheckLib { .. } => 39,
        Stage::LibReadCache { .. } => 40,
        Stage::LibReadVersion { .. } => 37,
        Stage::LibProbeLib { .. } => 41,
        Stage::LibProbeTemp { .. } => 42,
        Stage::LibProbeCache { .. } => 43,
        Stage::LibProbeVersion => 44,
        Stage::Start => 47,
    }
}

proof fn lemma_plan_len_bound(p: Plan)
    ensures
        plan_effects(p).len() <= 7,
        p is CleanupPatch ==> plan_effects(p).len() == 3,
        p is EnsureDirs || p is PromotePatch || p is RecordCache ==> plan_effects(p).len() == 1,
        p is StagePatch ==> plan_effects(p).len() == 5,
        !(p is Install) && !(p is StagePatch) ==> plan_effects(p).len() <= 4,
{
}

/// Every run ends: each step that answers the last action lowers the rank
/// of the stage, and the run has finished exactly when the action is `Finish`.
pub proof fn lemma_run_terminates(cfg: WingbirdPatchManagerConfig, s: Stage, e: Event)
    requires
        accepts(s, e),
    ensures
        rank(next_step(cfg, s, e).0) < rank(s),
        next_step(cfg, s, e).1 is Finish <==> next_step(cfg, s, e).0 is Finished,
{
    lemma_plan_len_bound(Plan::CleanupPatch);
    match s {
        Stage::Performing { plan, index, then, on_error } => {
            lemma_plan_len_bound(plan);
            lemma_plan_nonempty(plan);
        },
        Stage::Start => {},
        _ => {
            let (s2, a) = next_step(cfg, s, e);
            if let Stage::Performing { plan, .. } = s2 {
                lemma_plan_len_bound(plan);
            }
        },
    }
}

/// The release that the version, install and patch records written by a
/// run carry is always the configured release.
pub open spec fn plan_pinned(ver: Seq<char>, p: Plan) -> bool {
    match p {
        Plan::CommitLibapp(v, _) => v.release_version@ == ver,
        Plan::CommitTemp(v, _) => v.release_version@ == ver,
        Plan::Install(_, v, _) => v.release_version@ == ver,
        Plan::StagePatch(c, _) => c.release_version@ == ver,
        Plan::RecordCache(c) => c.release_version@ == ver,
        _ => true,
    }
}

pub open spec fn next_pinned(ver: Seq<char>, n: Next) -> bool {
    match n {
        Next::Apply(job) => job.version@ == ver,
        Next::ApplyFiles(job, _) => job.version@ == ver,
        _ => true,
    }
}

/// Every release that a stage holds, and will write, is `ver`.
pub open spec fn stage_pinned(ver: Seq<char>, s: Stage) -> bool {
    match s {
        Stage::Performing { plan, then, .. } => plan_pinned(ver, plan) && next_pinned(ver, then),
        Stage::LibCheckLib { cache, .. } => cache.release_version@ == ver,
        Stage::LibCheckTemp { cache } => cache.release_version@ == ver,
        Stage::PatchCheck { config } => config.release_version@ == ver,
        Stage::ApplyProbeVersion { job } => job.version@ == ver,
        Stage::Applying { job, .. } => job.version@ == ver,
        _ => true,
    }
}

/// An action that writes a record writes the release `ver`.
pub open spec fn action_pinned(ver: Seq<char>, a: Action) -> bool {
    match a {
        Action::Perform(Effect::WriteVersion(v)) => v.release_version@ == ver,
        Action::Perform(Effect::WriteCache(c)) => c.release_version@ == ver,
        Action::Perform(Effect::WritePatchConfig(c)) => c.release_version@ == ver,
        _ => true,
    }
}

proof fn lemma_plan_effects_pinned(ver: Seq<char>, p: Plan, i: int)
    requires
        plan_pinned(ver, p),
        0 <= i < plan_effects(p).len(),
    ensures
        action_pinned(ver, Action::Perform(plan_effects(p)[i])),
{
    if let Plan::Install(d, v, _) = p {
        if d {
            assert(plan_effects(p)[i] == (seq![Effect::Remove(crate::layout::FileKind::Version)] + install_tail(v))[i]);
        }
    }
}

/// The records a run writes (the version file, the install record, the
/// patch record) always name the release the manager is configured with:
/// the run starts pinned, and every step keeps the stage pinned and emits
/// only pinned writes.
pub proof fn lemma_writes_name_configured_release(cfg: WingbirdPatchManagerConfig, s: Stage, e: Event)
    requires
        stage_pinned(cfg.version@, s),
    ensures
        stage_pinned(cfg.version@, Stage::Start),
        stage_pinned(cfg.version@, next_step(cfg, s, e).0),
        action_pinned(cfg.version@, next_step(cfg, s, e).1),
{
    let ver = cfg.version@;
    let (s2, a) = next_step(cfg, s, e);
    if let Stage::Performing { plan, index, .. } = s2 {
        lemma_plan_nonempty(plan);
        if let Action::Perform(eff) = a {
            if let Stage::Performing { plan: p0, index: i0, .. } = s {
                if plan == p0 && index == i0 + 1 {
                    lemma_plan_effects_pinned(ver, plan, index as int);
                } else {
                    lemma_plan_effects_pinned(ver, plan, 0);
                }
            } else {
                lemma_plan_effects_pinned(ver, plan, 0);
            }
        }
    }
}

/// The plans that put a library in place or commit its version.
pub open spec fn installs_library(p: Plan) -> bool {
    p is CommitLibapp || p is CommitTemp || p is Install
}

/// How a step may come to be carrying out an installing `plan`: it already
/// was, or it answers the read of a library whose BLAKE3 hex equals the
/// install record's hash, or the patching whose hash equals the announced one.
pub open spec fn install_justified(s: Stage, e: Event, plan: Plan) -> bool {
    ||| s matches Stage::Performing { plan: p0, .. } && p0 == plan
    ||| s matches Stage::LibCheckLib { cache, .. } && e matches Event::Bytes(Some(b))
        && digest_hex(b@) == cache.libapp_hash@ && plan == Plan::CommitLibapp(version_of_cache(cache), cache.libapp_hash)
    ||| s matches Stage::LibCheckTemp { cache } && e matches Event::Bytes(Some(b))
        && digest_hex(b@) == cache.libapp_hash@ && plan == Plan::CommitTemp(version_of_cache(cache), cache.libapp_hash)
    ||| s matches Stage::Applying { job, .. } && e matches Event::Patched(Some(h))
        && h@ == job.libapp_hash@ && plan is Install && plan->Install_2 == job.libapp_hash
}

/// A library is only put in place, and a version only committed, right
/// after the library's hash was found to be the expected one: any step
/// that leaves the run carrying out an installing plan is justified so.
pub proof fn lemma_install_only_after_hash_match(cfg: WingbirdPatchManagerConfig, s: Stage, e: Event)
    ensures
        next_step(cfg, s, e).0 is Performing && installs_library(next_step(cfg, s, e).0->plan)
            ==> install_justified(s, e, next_step(cfg, s, e).0->plan),
{
}

/// A downloaded patch is moved into place only right after its bytes were
/// read and their BLAKE3 hex equals the hash the server announced for it.
pub proof fn lemma_patch_promoted_only_after_hash_match(cfg: WingbirdPatchManagerConfig, s: Stage, e: Event)
    ensures
        next_step(cfg, s, e).0 matches Stage::Performing { plan: Plan::PromotePatch, .. } ==> {
            ||| s matches Stage::Performing { plan: Plan::PromotePatch, .. }
            ||| s matches Stage::VerifyDownload { meta } && e matches Event::Bytes(Some(b))
                && digest_hex(b@) == meta.patch_hash@
        },
{
}

/// Only the installing plans rename a library into place or write the version file.
pub proof fn lemma_only_installs_write_version(p: Plan, i: int)
    requires
        0 <= i < plan_effects(p).len(),
        plan_effects(p)[i] is WriteVersion
            || plan_effects(p)[i] == Effect::Rename(crate::layout::FileKind::TempLibapp, crate::layout::FileKind::Libapp),
    ensures
        installs_library(p),
{
}


// ---- the recovery of the library folder touches only the library's files

/// The library's own files.
pub open spec fn library_file(k: FileKind) -> bool {
    k is Cache || k is Version || k is Libapp || k is TempLibapp
}

/// The plans of the library folder's recovery.
pub open spec fn library_plan(p: Plan) -> bool {
    p is EnsureDirs || p is CleanupLib || p is DropCache || p is DropCacheAndTemp || p is CommitLibapp
        || p is CommitTemp || p is DropTempThenCleanupLib
}

/// The stages of the library folder's recovery.
pub open spec fn in_library_recovery(s: Stage) -> bool {
    match s {
        Stage::Start | Stage::LibProbeVersion | Stage::LibProbeCache { .. } | Stage::LibProbeTemp { .. }
        | Stage::LibProbeLib { .. } | Stage::LibReadVersion { .. } | Stage::LibReadCache { .. }
        | Stage::LibCheckLib { .. } | Stage::LibCheckTemp { .. } => true,
        Stage::Performing { plan, then, on_error, .. } => library_plan(plan) && (then is LibProbe
            || then is CurrentPatchNumber) && on_error is Abort,
        _ => false,
    }
}

/// An effect that creates the directories or changes only library files.
pub open spec fn library_effect(e: Effect) -> bool {
    match e {
        Effect::CreateDirs => true,
        Effect::Remove(k) => library_file(k),
        Effect::Rename(a, b) => library_file(a) && library_file(b),
        Effect::WriteVersion(_) => true,
        _ => false,
    }
}

/// An action that looks at or changes only library files (or ends the run).
pub open spec fn library_action(a: Action) -> bool {
    match a {
        Action::Perform(e) => library_effect(e),
        Action::Exists(k) => library_file(k),
        Action::ReadVersion | Action::ReadCache => true,
        Action::ReadFile(k) => library_file(k),
        Action::Finish(_) => true,
        _ => false,
    }
}

proof fn lemma_library_plan_effects(p: Plan, i: int)
    requires
        library_plan(p),
        0 <= i < plan_effects(p).len(),
    ensures
        library_effect(plan_effects(p)[i]),
{
}

/// The recovery of the library folder creates the two directories and
/// otherwise reads and changes only the library's files (`.cache`,
/// `.version`, `libapp.so`, `libapp..tmp`); it ends by asking whether the
/// version file exists (the start of reading the current patch number) or
/// by finishing the run.
pub proof fn lemma_library_recovery_touches_library_files(cfg: WingbirdPatchManagerConfig, s: Stage, e: Event)
    requires
        in_library_recovery(s),
    ensures
        ({
            let (s2, a) = next_step(cfg, s, e);
            ||| in_library_recovery(s2) && library_action(a)
            ||| s2 is NumberProbe && a == Action::Exists(FileKind::Version)
            ||| s2 is Finished && a is Finish
        }),
{
    let (s2, a) = next_step(cfg, s, e);
    if let Stage::Performing { plan, index, .. } = s2 {
        lemma_plan_nonempty(plan);
        if let Stage::Performing { plan: p0, index: i0, .. } = s {
            if plan == p0 && index == i0 + 1 {
                lemma_library_plan_effects(plan, index as int);
            } else {
                lemma_library_plan_effects(plan, 0);
            }
        } else {
            lemma_library_plan_effects(plan, 0);
        }
    }
}

// ---- the install record is written before the library is produced

/// The install record that a stage writes matches the install it prepares.
pub open spec fn record_matches_job(s: Stage) -> bool {
    match s {
        Stage::Performing { plan, then: Next::ApplyFiles(job, _), .. } => plan == Plan::RecordCache(
            LibCache {
                libapp_hash: job.libapp_hash,
                release_version: job.version,
                patch_number: job.patch_number,
            },
        ),
        _ => true,
    }
}

/// The patched library is produced (the action `ApplyPatchFiles`) only by
/// the step that answers a successful write of the install record for the
/// same install; the record then names the install's hash, release and
/// number. Every stage keeps records matched with their installs.
pub proof fn lemma_record_written_before_patching(cfg: WingbirdPatchManagerConfig, s: Stage, e: Event)
    requires
        record_matches_job(s),
    ensures
        record_matches_job(next_step(cfg, s, e).0),
        next_step(cfg, s, e).1 is ApplyPatchFiles ==> {
            &&& e == Event::Done(true)
            &&& s is Performing && s->plan is RecordCache && s->then is ApplyFiles
            &&& s->plan->RecordCache_0 == (LibCache {
                libapp_hash: s->then->ApplyFiles_0.libapp_hash,
                release_version: s->then->ApplyFiles_0.version,
                patch_number: s->then->ApplyFiles_0.patch_number,
            })
        },
{
}

// ---- a resumed install goes as a fresh one does

pub open spec fn fresh_job(job: ApplyJob) -> ApplyJob {
    ApplyJob { in_recovery: false, ..job }
}

pub open spec fn fresh_next(n: Next) -> Next {
    match n {
        Next::Apply(job) => Next::Apply(fresh_job(job)),
        Next::ApplyFiles(job, ve) => Next::ApplyFiles(fresh_job(job), ve),
        _ => n,
    }
}

/// The same stage with every install taken as a fresh one (failures fail the run).
pub open spec fn as_fresh(s: Stage) -> Stage {
    match s {
        Stage::Performing { plan, index, then, on_error } => Stage::Performing {
            plan,
            index,
            then: fresh_next(then),
            on_error: OnError::Abort,
        },
        Stage::ApplyProbeVersion { job } => Stage::ApplyProbeVersion { job: fresh_job(job) },
        Stage::Applying { job, version_existed } => Stage::Applying { job: fresh_job(job), version_existed },
        _ => s,
    }
}

/// Installing a patch resumed from an earlier run takes the same steps and
/// performs the same actions as installing a fresh download, as long as
/// the fresh install would not fail; the two differ only in what a failure
/// leads to.
pub proof fn lemma_resumed_install_as_fresh(cfg: WingbirdPatchManagerConfig, s: Stage, e: Event)
    requires
        s is Performing || s is ApplyProbeVersion || s is Applying,
        !(next_step(cfg, as_fresh(s), e).1 matches Action::Finish(Err(_))),
    ensures
        as_fresh(next_step(cfg, s, e).0) == next_step(cfg, as_fresh(s), e).0,
        next_step(cfg, s, e).1 == next_step(cfg, as_fresh(s), e).1,
{
}

// ---- the one request to the server

/// The request for a newer patch carries the configured application,
/// release, channel, platform and architecture, and the current patch
/// number: the committed number when the version file names the configured
/// release, else 0. It is sent only when leaving the reading of the current
/// patch number (rank above 30) for the check (rank 30); as every step lowers
/// the rank, a run sends it at most once.
pub proof fn lemma_check_request(cfg: WingbirdPatchManagerConfig, s: Stage, e: Event)
    ensures
        next_step(cfg, s, e).1 is CheckLatestPatch ==> {
            &&& s is NumberProbe || s is NumberRead
            &&& rank(s) > 30 && rank(next_step(cfg, s, e).0) == 30
            &&& next_step(cfg, s, e).1->CheckLatestPatch_0 == check_request(
                cfg,
                if s is NumberRead && e is VersionText {
                    patch_number_of(cfg.version@, e->VersionText_0)
                } else {
                    0
                },
            )
        },
{
}


// ---- laws over the files: the recovery clears the install record

/// Some effect of `plan` from `index` on removes the install record.
pub open spec fn removes_cache_from(plan: Plan, index: int) -> bool {
    exists|j: int| index <= j < plan_effects(plan).len() && #[trigger] plan_effects(plan)[j]
        == Effect::Remove(FileKind::Cache)
}

/// What holds of the files at each stage of the library folder's recovery:
/// once the directories are made they stay, the recorded existence of the
/// install record is its existence, and a plan that ends the recovery
/// removes the install record if it is there.
pub open spec fn recovery_invariant(s: Stage, w: World) -> bool {
    match s {
        Stage::Performing { plan, index, then: Next::LibProbe, .. } => plan == Plan::EnsureDirs && index
            == 0,
        Stage::LibProbeVersion | Stage::LibProbeCache { .. } | Stage::LibReadCache { .. }
        | Stage::LibCheckLib { .. } | Stage::LibCheckTemp { .. } => w.dirs,
        Stage::LibProbeTemp { cache, .. } | Stage::LibProbeLib { cache, .. } | Stage::LibReadVersion {
            cache,
        } => w.dirs && cache == file_exists(w, FileKind::Cache),
        Stage::Performing { plan, index, then: Next::CurrentPatchNumber, .. } => {
            &&& w.dirs
            &&& library_plan(plan)
            &&& (file_exists(w, FileKind::Cache) ==> removes_cache_from(plan, index as int))
        },
        Stage::NumberProbe => w.dirs && !file_exists(w, FileKind::Cache),
        _ => true,
    }
}

proof fn lemma_library_plan_keeps_cache_away(p: Plan, i: int)
    requires
        library_plan(p),
        0 <= i < plan_effects(p).len(),
    ensures
        !(plan_effects(p)[i] is WriteCache),
        !(plan_effects(p)[i] matches Effect::Rename(_, FileKind::Cache)),
        !(plan_effects(p)[i] matches Effect::Rename(FileKind::Cache, _)),
        !(plan_effects(p)[i] is Download),
{
}

proof fn lemma_removes_cache(p: Plan)
    requires
        p is CleanupLib || p is DropCache || p is DropCacheAndTemp || p is CommitLibapp || p is CommitTemp
            || p is DropTempThenCleanupLib,
    ensures
        removes_cache_from(p, 0),
{
    let j: int = match p {
        Plan::CleanupLib | Plan::DropCache | Plan::DropCacheAndTemp => 0,
        Plan::CommitLibapp(..) => 1,
        Plan::DropTempThenCleanupLib => 1,
        _ => 2,
    };
    assert(plan_effects(p)[j] == Effect::Remove(FileKind::Cache));
}

/// The recovery of the library folder ends (the run moves on to read the
/// current patch number) only with both directories created and no install
/// record left: starting from any files, with answers that tell the files
/// as they are and effects that do what they say, every step keeps
/// `recovery_invariant`, which at that point says exactly this.
pub proof fn lemma_recovery_clears_install_record(
    cfg: WingbirdPatchManagerConfig,
    s: Stage,
    e: Event,
    w: World,
    w2: World,
)
    requires
        recovery_invariant(s, w),
        answers(w, s, e),
        transition(w, s, e, w2),
    ensures
        recovery_invariant(Stage::Start, w),
        recovery_invariant(next_step(cfg, s, e).0, w2),
        next_step(cfg, s, e).0 is NumberProbe && in_library_recovery(s) ==> w2.dirs && !file_exists(
            w2,
            FileKind::Cache,
        ),
{
    let (s2, a) = next_step(cfg, s, e);
    match s {
        Stage::Performing { plan, index, then, on_error } => {
            lemma_plan_nonempty(plan);
            if then is CurrentPatchNumber && index < plan_effects(plan).len() {
                lemma_library_plan_keeps_cache_away(plan, index as int);
                let eff = plan_effects(plan)[index as int];
                if file_exists(w, FileKind::Cache) && eff != Effect::Remove(FileKind::Cache) && e == Event::Done(true) {
                    let j = choose|j: int| index <= j < plan_effects(plan).len() && #[trigger] plan_effects(plan)[j]
                        == Effect::Remove(FileKind::Cache);
                    assert(j != index);
                    if let Effect::Rename(x, y) = eff {
                        assert(y != FileKind::Cache && x != FileKind::Cache);
                        assert(w2.files.contains_key(FileKind::Cache));
                    }
                    if let Effect::Remove(k) = eff {
                        assert(k != FileKind::Cache);
                        assert(w2.files.contains_key(FileKind::Cache));
                    }
                    assert(file_exists(w2, FileKind::Cache));
                    assert(removes_cache_from(plan, index + 1));
                }
            }
        },
        Stage::LibProbeLib { .. } | Stage::LibReadVersion { .. } | Stage::LibReadCache { .. }
        | Stage::LibCheckLib { .. } | Stage::LibCheckTemp { .. } => {
            if let Stage::Performing { plan, .. } = s2 {
                if plan is CleanupLib || plan is DropCache || plan is DropCacheAndTemp || plan is CommitLibapp
                    || plan is CommitTemp || plan is DropTempThenCleanupLib {
                    lemma_removes_cache(plan);
                }
            }
        },
        _ => {},
    }
}


// ---- laws over the files: a version is committed only for a verified library

/// The hash that the library committed by an installing plan must have.
pub open spec fn plan_hash(p: Plan) -> Seq<char> {
    match p {
        Plan::CommitLibapp(_, h) => h@,
        Plan::CommitTemp(_, h) => h@,
        Plan::Install(_, _, h) => h@,
        _ => Seq::<char>::empty(),
    }
}

/// While an installing plan runs, the library it commits is in place (or,
/// before the rename that puts it there, in the temporary file) and hashes
/// to the plan's hash.
pub open spec fn gate_invariant(s: Stage, w: World) -> bool {
    match s {
        Stage::Performing { plan: Plan::CommitLibapp(_, h), index, .. } => index == 0 ==> hashes_to(
            w,
            FileKind::Libapp,
            h@,
        ),
        Stage::Performing { plan: Plan::CommitTemp(_, h), index, .. } => {
            &&& index == 0 ==> hashes_to(w, FileKind::TempLibapp, h@)
            &&& index == 1 ==> hashes_to(w, FileKind::Libapp, h@)
        },
        Stage::Performing { plan: Plan::Install(d, _, h), index, .. } => {
            let r: int = if d {
                1
            } else {
                0
            };
            &&& index <= r ==> hashes_to(w, FileKind::TempLibapp, h@)
            &&& index == r + 1 ==> hashes_to(w, FileKind::Libapp, h@)
        },
        _ => true,
    }
}

/// The version file is written only while the library in place hashes to
/// the expected hash (the install record's, when an interrupted install is
/// completed; the announced one, when a patch is installed): from any
/// files, with truthful answers and effects that do what they say, every
/// step keeps `gate_invariant`, and at a write of the version file it says so.
pub proof fn lemma_version_written_only_for_verified_library(
    cfg: WingbirdPatchManagerConfig,
    s: Stage,
    e: Event,
    w: World,
    w2: World,
)
    requires
        gate_invariant(s, w),
        answers(w, s, e),
        transition(w, s, e, w2),
    ensures
        gate_invariant(Stage::Start, w),
        gate_invariant(next_step(cfg, s, e).0, w2),
        s is Performing && s->index < plan_effects(s->plan).len() && plan_effects(s->plan)[s->index as int] is WriteVersion
            ==> hashes_to(w, FileKind::Libapp, plan_hash(s->plan)),
{
    let (s2, a) = next_step(cfg, s, e);
    if let Stage::Performing { plan, index, .. } = s {
        lemma_plan_nonempty(plan);
        if let Plan::Install(d, v, h) = plan {
            if d && index < plan_effects(plan).len() {
                assert(plan_effects(plan)[index as int] == (seq![Effect::Remove(FileKind::Version)] + install_tail(v))[index as int]);
            }
        }
        if e == Event::Done(true) && index < plan_effects(plan).len() {
            let eff = plan_effects(plan)[index as int];
            if let Effect::Rename(x, y) = eff {
                assert(w2.files.contains_key(y) && w2.files[y] == w.files[x]);
            }
            if let Effect::Remove(k) = eff {
                if k != FileKind::TempLibapp {
                    assert(w2.files.contains_key(FileKind::TempLibapp) == w.files.contains_key(FileKind::TempLibapp));
                    assert(w.files.contains_key(FileKind::TempLibapp) ==> w2.files[FileKind::TempLibapp] == w.files[FileKind::TempLibapp]);
                }
            }
        }
    }
}


// ---- laws over the files: where the library in place comes from after recovery

/// The file `k` is the same (present with the same content, or absent) in both worlds.
pub open spec fn same_file(w: World, w0: World, k: FileKind) -> bool {
    file_exists(w, k) == file_exists(w0, k) && (file_exists(w, k) ==> w.files[k] == w0.files[k])
}

/// The library files are as they were at the start.
pub open spec fn library_untouched(w: World, w0: World) -> bool {
    same_file(w, w0, FileKind::Libapp) && same_file(w, w0, FileKind::TempLibapp) && same_file(
        w,
        w0,
        FileKind::Cache,
    ) && same_file(w, w0, FileKind::Version)
}

/// At the start there was no version file, an install record of the
/// configured release, and a temporary library that hashes to the record's hash.
pub open spec fn completable_install(cfg: WingbirdPatchManagerConfig, w0: World) -> bool {
    &&& !file_exists(w0, FileKind::Version)
    &&& file_exists(w0, FileKind::Cache)
    &&& w0.files[FileKind::Cache] is CacheRecord
    &&& w0.files[FileKind::Cache]->CacheRecord_0.release_version@ == cfg.version@
    &&& hashes_to(w0, FileKind::TempLibapp, w0.files[FileKind::Cache]->CacheRecord_0.libapp_hash@)
}

/// The library in place is absent, the one there at the start, or the
/// temporary library of an install that could be completed.
pub open spec fn library_from(cfg: WingbirdPatchManagerConfig, w: World, w0: World) -> bool {
    ||| !file_exists(w, FileKind::Libapp)
    ||| file_exists(w0, FileKind::Libapp) && w.files[FileKind::Libapp] == w0.files[FileKind::Libapp]
    ||| completable_install(cfg, w0) && file_exists(w, FileKind::Libapp) && w.files[FileKind::Libapp]
        == w0.files[FileKind::TempLibapp]
}

/// No effect of `plan` from `index` on renames a file over the library.
pub open spec fn no_rename_onto_library(plan: Plan, index: int) -> bool {
    forall|j: int| index <= j < plan_effects(plan).len() ==> !(#[trigger] plan_effects(plan)[j] matches Effect::Rename(_, FileKind::Libapp))
}

proof fn lemma_only_changes_elsewhere(w: World, w2: World, k: FileKind, other: FileKind)
    requires
        crate::world::only_changes(w, w2, k),
        other != k,
    ensures
        same_file(w2, w, other),
{
    assert(w2.files.remove(k).contains_key(other) == w.files.remove(k).contains_key(other));
    if w.files.contains_key(other) {
        assert(w2.files.remove(k)[other] == w.files.remove(k)[other]);
    }
}

/// What holds of the files during the library folder's recovery, relative
/// to the files `w0` at the start of the run.
pub open spec fn provenance_invariant(cfg: WingbirdPatchManagerConfig, s: Stage, w: World, w0: World) -> bool {
    &&& library_from(cfg, w, w0)
    &&& match s {
        Stage::Start | Stage::LibProbeVersion => library_untouched(w, w0),
        Stage::LibProbeCache { version } | Stage::LibProbeTemp { version, .. } | Stage::LibProbeLib {
            version,
            ..
        } => library_untouched(w, w0) && version == file_exists(w0, FileKind::Version),
        Stage::LibReadVersion { .. } => library_untouched(w, w0),
        Stage::LibReadCache { .. } => library_untouched(w, w0) && !file_exists(w0, FileKind::Version),
        Stage::LibCheckLib { cache, .. } | Stage::LibCheckTemp { cache } => {
            &&& library_untouched(w, w0)
            &&& !file_exists(w0, FileKind::Version)
            &&& file_exists(w0, FileKind::Cache)
            &&& w0.files[FileKind::Cache] == Stored::CacheRecord(cache)
            &&& cache.release_version@ == cfg.version@
        },
        Stage::Performing { plan, index, then, .. } => if then is LibProbe {
            plan is EnsureDirs && library_untouched(w, w0)
        } else if plan is CommitTemp && index == 0 {
            &&& library_untouched(w, w0)
            &&& completable_install(cfg, w0)
            &&& w0.files[FileKind::Cache]->CacheRecord_0.libapp_hash == plan->CommitTemp_1
        } else {
            no_rename_onto_library(plan, index as int)
        },
        _ => true,
    }
}

/// After the recovery of the library folder the library in place is the
/// one there before, none, or, only where there was no version file and an
/// install record of the configured release whose hash the temporary
/// library has, that temporary library: from any files `w0`, with truthful
/// answers and effects that do what they say, every step of the recovery
/// keeps `provenance_invariant`, which includes this.
pub proof fn lemma_recovered_library_provenance(
    cfg: WingbirdPatchManagerConfig,
    s: Stage,
    e: Event,
    w: World,
    w2: World,
    w0: World,
)
    requires
        in_library_recovery(s),
        provenance_invariant(cfg, s, w, w0),
        answers(w, s, e),
        transition(w, s, e, w2),
    ensures
        provenance_invariant(cfg, Stage::Start, w0, w0),
        in_library_recovery(next_step(cfg, s, e).0) ==> provenance_invariant(cfg, next_step(cfg, s, e).0, w2, w0),
        library_from(cfg, w2, w0),
{
    let (s2, a) = next_step(cfg, s, e);
    assert(library_untouched(w0, w0));
    match s {
        Stage::Performing { plan, index, then, on_error } => {
            lemma_plan_nonempty(plan);
            if index < plan_effects(plan).len() && e is Done {
                let eff = plan_effects(plan)[index as int];
                if plan is CommitTemp && index == 0 {
                    if e == Event::Done(true) {
                        assert(w2.files[FileKind::Libapp] == w.files[FileKind::TempLibapp]);
                        assert(no_rename_onto_library(plan, 1));
                    }
                } else {
                    assert(!(eff matches Effect::Rename(_, FileKind::Libapp)));
                    if e == Event::Done(true) {
                        if let Effect::Remove(k) = eff {
                            if k != FileKind::Libapp {
                                assert(file_exists(w2, FileKind::Libapp) == file_exists(w, FileKind::Libapp));
                                assert(file_exists(w, FileKind::Libapp) ==> w2.files[FileKind::Libapp] == w.files[FileKind::Libapp]);
                            }
                        }
                        if let Effect::Rename(x, y) = eff {
                            assert(x != FileKind::Libapp);
                            assert(file_exists(w2, FileKind::Libapp) == file_exists(w, FileKind::Libapp));
                            assert(file_exists(w, FileKind::Libapp) ==> w2.files[FileKind::Libapp] == w.files[FileKind::Libapp]);
                        }
                        if eff is WriteVersion {
                            assert(file_exists(w2, FileKind::Libapp) == file_exists(w, FileKind::Libapp));
                            assert(file_exists(w, FileKind::Libapp) ==> w2.files[FileKind::Libapp] == w.files[FileKind::Libapp]);
                        }
                        if plan is EnsureDirs && then is LibProbe {
                            assert(w2.files == w.files);
                            assert(library_untouched(w2, w0));
                        }
                    } else if eff is WriteVersion {
                        lemma_only_changes_elsewhere(w, w2, FileKind::Version, FileKind::Libapp);
                    }
                }
            }
        },
        _ => {
            if let Stage::Performing { plan, index, .. } = s2 {
                assert(no_rename_onto_library(plan, 0) || plan is CommitTemp);
            }
        },
    }
}

} // verus!
