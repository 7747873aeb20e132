//! Properties of what a run asks of the server and of the patch files it
//! stages, resumes and keeps, stated by inputs and results.

use vstd::prelude::*;
use crate::api::{download_url_text, latest_patch_url_text, percent_encode, percent_encode_byte, trim_trailing_slashes, url_unreserved};
use crate::decimal::{all_digits, decimal_string, lemma_decimal_string, lemma_parse_decimal_string, parse_u32};
use crate::layout::FileKind;
use crate::machine::{next_step, plan_effects, Action, ApplyJob, Effect, Event, Next, OnError, RunError, Stage};
use crate::manager::WingbirdPatchManagerConfig;
use crate::types::{LibCache, LibVersion, PatchConfig, PatchMetadata};
use crate::digest::digest_hex;
use crate::version::parse_version_text;
use crate::world::{answers, file_exists, transition, World};

verus! {

/// When the server announces a patch, the run stages exactly that patch:
/// it removes any earlier patch files, writes the patch record with the
/// announced number, patch hash and library hash and the configured release,
/// downloads the patch by its announced id, and then reads the download to
/// check it against that announcement.
pub proof fn lemma_announced_patch_is_staged(cfg: WingbirdPatchManagerConfig, meta: PatchMetadata)
    ensures
        ({
            let (s2, a) = next_step(cfg, Stage::Checking, Event::LatestPatch(Some(Some(meta))));
            &&& s2 is Performing
            &&& s2->index == 0
            &&& s2->then == Next::VerifyDownload(meta)
            &&& plan_effects(s2->plan) == seq![
                Effect::Remove(FileKind::TempPatch),
                Effect::Remove(FileKind::PatchConfig),
                Effect::Remove(FileKind::Patch),
                Effect::WritePatchConfig(
                    PatchConfig {
                        patch_number: meta.patch_number,
                        patch_hash: meta.patch_hash,
                        libapp_hash: meta.libapp_hash,
                        release_version: cfg.version,
                    },
                ),
                Effect::Download(meta.id),
            ]
            &&& a == Action::Perform(Effect::Remove(FileKind::TempPatch))
        }),
{
    let (s2, a) = next_step(cfg, Stage::Checking, Event::LatestPatch(Some(Some(meta))));
    assert(plan_effects(s2->plan) =~= seq![
        Effect::Remove(FileKind::TempPatch),
        Effect::Remove(FileKind::PatchConfig),
        Effect::Remove(FileKind::Patch),
        Effect::WritePatchConfig(
            PatchConfig {
                patch_number: meta.patch_number,
                patch_hash: meta.patch_hash,
                libapp_hash: meta.libapp_hash,
                release_version: cfg.version,
            },
        ),
        Effect::Download(meta.id),
    ]);
}

/// When the version file names the configured release, the recovery of the
/// library folder keeps the committed library and version file: it removes
/// at most the install record (when one exists) and goes on to read the
/// current patch number, which is the version file's.
pub proof fn lemma_committed_release_is_kept(cfg: WingbirdPatchManagerConfig, cache: bool, text: String)
    requires
        text@.contains(':'),
        parse_version_text(text@) matches Some((release, _)) && release == cfg.version@,
    ensures
        ({
            let (s2, a) = next_step(cfg, Stage::LibReadVersion { cache }, Event::VersionText(Some(text)));
            &&& cache ==> s2 is Performing && s2->index == 0 && plan_effects(s2->plan) == seq![Effect::Remove(FileKind::Cache)]
                && s2->then == Next::CurrentPatchNumber
                && a == Action::Perform(Effect::Remove(FileKind::Cache))
            &&& !cache ==> s2 == Stage::NumberProbe && a == Action::Exists(FileKind::Version)
        }),
        forall|e: Effect| plan_effects(next_step(cfg, Stage::LibReadVersion { cache }, Event::VersionText(Some(text))).0->plan).contains(e)
            && next_step(cfg, Stage::LibReadVersion { cache }, Event::VersionText(Some(text))).0 is Performing
            ==> e == Effect::Remove(FileKind::Cache),
{
    let (s2, a) = next_step(cfg, Stage::LibReadVersion { cache }, Event::VersionText(Some(text)));
    if cache {
        assert(plan_effects(s2->plan) =~= seq![Effect::Remove(FileKind::Cache)]);
    }
}

/// What a resume knows of the files: the recorded existence of the patch
/// file is its existence; reading the patch record happens with both there.
pub open spec fn resume_invariant(s: Stage, w: World) -> bool {
    match s {
        Stage::PatchProbeConfig { patch } => patch == file_exists(w, FileKind::Patch),
        Stage::PatchReadConfig => file_exists(w, FileKind::Patch) && file_exists(w, FileKind::PatchConfig),
        _ => true,
    }
}

/// A resume reads the patch record only when both the patch file and the
/// record exist; when either is missing the run ends well at once. With
/// truthful answers every step keeps `resume_invariant`.
pub proof fn lemma_resume_needs_patch_and_record(cfg: WingbirdPatchManagerConfig, s: Stage, e: Event, w: World, w2: World)
    requires
        resume_invariant(s, w),
        answers(w, s, e),
        transition(w, s, e, w2),
    ensures
        resume_invariant(next_step(cfg, s, e).0, w2),
        next_step(cfg, s, e).1 == Action::ReadPatchConfig ==> file_exists(w2, FileKind::Patch)
            && file_exists(w2, FileKind::PatchConfig),
        s is PatchProbeConfig && e is Exists && !(file_exists(w, FileKind::Patch) && file_exists(w, FileKind::PatchConfig))
            ==> next_step(cfg, s, e) == (Stage::Finished, Action::Finish(Ok(()))),
{
}

/// The patch file and the patch record decide a resume: it goes on to read
/// the record only when both were found, and ends well otherwise.
pub proof fn lemma_resume_decision(cfg: WingbirdPatchManagerConfig, patch: bool, config: bool)
    ensures
        next_step(cfg, Stage::PatchProbeConfig { patch }, Event::Exists(config)).1 == Action::ReadPatchConfig
            <==> patch && config,
        !(patch && config) ==> next_step(cfg, Stage::PatchProbeConfig { patch }, Event::Exists(config)) == (
            Stage::Finished,
            Action::Finish(Ok(())),
        ),
{
}

/// The request URL ends with `&currentPatchNumber=` and the decimal digits of
/// the current patch number: the full number, which reads back as itself.
pub proof fn lemma_request_url_carries_patch_number(
    server_url: Seq<char>,
    app_id: Seq<u8>,
    version: Seq<u8>,
    channel: Seq<u8>,
    platform: Seq<u8>,
    architecture: Seq<u8>,
    current_patch_number: u32,
)
    ensures
        exists|prefix: Seq<char>, digits: Seq<char>|
            latest_patch_url_text(server_url, app_id, version, channel, platform, architecture, current_patch_number)
                == prefix + "&currentPatchNumber="@ + digits
            && digits.len() > 0 && all_digits(digits) && parse_u32(digits) == Some(current_patch_number),
{
    let t = latest_patch_url_text(server_url, app_id, version, channel, platform, architecture, current_patch_number);
    let d = decimal_string(current_patch_number as nat);
    lemma_decimal_string(current_patch_number as nat);
    lemma_parse_decimal_string(current_patch_number);
    let prefix = t.take(t.len() - d.len() - "&currentPatchNumber="@.len());
    assert(t =~= prefix + "&currentPatchNumber="@ + d);
}


/// The run is carrying out, from its first effect, exactly the effects
/// `effects`, followed by `then`, and asks for the first of them.
pub open spec fn performs(r: (Stage, Action), effects: Seq<Effect>, then: Next) -> bool {
    &&& r.0 is Performing
    &&& r.0->index == 0
    &&& plan_effects(r.0->plan) =~= effects
    &&& r.0->then == then
    &&& effects.len() > 0 && r.1 == Action::Perform(effects[0])
}

pub open spec fn patch_cleanup() -> Seq<Effect> {
    seq![
        Effect::Remove(FileKind::TempPatch),
        Effect::Remove(FileKind::Patch),
        Effect::Remove(FileKind::PatchConfig),
    ]
}

pub open spec fn library_cleanup() -> Seq<Effect> {
    seq![
        Effect::Remove(FileKind::Cache),
        Effect::Remove(FileKind::TempLibapp),
        Effect::Remove(FileKind::Libapp),
    ]
}

/// A downloaded patch whose bytes hash to the announced patch hash is moved
/// into place and installed as a fresh install of the announced library
/// hash and number for the configured release; any other download fails the run.
pub proof fn lemma_download_check(cfg: WingbirdPatchManagerConfig, meta: PatchMetadata, bytes: Option<Vec<u8>>)
    ensures
        ({
            let r = next_step(cfg, Stage::VerifyDownload { meta }, Event::Bytes(bytes));
            if bytes matches Some(b) && digest_hex(b@) == meta.patch_hash@ {
                performs(
                    r,
                    seq![Effect::Rename(FileKind::TempPatch, FileKind::Patch)],
                    Next::Apply(
                        ApplyJob {
                            libapp_hash: meta.libapp_hash,
                            patch_number: meta.patch_number,
                            version: cfg.version,
                            in_recovery: false,
                        },
                    ),
                ) && r.0->on_error == OnError::Abort
            } else {
                r == (Stage::Finished, Action::Finish(Err(RunError::DownloadVerificationFailed)))
            }
        }),
{
}

/// A stored patch of the configured release whose bytes hash to its
/// record's patch hash is installed from its record (library hash, number,
/// release) as a resumed install; one whose hash differs is discarded and
/// the run ends well; an unreadable one fails the run.
pub proof fn lemma_stored_patch_check(cfg: WingbirdPatchManagerConfig, config: PatchConfig, bytes: Option<Vec<u8>>)
    ensures
        ({
            let r = next_step(cfg, Stage::PatchCheck { config }, Event::Bytes(bytes));
            match bytes {
                Some(b) => if digest_hex(b@) == config.patch_hash@ {
                    r == (
                        Stage::ApplyProbeVersion {
                            job: ApplyJob {
                                libapp_hash: config.libapp_hash,
                                patch_number: config.patch_number,
                                version: config.release_version,
                                in_recovery: true,
                            },
                        },
                        Action::Exists(FileKind::Version),
                    )
                } else {
                    performs(r, patch_cleanup(), Next::Finish)
                },
                None => r == (Stage::Finished, Action::Finish(Err(RunError::Io))),
            }
        }),
{
}

/// A patch record is used only if it is readable and names the configured
/// release (then the stored patch is read); otherwise the patch files are removed.
pub proof fn lemma_patch_record_check(cfg: WingbirdPatchManagerConfig, config: Option<PatchConfig>)
    ensures
        ({
            let r = next_step(cfg, Stage::PatchReadConfig, Event::PatchConfigRead(config));
            if config matches Some(c) && c.release_version@ == cfg.version@ {
                r == (Stage::PatchCheck { config: config->Some_0 }, Action::ReadFile(FileKind::Patch))
            } else {
                performs(r, patch_cleanup(), Next::Finish)
            }
        }),
{
}

/// The install record written for an install names its library hash, its
/// release and its number; then the patched library is produced.
pub proof fn lemma_install_record(cfg: WingbirdPatchManagerConfig, job: ApplyJob, version_existed: bool)
    ensures
        ({
            let r = next_step(cfg, Stage::ApplyProbeVersion { job }, Event::Exists(version_existed));
            performs(
                r,
                seq![
                    Effect::WriteCache(
                        LibCache {
                            libapp_hash: job.libapp_hash,
                            release_version: job.version,
                            patch_number: job.patch_number,
                        },
                    ),
                ],
                Next::ApplyFiles(job, version_existed),
            ) && r.0->on_error == (if job.in_recovery { OnError::CleanupPatch } else { OnError::Abort })
        }),
{
}

/// A patched library whose hash is the expected one is installed: the old
/// version file goes (if there was one), the library is moved into place,
/// the install's release and number are committed, and the install record
/// and patch files are removed. Any other outcome installs nothing: a
/// resumed install discards its patch and the run ends well, a fresh one
/// fails the run.
pub proof fn lemma_patched_library_check(cfg: WingbirdPatchManagerConfig, job: ApplyJob, version_existed: bool, hash: Option<String>)
    ensures
        ({
            let r = next_step(cfg, Stage::Applying { job, version_existed }, Event::Patched(hash));
            let install = seq![
                Effect::Rename(FileKind::TempLibapp, FileKind::Libapp),
                Effect::WriteVersion(LibVersion { release_version: job.version, patch_number: job.patch_number }),
                Effect::Remove(FileKind::Cache),
                Effect::Remove(FileKind::TempPatch),
                Effect::Remove(FileKind::Patch),
                Effect::Remove(FileKind::PatchConfig),
            ];
            if hash matches Some(h) && h@ == job.libapp_hash@ {
                performs(
                    r,
                    if version_existed { seq![Effect::Remove(FileKind::Version)] + install } else { install },
                    Next::Finish,
                )
            } else if job.in_recovery {
                performs(r, patch_cleanup(), Next::Finish)
            } else {
                r == (Stage::Finished, Action::Finish(Err(
                    if hash is Some { RunError::PatchVerificationFailed } else { RunError::Io },
                )))
            }
        }),
{
    let r = next_step(cfg, Stage::Applying { job, version_existed }, Event::Patched(hash));
    if hash matches Some(h) && h@ == job.libapp_hash@ {
        if version_existed {
            assert(plan_effects(r.0->plan) =~= seq![Effect::Remove(FileKind::Version)] + crate::machine::install_tail(
                LibVersion { release_version: job.version, patch_number: job.patch_number },
            ));
        }
    }
}

/// A version file of another release, or one that cannot be read, leads to
/// cleaning the library folder (install record, temporary and installed library).
pub proof fn lemma_foreign_version_cleans_library(cfg: WingbirdPatchManagerConfig, cache: bool, text: Option<String>)
    requires
        text matches Some(t) ==> t@.contains(':'),
        !(text matches Some(t) && parse_version_text(t@) matches Some((release, _)) && release == cfg.version@),
    ensures
        performs(
            next_step(cfg, Stage::LibReadVersion { cache }, Event::VersionText(text)),
            library_cleanup(),
            Next::CurrentPatchNumber,
        ),
{
}

/// Without a version file, an install record that is unreadable or of
/// another release is dropped with the temporary library; one of the
/// configured release is checked against the installed library first, else
/// the temporary one; with neither library the folder is cleaned.
pub proof fn lemma_install_record_decision(cfg: WingbirdPatchManagerConfig, temp: bool, lib: bool, record: Option<LibCache>)
    ensures
        ({
            let r = next_step(cfg, Stage::LibReadCache { temp, lib }, Event::CacheRead(record));
            match record {
                Some(c) => if c.release_version@ != cfg.version@ {
                    performs(r, seq![Effect::Remove(FileKind::Cache), Effect::Remove(FileKind::TempLibapp)], Next::CurrentPatchNumber)
                } else if lib {
                    r == (Stage::LibCheckLib { cache: c, temp }, Action::ReadFile(FileKind::Libapp))
                } else if temp {
                    r == (Stage::LibCheckTemp { cache: c }, Action::ReadFile(FileKind::TempLibapp))
                } else {
                    performs(r, library_cleanup(), Next::CurrentPatchNumber)
                },
                None => performs(r, seq![Effect::Remove(FileKind::Cache), Effect::Remove(FileKind::TempLibapp)], Next::CurrentPatchNumber),
            }
        }),
{
}

/// An installed library that hashes to the install record's hash is
/// committed with the record's release and number; otherwise the temporary
/// library is checked, or, without one, the folder is cleaned.
pub proof fn lemma_installed_library_check(cfg: WingbirdPatchManagerConfig, cache: LibCache, temp: bool, bytes: Option<Vec<u8>>)
    ensures
        ({
            let r = next_step(cfg, Stage::LibCheckLib { cache, temp }, Event::Bytes(bytes));
            match bytes {
                Some(b) => if digest_hex(b@) == cache.libapp_hash@ {
                    performs(r, seq![
                        Effect::WriteVersion(LibVersion { release_version: cache.release_version, patch_number: cache.patch_number }),
                        Effect::Remove(FileKind::Cache),
                        Effect::Remove(FileKind::TempLibapp),
                    ], Next::CurrentPatchNumber)
                } else if temp {
                    r == (Stage::LibCheckTemp { cache }, Action::ReadFile(FileKind::TempLibapp))
                } else {
                    performs(r, library_cleanup(), Next::CurrentPatchNumber)
                },
                None => r == (Stage::Finished, Action::Finish(Err(RunError::Io))),
            }
        }),
{
}

/// A temporary library that hashes to the install record's hash is moved
/// into place and committed with the record's release and number;
/// otherwise it is removed and the folder cleaned.
pub proof fn lemma_temporary_library_check(cfg: WingbirdPatchManagerConfig, cache: LibCache, bytes: Option<Vec<u8>>)
    ensures
        ({
            let r = next_step(cfg, Stage::LibCheckTemp { cache }, Event::Bytes(bytes));
            match bytes {
                Some(b) => if digest_hex(b@) == cache.libapp_hash@ {
                    performs(r, seq![
                        Effect::Rename(FileKind::TempLibapp, FileKind::Libapp),
                        Effect::WriteVersion(LibVersion { release_version: cache.release_version, patch_number: cache.patch_number }),
                        Effect::Remove(FileKind::Cache),
                    ], Next::CurrentPatchNumber)
                } else {
                    performs(r, seq![Effect::Remove(FileKind::TempLibapp)] + library_cleanup(), Next::CurrentPatchNumber)
                },
                None => r == (Stage::Finished, Action::Finish(Err(RunError::Io))),
            }
        }),
{
}

/// Which library files exist decides the recovery: a version file is read
/// first; without one an install record is read; with neither the folder is cleaned.
pub proof fn lemma_library_probe_decision(cfg: WingbirdPatchManagerConfig, version: bool, cache: bool, temp: bool, lib: bool)
    ensures
        ({
            let r = next_step(cfg, Stage::LibProbeLib { version, cache, temp }, Event::Exists(lib));
            if version {
                r == (Stage::LibReadVersion { cache }, Action::ReadVersion)
            } else if cache {
                r == (Stage::LibReadCache { temp, lib }, Action::ReadCache)
            } else {
                performs(r, library_cleanup(), Next::CurrentPatchNumber)
            }
        }),
{
}

/// The number sent to the server is the version file's number when the file
/// can be read, holds a valid number and names the configured release, and 0 otherwise.
pub proof fn lemma_sent_patch_number(cfg: WingbirdPatchManagerConfig, text: Option<String>)
    ensures
        ({
            let r = next_step(cfg, Stage::NumberRead, Event::VersionText(text));
            &&& r.0 == Stage::Checking
            &&& r.1 is CheckLatestPatch
            &&& r.1->CheckLatestPatch_0.current_patch_number == match text {
                Some(t) => match parse_version_text(t@) {
                    Some((release, n)) => if release == cfg.version@ { n } else { 0 },
                    None => 0,
                },
                None => 0,
            }
        }),
        next_step(cfg, Stage::NumberProbe, Event::Exists(false)).1->CheckLatestPatch_0.current_patch_number == 0,
        next_step(cfg, Stage::NumberProbe, Event::Exists(true)) == (Stage::NumberRead, Action::ReadVersion),
{
}

/// A failed effect ends the run with an I/O error, except during a resumed
/// install, where the patch files are removed and the run ends well.
pub proof fn lemma_failed_effect(cfg: WingbirdPatchManagerConfig, s: Stage)
    requires
        s is Performing,
    ensures
        s->on_error == OnError::Abort ==> next_step(cfg, s, Event::Done(false)) == (Stage::Finished, Action::Finish(Err(RunError::Io))),
        s->on_error == OnError::CleanupPatch ==> performs(next_step(cfg, s, Event::Done(false)), patch_cleanup(), Next::Finish)
            && next_step(cfg, s, Event::Done(false)).0->on_error == OnError::Abort,
{
}

/// A run begins by creating the directories, then probes the version file.
pub proof fn lemma_run_start(cfg: WingbirdPatchManagerConfig, e: Event)
    ensures
        performs(next_step(cfg, Stage::Start, e), seq![Effect::CreateDirs], Next::LibProbe),
        next_step(cfg, Stage::Start, e).0->on_error == OnError::Abort,
{
}


/// Trimming the server URL removes exactly its trailing `/` characters: the
/// result does not end with `/`, and the URL is the result followed by `/`s only.
pub proof fn lemma_trim_trailing_slashes(s: Seq<char>)
    ensures
        trim_trailing_slashes(s).len() <= s.len(),
        s.take(trim_trailing_slashes(s).len() as int) == trim_trailing_slashes(s),
        trim_trailing_slashes(s).len() == 0 || trim_trailing_slashes(s).last() != '/',
        forall|i: int| trim_trailing_slashes(s).len() <= i < s.len() ==> s[i] == '/',
    decreases s.len(),
{
    if s.len() > 0 && s.last() == '/' {
        lemma_trim_trailing_slashes(s.drop_last());
        let t = trim_trailing_slashes(s);
        assert(s.take(t.len() as int) =~= s.drop_last().take(t.len() as int));
        assert forall|i: int| t.len() <= i < s.len() implies s[i] == '/' by {
            if i < s.len() - 1 {
                assert(s[i] == s.drop_last()[i]);
            }
        }
    } else {
        assert(s.take(s.len() as int) =~= s);
    }
}

/// The download URL is the server URL without trailing `/`, then
/// `/api/patches/`, the patch id exactly as given, and `/download`.
pub proof fn lemma_download_url(server_url: Seq<char>, patch_id: Seq<char>)
    ensures
        ({
            let u = download_url_text(server_url, patch_id);
            let base = trim_trailing_slashes(server_url);
            &&& u.take(base.len() as int) == base
            &&& u.subrange(base.len() as int, base.len() as int + 13) == "/api/patches/"@
            &&& u.subrange(base.len() as int + 13, base.len() as int + 13 + patch_id.len()) == patch_id
            &&& u.skip(base.len() as int + 13 + patch_id.len()) == "/download"@
        }),
{
    let u = download_url_text(server_url, patch_id);
    let base = trim_trailing_slashes(server_url);
    reveal_strlit("/api/patches/");
    reveal_strlit("/download");
    assert(u.take(base.len() as int) =~= base);
    assert(u.subrange(base.len() as int, base.len() as int + 13) =~= "/api/patches/"@);
    assert(u.subrange(base.len() as int + 13, base.len() as int + 13 + patch_id.len()) =~= patch_id);
    assert(u.skip(base.len() as int + 13 + patch_id.len()) =~= "/download"@);
}

/// Percent-encoding leaves only unreserved characters, `%` and upper-case hex
/// digits: no `&`, `=`, `/`, `?` or `#` of a field can reach the URL.
pub proof fn lemma_percent_encode_is_url_safe(bytes: Seq<u8>)
    ensures
        forall|i: int| 0 <= i < percent_encode(bytes).len() ==> {
            let c = #[trigger] percent_encode(bytes)[i];
            c != '&' && c != '=' && c != '/' && c != '?' && c != '#'
        },
    decreases bytes.len(),
{
    if bytes.len() > 0 {
        lemma_percent_encode_is_url_safe(bytes.drop_first());
        let head = percent_encode_byte(bytes[0]);
        let tail = percent_encode(bytes.drop_first());
        let b = bytes[0];
        assert(percent_encode(bytes) == head + tail);
        assert forall|i: int| 0 <= i < head.len() implies {
            let c = #[trigger] head[i];
            c != '&' && c != '=' && c != '/' && c != '?' && c != '#'
        } by {
            if url_unreserved(b) {
                assert(head[i] == (b as char));
            } else {
                let hi = b / 16;
                let lo = b % 16;
                assert(hi < 16 && lo < 16);
            }
        }
        assert forall|i: int| 0 <= i < percent_encode(bytes).len() implies {
            let c = #[trigger] percent_encode(bytes)[i];
            c != '&' && c != '=' && c != '/' && c != '?' && c != '#'
        } by {
            if i < head.len() {
                assert(percent_encode(bytes)[i] == head[i]);
            } else {
                assert(percent_encode(bytes)[i] == tail[i - head.len()]);
            }
        }
    }
}

/// The request URL starts with the server URL without trailing `/` followed
/// by `/api/apps/`.
pub proof fn lemma_request_url_base(
    server_url: Seq<char>,
    app_id: Seq<u8>,
    version: Seq<u8>,
    channel: Seq<u8>,
    platform: Seq<u8>,
    architecture: Seq<u8>,
    current_patch_number: u32,
)
    ensures
        ({
            let u = latest_patch_url_text(server_url, app_id, version, channel, platform, architecture, current_patch_number);
            let base = trim_trailing_slashes(server_url);
            u.take(base.len() as int + 10) == base + "/api/apps/"@
        }),
{
    let u = latest_patch_url_text(server_url, app_id, version, channel, platform, architecture, current_patch_number);
    let base = trim_trailing_slashes(server_url);
    reveal_strlit("/api/apps/");
    assert(u.take(base.len() as int + 10) =~= base + "/api/apps/"@);
}

} // verus!
