//! A model of the files a run works on, and of what the caller does with
//! each action: answers describe the files truthfully, effects change them
//! as they say. Laws over whole runs are stated over this model.

use vstd::prelude::*;
use crate::digest::digest_hex;
use crate::layout::FileKind;
use crate::machine::{plan_effects, Effect, Event, Stage};
use crate::types::{LibCache, PatchConfig};
use crate::version::version_text;

verus! {

/// What a file holds: bytes, the version file's text, or a decoded record.
pub enum Stored {
    Bytes(Seq<u8>),
    Text(Seq<char>),
    CacheRecord(LibCache),
    ConfigRecord(PatchConfig),
}

/// The patcher's files, and whether its two directories have been created.
pub struct World {
    pub files: Map<FileKind, Stored>,
    pub dirs: bool,
}

pub open spec fn file_exists(w: World, k: FileKind) -> bool {
    w.files.contains_key(k)
}

/// The file `k` exists and holds the bytes `b`.
pub open spec fn holds_bytes(w: World, k: FileKind, b: Seq<u8>) -> bool {
    file_exists(w, k) && w.files[k] == Stored::Bytes(b)
}

/// The file `k` exists, holds bytes, and they hash (BLAKE3, lower-case hex) to `h`.
pub open spec fn hashes_to(w: World, k: FileKind, h: Seq<char>) -> bool {
    file_exists(w, k) && w.files[k] is Bytes && digest_hex(w.files[k]->Bytes_0) == h
}

/// `event` truthfully answers, in world `w`, the action that led to `stage`:
/// existence is told as it is, and what is read is what the file holds
/// (a read may always fail).
pub open spec fn answers(w: World, stage: Stage, event: Event) -> bool {
    match stage {
        Stage::LibProbeVersion | Stage::NumberProbe | Stage::ApplyProbeVersion { .. } => event
            == Event::Exists(file_exists(w, FileKind::Version)),
        Stage::LibProbeCache { .. } => event == Event::Exists(file_exists(w, FileKind::Cache)),
        Stage::LibProbeTemp { .. } => event == Event::Exists(file_exists(w, FileKind::TempLibapp)),
        Stage::LibProbeLib { .. } => event == Event::Exists(file_exists(w, FileKind::Libapp)),
        Stage::PatchProbe => event == Event::Exists(file_exists(w, FileKind::Patch)),
        Stage::PatchProbeConfig { .. } => event == Event::Exists(file_exists(w, FileKind::PatchConfig)),
        Stage::LibReadVersion { .. } | Stage::NumberRead => match event {
            Event::VersionText(Some(t)) => file_exists(w, FileKind::Version) && w.files[FileKind::Version]
                == Stored::Text(t@),
            _ => true,
        },
        Stage::LibReadCache { .. } => match event {
            Event::CacheRead(Some(c)) => file_exists(w, FileKind::Cache) && w.files[FileKind::Cache]
                == Stored::CacheRecord(c),
            _ => true,
        },
        Stage::PatchReadConfig => match event {
            Event::PatchConfigRead(Some(c)) => file_exists(w, FileKind::PatchConfig)
                && w.files[FileKind::PatchConfig] == Stored::ConfigRecord(c),
            _ => true,
        },
        Stage::LibCheckLib { .. } => match event {
            Event::Bytes(Some(b)) => holds_bytes(w, FileKind::Libapp, b@),
            _ => true,
        },
        Stage::LibCheckTemp { .. } => match event {
            Event::Bytes(Some(b)) => holds_bytes(w, FileKind::TempLibapp, b@),
            _ => true,
        },
        Stage::VerifyDownload { .. } => match event {
            Event::Bytes(Some(b)) => holds_bytes(w, FileKind::TempPatch, b@),
            _ => true,
        },
        Stage::PatchCheck { .. } => match event {
            Event::Bytes(Some(b)) => holds_bytes(w, FileKind::Patch, b@),
            _ => true,
        },
        _ => true,
    }
}

/// `w2` is `w` with only the file `k` possibly changed.
pub open spec fn only_changes(w: World, w2: World, k: FileKind) -> bool {
    w2.dirs == w.dirs && w2.files.remove(k) =~= w.files.remove(k)
}

/// The world after an effect: as it says when it succeeded; when it failed,
/// removals, renames and directory creation left everything as it was, and
/// a write or download may have left its target file changed.
pub open spec fn effect_outcome(w: World, eff: Effect, ok: bool, w2: World) -> bool {
    if ok {
        match eff {
            Effect::CreateDirs => w2.files =~= w.files && w2.dirs,
            Effect::Remove(k) => w2.dirs == w.dirs && w2.files =~= w.files.remove(k),
            Effect::Rename(a, b) => file_exists(w, a) && w2.dirs == w.dirs && w2.files =~= w.files.remove(
                a,
            ).insert(b, w.files[a]),
            Effect::WriteVersion(v) => w2.dirs == w.dirs && w2.files =~= w.files.insert(
                FileKind::Version,
                Stored::Text(version_text(v.release_version@, v.patch_number)),
            ),
            Effect::WriteCache(c) => w2.dirs == w.dirs && w2.files =~= w.files.insert(
                FileKind::Cache,
                Stored::CacheRecord(c),
            ),
            Effect::WritePatchConfig(c) => w2.dirs == w.dirs && w2.files =~= w.files.insert(
                FileKind::PatchConfig,
                Stored::ConfigRecord(c),
            ),
            Effect::Download(_) => only_changes(w, w2, FileKind::TempPatch) && file_exists(w2, FileKind::TempPatch)
                && w2.files[FileKind::TempPatch] is Bytes,
        }
    } else {
        match eff {
            Effect::WriteVersion(_) => only_changes(w, w2, FileKind::Version),
            Effect::WriteCache(_) => only_changes(w, w2, FileKind::Cache),
            Effect::WritePatchConfig(_) => only_changes(w, w2, FileKind::PatchConfig),
            Effect::Download(_) => only_changes(w, w2, FileKind::TempPatch),
            _ => w2 == w,
        }
    }
}

/// How the files change between the step that left the run at `stage` and
/// the step that answers with `event`: the requested effect happens, the
/// patching writes the temporary library (hashing to the reported hex), and
/// reads and questions change nothing.
pub open spec fn transition(w: World, stage: Stage, event: Event, w2: World) -> bool {
    match stage {
        Stage::Performing { plan, index, .. } => if index < plan_effects(plan).len() && event is Done {
            effect_outcome(w, plan_effects(plan)[index as int], event->Done_0, w2)
        } else {
            w2 == w
        },
        Stage::Applying { .. } => {
            &&& w2.dirs == w.dirs
            &&& w2.files.remove(FileKind::TempLibapp).remove(FileKind::PatchedOutput)
                =~= w.files.remove(FileKind::TempLibapp).remove(FileKind::PatchedOutput)
            &&& event matches Event::Patched(Some(h)) ==> hashes_to(w2, FileKind::TempLibapp, h@)
        },
        _ => w2 == w,
    }
}

} // verus!
