use std::collections::HashMap;
use std::io::Cursor;

use wingbird_patch::digest::hash_hex;
use wingbird_patch::layout::FileKind;
use wingbird_patch::machine::{Action, Effect, Event, RunError, Stage};
use wingbird_patch::manager::{WingbirdPatchManager, WingbirdPatchManagerConfig};
use wingbird_patch::patching::apply_patch_bytes;
use wingbird_patch::types::{LibCache, PatchConfig, PatchMetadata};

#[derive(Debug, PartialEq)]
enum Content {
    Bytes(Vec<u8>),
    Text(String),
    Cache(LibCache),
    Config(PatchConfig),
}

struct World {
    files: HashMap<FileKind, Content>,
    dirs: bool,
    server: Option<Option<PatchMetadata>>,
    download: Vec<u8>,
    checked_with: Option<u32>,
    fail_remove: bool,
    log: Vec<String>,
}

fn manager() -> WingbirdPatchManager {
    WingbirdPatchManager::new(WingbirdPatchManagerConfig {
        server_url: "http://h".to_string(),
        app_id: "app".to_string(),
        version: "1.0.0".to_string(),
        channel: "prod".to_string(),
        platform: "android".to_string(),
        architecture: "arm64".to_string(),
        root_path: "/data/wb".to_string(),
        native_libapp_path: "/app/libapp.so".to_string(),
    })
}

fn native() -> Vec<u8> {
    (0..3000u32).map(|i| (i * 7 % 256) as u8).collect()
}

fn patched() -> Vec<u8> {
    let mut t = native();
    t[10] = 1;
    t[2000] = 2;
    t.extend_from_slice(b"v2");
    t
}

fn patch_for(target: &[u8]) -> Vec<u8> {
    let mut p = Vec::new();
    qbsdiff::Bsdiff::new(&native(), target).compare(Cursor::new(&mut p)).unwrap();
    p
}

fn copy_cache(c: &LibCache) -> LibCache {
    LibCache { libapp_hash: c.libapp_hash.clone(), release_version: c.release_version.clone(), patch_number: c.patch_number }
}

fn copy_config(c: &PatchConfig) -> PatchConfig {
    PatchConfig {
        patch_number: c.patch_number,
        patch_hash: c.patch_hash.clone(),
        libapp_hash: c.libapp_hash.clone(),
        release_version: c.release_version.clone(),
    }
}

impl World {
    fn new() -> World {
        let mut files = HashMap::new();
        files.insert(FileKind::NativeLibapp, Content::Bytes(native()));
        World { files, dirs: false, server: Some(None), download: Vec::new(), checked_with: None, fail_remove: false, log: Vec::new() }
    }

    fn bytes(&self, k: FileKind) -> Option<Vec<u8>> {
        match self.files.get(&k) {
            Some(Content::Bytes(b)) => Some(b.clone()),
            Some(Content::Text(t)) => Some(t.as_bytes().to_vec()),
            _ => None,
        }
    }

    fn effect(&mut self, e: Effect) -> bool {
        match e {
            Effect::CreateDirs => {
                self.dirs = true;
                true
            }
            Effect::Remove(k) => {
                if self.fail_remove && self.files.contains_key(&k) {
                    return false;
                }
                self.files.remove(&k);
                true
            }
            Effect::Rename(a, b) => match self.files.remove(&a) {
                Some(c) => {
                    self.files.insert(b, c);
                    true
                }
                None => false,
            },
            Effect::WriteVersion(v) => {
                self.files.insert(FileKind::Version, Content::Text(v.to_file_content()));
                true
            }
            Effect::WriteCache(c) => {
                self.files.insert(FileKind::Cache, Content::Cache(c));
                true
            }
            Effect::WritePatchConfig(c) => {
                self.files.insert(FileKind::PatchConfig, Content::Config(c));
                true
            }
            Effect::Download(_) => {
                self.files.insert(FileKind::TempPatch, Content::Bytes(self.download.clone()));
                true
            }
        }
    }

    fn apply_patch_files(&mut self) -> Option<String> {
        let source = self.bytes(FileKind::NativeLibapp)?;
        let patch = self.bytes(FileKind::Patch)?;
        let out = apply_patch_bytes(&source, &patch).ok()?;
        let hex = hash_hex(&out);
        self.files.insert(FileKind::TempLibapp, Content::Bytes(out));
        Some(hex)
    }

    fn run(&mut self, m: &WingbirdPatchManager) -> (Result<(), RunError>, usize) {
        let mut stage = Stage::Start;
        let mut event = Event::Start;
        let mut steps = 0;
        loop {
            steps += 1;
            let (next, action) = m.step(stage, event);
            stage = next;
            self.log.push(format!("{:?}", action));
            event = match action {
                Action::Perform(e) => Event::Done(self.effect(e)),
                Action::Exists(k) => Event::Exists(self.files.contains_key(&k)),
                Action::ReadVersion => Event::VersionText(match self.files.get(&FileKind::Version) {
                    Some(Content::Text(t)) => Some(t.clone()),
                    _ => None,
                }),
                Action::ReadCache => Event::CacheRead(match self.files.get(&FileKind::Cache) {
                    Some(Content::Cache(c)) => Some(copy_cache(c)),
                    _ => None,
                }),
                Action::ReadPatchConfig => Event::PatchConfigRead(match self.files.get(&FileKind::PatchConfig) {
                    Some(Content::Config(c)) => Some(copy_config(c)),
                    _ => None,
                }),
                Action::ReadFile(k) => Event::Bytes(self.bytes(k)),
                Action::CheckLatestPatch(req) => {
                    assert_eq!(req.app_id, "app");
                    assert_eq!(req.version, "1.0.0");
                    assert_eq!(req.channel, "prod");
                    assert_eq!(req.platform, "android");
                    assert_eq!(req.architecture, "arm64");
                    assert!(self.checked_with.is_none(), "second check request");
                    self.checked_with = Some(req.current_patch_number);
                    Event::LatestPatch(self.server.clone())
                }
                Action::ApplyPatchFiles => Event::Patched(self.apply_patch_files()),
                Action::Finish(r) => return (r, steps),
            };
        }
    }
}

fn meta(patch: &[u8], libapp: &[u8], n: u32) -> PatchMetadata {
    PatchMetadata {
        id: "p1".to_string(),
        patch_number: n,
        libapp_hash: hash_hex(libapp),
        patch_hash: hash_hex(patch),
    }
}

#[test]
fn fresh_install_of_an_announced_patch() {
    let patch = patch_for(&patched());
    let mut w = World::new();
    w.server = Some(Some(meta(&patch, &patched(), 3)));
    w.download = patch;
    let (r, steps) = w.run(&manager());
    assert_eq!(r, Ok(()));
    assert!(steps <= 47);
    assert!(w.dirs);
    assert_eq!(w.checked_with, Some(0));
    assert_eq!(w.files.get(&FileKind::Libapp), Some(&Content::Bytes(patched())));
    assert_eq!(w.files.get(&FileKind::Version), Some(&Content::Text("1.0.0:3".to_string())));
    for k in [FileKind::Cache, FileKind::TempLibapp, FileKind::Patch, FileKind::TempPatch, FileKind::PatchConfig] {
        assert!(!w.files.contains_key(&k), "{:?} left behind", k);
    }
}

#[test]
fn no_patch_and_nothing_on_disk_ends_well() {
    let mut w = World::new();
    let (r, _) = w.run(&manager());
    assert_eq!(r, Ok(()));
    assert_eq!(w.files.len(), 1);
}

#[test]
fn committed_patch_number_is_sent_to_the_server() {
    let mut w = World::new();
    w.files.insert(FileKind::Version, Content::Text("1.0.0:5".to_string()));
    w.files.insert(FileKind::Libapp, Content::Bytes(patched()));
    let (r, _) = w.run(&manager());
    assert_eq!(r, Ok(()));
    assert_eq!(w.checked_with, Some(5));
    assert!(w.files.contains_key(&FileKind::Libapp));
}

#[test]
fn unreadable_patch_number_counts_as_zero() {
    let mut w = World::new();
    w.files.insert(FileKind::Version, Content::Text("1.0.0:five".to_string()));
    let (r, _) = w.run(&manager());
    assert_eq!(r, Ok(()));
    assert_eq!(w.checked_with, Some(0));
}

#[test]
fn current_patch_number_from_text() {
    let m = manager();
    assert_eq!(m.get_current_patch_number(None), 0);
    assert_eq!(m.get_current_patch_number(Some("1.0.0:9")), 9);
    assert_eq!(m.get_current_patch_number(Some("1.0.0:")), 0);
    assert_eq!(m.get_current_patch_number(Some("1.0.0:+12")), 12);
    assert_eq!(m.get_current_patch_number(Some("0.9.0:12")), 0);
    assert_eq!(m.get_current_patch_number(Some(":12")), 0);
}

#[test]
fn downloaded_patch_with_wrong_hash_fails_the_run() {
    let patch = patch_for(&patched());
    let mut w = World::new();
    w.server = Some(Some(meta(&patch, &patched(), 1)));
    w.download = b"corrupted".to_vec();
    let (r, _) = w.run(&manager());
    assert_eq!(r, Err(RunError::DownloadVerificationFailed));
    assert!(!w.files.contains_key(&FileKind::Libapp));
    assert!(!w.files.contains_key(&FileKind::Version));
}

#[test]
fn patched_library_with_wrong_hash_is_not_installed() {
    let patch = patch_for(&patched());
    let mut w = World::new();
    w.server = Some(Some(meta(&patch, b"some other library", 1)));
    w.download = patch;
    let (r, _) = w.run(&manager());
    assert_eq!(r, Err(RunError::PatchVerificationFailed));
    assert!(!w.files.contains_key(&FileKind::Libapp));
    assert!(!w.files.contains_key(&FileKind::Version));
}

#[test]
fn version_of_another_release_clears_the_library_folder() {
    let mut w = World::new();
    w.files.insert(FileKind::Version, Content::Text("0.9.0:4".to_string()));
    w.files.insert(FileKind::Libapp, Content::Bytes(b"old".to_vec()));
    w.files.insert(FileKind::Cache, Content::Bytes(b"x".to_vec()));
    let (r, _) = w.run(&manager());
    assert_eq!(r, Ok(()));
    assert!(!w.files.contains_key(&FileKind::Libapp));
    assert!(!w.files.contains_key(&FileKind::Cache));
    assert_eq!(w.checked_with, Some(0));
}

#[test]
fn interrupted_install_is_completed_from_the_temporary_library() {
    let mut w = World::new();
    w.server = None;
    w.files.insert(
        FileKind::Cache,
        Content::Cache(LibCache { libapp_hash: hash_hex(&patched()), release_version: "1.0.0".to_string(), patch_number: 2 }),
    );
    w.files.insert(FileKind::TempLibapp, Content::Bytes(patched()));
    let (r, _) = w.run(&manager());
    assert_eq!(r, Ok(()));
    assert_eq!(w.files.get(&FileKind::Libapp), Some(&Content::Bytes(patched())));
    assert_eq!(w.files.get(&FileKind::Version), Some(&Content::Text("1.0.0:2".to_string())));
    assert!(!w.files.contains_key(&FileKind::Cache));
    assert_eq!(w.checked_with, Some(2));
}

#[test]
fn interrupted_install_with_damaged_library_is_undone() {
    let mut w = World::new();
    w.files.insert(
        FileKind::Cache,
        Content::Cache(LibCache { libapp_hash: hash_hex(&patched()), release_version: "1.0.0".to_string(), patch_number: 2 }),
    );
    w.files.insert(FileKind::TempLibapp, Content::Bytes(b"half written".to_vec()));
    w.files.insert(FileKind::Libapp, Content::Bytes(b"stale".to_vec()));
    let (r, _) = w.run(&manager());
    assert_eq!(r, Ok(()));
    for k in [FileKind::Cache, FileKind::TempLibapp, FileKind::Libapp, FileKind::Version] {
        assert!(!w.files.contains_key(&k), "{:?} left behind", k);
    }
}

#[test]
fn downloaded_patch_is_resumed_when_the_server_is_unreachable() {
    let patch = patch_for(&patched());
    let mut w = World::new();
    w.server = None;
    w.files.insert(FileKind::Patch, Content::Bytes(patch.clone()));
    w.files.insert(
        FileKind::PatchConfig,
        Content::Config(PatchConfig {
            patch_number: 6,
            patch_hash: hash_hex(&patch),
            libapp_hash: hash_hex(&patched()),
            release_version: "1.0.0".to_string(),
        }),
    );
    let (r, _) = w.run(&manager());
    assert_eq!(r, Ok(()));
    assert_eq!(w.files.get(&FileKind::Libapp), Some(&Content::Bytes(patched())));
    assert_eq!(w.files.get(&FileKind::Version), Some(&Content::Text("1.0.0:6".to_string())));
    assert!(!w.files.contains_key(&FileKind::Patch));
}

#[test]
fn damaged_resumed_patch_is_discarded() {
    let patch = patch_for(&patched());
    let mut w = World::new();
    w.files.insert(FileKind::Patch, Content::Bytes(patch.clone()));
    w.files.insert(
        FileKind::PatchConfig,
        Content::Config(PatchConfig {
            patch_number: 6,
            patch_hash: hash_hex(&patch),
            libapp_hash: hash_hex(b"not what the patch makes"),
            release_version: "1.0.0".to_string(),
        }),
    );
    let (r, _) = w.run(&manager());
    assert_eq!(r, Ok(()));
    for k in [FileKind::Patch, FileKind::PatchConfig, FileKind::Libapp, FileKind::Version] {
        assert!(!w.files.contains_key(&k), "{:?} left behind", k);
    }
}

#[test]
fn failed_file_operation_fails_the_run() {
    let mut w = World::new();
    w.fail_remove = true;
    w.files.insert(FileKind::Libapp, Content::Bytes(b"old".to_vec()));
    let (r, _) = w.run(&manager());
    assert_eq!(r, Err(RunError::Io));
}

#[test]
fn paths_of_the_layout() {
    let m = manager();
    assert_eq!(m.path_of(FileKind::Patch), "/data/wb/patch/libapp.patch");
    assert_eq!(m.path_of(FileKind::TempPatch), "/data/wb/patch/libapp..tmp");
    assert_eq!(m.path_of(FileKind::PatchConfig), "/data/wb/patch/.config");
    assert_eq!(m.path_of(FileKind::Libapp), "/data/wb/lib/libapp.so");
    assert_eq!(m.path_of(FileKind::TempLibapp), "/data/wb/lib/libapp..tmp");
    assert_eq!(m.path_of(FileKind::Cache), "/data/wb/lib/.cache");
    assert_eq!(m.path_of(FileKind::Version), "/data/wb/lib/.version");
    assert_eq!(m.path_of(FileKind::NativeLibapp), "/app/libapp.so");
    assert_eq!(m.path_of(FileKind::PatchedOutput), "/data/wb/lib/.libapp..tmp.new");
    let std_tmp = std::path::Path::new("/data/wb").join("patch").join("libapp.patch").with_extension(".tmp");
    assert_eq!(m.path_of(FileKind::TempPatch), std_tmp.to_str().unwrap());
}

fn position(log: &[String], prefix: &str) -> usize {
    log.iter().position(|a| a.starts_with(prefix)).unwrap_or_else(|| panic!("no {} in {:?}", prefix, log))
}

#[test]
fn install_record_is_written_before_the_library_changes() {
    let patch = patch_for(&patched());
    let mut w = World::new();
    w.server = Some(Some(meta(&patch, &patched(), 3)));
    w.download = patch;
    let (r, _) = w.run(&manager());
    assert_eq!(r, Ok(()));
    let cache = position(&w.log, "Perform(WriteCache");
    let apply = position(&w.log, "ApplyPatchFiles");
    let rename = position(&w.log, "Perform(Rename(TempLibapp, Libapp))");
    let version = position(&w.log, "Perform(WriteVersion");
    assert!(cache < apply && apply < rename && rename < version);
}

#[test]
fn recovery_touches_only_library_files() {
    let mut w = World::new();
    w.files.insert(FileKind::Version, Content::Text("0.9.0:4".to_string()));
    w.files.insert(FileKind::Patch, Content::Bytes(b"p".to_vec()));
    w.files.insert(FileKind::TempPatch, Content::Bytes(b"t".to_vec()));
    w.server = Some(None);
    let (r, _) = w.run(&manager());
    assert_eq!(r, Ok(()));
    let check = position(&w.log, "CheckLatestPatch");
    for a in &w.log[..check] {
        assert!(!a.contains("Patch)") && !a.contains("PatchConfig") && !a.contains("NativeLibapp"), "{}", a);
    }
    assert!(w.files.contains_key(&FileKind::TempPatch));
}

#[test]
fn resumed_install_performs_what_a_fresh_install_does() {
    let patch = patch_for(&patched());
    let mut fresh = World::new();
    fresh.server = Some(Some(meta(&patch, &patched(), 6)));
    fresh.download = patch.clone();
    assert_eq!(fresh.run(&manager()).0, Ok(()));

    let mut resumed = World::new();
    resumed.server = None;
    resumed.files.insert(FileKind::Patch, Content::Bytes(patch.clone()));
    resumed.files.insert(
        FileKind::PatchConfig,
        Content::Config(PatchConfig {
            patch_number: 6,
            patch_hash: hash_hex(&patch),
            libapp_hash: hash_hex(&patched()),
            release_version: "1.0.0".to_string(),
        }),
    );
    assert_eq!(resumed.run(&manager()).0, Ok(()));

    let tail = |log: &[String]| log[position(log, "Exists(Version)") ..].to_vec();
    let f = &fresh.log[position(&fresh.log, "Perform(Rename(TempPatch, Patch))") + 1..];
    let r = &resumed.log[position(&resumed.log, "ReadFile(Patch)") + 1..];
    assert_eq!(tail(f), tail(r));
    assert_eq!(fresh.files, resumed.files);
}

#[test]
fn version_file_of_the_previous_release_asks_for_all_patches() {
    let mut w = World::new();
    w.files.insert(FileKind::Version, Content::Text("0.9.0:4".to_string()));
    w.files.insert(FileKind::Libapp, Content::Bytes(b"ELF".to_vec()));
    let (r, _) = w.run(&manager());
    assert_eq!(r, Ok(()));
    assert_eq!(w.checked_with, Some(0));
    assert!(!w.files.contains_key(&FileKind::Libapp));
}
