//! Where the patcher keeps its files under the application's data directory.

use vstd::prelude::*;
use crate::manager::{WingbirdPatchManager, WingbirdPatchManagerConfig};
use crate::paths::{join, path_with_extension, push_component, temp_sibling, with_extension, with_file_name, temp_sibling_name};

verus! {

/// The files that the patcher reads and writes.
#[derive(Debug, Clone, Copy, PartialEq, Eq, Hash)]
pub enum FileKind {
    /// The downloaded patch, `patch/libapp.patch`.
    Patch,
    /// The patch while it downloads, `patch/libapp..tmp`.
    TempPatch,
    /// The patch's record, `patch/.config`.
    PatchConfig,
    /// The installed patched library, `lib/libapp.so`.
    Libapp,
    /// The patched library before it is committed, `lib/libapp..tmp`.
    TempLibapp,
    /// The record of an install in progress, `lib/.cache`.
    Cache,
    /// The committed version, `lib/.version`.
    Version,
    /// The library shipped with the application.
    NativeLibapp,
    /// Where the patched library is written before it becomes `TempLibapp`.
    PatchedOutput,
}

pub open spec fn patch_dir_text(root: Seq<char>) -> Seq<char> {
    push_component(root, "patch"@)
}

pub open spec fn lib_dir_text(root: Seq<char>) -> Seq<char> {
    push_component(root, "lib"@)
}

/// The path of each file, from the root directory and the shipped library's path.
pub open spec fn kind_path(root: Seq<char>, native: Seq<char>, kind: FileKind) -> Seq<char> {
    let patch = push_component(patch_dir_text(root), "libapp.patch"@);
    let libapp = push_component(lib_dir_text(root), "libapp.so"@);
    let temp_libapp = with_extension(libapp, ".tmp"@);
    match kind {
        FileKind::Patch => patch,
        FileKind::TempPatch => with_extension(patch, ".tmp"@),
        FileKind::PatchConfig => push_component(patch_dir_text(root), ".config"@),
        FileKind::Libapp => libapp,
        FileKind::TempLibapp => temp_libapp,
        FileKind::Cache => push_component(lib_dir_text(root), ".cache"@),
        FileKind::Version => push_component(lib_dir_text(root), ".version"@),
        FileKind::NativeLibapp => native,
        FileKind::PatchedOutput => with_file_name(temp_libapp, temp_sibling_name(temp_libapp)),
    }
}

impl WingbirdPatchManager {
    pub open spec fn spec_path(&self, kind: FileKind) -> Seq<char> {
        kind_path(self.config.root_path@, self.config.native_libapp_path@, kind)
    }

    /// `<root>/patch`.
    pub fn patch_dir(&self) -> (r: String)
        ensures
            r@ == patch_dir_text(self.config.root_path@),
    {
        join(self.config.root_path.as_str(), "patch")
    }

    /// `<root>/lib`.
    pub fn lib_dir(&self) -> (r: String)
        ensures
            r@ == lib_dir_text(self.config.root_path@),
    {
        join(self.config.root_path.as_str(), "lib")
    }

    pub fn patch_path(&self) -> (r: String)
        ensures
            r@ == self.spec_path(FileKind::Patch),
    {
        join(self.patch_dir().as_str(), "libapp.patch")
    }

    pub fn temp_patch_path(&self) -> (r: String)
        ensures
            r@ == self.spec_path(FileKind::TempPatch),
    {
        path_with_extension(self.patch_path().as_str(), ".tmp")
    }

    pub fn config_path(&self) -> (r: String)
        ensures
            r@ == self.spec_path(FileKind::PatchConfig),
    {
        join(self.patch_dir().as_str(), ".config")
    }

    pub fn libapp_path(&self) -> (r: String)
        ensures
            r@ == self.spec_path(FileKind::Libapp),
    {
        join(self.lib_dir().as_str(), "libapp.so")
    }

    pub fn temp_libapp_path(&self) -> (r: String)
        ensures
            r@ == self.spec_path(FileKind::TempLibapp),
    {
        path_with_extension(self.libapp_path().as_str(), ".tmp")
    }

    pub fn cache_path(&self) -> (r: String)
        ensures
            r@ == self.spec_path(FileKind::Cache),
    {
        join(self.lib_dir().as_str(), ".cache")
    }

    pub fn version_path(&self) -> (r: String)
        ensures
            r@ == self.spec_path(FileKind::Version),
    {
        join(self.lib_dir().as_str(), ".version")
    }

    pub fn native_libapp_path(&self) -> (r: String)
        ensures
            r@ == self.spec_path(FileKind::NativeLibapp),
    {
        self.config.native_libapp_path.clone()
    }

    /// The path of one of the patcher's files.
    pub fn path_of(&self, kind: FileKind) -> (r: String)
        ensures
            r@ == self.spec_path(kind),
    {
        match kind {
            FileKind::Patch => self.patch_path(),
            FileKind::TempPatch => self.temp_patch_path(),
            FileKind::PatchConfig => self.config_path(),
            FileKind::Libapp => self.libapp_path(),
            FileKind::TempLibapp => self.temp_libapp_path(),
            FileKind::Cache => self.cache_path(),
            FileKind::Version => self.version_path(),
            FileKind::NativeLibapp => self.native_libapp_path(),
            FileKind::PatchedOutput => temp_sibling(self.temp_libapp_path().as_str()),
        }
    }
}

} // verus!
