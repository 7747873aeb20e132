//! The records that the patcher reads from the server and keeps on disk.

use vstd::prelude::*;

verus! {

/// What the server answers about the newest patch of a release.
#[derive(Debug, Clone, PartialEq, Eq)]
pub struct PatchMetadata {
    pub id: String,
    pub patch_number: u32,
    pub libapp_hash: String,
    pub patch_hash: String,
}

/// The record kept beside a downloaded patch (`patch/.config`).
#[derive(Debug, PartialEq, Eq)]
pub struct PatchConfig {
    pub patch_number: u32,
    pub patch_hash: String,
    pub libapp_hash: String,
    pub release_version: String,
}

/// The record of a library being installed (`lib/.cache`), written before
/// the new library is produced and removed once it is committed.
#[derive(Debug, PartialEq, Eq)]
pub struct LibCache {
    pub libapp_hash: String,
    pub release_version: String,
    pub patch_number: u32,
}

/// The committed library's release and patch number (`lib/.version`).
#[derive(Debug, PartialEq, Eq)]
pub struct LibVersion {
    pub release_version: String,
    pub patch_number: u32,
}

} // verus!
