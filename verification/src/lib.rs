//! Verified core of the Wingbird runtime patcher: hashing and hex digests,
//! the version-file format, the on-disk layout, request building, and the
//! state machine that decides how a patch is recovered, fetched and installed.

pub mod text;
pub mod hex;
pub mod digest;
pub mod decimal;
pub mod types;
pub mod version;
pub mod paths;
pub mod api;
pub mod patching;
pub mod manager;
pub mod layout;
pub mod machine;
pub mod laws;
pub mod world;
pub mod request_laws;
