//! The decisions of the patch manager: recovering an interrupted install,
//! asking for a newer patch, downloading and checking it, and installing the
//! patched library. The manager is a state machine: each step takes the
//! outcome of the last action and names the next action to perform.

use vstd::prelude::*;

verus! {

/// What the manager is configured with.
pub struct WingbirdPatchManagerConfig {
    pub server_url: String,
    pub app_id: String,
    pub version: String,
    pub channel: String,
    pub platform: String,
    pub architecture: String,
    pub root_path: String,
    pub native_libapp_path: String,
}

/// The patch manager of one application release.
pub struct WingbirdPatchManager {
    pub config: WingbirdPatchManagerConfig,
}

impl WingbirdPatchManager {
    /// A manager with this configuration.
    pub fn new(config: WingbirdPatchManagerConfig) -> (r: Self)
        ensures
            r.config == config,
    {
        WingbirdPatchManager { config }
    }
}

} // verus!
