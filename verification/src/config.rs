//! Resolved settings: which Lua dialect to parse, and where libraries live.

use vstd::prelude::*;

verus! {

/// The Lua runtime a workspace targets.
///
/// Only the four PUC-Rio dialects can be parsed; `Luajit` can be configured
/// but every diagnostic run under it is rejected.
#[derive(Debug, Clone, Copy, PartialEq, Eq, Structural)]
pub enum RuntimeVersion {
    Lua51,
    Lua52,
    Lua53,
    Lua54,
    Luajit,
}

impl RuntimeVersion {
    /// Whether sources of this runtime can be parsed.
    pub open spec fn supported(self) -> bool {
        self != RuntimeVersion::Luajit
    }

    /// Whether sources of this runtime can be parsed.
    pub fn is_supported(self) -> (yes: bool)
        ensures
            yes == self.supported(),
    {
        match self {
            RuntimeVersion::Luajit => false,
            _ => true,
        }
    }
}

impl Default for RuntimeVersion {
    fn default() -> (version: RuntimeVersion)
        ensures
            version == RuntimeVersion::Lua51,
    {
        RuntimeVersion::Lua51
    }
}

/// Settings of the Lua runtime.
#[derive(Debug, Clone, Copy)]
pub struct RuntimeConfig {
    pub version: RuntimeVersion,
}

impl Default for RuntimeConfig {
    fn default() -> (config: RuntimeConfig)
        ensures
            config.version == RuntimeVersion::Lua51,
    {
        RuntimeConfig { version: RuntimeVersion::Lua51 }
    }
}

/// Settings of the workspace: directories that hold library sources.
#[derive(Debug, Clone)]
pub struct WorkspaceConfig {
    pub library: Vec<String>,
}

/// The settings a session or a one-off run works under.
#[derive(Debug, Clone)]
pub struct Config {
    pub runtime: RuntimeConfig,
    pub workspace: WorkspaceConfig,
}

} // verus!
