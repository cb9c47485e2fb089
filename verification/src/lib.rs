mod host;
mod laws;
mod lifecycle;
mod schema;
mod toml_model;
mod types;

pub use host::resolve_folder;
pub use lifecycle::DocProbe;
pub use lifecycle::FolderProbe;
pub use lifecycle::LoadOutcome;
pub use lifecycle::LoadProbe;
pub use lifecycle::WriteRequest;
pub use types::ApiConfig;
pub use types::Config;
pub use types::GeneratedConfig;
pub use types::UserConfig;
pub use types::DEFAULT_TIMEOUT_SECS;

use vstd::prelude::*;

verus! {

/// The ways in which resolving, loading, saving or reloading the
/// configuration can fail.
#[derive(Debug, Clone, PartialEq, Eq)]
pub enum ConfigError {
    /// No configuration directory could be resolved from the host environment.
    PathResolution,
    /// A path expected to be a directory is a file, or one expected to be a
    /// file is a directory.
    Conflict,
    /// A filesystem read, write or directory creation failed.
    Io,
    /// A document's content is not well formed, or a field has the wrong type.
    Parse,
    /// A reload or save was attempted on a configuration that was never
    /// associated with on-disk paths; defensive, unreachable after `load`.
    PathNotSet,
}

} // verus!
