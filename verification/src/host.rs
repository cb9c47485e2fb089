use vstd::prelude::*;

use crate::types::Config;
use crate::ConfigError;

verus! {

// What only the host can answer: the platform's configuration directory
// and the current time. Both depend on the environment, so the wrappers
// promise nothing of their values; every decision taken on them is made by
// verified code that receives them as arguments.

/// Relies on `directories::ProjectDirs::from` and `config_dir`: the
/// platform-conventional configuration directory for the given identity, or
/// `None` where the host offers no resolvable home directory.
#[verifier::external_body]
fn project_config_dir(qualifier: &str, organization: &str, application: &str) -> (r: Option<
    String,
>) {
    directories::ProjectDirs::from(qualifier, organization, application).map(
        |d| d.config_dir().to_string_lossy().into_owned(),
    )
}

/// Relies on `chrono::Utc::now` and `DateTime::timestamp`: the current time
/// as seconds since the Unix epoch.
#[verifier::external_body]
fn now_epoch_seconds() -> (r: i64) {
    chrono::Utc::now().timestamp()
}

/// Resolves the configuration directory: an explicit override is taken as
/// it is; without one, the platform's conventional directory for this
/// tool's identity is used, and where the host offers none, resolution
/// fails.
pub fn resolve_folder(override_path: Option<String>) -> (r: Result<String, ConfigError>)
    ensures
        match override_path {
            Some(p) => r matches Ok(q) && q@ == p@,
            None => r matches Err(e) ==> e == ConfigError::PathResolution,
        },
{
    match override_path {
        Some(p) => Ok(p),
        None => match project_config_dir("xyz", "2kybe3", "kybe-cli") {
            Some(d) => Ok(d),
            None => Err(ConfigError::PathResolution),
        },
    }
}

impl Config {
    /// Records the current time as the last launch, touching nothing else.
    pub fn stamp_launch(&mut self)
        ensures
            final(self)@.config_folder == old(self)@.config_folder,
            final(self)@.user_file == old(self)@.user_file,
            final(self)@.generated_file == old(self)@.generated_file,
            final(self)@.user == old(self)@.user,
            final(self)@.generated.last_launch is Some,
    {
        let now = now_epoch_seconds();
        self.set_last_launch(now);
    }
}

} // verus!
