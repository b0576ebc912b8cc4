//! User configuration: which sync backend to use.
use crate::store::{data_dir_of, join_path, joined};
use vstd::prelude::*;

verus! {

/// The sync backends a configuration may name.
#[derive(Debug, Clone, Copy, PartialEq, Eq, Structural)]
pub enum SyncProvider {
    LocalOnly,
    File,
    Http,
}

/// The user configuration.
#[derive(Debug, Clone, Copy)]
pub struct Config {
    pub sync_provider: SyncProvider,
}

/// The provider a configuration without the field uses.
pub fn default_sync_provider() -> (r: SyncProvider)
    ensures
        r == SyncProvider::LocalOnly,
{
    SyncProvider::LocalOnly
}

impl Default for Config {
    fn default() -> (r: Config)
        ensures
            r.sync_provider == SyncProvider::LocalOnly,
    {
        Config { sync_provider: default_sync_provider() }
    }
}

/// The text of a freshly written configuration file.
pub fn default_config_text() -> (r: &'static str)
    ensures
        r@ == "# ownkey configuration\n\n# sync_provider controls how vault sync works.\n# Supported values:\n#   \"local_only\" - no remote sync (default)\n#   \"file\"       - sync to a local/remote file path\n#   \"http\"       - sync via HTTP backend\n\nsync_provider = \"local_only\"\n"@,
{
    "# ownkey configuration\n\n# sync_provider controls how vault sync works.\n# Supported values:\n#   \"local_only\" - no remote sync (default)\n#   \"file\"       - sync to a local/remote file path\n#   \"http\"       - sync via HTTP backend\n\nsync_provider = \"local_only\"\n"
}

/// The configuration file under a home directory.
pub fn config_path(home: &str) -> (r: String)
    ensures
        r@ == joined(data_dir_of(home@), "config.toml"@),
{
    let dir = join_path(home, ".ownkey");
    join_path(dir.as_str(), "config.toml")
}

/// The backends a configuration can select.
#[derive(Debug, Clone, Copy, PartialEq, Eq, Structural)]
pub enum BackendChoice {
    Noop,
    File,
}

/// The backend to run: the file backend when configured and it could be set
/// up; otherwise the no-op backend (HTTP has no backend).
pub fn choose_backend(provider: SyncProvider, file_backend_ready: bool) -> (r: BackendChoice)
    ensures
        r == BackendChoice::File <==> (provider == SyncProvider::File && file_backend_ready),
{
    match provider {
        SyncProvider::File => {
            if file_backend_ready {
                BackendChoice::File
            } else {
                BackendChoice::Noop
            }
        },
        _ => BackendChoice::Noop,
    }
}

} // verus!
