//! Remote synchronization backends, and the decisions of the file backend.
use crate::text::{owned, push_str};
use vstd::prelude::*;

verus! {

/// Failures of a sync backend.
#[derive(Debug, PartialEq, Eq)]
pub enum SyncError {
    LoginUnsupported,
    LogoutUnsupported,
    PushFailed(String),
    PullFailed(String),
    Unknown,
}

/// The message shown for each sync failure.
pub open spec fn sync_error_text(e: SyncError) -> Seq<char> {
    match e {
        SyncError::LoginUnsupported => "Login is not supported in this backend"@,
        SyncError::LogoutUnsupported => "Logout is not supported in this backend"@,
        SyncError::PushFailed(m) => "Push failed: "@ + m@,
        SyncError::PullFailed(m) => "Pull failed: "@ + m@,
        SyncError::Unknown => "Unknown sync error"@,
    }
}

impl SyncError {
    /// A message for the person at the terminal.
    pub fn message(&self) -> (r: String)
        ensures
            r@ == sync_error_text(*self),
    {
        match self {
            SyncError::LoginUnsupported => owned("Login is not supported in this backend"),
            SyncError::LogoutUnsupported => owned("Logout is not supported in this backend"),
            SyncError::PushFailed(m) => {
                let mut s = owned("Push failed: ");
                push_str(&mut s, m.as_str());
                s
            },
            SyncError::PullFailed(m) => {
                let mut s = owned("Pull failed: ");
                push_str(&mut s, m.as_str());
                s
            },
            SyncError::Unknown => owned("Unknown sync error"),
        }
    }
}

/// A remote synchronization backend.
pub trait SyncBackend {
    /// Whether the backend has a session with its remote.
    fn is_logged_in(&self) -> bool;

    /// Starts a session with the remote.
    fn login(&self, username: Option<&str>) -> Result<(), SyncError>;

    /// Ends the session with the remote.
    fn logout(&self) -> Result<(), SyncError>;

    /// Fetches the remote copy, if there is one.
    fn pull(&self) -> Result<Option<Vec<u8>>, SyncError>;

    /// Sends the local vault to the remote.
    fn push(&self, encrypted_blob: &[u8]) -> Result<(), SyncError>;
}

/// The backend of the local-only configuration: nothing is ever sent or
/// fetched.
pub struct NoopSyncBackend;

impl SyncBackend for NoopSyncBackend {
    fn is_logged_in(&self) -> (r: bool)
        ensures
            !r,
    {
        false
    }

    fn login(&self, username: Option<&str>) -> (r: Result<(), SyncError>)
        ensures
            r is Ok,
    {
        Ok(())
    }

    fn logout(&self) -> (r: Result<(), SyncError>)
        ensures
            r is Ok,
    {
        Ok(())
    }

    fn pull(&self) -> (r: Result<Option<Vec<u8>>, SyncError>)
        ensures
            r matches Ok(None),
    {
        Ok(None)
    }

    fn push(&self, encrypted_blob: &[u8]) -> (r: Result<(), SyncError>)
        ensures
            r is Ok,
    {
        Ok(())
    }
}

/// The file backend: the remote is another file.
///
/// Login makes sure the remote exists; push copies the local vault to the
/// remote; pull copies the remote back to the local path.
pub struct FileSyncBackend {
    local_path: String,
    remote_path: String,
}

/// What a login of the file backend must do to the remote file.
#[derive(Debug, Clone, Copy, PartialEq, Eq, Structural)]
pub enum LoginAction {
    /// The remote already exists.
    Nothing,
    /// Create the remote as a copy of the local vault.
    SeedFromLocal,
    /// Create the remote holding an empty JSON object.
    CreateEmpty,
}

impl FileSyncBackend {
    /// A backend between a local vault and a remote copy.
    pub fn new(local_path: String, remote_path: String) -> (r: Self)
        ensures
            r.local_path()@ == local_path@,
            r.remote_path()@ == remote_path@,
    {
        FileSyncBackend { local_path, remote_path }
    }

    pub closed spec fn local_path(&self) -> String {
        self.local_path
    }

    pub closed spec fn remote_path(&self) -> String {
        self.remote_path
    }

    /// The local vault path.
    pub fn local(&self) -> (r: &str)
        ensures
            r@ == self.local_path()@,
    {
        self.local_path.as_str()
    }

    /// The remote copy's path.
    pub fn remote(&self) -> (r: &str)
        ensures
            r@ == self.remote_path()@,
    {
        self.remote_path.as_str()
    }

    /// What login does, given which of the two files exist.
    pub fn login_action(remote_exists: bool, local_exists: bool) -> (r: LoginAction)
        ensures
            remote_exists ==> r == LoginAction::Nothing,
            !remote_exists && local_exists ==> r == LoginAction::SeedFromLocal,
            !remote_exists && !local_exists ==> r == LoginAction::CreateEmpty,
    {
        if remote_exists {
            LoginAction::Nothing
        } else if local_exists {
            LoginAction::SeedFromLocal
        } else {
            LoginAction::CreateEmpty
        }
    }

    /// Whether a push may proceed: the local vault must exist.
    pub fn push_check(&self, local_exists: bool) -> (r: Result<(), SyncError>)
        ensures
            local_exists ==> r is Ok,
            !local_exists ==> (r matches Err(SyncError::PushFailed(m)) && m@ == "local vault does not exist at "@ + self.local_path()@),
    {
        if local_exists {
            Ok(())
        } else {
            let mut m = owned("local vault does not exist at ");
            push_str(&mut m, self.local_path.as_str());
            Err(SyncError::PushFailed(m))
        }
    }
}

} // verus!
