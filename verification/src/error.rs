//! The failures that the two sides of a synchronisation can report.

use vstd::prelude::*;

verus! {

/// Why an operation on the remote store or on the local clipboard failed.
#[derive(Clone, Copy, Debug, PartialEq, Eq, Structural)]
pub enum SyncError {
    /// No server URL is set, so no request was attempted.
    NotConfigured,
    /// The network was unreachable, a name did not resolve or a request timed out.
    Transport,
    /// The server answered with a status outside 2xx or with a malformed payload.
    Protocol,
    /// The local clipboard was opened but could not be read or written.
    AccessDenied,
    /// The local clipboard could not be opened.
    Unavailable,
}

impl SyncError {
    /// Whether the failure comes from the remote store.
    pub open spec fn spec_is_remote(self) -> bool {
        self == SyncError::NotConfigured || self == SyncError::Transport || self
            == SyncError::Protocol
    }

    /// Whether the failure comes from the remote store rather than from the
    /// local clipboard.
    #[verifier::when_used_as_spec(spec_is_remote)]
    pub fn is_remote(self) -> (r: bool)
        ensures
            r == self.spec_is_remote(),
    {
        match self {
            SyncError::NotConfigured => true,
            SyncError::Transport => true,
            SyncError::Protocol => true,
            SyncError::AccessDenied => false,
            SyncError::Unavailable => false,
        }
    }
}

} // verus!
