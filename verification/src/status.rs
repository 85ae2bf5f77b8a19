//! The lifecycle states of a session.

use vstd::prelude::*;

verus! {

/// Where the session stands with its current download.
#[derive(Debug, Clone, Copy, PartialEq, Eq, Structural)]
pub enum DownloadStatus {
    /// No transfer is active and none has failed.
    Pending,
    /// The current download is being transferred.
    Downloading,
    /// The current download has been transferred and is being unpacked.
    Extracting,
    /// The current download was halted on request and can be resumed.
    Paused,
    /// The current download failed; it is not retried.
    Error,
}

impl DownloadStatus {
    /// A session is idle when no transfer is running or waiting to be
    /// resumed: it has never started one, finished the last one, or the last
    /// one failed.
    pub open spec fn is_idle(self) -> bool {
        self is Pending || self is Error
    }

    /// Whether a new download may start right away.
    pub fn idle(self) -> (r: bool)
        ensures
            r == self.is_idle(),
    {
        match self {
            DownloadStatus::Pending => true,
            DownloadStatus::Error => true,
            _ => false,
        }
    }
}

} // verus!
