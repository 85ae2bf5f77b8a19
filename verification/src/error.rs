//! The failures that the library reports.

use vstd::prelude::*;

verus! {

/// Why an operation was rejected or a download failed.
#[derive(Debug, Clone, Copy, PartialEq, Eq, Structural)]
pub enum DownloadError {
    /// A token does not hold the four fields of a descriptor, or a
    /// descriptor is too large to be turned into a token.
    MalformedToken,
    /// The progress marker of a destination holds no number.
    CheckpointCorrupt,
    /// The network or the file system failed during a transfer.
    TransferFailed,
    /// The archive could not be unpacked.
    ExtractionFailed,
}

} // verus!
