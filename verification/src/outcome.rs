//! Terminal result of a download and its failure reasons.

use vstd::prelude::*;

verus! {

/// Why a download stopped short of completion.
#[derive(Clone, Copy, Debug, PartialEq, Eq, Structural)]
pub enum FailureReason {
    /// The GET request could not be issued or answered.
    RequestFailed,
    /// The response carried no content-length header.
    MissingContentLength,
    /// The byte stream yielded an error mid-transfer.
    ChunkReadError,
    /// The destination file could not be created.
    FileCreateError,
    /// A chunk could not be written to the destination file.
    WriteError,
}

/// Terminal value of one download attempt.
#[derive(Clone, Copy, Debug, PartialEq, Eq, Structural)]
pub enum DownloadOutcome {
    Success,
    Failure(FailureReason),
}

} // verus!
