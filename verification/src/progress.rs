//! Progress bookkeeping for one in-flight transfer.

use vstd::prelude::*;

verus! {

/// `v` clamped from above to `total`: the value reported to a progress
/// observer never exceeds the declared total.
pub open spec fn clamp(v: int, total: int) -> int {
    if v >= total {
        total
    } else {
        v
    }
}

/// Byte count of one transfer, owned by the download loop and advanced
/// once per received chunk.
pub struct ProgressState {
    pub downloaded_bytes: u64,
    pub total_bytes: u64,
}

impl ProgressState {
    /// The count never exceeds the declared total.
    pub open spec fn wf(self) -> bool {
        self.downloaded_bytes <= self.total_bytes
    }

    /// A fresh state for a transfer of `total` declared bytes.
    pub fn new(total: u64) -> (s: Self)
        ensures
            s.downloaded_bytes == 0,
            s.total_bytes == total,
            s.wf(),
    {
        ProgressState { downloaded_bytes: 0, total_bytes: total }
    }

    /// Advance the count by one chunk of `len` bytes, clamping at the
    /// declared total, and return the value to report to the observer.
    pub fn apply_chunk(&mut self, len: usize) -> (r: u64)
        requires
            old(self).wf(),
        ensures
            final(self).wf(),
            final(self).total_bytes == old(self).total_bytes,
            final(self).downloaded_bytes as int == clamp(
                old(self).downloaded_bytes + len,
                old(self).total_bytes as int,
            ),
            old(self).downloaded_bytes <= final(self).downloaded_bytes,
            r == final(self).downloaded_bytes,
    {
        let remaining = self.total_bytes - self.downloaded_bytes;
        let len64 = len as u64;
        if len64 >= remaining {
            self.downloaded_bytes = self.total_bytes;
        } else {
            self.downloaded_bytes = self.downloaded_bytes + len64;
        }
        self.downloaded_bytes
    }
}

} // verus!
