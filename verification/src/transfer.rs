//! The decision core of one streaming download.
//!
//! The network loop itself is outside code: it awaits chunks and writes
//! them to disk. Everything it decides is here — whether a transfer may
//! begin, what each chunk does to the progress count, and what outcome a
//! whole chunk sequence produces.

use vstd::prelude::*;
use crate::outcome::{DownloadOutcome, FailureReason};
use crate::progress::{clamp, ProgressState};

verus! {

/// Immutable input to one download operation.
pub struct DownloadRequest {
    pub url: String,
    pub destination_path: String,
}

/// One event pulled from the response's byte sequence: a chunk of body
/// bytes, or an error in the stream.
pub enum ChunkEvent {
    Data(Vec<u8>),
    ReadError,
}

/// Whether the event carries body bytes.
pub open spec fn is_data(e: ChunkEvent) -> bool {
    match e {
        ChunkEvent::Data(_) => true,
        ChunkEvent::ReadError => false,
    }
}

/// The body bytes of the event, empty for an error.
pub open spec fn data_of(e: ChunkEvent) -> Seq<u8> {
    match e {
        ChunkEvent::Data(bytes) => bytes@,
        ChunkEvent::ReadError => Seq::empty(),
    }
}

/// The byte length of the event's chunk.
pub open spec fn chunk_len(e: ChunkEvent) -> int {
    data_of(e).len() as int
}

/// Total byte count of the first `n` events.
pub open spec fn sum_prefix(events: Seq<ChunkEvent>, n: int) -> int
    decreases n,
{
    if n <= 0 {
        0
    } else {
        sum_prefix(events, n - 1) + chunk_len(events[n - 1])
    }
}

/// The bytes of the first `n` events, concatenated in arrival order.
pub open spec fn bytes_prefix(events: Seq<ChunkEvent>, n: int) -> Seq<u8>
    decreases n,
{
    if n <= 0 {
        Seq::empty()
    } else {
        bytes_prefix(events, n - 1) + data_of(events[n - 1])
    }
}

/// No byte is lost and none duplicated: the destination holds exactly as
/// many bytes as the chunks delivered.
pub proof fn lemma_no_byte_loss(events: Seq<ChunkEvent>, n: int)
    requires
        0 <= n <= events.len(),
    ensures
        bytes_prefix(events, n).len() == sum_prefix(events, n),
    decreases n,
{
    if n > 0 {
        lemma_no_byte_loss(events, n - 1);
    }
}

/// The value reported after each chunk is non-decreasing over the
/// transfer and never exceeds the declared total.
pub proof fn lemma_progress_monotone(total: int, events: Seq<ChunkEvent>, i: int, j: int)
    requires
        total >= 0,
        0 <= i <= j <= events.len(),
    ensures
        clamp(sum_prefix(events, i), total) <= clamp(sum_prefix(events, j), total),
        clamp(sum_prefix(events, j), total) <= total,
    decreases j - i,
{
    if i < j {
        lemma_progress_monotone(total, events, i + 1, j);
    }
}

/// What one whole transfer produced: its outcome, the bytes written to
/// the destination, and the value reported to the observer after each
/// chunk.
pub struct TransferResult {
    pub outcome: DownloadOutcome,
    pub content: Vec<u8>,
    pub reports: Vec<u64>,
}

/// Check the declared size of a response before any byte moves: a
/// missing content length refuses the transfer, so no destination file
/// is created for it; a declared total of `n` starts the count at zero.
pub fn begin_download(declared_size: Option<u64>) -> (r: Result<ProgressState, FailureReason>)
    ensures
        match r {
            Ok(p) => declared_size == Some(p.total_bytes) && p.downloaded_bytes == 0 && p.wf(),
            Err(e) => declared_size is None && e == FailureReason::MissingContentLength,
        },
{
    match declared_size {
        Some(total) => Ok(ProgressState::new(total)),
        None => Err(FailureReason::MissingContentLength),
    }
}

/// Run one transfer over a finite chunk sequence: write each chunk's
/// bytes in order, report the clamped count after each, and stop at the
/// first stream error. The result pins down the outcome, the exact
/// destination bytes, and every reported value.
pub fn transfer(total_bytes: u64, events: &Vec<ChunkEvent>) -> (r: TransferResult)
    ensures
        r.reports@.len() <= events@.len(),
        forall|j: int| 0 <= j < r.reports@.len() ==> is_data(events@[j]),
        r.content@ == bytes_prefix(events@, r.reports@.len() as int),
        forall|j: int| 0 <= j < r.reports@.len() ==> r.reports@[j] as int == clamp(
            sum_prefix(events@, j + 1),
            total_bytes as int,
        ),
        if r.reports@.len() == events@.len() {
            r.outcome == DownloadOutcome::Success
        } else {
            !is_data(events@[r.reports@.len() as int]) && r.outcome
                == DownloadOutcome::Failure(FailureReason::ChunkReadError)
        },
{
    let mut content: Vec<u8> = Vec::new();
    let mut reports: Vec<u64> = Vec::new();
    let mut progress = ProgressState::new(total_bytes);
    let mut i: usize = 0;
    while i < events.len()
        invariant
            0 <= i <= events@.len(),
            forall|j: int| 0 <= j < i ==> is_data(events@[j]),
            content@ == bytes_prefix(events@, i as int),
            reports@.len() == i,
            forall|j: int| 0 <= j < i ==> reports@[j] as int == clamp(
                sum_prefix(events@, j + 1),
                total_bytes as int,
            ),
            progress.total_bytes == total_bytes,
            progress.wf(),
            progress.downloaded_bytes as int == clamp(sum_prefix(events@, i as int), total_bytes as int),
        decreases events@.len() - i,
    {
        match &events[i] {
            ChunkEvent::Data(bytes) => {
                append_bytes(&mut content, bytes);
                let reported = progress.apply_chunk(bytes.len());
                reports.push(reported);
            }
            ChunkEvent::ReadError => {
                return TransferResult {
                    outcome: DownloadOutcome::Failure(FailureReason::ChunkReadError),
                    content,
                    reports,
                };
            }
        }
        i = i + 1;
    }
    TransferResult { outcome: DownloadOutcome::Success, content, reports }
}

/// Append the bytes of one chunk to the destination buffer, in order.
fn append_bytes(dst: &mut Vec<u8>, src: &Vec<u8>)
    ensures
        final(dst)@ == old(dst)@ + src@,
{
    let mut k: usize = 0;
    while k < src.len()
        invariant
            0 <= k <= src@.len(),
            dst@ == old(dst)@ + src@.subrange(0, k as int),
        decreases src@.len() - k,
    {
        let b = src[k];
        dst.push(b);
        proof {
            assert(src@.subrange(0, k as int).push(src@[k as int]) =~= src@.subrange(
                0,
                k + 1 as int,
            ));
        }
        k = k + 1;
    }
    proof {
        assert(src@.subrange(0, src@.len() as int) =~= src@);
    }
}

} // verus!
