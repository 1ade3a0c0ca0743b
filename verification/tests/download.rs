use streamdl::outcome::{DownloadOutcome, FailureReason};
use streamdl::progress::ProgressState;
use streamdl::transfer::{begin_download, transfer, ChunkEvent};

#[test]
fn round_trip_three_chunks() {
    let events = vec![
        ChunkEvent::Data(b"hello".to_vec()),
        ChunkEvent::Data(b" worl".to_vec()),
        ChunkEvent::Data(b"d!".to_vec()),
    ];
    let r = transfer(12, &events);
    assert_eq!(r.outcome, DownloadOutcome::Success);
    assert_eq!(r.content, b"hello world!".to_vec());
    assert_eq!(r.content.len(), 12);
    assert_eq!(r.reports, vec![5, 10, 12]);
}

#[test]
fn empty_stream_succeeds_with_empty_file() {
    let events: Vec<ChunkEvent> = Vec::new();
    let r = transfer(5, &events);
    assert_eq!(r.outcome, DownloadOutcome::Success);
    assert!(r.content.is_empty());
    assert!(r.reports.is_empty());
}

#[test]
fn read_error_stops_the_transfer() {
    let events = vec![
        ChunkEvent::Data(b"abc".to_vec()),
        ChunkEvent::ReadError,
        ChunkEvent::Data(b"de".to_vec()),
    ];
    let r = transfer(10, &events);
    assert_eq!(r.outcome, DownloadOutcome::Failure(FailureReason::ChunkReadError));
    assert_eq!(r.content, b"abc".to_vec());
    assert_eq!(r.reports, vec![3]);
}

#[test]
fn immediate_read_error_writes_nothing() {
    let events = vec![ChunkEvent::ReadError];
    let r = transfer(4, &events);
    assert_eq!(r.outcome, DownloadOutcome::Failure(FailureReason::ChunkReadError));
    assert!(r.content.is_empty());
    assert!(r.reports.is_empty());
}

#[test]
fn overlong_stream_clamps_reports_but_writes_all_bytes() {
    let events = vec![
        ChunkEvent::Data(b"123456".to_vec()),
        ChunkEvent::Data(b"789012".to_vec()),
    ];
    let r = transfer(10, &events);
    assert_eq!(r.outcome, DownloadOutcome::Success);
    assert_eq!(r.content.len(), 12);
    assert_eq!(r.reports, vec![6, 10]);
}

#[test]
fn missing_content_length_refuses_the_download() {
    let r = begin_download(None);
    assert_eq!(r.err(), Some(FailureReason::MissingContentLength));
}

#[test]
fn declared_size_starts_the_count_at_zero() {
    let p = begin_download(Some(7)).ok().unwrap();
    assert_eq!(p.total_bytes, 7);
    assert_eq!(p.downloaded_bytes, 0);
}

#[test]
fn progress_clamps_at_the_declared_total() {
    let mut p = ProgressState::new(10);
    assert_eq!(p.apply_chunk(4), 4);
    assert_eq!(p.apply_chunk(4), 8);
    assert_eq!(p.apply_chunk(4), 10);
    assert_eq!(p.apply_chunk(4), 10);
    assert_eq!(p.downloaded_bytes, 10);
}

#[test]
fn progress_reports_never_decrease() {
    let mut p = ProgressState::new(9);
    let mut last = 0;
    for len in [0, 3, 0, 5, 2, 7] {
        let v = p.apply_chunk(len);
        assert!(v >= last);
        assert!(v <= 9);
        last = v;
    }
}
