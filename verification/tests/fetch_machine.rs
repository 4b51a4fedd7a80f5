use osm_downloader::fetch::{on_attempt_failure, AttemptOutcome, AttemptTracker, MAX_RETRIES};
use osm_downloader::network::{DownloadEvent, Downloader};

#[test]
fn test_fetch_succeeds_first_attempt() {
    let outcomes = vec![AttemptOutcome::Success(String::from("/data/map.osm.pbf"))];
    let (events, result) = Downloader::new().download_file(&outcomes);
    assert_eq!(events.len(), 1);
    match &events[0] {
        DownloadEvent::Complete(p) => assert_eq!(p, "/data/map.osm.pbf"),
        other => panic!("expected Complete, got {:?}", other),
    }
    assert_eq!(result.as_deref(), Some("/data/map.osm.pbf"));
}

#[test]
fn test_fetch_retries_then_succeeds() {
    // Fails twice, then succeeds: two retry errors, one terminal Complete.
    let outcomes = vec![
        AttemptOutcome::Failure(String::from("connection timed out")),
        AttemptOutcome::Failure(String::from("connection reset")),
        AttemptOutcome::Success(String::from("/data/map.osm.pbf")),
    ];
    let (events, result) = Downloader::new().download_file(&outcomes);
    assert_eq!(events.len(), 3);
    match &events[0] {
        DownloadEvent::Error(m) => assert_eq!(m, "Retry 1/3: connection timed out"),
        other => panic!("expected Error, got {:?}", other),
    }
    match &events[1] {
        DownloadEvent::Error(m) => assert_eq!(m, "Retry 2/3: connection reset"),
        other => panic!("expected Error, got {:?}", other),
    }
    match &events[2] {
        DownloadEvent::Complete(p) => assert_eq!(p, "/data/map.osm.pbf"),
        other => panic!("expected Complete, got {:?}", other),
    }
    assert_eq!(result.as_deref(), Some("/data/map.osm.pbf"));
}

#[test]
fn test_fetch_exhausts_retries() {
    // All attempts fail: three error events, no Complete, no path.
    let outcomes = vec![
        AttemptOutcome::Failure(String::from("e1")),
        AttemptOutcome::Failure(String::from("e2")),
        AttemptOutcome::Failure(String::from("e3")),
    ];
    let (events, result) = Downloader::new().download_file(&outcomes);
    assert_eq!(events.len(), 3);
    match &events[0] {
        DownloadEvent::Error(m) => assert_eq!(m, "Retry 1/3: e1"),
        other => panic!("expected Error, got {:?}", other),
    }
    match &events[1] {
        DownloadEvent::Error(m) => assert_eq!(m, "Retry 2/3: e2"),
        other => panic!("expected Error, got {:?}", other),
    }
    match &events[2] {
        DownloadEvent::Error(m) => assert_eq!(m, "Failed after 3 retries: e3"),
        other => panic!("expected Error, got {:?}", other),
    }
    assert!(result.is_none());
    for e in &events {
        assert!(!matches!(e, DownloadEvent::Complete(_)));
    }
}

#[test]
fn test_on_attempt_failure_messages() {
    assert_eq!(MAX_RETRIES, 3);
    let (m, retry) = on_attempt_failure(1, "boom");
    assert_eq!(m, "Retry 1/3: boom");
    assert!(retry);
    let (m, retry) = on_attempt_failure(2, "boom");
    assert_eq!(m, "Retry 2/3: boom");
    assert!(retry);
    let (m, retry) = on_attempt_failure(3, "boom");
    assert_eq!(m, "Failed after 3 retries: boom");
    assert!(!retry);
}

#[test]
fn test_tracker_progress_with_declared_length() {
    let mut t = AttemptTracker::begin(Some(200));
    assert_eq!(t.on_chunk(50), Some(25));
    assert_eq!(t.on_chunk(100), Some(75));
    assert!(!t.is_complete());
    assert_eq!(t.on_chunk(50), Some(100));
    assert!(t.is_complete());
}

#[test]
fn test_tracker_withholds_progress_without_length() {
    let mut t = AttemptTracker::begin(None);
    assert_eq!(t.on_chunk(1024), None);
    assert_eq!(t.on_chunk(4096), None);
    // With no declared length the stream cannot be found short.
    assert!(t.is_complete());
}

#[test]
fn test_tracker_size_mismatch() {
    let mut t = AttemptTracker::begin(Some(10));
    assert_eq!(t.on_chunk(4), Some(40));
    assert!(!t.is_complete());
    assert_eq!(
        t.mismatch_message(),
        "Download incomplete: expected 10 bytes, got 4 bytes"
    );
}

#[test]
fn test_tracker_caps_overdelivery_at_100() {
    let mut t = AttemptTracker::begin(Some(4));
    assert_eq!(t.on_chunk(8), Some(100));
    // Too many bytes is still a mismatch.
    assert!(!t.is_complete());
}
