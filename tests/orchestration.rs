use tidlers::client::models::track::playback::{JsonTrackManifest, ParsedTrackManifest};
use yadal::batch::next_page_offset;
use yadal::cli::{Cli, MediaTypeArg, QualityArg};
use yadal::error::DownloadError;
use yadal::governor::RateLimitState;
use yadal::input::MediaType;
use yadal::naming::{album_dir_name, numbered_name, playlist_dir_name, track_base_name, track_files, track_number};
use yadal::summary::DownloadSummary;
use yadal::task::{TaskStep, TrackTask, MAX_ATTEMPTS};

fn flac_manifest() -> Option<ParsedTrackManifest> {
    Some(ParsedTrackManifest::Json(JsonTrackManifest {
        mime_type: "audio/flac".to_string(),
        codecs: "flac".to_string(),
        encryption_type: "NONE".to_string(),
        urls: vec!["http://a/f".to_string()],
    }))
}

#[test]
fn ten_failures_exhaust_a_track() {
    let mut g = RateLimitState::new();
    let mut t = TrackTask::new();
    for i in 0..9 {
        let step = t.on_failure(&mut g, DownloadError::Metadata(format!("e{}", i)), 0);
        assert!(matches!(step, TaskStep::Retry));
        g.end_backoff();
    }
    match t.on_failure(&mut g, DownloadError::Metadata("last".to_string()), 0) {
        TaskStep::Resolved(Err(DownloadError::Metadata(m))) => assert_eq!(m, "last"),
        _ => panic!("the tenth failure fails the track"),
    }
    assert_eq!(t.attempts(), MAX_ATTEMPTS);
}

#[test]
fn nine_failures_then_success() {
    let mut g = RateLimitState::new();
    let mut t = TrackTask::new();
    for _ in 0..9 {
        assert!(matches!(t.on_failure(&mut g, DownloadError::Transfer("503".to_string()), 0), TaskStep::Retry));
        g.end_backoff();
    }
    t.on_metadata(&mut g);
    assert_eq!(g.consecutive_errors(), 0);
    assert!(matches!(t.on_transfer(true), TaskStep::Resolved(Ok(true))));
}

#[test]
fn structural_error_is_not_retried_nor_counted() {
    let mut g = RateLimitState::new();
    let mut t = TrackTask::new();
    assert!(matches!(t.on_failure(&mut g, DownloadError::NoInitSegment, 0), TaskStep::Resolved(Err(DownloadError::NoInitSegment))));
    assert_eq!(g.consecutive_errors(), 0);
}

#[test]
fn quality_change_replaces_old_file() {
    let files = track_files(&flac_manifest(), 1, "Song");
    assert_eq!(files.target, "001 - Song.flac");
    assert_eq!(files.stale, vec!["001 - Song.m4a".to_string(), "001 - Song.mp3".to_string()]);
    let files = track_files(&None, 12, "Song");
    assert_eq!(files.target, "012 - Song.m4a");
    assert_eq!(files.stale, vec!["012 - Song.flac".to_string(), "012 - Song.mp3".to_string()]);
}

#[test]
fn names_are_numbered_and_sanitized() {
    assert_eq!(numbered_name(7, "x"), "007 - x");
    assert_eq!(numbered_name(1234, "y"), "1234 - y");
    assert_eq!(track_base_name(5, "AC/DC: Live?"), "005 - ACDC Live");
    assert_eq!(album_dir_name("Art", "Title"), "Art - Title");
    assert_eq!(album_dir_name("A/B", "C"), "AB - C");
    assert_eq!(playlist_dir_name("Mix"), "Mix-playlist");
    assert_eq!(track_number(true, 0, 9), 1);
    assert_eq!(track_number(false, 0, 9), 9);
}

#[test]
fn summary_tallies_outcomes() {
    let s = DownloadSummary::from_results(vec![
        ("a".to_string(), Ok(true)),
        ("b".to_string(), Err(DownloadError::NoUrls)),
        ("c".to_string(), Ok(false)),
        ("d".to_string(), Ok(true)),
        ("e".to_string(), Err(DownloadError::Transfer("x".to_string()))),
    ]);
    assert_eq!(s.downloaded, 2);
    assert_eq!(s.skipped, 1);
    assert_eq!(s.failed.len(), 2);
    assert_eq!(s.failed[0].0, "b");
    assert_eq!(s.failed[1].0, "e");
    let empty = DownloadSummary::new();
    assert_eq!(empty.downloaded + empty.skipped + empty.failed.len(), 0);
    assert_eq!(DownloadSummary::from_results(vec![]).downloaded, 0);
}

#[test]
fn pages_until_total_reached() {
    assert_eq!(next_page_offset(100, 250, 0, 100), Some(100));
    assert_eq!(next_page_offset(200, 250, 100, 100), Some(200));
    assert_eq!(next_page_offset(250, 250, 200, 100), None);
    assert_eq!(next_page_offset(0, -1, 0, 100), None);
    assert_eq!(next_page_offset(0, 5, u64::MAX, 1), None);
}

#[test]
fn cli_kind_overrides_detection() {
    let mut cli = Cli {
        id: "https://tidal.com/album/55130630".to_string(),
        media_type: MediaTypeArg::Auto,
        quality: QualityArg::HiRes,
        output: "out".to_string(),
        parallel: 5,
        reauth: false,
        session_file: "session.json".to_string(),
    };
    let (id, kind) = cli.target();
    assert_eq!(id, "55130630");
    assert_eq!(kind, MediaType::Album);
    cli.media_type = MediaTypeArg::Playlist;
    assert_eq!(cli.target().1, MediaType::Playlist);
    assert_eq!(MediaTypeArg::Track.resolve(MediaType::Album), MediaType::Track);
}

/// Three tracks, two workers: track 2's metadata fails twice, and tracks 1
/// and 3 succeed in between, resetting the shared counter.
#[test]
fn batch_recovers_from_transient_failures() {
    let mut g = RateLimitState::new();
    let mut tasks = [TrackTask::new(), TrackTask::new(), TrackTask::new()];
    let mut results: Vec<(String, Result<bool, DownloadError>)> = Vec::new();
    // worker A: track 1, worker B: track 2 (fails)
    assert_eq!(g.wait_if_rate_limited(0), 0);
    assert!(matches!(tasks[1].on_failure(&mut g, DownloadError::Metadata("429".to_string()), 10), TaskStep::Retry));
    assert_eq!(g.consecutive_errors(), 1);
    tasks[0].on_metadata(&mut g);
    assert_eq!(g.consecutive_errors(), 0);
    if let TaskStep::Resolved(r) = tasks[0].on_transfer(true) {
        results.push(("001 - One".to_string(), r));
    }
    // worker B retries track 2 and fails again; worker A takes track 3
    assert_eq!(g.wait_if_rate_limited(20), 0);
    assert!(matches!(tasks[1].on_failure(&mut g, DownloadError::Metadata("429".to_string()), 30), TaskStep::Retry));
    assert_eq!(g.consecutive_errors(), 1);
    tasks[2].on_metadata(&mut g);
    assert_eq!(g.consecutive_errors(), 0);
    if let TaskStep::Resolved(r) = tasks[2].on_transfer(true) {
        results.push(("003 - Three".to_string(), r));
    }
    // track 2 succeeds on its third attempt
    assert_eq!(g.wait_if_rate_limited(40), 0);
    tasks[1].on_metadata(&mut g);
    if let TaskStep::Resolved(r) = tasks[1].on_transfer(true) {
        results.push(("002 - Two".to_string(), r));
    }
    assert!(!g.is_limited());
    assert_eq!(g.consecutive_errors(), 0);
    assert_eq!(tasks[1].attempts(), 2);
    let s = DownloadSummary::from_results(results);
    assert_eq!(s.downloaded, 3);
    assert_eq!(s.skipped, 0);
    assert_eq!(s.failed.len(), 0);
}

#[test]
fn totals_do_not_depend_on_arrival_order() {
    let make = |order: &[usize]| {
        let all: Vec<(&str, u8)> = vec![("a", 0), ("b", 1), ("c", 2), ("d", 0)];
        let results: Vec<(String, Result<bool, DownloadError>)> = order
            .iter()
            .map(|i| {
                let (n, k) = all[*i];
                let r = match k {
                    0 => Ok(true),
                    1 => Ok(false),
                    _ => Err(DownloadError::NoManifest),
                };
                (n.to_string(), r)
            })
            .collect();
        DownloadSummary::from_results(results)
    };
    let x = make(&[0, 1, 2, 3]);
    let y = make(&[3, 2, 1, 0]);
    assert_eq!((x.downloaded, x.skipped, x.failed.len()), (2, 1, 1));
    assert_eq!((y.downloaded, y.skipped, y.failed.len()), (2, 1, 1));
}
