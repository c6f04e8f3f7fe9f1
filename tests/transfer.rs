use tidlers::client::models::track::playback::{DashManifest, JsonTrackManifest, ParsedTrackManifest};
use yadal::assembler::{init_location, FetchResult, FileTransfer, SegmentAssembler};
use yadal::error::DownloadError;
use yadal::manifest::{get_file_extension, plan_transfer, AudioExt, Transfer};

fn dash(init: Option<&str>, template: Option<&str>) -> DashManifest {
    DashManifest {
        mime_type: "audio/mp4".to_string(),
        codecs: "flac".to_string(),
        urls: vec![],
        bitrate: None,
        initialization_url: init.map(|s| s.to_string()),
        media_url_template: template.map(|s| s.to_string()),
        timescale: None,
        duration: None,
        start_number: None,
    }
}

fn json(mime: &str, urls: &[&str]) -> JsonTrackManifest {
    JsonTrackManifest {
        mime_type: mime.to_string(),
        codecs: "x".to_string(),
        encryption_type: "NONE".to_string(),
        urls: urls.iter().map(|s| s.to_string()).collect(),
    }
}

#[test]
fn segments_until_three_failures_in_a_row() {
    let d = dash(Some("init.mp4"), Some("seg_$Number$.m4s"));
    assert_eq!(init_location(&d).unwrap(), "init.mp4");
    let mut segs = match SegmentAssembler::begin(FetchResult::Fetched(vec![0xAA])) {
        Ok(a) => a,
        Err(_) => panic!("init segment was fetched"),
    };
    let mut asked = Vec::new();
    while let Some((n, url)) = segs.next_location(&d) {
        asked.push(url.clone());
        let r = if n <= 5 { FetchResult::Fetched(vec![n as u8, n as u8]) } else { FetchResult::Failed("HTTP 404".to_string()) };
        segs.record(r);
    }
    assert_eq!(asked.len(), 8);
    assert_eq!(asked[0], "seg_1.m4s");
    assert_eq!(asked[7], "seg_8.m4s");
    assert!(segs.is_finished());
    assert_eq!(segs.into_payload(), vec![0xAA, 1, 1, 2, 2, 3, 3, 4, 4, 5, 5]);
}

#[test]
fn isolated_segment_failure_is_skipped() {
    let d = dash(Some("i"), Some("s$Number$"));
    let mut segs = match SegmentAssembler::begin(FetchResult::Fetched(vec![9])) {
        Ok(a) => a,
        Err(_) => panic!("init segment was fetched"),
    };
    let mut count = 0;
    while let Some((n, _)) = segs.next_location(&d) {
        count += 1;
        let r = match n {
            1 | 3 => FetchResult::Fetched(vec![n as u8]),
            2 => FetchResult::Failed("timeout".to_string()),
            _ => FetchResult::Failed("gone".to_string()),
        };
        segs.record(r);
    }
    assert_eq!(count, 6);
    assert_eq!(segs.into_payload(), vec![9, 1, 3]);
}

#[test]
fn missing_init_segment_fails_before_any_media_segment() {
    let d = dash(None, Some("seg_$Number$.m4s"));
    assert!(matches!(init_location(&d), Err(DownloadError::NoInitSegment)));
    match SegmentAssembler::begin(FetchResult::Failed("HTTP 500".to_string())) {
        Err(DownloadError::Transfer(c)) => assert_eq!(c, "HTTP 500"),
        _ => panic!("a failed init segment fails the transfer"),
    }
}

#[test]
fn init_falls_back_to_first_listed_url() {
    let mut d = dash(None, None);
    d.urls = vec!["first".to_string(), "tmpl_$Number$".to_string()];
    assert_eq!(init_location(&d).unwrap(), "first");
    let mut segs = match SegmentAssembler::begin(FetchResult::Fetched(vec![])) {
        Ok(a) => a,
        Err(_) => panic!("init segment was fetched"),
    };
    let (n, url) = segs.next_location(&d).unwrap();
    assert_eq!(n, 1);
    assert_eq!(url, "tmpl_1");
}

#[test]
fn no_template_ends_the_stream_at_once() {
    let d = dash(Some("i"), None);
    let mut segs = match SegmentAssembler::begin(FetchResult::Fetched(vec![1, 2])) {
        Ok(a) => a,
        Err(_) => panic!("init segment was fetched"),
    };
    assert!(segs.next_location(&d).is_none());
    assert!(segs.is_finished());
    assert_eq!(segs.into_payload(), vec![1, 2]);
}

#[test]
fn whole_file_progress_is_cumulative() {
    let mut t = FileTransfer::new();
    assert_eq!(t.on_chunk(&[1, 2, 3]), 3);
    assert_eq!(t.on_chunk(&[]), 3);
    assert_eq!(t.on_chunk(&[4, 5]), 5);
    assert_eq!(t.downloaded(), 5);
    assert_eq!(t.into_payload(), vec![1, 2, 3, 4, 5]);
}

#[test]
fn extension_follows_manifest() {
    assert_eq!(get_file_extension(&Some(ParsedTrackManifest::Dash(dash(None, None)))), AudioExt::Flac);
    assert_eq!(get_file_extension(&Some(ParsedTrackManifest::Json(json("audio/flac", &[]))) ), AudioExt::Flac);
    assert_eq!(get_file_extension(&Some(ParsedTrackManifest::Json(json("audio/mp4", &[]))) ), AudioExt::M4a);
    assert_eq!(get_file_extension(&Some(ParsedTrackManifest::Json(json("audio/mpeg", &[]))) ), AudioExt::M4a);
    assert_eq!(get_file_extension(&None), AudioExt::M4a);
    assert_eq!(AudioExt::Mp3.as_str(), "mp3");
}

#[test]
fn existing_file_is_skipped_without_transfer() {
    let m = Some(ParsedTrackManifest::Json(json("audio/flac", &["http://a/file"])));
    assert!(matches!(plan_transfer(&m, true), Ok(None)));
    assert!(matches!(plan_transfer(&None, true), Ok(None)));
    match plan_transfer(&m, false) {
        Ok(Some(Transfer::Flat(u))) => assert_eq!(u, "http://a/file"),
        _ => panic!("a flat transfer of the first location"),
    }
}

#[test]
fn structural_errors_end_the_plan() {
    assert!(matches!(plan_transfer(&None, false), Err(DownloadError::NoManifest)));
    let m = Some(ParsedTrackManifest::Json(json("audio/flac", &[])));
    assert!(matches!(plan_transfer(&m, false), Err(DownloadError::NoUrls)));
    let d = Some(ParsedTrackManifest::Dash(dash(Some("i"), None)));
    assert!(matches!(plan_transfer(&d, false), Ok(Some(Transfer::Segmented(_)))));
    assert!(!DownloadError::NoUrls.is_retryable());
    assert!(!DownloadError::Storage("disk full".to_string()).is_retryable());
    assert!(DownloadError::Transfer("x".to_string()).is_retryable());
}
