use cdsapi::client::check_response;
use cdsapi::download::{range_header, target_path, Downloader};
use cdsapi::error::{ErrorKind, RetrieveError};
use cdsapi::{Client, ClientConfig};
use cdsapi::credentials::Protocol;

#[test]
fn resume_from_existing_file() {
    let mut d = Downloader::new(1000, Some(400), 5, 120000);
    assert_eq!(d.range().as_deref(), Some("bytes=400-"));
    assert!(d.on_response(206));
    d.on_chunk(200);
    assert_eq!(d.downloaded, 600);
    assert_eq!(d.on_interrupted(600), Some(1000));
    assert_eq!(d.range().as_deref(), Some("bytes=600-"));
    assert!(d.can_attempt());
    assert!(d.on_response(206));
    d.on_chunk(300);
    assert_eq!(d.on_eof(900), Some(Some(1500)));
    assert_eq!(d.range().as_deref(), Some("bytes=900-"));
    d.on_chunk(100);
    assert_eq!(d.on_eof(1000), None);
    assert_eq!(d.downloaded, 1000);
}

#[test]
fn fresh_and_oversized_files_start_over() {
    let d = Downloader::new(1000, None, 5, 1000);
    assert_eq!(d.range(), None);
    assert!(!d.append);
    let d = Downloader::new(1000, Some(1000), 5, 1000);
    assert_eq!(d.range(), None);
    assert!(!d.append);
    assert_eq!(d.downloaded, 1000);
}

#[test]
fn ignored_range_truncates() {
    let mut d = Downloader::new(1000, Some(400), 5, 1000);
    assert!(!d.on_response(200));
    assert_eq!(d.downloaded, 0);
    assert_eq!(d.range(), None);
}

#[test]
fn empty_file_finishes_at_eof() {
    let mut d = Downloader::new(0, None, 5, 1000);
    assert_eq!(d.on_eof(0), None);
}

#[test]
fn budget_of_one_fails_fast() {
    let mut d = Downloader::new(1000, None, 1, 1000);
    assert!(d.can_attempt());
    assert_eq!(check_response(500, "u", "").unwrap_err().kind(), ErrorKind::HttpError);
    assert_eq!(d.on_interrupted(0), None);
    assert!(!d.can_attempt());
    match d.give_up() {
        RetrieveError::TransferIncomplete { downloaded, expected } => {
            assert_eq!((downloaded, expected), (0, 1000))
        }
        other => panic!("{other:?}"),
    }
    let d = Downloader::new(1000, None, 0, 1000);
    assert!(!d.can_attempt());
}

#[test]
fn range_header_digits() {
    assert_eq!(range_header(0), "bytes=0-");
    assert_eq!(range_header(400), "bytes=400-");
    assert_eq!(range_header(u64::MAX), format!("bytes={}-", u64::MAX));
}

#[test]
fn target_paths() {
    assert_eq!(target_path("https://h/a/b.grib?x=1", ""), "b.grib");
    assert_eq!(target_path("https://h/a/", ""), "download");
    assert_eq!(target_path("https://h/a/b.grib", "out/x.grib"), "out/x.grib");
}

#[test]
fn responses_are_checked() {
    assert!(check_response(200, "u", "").is_ok());
    assert!(check_response(204, "u", "").is_ok());
    match check_response(403, "https://h", "denied") {
        Err(RetrieveError::HttpError { status, url, body }) => {
            assert_eq!((status, url.as_str(), body.as_str()), (403, "https://h", "denied"))
        }
        other => panic!("{other:?}"),
    }
}

#[test]
fn client_settings() {
    let c = Client::new(ClientConfig { url: "https://h/api".into(), key: "a:b".into(), verify: true });
    assert_eq!(c.timeout_ms(), 60000);
    assert_eq!(c.retry_max(), 500);
    assert_eq!(c.sleep_max_ms(), 120000);
    assert!(c.wait_until_complete());
    assert!(c.progress());
    assert_eq!(c.protocol(), Protocol::Legacy);
    let c = c.with_retry_max(3).with_sleep_max(5).with_timeout(7).with_progress(false).with_wait_until_complete(false);
    assert_eq!((c.retry_max(), c.sleep_max_ms(), c.timeout_ms()), (3, 5, 7));
    assert!(!c.progress());
    assert!(!c.wait_until_complete());
    assert_eq!(c.url(), "https://h/api");
    let t = Client::new(ClientConfig { url: "u".into(), key: "token".into(), verify: false });
    assert_eq!(t.protocol(), Protocol::Modern);
    assert!(!t.verify());
}
