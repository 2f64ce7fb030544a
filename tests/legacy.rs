use cdsapi::error::{extract_http_status, ErrorKind, RetrieveError};
use cdsapi::legacy::{
    fallback_base, parse_job_state, remote_file_from_reply, submission_url, ApiError, ApiReply,
    JobState, LegacyAction, LegacyPoll, ResultLocation,
};

fn reply(state: &str, id: Option<&str>) -> ApiReply {
    ApiReply {
        state: state.to_string(),
        request_id: id.map(|s| s.to_string()),
        location: None,
        content_length: None,
        content_type: None,
        result: None,
        error: None,
    }
}

fn http(status: u16) -> RetrieveError {
    RetrieveError::HttpError { status, url: "u".into(), body: String::new() }
}

#[test]
fn states_parse() {
    assert_eq!(parse_job_state("queued"), Some(JobState::Queued));
    assert_eq!(parse_job_state("running"), Some(JobState::Running));
    assert_eq!(parse_job_state("completed"), Some(JobState::Completed));
    assert_eq!(parse_job_state("failed"), Some(JobState::Failed));
    assert_eq!(parse_job_state("Completed"), None);
}

#[test]
fn poll_loop_queued_queued_running_completed() {
    let mut poll = LegacyPoll::new("https://h/api/".to_string(), 120000);
    let script = vec![
        reply("queued", Some("r1")),
        reply("queued", Some("r1")),
        reply("running", Some("r1")),
    ];
    let mut polls = Vec::new();
    let mut announced = Vec::new();
    for r in &script {
        if poll.observe(&r.state) {
            announced.push(r.state.clone());
        }
        match poll.on_reply(r).unwrap() {
            LegacyAction::Poll { url, delay_ms } => polls.push((url, delay_ms)),
            other => panic!("{other:?}"),
        }
    }
    assert_eq!(
        polls,
        vec![
            ("https://h/api/tasks/r1".to_string(), 1000),
            ("https://h/api/tasks/r1".to_string(), 1500),
            ("https://h/api/tasks/r1".to_string(), 2250),
        ]
    );
    let mut done = reply("completed", Some("r1"));
    done.result = Some(ResultLocation {
        location: "download/file.grib".into(),
        content_length: 1234,
        content_type: Some("application/x-grib".into()),
    });
    if poll.observe(&done.state) {
        announced.push(done.state.clone());
    }
    assert_eq!(announced, vec!["queued", "running", "completed"]);
    match poll.on_reply(&done).unwrap() {
        LegacyAction::Done(f) => {
            assert_eq!(f.location, "https://h/api/download/file.grib");
            assert_eq!(f.content_length, 1234);
            assert_eq!(f.content_type.as_deref(), Some("application/x-grib"));
        }
        other => panic!("{other:?}"),
    }
}

#[test]
fn waiting_state_without_request_id() {
    let mut poll = LegacyPoll::new("https://h".to_string(), 1000);
    let e = poll.on_reply(&reply("running", None)).unwrap_err();
    assert_eq!(e.kind(), ErrorKind::ProtocolViolation);
    assert!(matches!(e, RetrieveError::MissingRequestId { ref state } if state == "running"));
}

#[test]
fn failed_reply_is_rejected_with_message_and_reason() {
    let mut poll = LegacyPoll::new("https://h".to_string(), 1000);
    let mut r = reply("failed", None);
    r.error = Some(ApiError { message: Some("m".into()), reason: Some("r".into()) });
    let e = poll.on_reply(&r).unwrap_err();
    assert_eq!(e.kind(), ErrorKind::BackendRejected);
    match e {
        RetrieveError::BackendRejected { message } => {
            assert!(message.contains('m'));
            assert!(message.contains('r'));
            assert_eq!(message, "m. r");
        }
        other => panic!("{other:?}"),
    }
}

#[test]
fn failed_reply_defaults() {
    let mut poll = LegacyPoll::new("https://h".to_string(), 1000);
    match poll.on_reply(&reply("failed", None)).unwrap_err() {
        RetrieveError::BackendRejected { message } => assert_eq!(message, "request failed"),
        other => panic!("{other:?}"),
    }
}

#[test]
fn unknown_state_is_fatal() {
    let mut poll = LegacyPoll::new("https://h".to_string(), 1000);
    match poll.on_reply(&reply("paused", Some("x"))).unwrap_err() {
        RetrieveError::UnknownState { state } => assert_eq!(state, "paused"),
        other => panic!("{other:?}"),
    }
}

#[test]
fn top_level_download_fields() {
    let mut r = reply("completed", None);
    r.location = Some("https://cdn/x.nc".into());
    r.content_length = Some(10);
    let f = remote_file_from_reply(&r, "https://h/api").unwrap();
    assert_eq!(f.location, "https://cdn/x.nc");
    assert_eq!(f.content_length, 10);
    assert_eq!(f.content_type, None);
    r.content_length = None;
    assert!(matches!(remote_file_from_reply(&r, "b"), Err(RetrieveError::MissingDownloadInfo)));
}

#[test]
fn fallback_only_after_not_found() {
    assert_eq!(fallback_base("https://h/api/", &http(404)), Some("https://h/api/v2".to_string()));
    assert_eq!(fallback_base("https://h", &http(404)), Some("https://h/api/v2".to_string()));
    assert_eq!(fallback_base("https://h/api", &http(500)), None);
    assert_eq!(fallback_base("https://h/api", &http(403)), None);
    assert_eq!(fallback_base("https://h/api", &RetrieveError::TransportError { url: "u".into() }), None);
    assert_eq!(fallback_base("https://h/api/v2", &http(404)), None);
    assert_eq!(fallback_base("https://h/api/v2/", &http(404)), None);
}

#[test]
fn not_found_status_extraction() {
    assert_eq!(extract_http_status(&http(404)), Some(404));
    assert_eq!(extract_http_status(&http(500)), None);
    assert_eq!(extract_http_status(&RetrieveError::MissingHref), None);
}

#[test]
fn submission_urls() {
    assert_eq!(submission_url("https://h/api/", "era5"), "https://h/api/resources/era5");
    assert_eq!(submission_url("https://h/api/v2", "era5"), "https://h/api/v2/resources/era5");
}
