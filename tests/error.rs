use cdsapi::error::{ConfigField, ErrorKind, RetrieveError};

#[test]
fn every_error_has_its_kind() {
    let cases = vec![
        (RetrieveError::ConfigurationMissing { field: ConfigField::Url }, ErrorKind::ConfigurationMissing),
        (RetrieveError::MissingRequestId { state: "queued".into() }, ErrorKind::ProtocolViolation),
        (RetrieveError::MissingMonitorLink, ErrorKind::ProtocolViolation),
        (RetrieveError::MissingHref, ErrorKind::ProtocolViolation),
        (RetrieveError::MissingDownloadInfo, ErrorKind::ProtocolViolation),
        (RetrieveError::UnknownState { state: "x".into() }, ErrorKind::ProtocolViolation),
        (RetrieveError::MalformedReply { url: "u".into(), detail: "d".into() }, ErrorKind::ProtocolViolation),
        (RetrieveError::BackendRejected { message: "m".into() }, ErrorKind::BackendRejected),
        (RetrieveError::HttpError { status: 500, url: "u".into(), body: "b".into() }, ErrorKind::HttpError),
        (RetrieveError::TransportError { url: "u".into() }, ErrorKind::TransportError),
        (RetrieveError::TransferIncomplete { downloaded: 1, expected: 2 }, ErrorKind::TransferIncomplete),
        (RetrieveError::UnsupportedMode, ErrorKind::UnsupportedMode),
    ];
    for (e, k) in cases {
        assert_eq!(e.kind(), k, "{e:?}");
    }
}

#[test]
fn http_status_is_carried() {
    let e = RetrieveError::HttpError { status: 503, url: "u".into(), body: String::new() };
    assert_eq!(e.http_status(), Some(503));
    assert_eq!(RetrieveError::MissingHref.http_status(), None);
}
