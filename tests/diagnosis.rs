use cdsapi::diagnosis::{
    classify_cds_error, classify_folded, describe_cds_error, licence_link, CdsErrorResponse,
    ErrorClass,
};

fn payload(title: Option<&str>, message: Option<&str>, detail: Option<&str>) -> CdsErrorResponse {
    CdsErrorResponse {
        kind: None,
        title: title.map(Into::into),
        status: None,
        detail: detail.map(Into::into),
        instance: None,
        trace_id: Some("t-1".into()),
        message: message.map(Into::into),
    }
}

#[test]
fn licence_errors_ignore_case() {
    assert_eq!(classify_cds_error(403, "Required Licences not accepted", ""), ErrorClass::LicenceNotAccepted);
    assert_eq!(classify_cds_error(403, "", "See MANAGE-LICENCES page"), ErrorClass::LicenceNotAccepted);
    assert_eq!(classify_cds_error(401, "required licences", ""), ErrorClass::AuthFailed);
}

#[test]
fn other_classes() {
    assert_eq!(classify_folded(403, "forbidden", ""), ErrorClass::AuthFailed);
    assert_eq!(classify_folded(403, "", "required licence missing"), ErrorClass::LicenceNotAccepted);
    assert_eq!(classify_folded(404, "", ""), ErrorClass::NotFound);
    assert_eq!(classify_folded(500, "required licences", ""), ErrorClass::Other);
}

#[test]
fn licence_links() {
    assert_eq!(licence_link("accept at https://x/y/z then retry"), "https://x/y/z");
    assert_eq!(licence_link("https://a\thttps://b"), "https://a");
    assert_eq!(licence_link("no link"), "https://cds.climate.copernicus.eu/how-to-api");
}

#[test]
fn report_fields() {
    let r = describe_cds_error(403, &payload(None, Some("Required licences"), Some("go to https://l/x now")));
    assert_eq!(r.class, ErrorClass::LicenceNotAccepted);
    assert_eq!(r.title, "Required licences");
    assert_eq!(r.link, "https://l/x");
    assert_eq!(r.status, 403);
    assert_eq!(r.trace_id, "t-1");
    let mut p = payload(Some("T"), Some("M"), None);
    p.status = Some(418);
    let r = describe_cds_error(500, &p);
    assert_eq!(r.title, "T");
    assert_eq!(r.status, 418);
    assert_eq!(r.class, ErrorClass::Other);
    assert_eq!(r.link, "");
    assert_eq!(r.detail, "");
}
