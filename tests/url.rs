use cdsapi::url::{api_v2_variant, append_query, guess_filename_from_url, urljoin};

#[test]
fn urljoin_keeps_absolute_urls() {
    assert_eq!(urljoin("https://a/b", "https://x/y?z=1"), "https://x/y?z=1");
    assert_eq!(urljoin("anything", "http://x"), "http://x");
    assert_eq!(urljoin("", "https://x/"), "https://x/");
    let once = urljoin("https://a/api/", "file.nc");
    assert_eq!(urljoin("https://other", &once), once);
}

#[test]
fn urljoin_appends_relative_paths_once() {
    assert_eq!(urljoin("https://a/api", "file.nc"), "https://a/api/file.nc");
    assert_eq!(urljoin("https://a/api/", "file.nc"), "https://a/api/file.nc");
    assert_eq!(urljoin("https://a/api//", "/file.nc"), "https://a/api/file.nc");
    assert_eq!(urljoin("https://a/api", "/x/y"), "https://a/api/x/y");
    assert_eq!(urljoin("https://a/api", ""), "https://a/api/");
}

#[test]
fn append_query_picks_separator() {
    assert_eq!(
        append_query("https://h/jobs/1", &[("log", "true"), ("request", "true")]),
        "https://h/jobs/1?log=true&request=true"
    );
    assert_eq!(append_query("https://h/j?a=b", &[("log", "true")]), "https://h/j?a=b&log=true");
    assert_eq!(append_query("u", &[]), "u?");
}

#[test]
fn v2_variants() {
    assert_eq!(api_v2_variant("https://h/api"), Some("https://h/api/v2".to_string()));
    assert_eq!(api_v2_variant("https://h/api/"), Some("https://h/api/v2".to_string()));
    assert_eq!(api_v2_variant("https://h"), Some("https://h/api/v2".to_string()));
    assert_eq!(api_v2_variant("https://h/api/v2"), None);
    assert_eq!(api_v2_variant("https://h/api/v1"), None);
}

#[test]
fn filenames_from_urls() {
    assert_eq!(guess_filename_from_url("https://h/d/file.grib?sig=1/2"), Some("file.grib".to_string()));
    assert_eq!(guess_filename_from_url("https://h/d/"), None);
    assert_eq!(guess_filename_from_url("name"), Some("name".to_string()));
    assert_eq!(guess_filename_from_url("https://h/x?"), Some("x".to_string()));
}
