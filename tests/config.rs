use cdsapi::config::{load_config, parse_rc, strip_quotes, RcConfig};
use cdsapi::error::{ConfigField, RetrieveError};

#[test]
fn quotes_are_stripped() {
    assert_eq!(strip_quotes("  \"abc\" "), "abc");
    assert_eq!(strip_quotes("'x'"), "x");
    assert_eq!(strip_quotes("\"x'"), "\"x'");
    assert_eq!(strip_quotes("\""), "\"");
    assert_eq!(strip_quotes("\"\""), "");
    assert_eq!(strip_quotes(" plain "), "plain");
}

#[test]
fn rc_file_basic() {
    let c = parse_rc("url: https://h/api\nkey: abc:def\nverify: 0\n");
    assert_eq!(c.url.as_deref(), Some("https://h/api"));
    assert_eq!(c.key.as_deref(), Some("abc:def"));
    assert_eq!(c.verify, Some(false));
}

#[test]
fn rc_file_value_on_next_line_and_comments() {
    let c = parse_rc("# comment\r\n\r\nurl: 'https://h/api'\r\nkey:\r\n  \"tok\"  \r\nverify: 1\r\n");
    assert_eq!(c.url.as_deref(), Some("https://h/api"));
    assert_eq!(c.key.as_deref(), Some("tok"));
    assert_eq!(c.verify, Some(true));
}

#[test]
fn rc_file_pending_key_dropped_by_colon_line() {
    let c = parse_rc("key:\nurl: https://h\nother");
    assert_eq!(c.key, None);
    assert_eq!(c.url.as_deref(), Some("https://h"));
    assert_eq!(c.verify, None);
}

#[test]
fn config_precedence() {
    let file = RcConfig { url: Some("f-url".into()), key: Some("f-key".into()), verify: Some(false) };
    let c = load_config(Some("a-url".into()), None, None, Some("e-url".into()), Some("e-key".into()), Some(file.clone())).unwrap();
    assert_eq!(c.url, "a-url");
    assert_eq!(c.key, "e-key");
    assert!(!c.verify);
    let c = load_config(None, None, Some(true), None, None, Some(file)).unwrap();
    assert_eq!(c.url, "f-url");
    assert_eq!(c.key, "f-key");
    assert!(c.verify);
    let c = load_config(Some("u".into()), Some("k".into()), None, None, None, None).unwrap();
    assert!(c.verify);
}

#[test]
fn config_missing_values() {
    match load_config(None, Some("k".into()), None, None, None, None) {
        Err(RetrieveError::ConfigurationMissing { field }) => assert_eq!(field, ConfigField::Url),
        other => panic!("{other:?}"),
    }
    match load_config(Some("u".into()), None, None, None, None, None) {
        Err(RetrieveError::ConfigurationMissing { field }) => assert_eq!(field, ConfigField::Key),
        other => panic!("{other:?}"),
    }
}
