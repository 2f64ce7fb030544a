use cdsapi::credentials::{auth_for, select_protocol, split_key_basic, Auth, Protocol};

#[test]
fn legacy_key_selects_legacy() {
    assert_eq!(select_protocol("12345:abcdef"), Protocol::Legacy);
    assert_eq!(select_protocol("  id : secret  "), Protocol::Legacy);
    assert_eq!(select_protocol("a:b:c"), Protocol::Legacy);
}

#[test]
fn other_keys_select_modern() {
    assert_eq!(select_protocol("token-without-colon"), Protocol::Modern);
    assert_eq!(select_protocol(":secret"), Protocol::Modern);
    assert_eq!(select_protocol("id:"), Protocol::Modern);
    assert_eq!(select_protocol("  :  "), Protocol::Modern);
    assert_eq!(select_protocol(""), Protocol::Modern);
}

#[test]
fn split_trims_both_sides_at_first_colon() {
    assert_eq!(
        split_key_basic(" id : se:cret "),
        Some(("id".to_string(), "se:cret".to_string()))
    );
    assert_eq!(split_key_basic("nocolon"), None);
    assert_eq!(split_key_basic("id:\t"), None);
}

#[test]
fn auth_follows_protocol() {
    match auth_for("u:p") {
        Auth::Basic { user, secret } => {
            assert_eq!(user, "u");
            assert_eq!(secret, "p");
        }
        other => panic!("{other:?}"),
    }
    match auth_for("  tok  ") {
        Auth::Token(t) => assert_eq!(t, "tok"),
        other => panic!("{other:?}"),
    }
}
