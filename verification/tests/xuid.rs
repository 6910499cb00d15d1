use xbox::util::xuid::{is_wrapped, unwrap_xuid, wrap_xuid, wrapped_digits};

#[test]
fn wraps_raw_xuid() {
    assert_eq!(wrap_xuid("2535405290989773"), "xuid(2535405290989773)");
}

#[test]
fn wrap_is_idempotent() {
    assert_eq!(wrap_xuid("xuid(123)"), "xuid(123)");
}

#[test]
fn unwraps_wrapped_xuid() {
    assert_eq!(unwrap_xuid("xuid(123)"), "123");
}

#[test]
fn unwrap_passes_through_gamertag() {
    assert_eq!(unwrap_xuid("Some Gamertag"), "Some Gamertag");
}

#[test]
fn unwrap_passes_through_raw_xuid() {
    assert_eq!(unwrap_xuid("123"), "123");
}

#[test]
fn wrap_passes_through_gamertag_with_parens() {
    // Not a valid wrapped form (non-digit inside parens), so wrap_xuid should still wrap it
    // as a literal xuid(...).
    assert_eq!(wrap_xuid("gt(abc)"), "xuid(gt(abc))");
}

#[test]
fn wrap_twice_equals_wrap_once_for_raw_xuid() {
    let once = wrap_xuid("2535405290989773");
    assert_eq!(wrap_xuid(&once), once);
}

#[test]
fn unwrap_after_wrap_gives_raw_xuid() {
    assert_eq!(unwrap_xuid(&wrap_xuid("987654321")), "987654321");
}

#[test]
fn wrap_after_unwrap_gives_identifier() {
    assert_eq!(wrap_xuid(&unwrap_xuid("xuid(42)")), "xuid(42)");
}

#[test]
fn unwrap_is_idempotent() {
    let once = unwrap_xuid("player_1(77)");
    assert_eq!(once, "77");
    assert_eq!(unwrap_xuid(&once), once);
}

#[test]
fn wrap_twice_of_gamertag_with_parens_wraps_again() {
    assert_eq!(wrap_xuid("xuid(gt(abc))"), "xuid(xuid(gt(abc)))");
}

#[test]
fn other_word_prefixes_count_as_wrapped() {
    assert!(is_wrapped("player_1(123)"));
    assert_eq!(unwrap_xuid("Gt9(00)"), "00");
    assert_eq!(wrap_xuid("Gt9(00)"), "Gt9(00)");
}

#[test]
fn malformed_wrapped_forms_are_not_wrapped() {
    assert!(!is_wrapped("(123)"));
    assert!(!is_wrapped("xuid()"));
    assert!(!is_wrapped("xuid(12"));
    assert!(!is_wrapped("xu-id(12)"));
    assert!(!is_wrapped("xuid(1a)"));
    assert!(!is_wrapped(""));
    assert!(!is_wrapped(")"));
    assert_eq!(wrap_xuid(""), "xuid()");
    assert_eq!(unwrap_xuid("xuid()"), "xuid()");
}

#[test]
fn wrapped_digits_returns_inner_digits() {
    assert_eq!(wrapped_digits("xuid(2535405290989773)"), Some("2535405290989773"));
    assert_eq!(wrapped_digits("Some Gamertag"), None);
}

#[test]
fn non_ascii_identifiers_are_handled_by_character() {
    assert_eq!(wrap_xuid("gämer"), "xuid(gämer)");
    assert_eq!(unwrap_xuid("ä(1)"), "ä(1)");
    assert!(!is_wrapped("ä(1)"));
}
