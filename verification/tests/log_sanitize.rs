use aegis_daemon::log_sanitize::sanitize_for_log;

#[test]
fn sanitize_strips_lf() {
    let out = sanitize_for_log("tenant_a\nFAKE LOG ENTRY");
    assert!(!out.contains('\n'), "LF must be replaced: {out:?}");
    assert!(out.contains("tenant_a"));
    assert!(out.contains("FAKE LOG ENTRY"));
}

#[test]
fn sanitize_strips_crlf() {
    let out = sanitize_for_log("tenant_a\r\nFAKE");
    assert!(!out.contains('\r'));
    assert!(!out.contains('\n'));
}

#[test]
fn sanitize_strips_other_c0_controls() {
    let out = sanitize_for_log("a\x1b[31mEVIL\x1b[0mb");
    assert!(!out.contains('\x1b'));
}

#[test]
fn sanitize_strips_del() {
    let out = sanitize_for_log("a\x7fb");
    assert!(!out.contains('\x7f'));
}

#[test]
fn sanitize_preserves_tab() {
    let out = sanitize_for_log("a\tb");
    assert_eq!(out, "a\tb");
}

#[test]
fn sanitize_preserves_plain_ascii_and_unicode() {
    let out = sanitize_for_log("tenant_abc-123 \u{1f600}");
    assert_eq!(out, "tenant_abc-123 \u{1f600}");
}

#[test]
fn sanitize_replacement_is_visible_marker() {
    let out = sanitize_for_log("\n");
    assert_eq!(out, "\u{2424}");
}

#[test]
fn sanitizing_twice_changes_nothing_more() {
    let once = sanitize_for_log("a\nb\x00c\td\u{85}");
    assert_eq!(once, "a\u{2424}b\u{2424}c\td\u{2424}");
    assert_eq!(sanitize_for_log(&once), once);
}

#[test]
fn a_joined_text_is_sanitised_piece_by_piece() {
    let (first, second) = ("a\r", "\nb\t\u{85}");
    let joined = sanitize_for_log(&format!("{first}{second}"));
    assert_eq!(joined, sanitize_for_log(first) + &sanitize_for_log(second));
    assert_eq!(joined, "a\u{2424}\u{2424}b\t\u{2424}");
}
