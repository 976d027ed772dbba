use usage_monitor::extract::{find_json_line, has_warn_marker, is_blank, is_hard_failure};
use usage_monitor::fetch::{degraded, excerpt, locate_payload, settle, FetchError};

#[test]
fn last_brace_line_is_found() {
    let out = b"Loading...\n{\"a\":1}\nnote\n  {\"daily\":[]}  \r\ntrailing\n";
    let (a, b) = find_json_line(out).unwrap();
    assert_eq!(&out[a..b], b"{\"daily\":[]}");
}

#[test]
fn no_brace_line_is_none() {
    assert_eq!(find_json_line(b"just logs\nmore logs\n"), None);
    assert_eq!(find_json_line(b""), None);
    assert_eq!(find_json_line(b"  \n\t\n"), None);
}

#[test]
fn single_line_without_newline() {
    let out = b"{\"x\":2}";
    assert_eq!(find_json_line(out), Some((0, 7)));
}

#[test]
fn hard_failure_rules() {
    assert!(!is_hard_failure(true, "fatal"));
    assert!(is_hard_failure(false, "fatal error"));
    assert!(!is_hard_failure(false, "WARN deprecated"));
    assert!(!is_hard_failure(false, "  \n"));
    assert!(!is_hard_failure(false, ""));
    assert!(has_warn_marker(b"xxWARNyy"));
    assert!(!has_warn_marker(b"WAR"));
    assert!(is_blank(" \t\r\n"));
    assert!(!is_blank(" x "));
}

#[test]
fn locate_reports_each_outcome() {
    match locate_payload(false, b"{}", "segfault") {
        Err(FetchError::ProcessFailed(m)) => assert_eq!(m, "segfault"),
        _ => panic!("expected a hard failure"),
    }
    assert!(matches!(locate_payload(true, b"nothing here", ""), Err(FetchError::NoJsonFound)));
    assert_eq!(locate_payload(false, b"log\n{}\n", "WARN: slow").unwrap(), (4, 6));
}

#[test]
fn no_json_line_yields_degraded_snapshot() {
    let loc = locate_payload(true, b"Fetching data...\nDone\n", "");
    let e = loc.unwrap_err();
    let r = settle(Err(e), "2024-06-01", "2024-06-01T00:00:00Z".to_string()).unwrap();
    assert_eq!(r.error.as_deref(), Some("No JSON found in output"));
    assert_eq!(r.today.cost, 0);
    assert_eq!(r.today.date, "2024-06-01");
    assert!(r.recent.is_empty());
    assert_eq!(r.mode, "daily");
}

#[test]
fn degraded_snapshot_is_all_zero() {
    let r = degraded("2024-06-01", "now".to_string(), "bad".to_string());
    assert_eq!(r.error.as_deref(), Some("bad"));
    assert_eq!(r.totals.weekly_cost, 0);
    assert_eq!(r.totals.monthly_cost, 0);
    assert_eq!(r.totals.input_tokens, 0);
    assert!(r.session.is_none());
    assert_eq!(r.today.model_breakdowns, "[]");
    assert!(r.today.models.is_empty());
}

#[test]
fn excerpt_caps_at_five_hundred_chars() {
    let long: String = std::iter::repeat('é').take(600).collect();
    assert_eq!(excerpt(&long).chars().count(), 500);
    assert_eq!(excerpt("{short"), "{short");
}

#[test]
fn error_messages() {
    assert_eq!(FetchError::NoJsonFound.message(), "No JSON found in output");
    assert_eq!(FetchError::ProcessFailed("x".to_string()).message(), "Helper script failed: x");
    assert_eq!(
        FetchError::LockFailure("settings".to_string(), "p".to_string()).message(),
        "Failed to lock settings mutex: p"
    );
}

#[test]
fn unicode_blank_error_stream_is_not_a_failure() {
    assert!(is_blank("\u{3000}"));
    assert!(is_blank("\u{a0}\u{85}\u{1680}\u{2000}\u{200a}\u{2028}\u{2029}\u{202f}\u{205f} \t"));
    assert!(!is_blank("\u{200b}"));
    assert!(!is_hard_failure(false, "\u{3000}"));
    assert_eq!(locate_payload(false, b"{}", "\u{3000}").unwrap(), (0, 2));
    for s in ["\u{3000}", "\u{a0}", " ", "\u{2009}"] {
        assert_eq!(s.trim().is_empty(), is_blank(s));
    }
}

#[test]
fn unicode_spaces_are_trimmed_from_data_line() {
    let out = "log\n\u{3000}\u{a0} {\"daily\":[]}\u{2003}\u{85}\r\n".as_bytes();
    let (a, b) = find_json_line(out).unwrap();
    assert_eq!(&out[a..b], b"{\"daily\":[]}");
    let line = std::str::from_utf8(out).unwrap().lines().nth(1).unwrap().trim();
    assert_eq!(line.as_bytes(), &out[a..b]);
    assert_eq!(find_json_line("\u{200b}{}".as_bytes()), None);
}
