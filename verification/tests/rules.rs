//! Exercises the text rules and the bridge-outcome rules on exact values.

use rustyshim::scidb::aio_query_str;
use rustyshim::scidb::classify_connection;
use rustyshim::scidb::query_outcome;
use rustyshim::scidb::scidb_error_status;
use rustyshim::scidb::session_type_for;
use rustyshim::session::SessionType;
use rustyshim::status::engine_error_status;
use rustyshim::status::RpcStatus;
use rustyshim::status::StatusCode;
use rustyshim::text::escape_ascii_string;
use rustyshim::text::str_eq_lit;
use rustyshim::text::u64_to_string;
use rustyshim::text::unescape_query;

#[test]
fn u64_to_string_renders_decimal() {
    assert_eq!(u64_to_string(0), "0");
    assert_eq!(u64_to_string(7), "7");
    assert_eq!(u64_to_string(10), "10");
    assert_eq!(u64_to_string(42), "42");
    assert_eq!(u64_to_string(86400), "86400");
    assert_eq!(u64_to_string(1234567890), "1234567890");
}

#[test]
fn escape_ascii_keeps_printable_text() {
    assert_eq!(escape_ascii_string(b"alice"), "alice");
    assert_eq!(escape_ascii_string(b""), "");
    assert_eq!(escape_ascii_string(b"a b~!"), "a b~!");
}

#[test]
fn escape_ascii_escapes_control_and_quotes() {
    assert_eq!(escape_ascii_string(b"a\tb"), "a\\tb");
    assert_eq!(escape_ascii_string(b"a\r\n"), "a\\r\\n");
    assert_eq!(escape_ascii_string(b"\\"), "\\\\");
    assert_eq!(escape_ascii_string(b"'\""), "\\'\\\"");
    assert_eq!(escape_ascii_string(&[0x9d]), "\\x9d");
    assert_eq!(escape_ascii_string(&[0x00, 0x7f]), "\\x00\\x7f");
}

#[test]
fn escape_ascii_matches_std() {
    let inputs: [&[u8]; 4] = [b"alice", b"a\tb'c", &[0x00, 0x9d, 0x20], b"\\\"x\""];
    for bytes in inputs {
        assert_eq!(escape_ascii_string(bytes), bytes.escape_ascii().to_string());
    }
}

#[test]
fn unescape_query_rewrites_escaped_quotes() {
    assert_eq!(unescape_query("SELECT 1"), "SELECT 1");
    assert_eq!(unescape_query("SELECT \\'x\\'"), "SELECT 'x'");
    assert_eq!(unescape_query(""), "");
    assert_eq!(unescape_query("\\'"), "'");
    assert_eq!(unescape_query("a\\b"), "a\\b");
    assert_eq!(unescape_query("tail\\"), "tail\\");
}

#[test]
fn str_eq_lit_compares_text() {
    assert!(str_eq_lit(&String::from("REFRESH_CONTEXT"), "REFRESH_CONTEXT"));
    assert!(!str_eq_lit(&String::from("REFRESH"), "REFRESH_CONTEXT"));
}

#[test]
fn aio_query_str_wraps_the_query() {
    assert_eq!(
        aio_query_str("scan(A)", "/tmp/buffer"),
        "aio_save(scan(A), '/tmp/buffer', format:'arrow')"
    );
}

#[test]
fn query_outcome_accepts_only_clean_results() {
    assert!(query_outcome(0, String::new()).is_none());
    let e = query_outcome(0, String::from("bad")).unwrap();
    assert_eq!(e.code, 0);
    assert_eq!(e.explanation, "bad");
    let e = query_outcome(3, String::new()).unwrap();
    assert_eq!(e.code, 3);
    assert_eq!(e.explanation, "");
}

#[test]
fn classify_connection_opens_only_clean_handles() {
    assert!(classify_connection(0, true).is_ok());
    assert_eq!(classify_connection(0, false), Err(0));
    assert_eq!(classify_connection(5, true), Err(5));
}

#[test]
fn session_type_for_grants_requested_role() {
    assert_eq!(session_type_for(false, false), SessionType::Unauthenticated);
    assert_eq!(session_type_for(false, true), SessionType::Unauthenticated);
    assert_eq!(session_type_for(true, false), SessionType::Regular);
    assert_eq!(session_type_for(true, true), SessionType::Admin);
}

#[test]
fn scidb_errors_map_to_protocol_statuses() {
    let s: RpcStatus = scidb_error_status(true, "ignored");
    assert_eq!(s.code, StatusCode::Unauthenticated);
    assert_eq!(s.message, "SciDB authentication failed");
    let s = scidb_error_status(false, "query exploded");
    assert_eq!(s.code, StatusCode::Unknown);
    assert_eq!(s.message, "query exploded");
}

#[test]
fn engine_errors_pass_through_as_unknown() {
    let s = engine_error_status("plan error");
    assert_eq!(s.code, StatusCode::Unknown);
    assert_eq!(s.message, "plan error");
}
