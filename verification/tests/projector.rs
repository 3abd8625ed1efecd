//! The event-log projector: field order, omission of absent fields, list
//! joining, decision wire names, JSON escaping, and the disabled path.

use chimney::event_upload::{Decision, Event, EventUploadOptions, SigningChainObject};
use chimney::handlers::eventupload_lines;
use chimney::project::event_log_line;
use chimney::project::check_number_token;
use chimney::text::{join_comma, u32_to_string};

fn base_event() -> Event {
    Event {
        file_sha256: "abc123".to_string(),
        file_path: "/bin/thing".to_string(),
        file_name: "thing".to_string(),
        executing_user: None,
        execution_time: None,
        loggedin_users: vec![],
        current_sessions: vec![],
        decision: Decision::AllowBinary,
        file_bundle_id: None,
        file_bundle_path: None,
        file_bundle_executable_rel_path: None,
        file_bundle_name: None,
        file_bundle_version: None,
        file_bundle_version_string: None,
        file_bundle_hash: None,
        file_bundle_hash_millis: None,
        file_bundle_binary_count: None,
        pid: None,
        ppid: None,
        parent_name: None,
        quarantine_data_url: None,
        quarantine_referer_url: None,
        quarantine_timestamp: None,
        quarantine_agent_bundle_id: None,
        signing_chain: vec![],
        signing_id: None,
        team_id: None,
        cdhash: None,
    }
}

#[test]
fn projects_event_with_chain_and_joined_users() {
    let mut event = base_event();
    event.loggedin_users = vec!["abcd".to_string(), "defg".to_string()];
    event.pid = Some(42);
    event.signing_chain = vec![SigningChainObject {
        sha256: "cafe".to_string(),
        cn: "Apple".to_string(),
        org: "Apple Inc.".to_string(),
        ou: "X1".to_string(),
        valid_from: 100,
        valid_until: 200,
    }];
    let line = event_log_line("machine-id-1234", &event);
    let expected = "{\"machine_id\":\"machine-id-1234\",\
\"file_sha256\":\"abc123\",\
\"file_path\":\"/bin/thing\",\
\"file_name\":\"thing\",\
\"loggedin_users\":\"abcd, defg\",\
\"current_sessions\":\"\",\
\"decision\":\"ALLOW_BINARY\",\
\"pid\":42,\
\"signing_chain.0.sha256\":\"cafe\",\
\"signing_chain.0.cn\":\"Apple\",\
\"signing_chain.0.org\":\"Apple Inc.\",\
\"signing_chain.0.ou\":\"X1\",\
\"signing_chain.0.valid_from\":100,\
\"signing_chain.0.valid_until\":200}";
    assert_eq!(expected, line);
    assert!(!line.contains("quarantine_timestamp"));
    assert!(!line.contains("executing_user"));
}

#[test]
fn projects_second_chain_entry_with_index_one() {
    let entry = SigningChainObject {
        sha256: "00".to_string(),
        cn: "a".to_string(),
        org: "b".to_string(),
        ou: "c".to_string(),
        valid_from: 1,
        valid_until: 2,
    };
    let mut event = base_event();
    event.signing_chain = vec![entry.clone(), entry];
    let line = event_log_line("m", &event);
    assert!(line.contains("\"signing_chain.0.sha256\":\"00\""));
    assert!(line.contains("\"signing_chain.1.sha256\":\"00\""));
    assert!(line.contains("\"signing_chain.1.valid_until\":2"));
}

#[test]
fn renders_fractional_fields_as_numbers() {
    let mut event = base_event();
    event.execution_time = Some("12.5".to_string());
    event.quarantine_timestamp = Some("1700000000.25".to_string());
    let line = event_log_line("m", &event);
    assert!(line.contains("\"execution_time\":12.5,"));
    assert!(line.contains("\"quarantine_timestamp\":1700000000.25}"));
}

#[test]
fn escapes_json_text() {
    let mut event = base_event();
    event.file_name = "a\"b\\c\nd\te\u{3}".to_string();
    let line = event_log_line("m", &event);
    assert!(line.contains("\"file_name\":\"a\\\"b\\\\c\\nd\\te\\u0003\""));
}

#[test]
fn passes_non_ascii_text_through_unescaped() {
    let mut event = base_event();
    event.file_name = "h\u{e9}llo \u{2192} sant\u{e9}".to_string();
    let line = event_log_line("m", &event);
    assert!(line.contains("\"file_name\":\"h\u{e9}llo \u{2192} sant\u{e9}\""));
}

#[test]
fn serializes_decision_wire_names() {
    let cases = [
        (Decision::AllowBinary, "ALLOW_BINARY"),
        (Decision::AllowCdHash, "ALLOW_CDHASH"),
        (Decision::BlockTeamId, "BLOCK_TEAMID"),
        (Decision::BlockUnknown, "BLOCK_UNKNOWN"),
        (Decision::BundleBinary, "BUNDLE_BINARY"),
    ];
    for (decision, wire) in cases {
        assert_eq!(wire, decision.wire_name());
        let mut event = base_event();
        event.decision = decision;
        let line = event_log_line("m", &event);
        assert!(line.contains(&format!("\"decision\":\"{}\"", wire)));
    }
}

#[test]
fn disabled_event_logging_produces_no_lines() {
    let event = base_event();
    for batch_size in [0usize, 1, 3] {
        let events: Vec<Event> = (0..batch_size).map(|_| event.clone()).collect();
        let upload = EventUploadOptions { events };
        let lines = eventupload_lines(false, "machine-id-1234", &upload);
        assert_eq!(0, lines.len());
    }
}

#[test]
fn enabled_event_logging_produces_one_line_per_event() {
    let event = base_event();
    let upload = EventUploadOptions { events: vec![event.clone(), event.clone(), event] };
    let lines = eventupload_lines(true, "m", &upload);
    assert_eq!(3, lines.len());
    assert_eq!(lines[0], event_log_line("m", &upload.events[0]));
    assert_eq!(lines[2], lines[0]);
}

#[test]
fn empty_batch_still_succeeds_when_enabled() {
    let lines = eventupload_lines(true, "m", &EventUploadOptions { events: vec![] });
    assert_eq!(0, lines.len());
}

#[test]
fn renders_decimal_exactly() {
    assert_eq!("0", u32_to_string(0));
    assert_eq!("7", u32_to_string(7));
    assert_eq!("10", u32_to_string(10));
    assert_eq!("600", u32_to_string(600));
    assert_eq!("4294967295", u32_to_string(u32::MAX));
}

#[test]
fn recognizes_number_tokens() {
    assert!(check_number_token("12.5"));
    assert!(check_number_token("-3e10"));
    assert!(check_number_token("0"));
    assert!(check_number_token("1700000000.25"));
    assert!(!check_number_token(""));
    assert!(!check_number_token("abc"));
    assert!(!check_number_token("1,5"));
    assert!(!check_number_token("\"12\""));
}

#[test]
fn joins_with_comma_and_space() {
    assert_eq!("", join_comma(&vec![]));
    assert_eq!("a", join_comma(&vec!["a".to_string()]));
    assert_eq!(
        "a, b, c",
        join_comma(&vec!["a".to_string(), "b".to_string(), "c".to_string()])
    );
}
