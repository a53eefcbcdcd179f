use kv_gateway::handlers::{get, handle_request, put, GetQuery, PutQuery, BODY_SIZE_LIMIT};
use kv_gateway::outcome::{Op, Outcome};
use kv_gateway::response::format_response;
use kv_gateway::session::Phase;
use kv_gateway::storage::{Store, StorageError};
use kv_gateway::telemetry::{current_span, extract_context_from_request, set_outcome, SpanStatus, TraceContext};
use kv_gateway::AppState;

fn new_app() -> AppState {
    AppState { store: Store::new() }
}

#[test]
fn put_response_body_is_exact_confirmation() {
    let mut app = new_app();
    let (response, _) = handle_request(
        &mut app,
        Op::Put,
        Some("test_key".to_string()),
        None,
        &"test_value".to_string(),
    );
    assert_eq!(response.status, 200);
    assert_eq!(
        String::from_utf8(response.body).unwrap(),
        "\"put key \\\"test_key\\\" successfully\""
    );
}

#[test]
fn get_after_put_returns_exact_value() {
    let mut app = new_app();
    let (r1, _) = handle_request(
        &mut app,
        Op::Put,
        Some("test_key".to_string()),
        None,
        &"test_value".to_string(),
    );
    assert_eq!(r1.status, 200);
    let (r2, _) = handle_request(
        &mut app,
        Op::Get,
        Some("test_key".to_string()),
        None,
        &String::new(),
    );
    assert_eq!(r2.status, 200);
    assert_eq!(String::from_utf8(r2.body).unwrap(), "\"test_value\"");
}

#[test]
fn missing_key_is_not_an_error_body_names_it() {
    let mut app = new_app();
    let (response, _) = handle_request(
        &mut app,
        Op::Get,
        Some("absent".to_string()),
        None,
        &String::new(),
    );
    assert_eq!(response.status, 404);
    let body = String::from_utf8(response.body).unwrap();
    assert_eq!(body, "\"key \\\"absent\\\" not found\"");
    assert!(body.contains("key \\\"absent\\\" not found"));
}

#[test]
fn missing_key_parameter_is_rejected_before_storage() {
    let mut app = new_app();
    let (put_r, put_s) =
        handle_request(&mut app, Op::Put, None, None, &"test_value".to_string());
    assert_eq!(put_r.status, 400);
    assert!(put_s.is_none());

    let (empty_r, empty_s) = handle_request(
        &mut app,
        Op::Put,
        Some(String::new()),
        None,
        &"test_value".to_string(),
    );
    assert_eq!(empty_r.status, 400);
    assert!(empty_s.is_none());

    // Nothing was stored under any key, the empty one included
    let (get_r, _) = handle_request(
        &mut app,
        Op::Get,
        Some("test_value".to_string()),
        None,
        &String::new(),
    );
    assert_eq!(get_r.status, 404);
}

#[test]
fn empty_value_round_trips() {
    let mut app = new_app();
    let (r1, _) = handle_request(
        &mut app,
        Op::Put,
        Some("empty_key".to_string()),
        None,
        &String::new(),
    );
    assert_eq!(r1.status, 200);
    let (r2, _) = handle_request(
        &mut app,
        Op::Get,
        Some("empty_key".to_string()),
        None,
        &String::new(),
    );
    assert_eq!(r2.status, 200);
    assert_eq!(String::from_utf8(r2.body).unwrap(), "\"\"");
}

#[test]
fn repeated_reads_are_identical() {
    let mut app = new_app();
    handle_request(
        &mut app,
        Op::Put,
        Some("stable".to_string()),
        None,
        &"same".to_string(),
    );
    let (r1, _) = handle_request(
        &mut app,
        Op::Get,
        Some("stable".to_string()),
        None,
        &String::new(),
    );
    let (r2, _) = handle_request(
        &mut app,
        Op::Get,
        Some("stable".to_string()),
        None,
        &String::new(),
    );
    assert_eq!(r1.status, r2.status);
    assert_eq!(r1.body, r2.body);
}

#[test]
fn multi_byte_values_round_trip_byte_for_byte() {
    let mut app = new_app();
    let key = "caf\u{e9}\u{1f30d}".to_string();
    let value = "gr\u{fc}\u{df}e \u{4e16}\u{754c}".to_string();
    let (r1, _) = handle_request(&mut app, Op::Put, Some(key.clone()), None, &value);
    assert_eq!(r1.status, 200);
    let (r2, _) = handle_request(&mut app, Op::Get, Some(key), None, &String::new());
    assert_eq!(r2.status, 200);
    let mut expected = Vec::new();
    expected.push(b'"');
    expected.extend_from_slice(value.as_bytes());
    expected.push(b'"');
    assert_eq!(r2.body, expected);
}

#[test]
fn json_escaping_matches_the_wire_format() {
    let mut app = new_app();
    let value = "a\"b\\c\nd\te\u{1}f".to_string();
    handle_request(&mut app, Op::Put, Some("esc".to_string()), None, &value);
    let (r, _) = handle_request(&mut app, Op::Get, Some("esc".to_string()), None, &String::new());
    assert_eq!(
        String::from_utf8(r.body).unwrap(),
        "\"a\\\"b\\\\c\\nd\\te\\u0001f\""
    );
}

#[test]
fn oversized_body_is_rejected_at_the_boundary() {
    let mut app = new_app();
    let value = "x".repeat(BODY_SIZE_LIMIT + 1);
    let (r, s) = handle_request(&mut app, Op::Put, Some("big".to_string()), None, &value);
    assert_eq!(r.status, 413);
    assert!(s.is_none());
    let (g, _) = handle_request(&mut app, Op::Get, Some("big".to_string()), None, &String::new());
    assert_eq!(g.status, 404);
}

#[test]
fn value_at_the_cap_round_trips_untruncated() {
    let mut app = new_app();
    let value = "x".repeat(BODY_SIZE_LIMIT);
    let (r, _) = handle_request(&mut app, Op::Put, Some("cap".to_string()), None, &value);
    assert_eq!(r.status, 200);
    let stored = kv_gateway::storage::get(&app.store, &"cap".to_string())
        .unwrap()
        .expect("the value written at the cap must be readable");
    assert_eq!(stored.len(), BODY_SIZE_LIMIT);
    assert_eq!(stored, value);
}

#[test]
fn every_handled_request_finishes_exactly_one_span() {
    let mut app = new_app();
    let (r1, s1) = handle_request(
        &mut app,
        Op::Put,
        Some("traced".to_string()),
        None,
        &"v".to_string(),
    );
    let s1 = s1.unwrap();
    assert!(matches!(s1.phase, Phase::Responded));
    let span1 = s1.span.unwrap();
    assert!(span1.finished);
    assert!(matches!(span1.status, SpanStatus::Okay));
    assert_eq!(span1.key_attr.unwrap(), "traced");
    assert_eq!(r1.status, 200);

    // A read that finds nothing is a business outcome: span OK beside the 404
    let (r2, s2) = handle_request(
        &mut app,
        Op::Get,
        Some("never_written".to_string()),
        None,
        &String::new(),
    );
    let s2 = s2.unwrap();
    assert!(matches!(s2.phase, Phase::Responded));
    let span2 = s2.span.unwrap();
    assert!(span2.finished);
    assert!(matches!(span2.status, SpanStatus::Okay));
    assert_eq!(r2.status, 404);
}

#[test]
fn valid_traceparent_becomes_the_span_parent() {
    let mut app = new_app();
    let header = "00-0af7651916cd43dd8448eb211c80319c-b7ad6b7169203331-01";
    let (_, s) = handle_request(
        &mut app,
        Op::Put,
        Some("k".to_string()),
        Some(header),
        &"v".to_string(),
    );
    let span = s.unwrap().span.unwrap();
    assert!(span.parent.has_parent);
    assert_eq!(span.parent.trace_id, 0x0af7651916cd43dd8448eb211c80319c);
    assert_eq!(span.parent.span_id, 0xb7ad6b7169203331);
    assert_eq!(span.parent.flags, 0x01);
}

#[test]
fn malformed_traceparent_roots_a_fresh_trace() {
    let rejected = [
        "",
        "00",
        "00-0af7651916cd43dd8448eb211c80319c-b7ad6b7169203331-0",
        "00-0AF7651916CD43DD8448EB211C80319C-B7AD6B7169203331-01",
        "00-00000000000000000000000000000000-b7ad6b7169203331-01",
        "00-0af7651916cd43dd8448eb211c80319c-0000000000000000-01",
        "ff-0af7651916cd43dd8448eb211c80319c-b7ad6b7169203331-01",
        "00x0af7651916cd43dd8448eb211c80319cxb7ad6b7169203331x01",
        "0g-0af7651916cd43dd8448eb211c80319c-b7ad6b7169203331-01",
    ];
    for header in rejected {
        let cx = extract_context_from_request(Some(header));
        assert!(!cx.has_parent, "header {:?} must not parse", header);
        assert_eq!(cx.trace_id, 0);
        assert_eq!(cx.span_id, 0);
        assert_eq!(cx.flags, 0);
    }
    let absent = extract_context_from_request(None);
    assert!(!absent.has_parent);
}

#[test]
fn engine_failure_maps_to_500_without_detail() {
    let outcome = Outcome::Failure("disk failure".to_string());
    let response = format_response(&"k".to_string(), &outcome);
    assert_eq!(response.status, 500);
    assert!(response.body.is_empty());

    let mut span = current_span(
        TraceContext { has_parent: false, trace_id: 0, span_id: 0, flags: 0 },
        Op::Get,
    );
    set_outcome(&mut span, Op::Get, &"k".to_string(), &outcome);
    match span.status {
        SpanStatus::Error(m) => assert_eq!(m, "cannot get key \"k\": disk failure"),
        _ => panic!("an engine failure must mark the span as an error"),
    }

    let put_failure = kv_gateway::outcome::put_outcome(Err(StorageError {
        message: "write stalled".to_string(),
    }));
    let put_response = format_response(&"k".to_string(), &put_failure);
    assert_eq!(put_response.status, 500);
    assert!(put_response.body.is_empty());
}

#[test]
fn handlers_answer_directly() {
    let mut app = new_app();
    let (r1, s1) = put(
        &mut app,
        &PutQuery { key: "direct".to_string() },
        None,
        &"payload".to_string(),
    );
    assert_eq!(r1.status, 200);
    assert!(s1.span.unwrap().finished);

    let (r2, s2) = get(&mut app, &GetQuery { key: "direct".to_string() }, None);
    assert_eq!(r2.status, 200);
    assert_eq!(String::from_utf8(r2.body).unwrap(), "\"payload\"");
    assert!(s2.span.unwrap().finished);
}
