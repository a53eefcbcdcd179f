//! Request handlers: one per route, orchestrating parse, span start,
//! storage call, outcome mapping and span completion; and the gateway
//! router's contract — which requests reach a handler at all.

use vstd::prelude::*;
use vstd::utf8::encode_utf8;
use crate::outcome::{not_found_message, put_ok_message, Op};
use crate::response::{json_string_bytes, HttpResponse};
use crate::session::Session;
use crate::storage::spec_read;
use crate::telemetry::{opt_view, spec_extract};
use crate::AppState;

verus! {

/// The write route's query parameters: the key to store under.
pub struct PutQuery {
    pub key: String,
}

/// The read route's query parameters: the key to look up.
pub struct GetQuery {
    pub key: String,
}

/// Requests with a larger body are rejected at the transport boundary and
/// never reach a handler.
pub const BODY_SIZE_LIMIT: usize = 200000000;

/// Handles a write: extracts the parent trace context, starts and tags the
/// request's one span, stores the body verbatim under the key, confirms
/// with 200, and finishes the span with status OK.
pub fn put(
    state: &mut AppState,
    query: &PutQuery,
    traceparent: Option<&str>,
    value: &String,
) -> (r: (HttpResponse, Session))
    ensures
        final(state).store@ == old(state).store@.insert(query.key@, value@),
        r.0.status == 200,
        r.0.body@ == json_string_bytes(put_ok_message(query.key@)),
        r.1.wf(),
        r.1.phase is Responded,
        r.1.op is Put,
        r.1.spans_opened@ == 1,
        r.1.spans_finished@ == 1,
        r.1.span matches Some(sp) && sp.finished && sp.status is Okay && sp.parent == spec_extract(
            opt_view(traceparent),
        ) && (sp.key_attr matches Some(k) && k@ == query.key@),
{
    let mut session = Session::receive(Op::Put, &query.key, Some(value));
    session.extract_and_start(traceparent);
    session.dispatch(&mut state.store);
    let resp = session.map_outcome();
    session.respond();
    (resp, session)
}

/// Handles a read: extracts the parent trace context, starts and tags the
/// request's one span, and answers 200 with the stored value, or 404 with a
/// message naming the key for a key never written; the span finishes with
/// status OK either way — absence is an expected business outcome.
pub fn get(state: &mut AppState, query: &GetQuery, traceparent: Option<&str>) -> (r: (
    HttpResponse,
    Session,
))
    ensures
        final(state).store@ == old(state).store@,
        (spec_read(old(state).store@, query.key@) matches Some(v) ==> r.0.status == 200
            && r.0.body@ == json_string_bytes(v)),
        (spec_read(old(state).store@, query.key@) is None ==> r.0.status == 404 && r.0.body@
            == json_string_bytes(not_found_message(query.key@))),
        r.1.wf(),
        r.1.phase is Responded,
        r.1.op is Get,
        r.1.spans_opened@ == 1,
        r.1.spans_finished@ == 1,
        r.1.span matches Some(sp) && sp.finished && sp.status is Okay && sp.parent == spec_extract(
            opt_view(traceparent),
        ) && (sp.key_attr matches Some(k) && k@ == query.key@),
{
    let mut session = Session::receive(Op::Get, &query.key, None);
    session.extract_and_start(traceparent);
    session.dispatch(&mut state.store);
    let resp = session.map_outcome();
    session.respond();
    (resp, session)
}

/// A request names a usable key when the parameter is present and non-empty.
pub open spec fn usable_key(key: Option<String>) -> bool {
    match key {
        Some(k) => k@.len() > 0,
        None => false,
    }
}

/// The key a request names, where it names one.
pub open spec fn key_of(key: Option<String>) -> Seq<char> {
    match key {
        Some(k) => k@,
        None => Seq::empty(),
    }
}

/// The gateway router: dispatches a request on one of the two routes to its
/// handler. A request without a usable `key` parameter is a client error,
/// answered 400 before any span or storage work begins; a write whose body
/// exceeds the size cap is rejected 413 at the transport boundary and never
/// reaches storage. Everything else is handled, and the answered session is
/// returned with the response.
pub fn handle_request(
    state: &mut AppState,
    op: Op,
    key: Option<String>,
    traceparent: Option<&str>,
    body: &String,
) -> (r: (HttpResponse, Option<Session>))
    ensures
        (!usable_key(key) ==> r.0.status == 400 && r.0.body@ =~= Seq::<u8>::empty() && r.1 is None
            && final(state).store@ == old(state).store@),
        ((usable_key(key) && op is Put && encode_utf8(body@).len() > BODY_SIZE_LIMIT) ==> (
        r.0.status == 413 && r.0.body@ =~= Seq::<u8>::empty() && r.1 is None && final(state).store@
            == old(state).store@)),
        ((usable_key(key) && op is Put && encode_utf8(body@).len() <= BODY_SIZE_LIMIT)
            ==> (final(state).store@ == old(state).store@.insert(key_of(key), body@)
            && r.0.status == 200 && r.0.body@ == json_string_bytes(put_ok_message(key_of(key))))),
        ((usable_key(key) && op is Get) ==> (final(state).store@ == old(state).store@ && (spec_read(
            old(state).store@,
            key_of(key),
        ) matches Some(v) ==> r.0.status == 200 && r.0.body@ == json_string_bytes(v)) && (spec_read(
            old(state).store@,
            key_of(key),
        ) is None ==> r.0.status == 404 && r.0.body@ == json_string_bytes(
            not_found_message(key_of(key)),
        )))),
        ((usable_key(key) && (op is Get || encode_utf8(body@).len() <= BODY_SIZE_LIMIT)) ==> (
        r.1 matches Some(s) && s.wf() && s.phase is Responded && s.spans_opened@ == 1
            && s.spans_finished@ == 1 && (s.span matches Some(sp) && sp.finished && sp.status
            is Okay && sp.parent == spec_extract(opt_view(traceparent)) && (sp.key_attr
            matches Some(k) && k@ == key_of(key))))),
{
    let k = match key {
        None => {
            return (HttpResponse { status: 400, body: Vec::new() }, None);
        },
        Some(k) => k,
    };
    if k.as_str().is_empty() {
        return (HttpResponse { status: 400, body: Vec::new() }, None);
    }
    match op {
        Op::Put => {
            let body_bytes = body.as_str().as_bytes();
            proof {
                vstd::slice::axiom_spec_len::<u8>(body_bytes);
            }
            if body_bytes.len() > BODY_SIZE_LIMIT {
                return (HttpResponse { status: 413, body: Vec::new() }, None);
            }
            let q = PutQuery { key: k };
            let (resp, session) = put(state, &q, traceparent, body);
            (resp, Some(session))
        },
        Op::Get => {
            let q = GetQuery { key: k };
            let (resp, session) = get(state, &q, traceparent);
            (resp, Some(session))
        },
    }
}

} // verus!
