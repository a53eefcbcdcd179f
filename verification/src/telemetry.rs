//! Tracing context manager: bridges wire-level trace propagation metadata
//! and the span lifecycle of one request.
//!
//! The parent context rides on the W3C `traceparent` request header,
//! `version "-" trace-id "-" parent-id "-" flags` in lowercase hex. A
//! missing or malformed header is a valid input, not an error: the request
//! then roots a fresh trace. Each request owns exactly one server-kind
//! span, tagged with the key operated on, given one status, and finished on
//! every exit path.

use vstd::prelude::*;
use vstd::string::StrSliceExecFns;
use opentelemetry::trace::{TraceContextExt, Tracer};
use crate::outcome::{build_failure_message, failure_message, Op, Outcome};
use crate::response::status_of;

verus! {

/// The propagated trace identifiers a request carries, immutable once
/// extracted. Without propagation metadata the context has no parent and a
/// fresh trace is rooted at this request.
#[derive(Clone, Copy)]
pub struct TraceContext {
    pub has_parent: bool,
    pub trace_id: u128,
    pub span_id: u64,
    pub flags: u8,
}

/// The context of a request that carried no (usable) propagation metadata.
pub open spec fn root_context() -> TraceContext {
    TraceContext { has_parent: false, trace_id: 0, span_id: 0, flags: 0 }
}

/// A lowercase hex digit, the only alphabet the header grammar admits.
pub open spec fn is_lower_hex(c: char) -> bool {
    (0x30 <= c as u32 && c as u32 <= 0x39) || (0x61 <= c as u32 && c as u32 <= 0x66)
}

/// The value of one lowercase hex digit.
pub open spec fn hex_nibble(c: char) -> u8 {
    if c as u32 <= 0x39 {
        (c as u32 - 0x30) as u8
    } else {
        (c as u32 - 0x61 + 10) as u8
    }
}

pub open spec fn all_lower_hex(s: Seq<char>) -> bool {
    forall|i: int| 0 <= i < s.len() ==> is_lower_hex(s[i])
}

/// The number a big-endian string of hex digits denotes.
pub open spec fn hex_value(s: Seq<char>) -> int
    decreases s.len(),
{
    if s.len() == 0 {
        0
    } else {
        hex_value(s.drop_last()) * 16 + hex_nibble(s.last())
    }
}

pub open spec fn pow16(n: nat) -> int
    decreases n,
{
    if n == 0 {
        1
    } else {
        16 * pow16((n - 1) as nat)
    }
}

proof fn lemma_hex_value_bound(s: Seq<char>)
    requires
        all_lower_hex(s),
    ensures
        0 <= hex_value(s) < pow16(s.len()),
    decreases s.len(),
{
    if s.len() > 0 {
        assert(all_lower_hex(s.drop_last()));
        lemma_hex_value_bound(s.drop_last());
        assert(is_lower_hex(s.last()));
        assert(hex_nibble(s.last()) <= 15);
    }
}

/// The header grammar: fixed length 55, dashes between the fields, all four
/// fields lowercase hex, a version that is not the reserved `ff`, and
/// nonzero trace and parent ids.
pub open spec fn valid_traceparent(s: Seq<char>) -> bool {
    &&& s.len() == 55
    &&& s[2] == '-'
    &&& s[35] == '-'
    &&& s[52] == '-'
    &&& all_lower_hex(s.subrange(0, 2))
    &&& all_lower_hex(s.subrange(3, 35))
    &&& all_lower_hex(s.subrange(36, 52))
    &&& all_lower_hex(s.subrange(53, 55))
    &&& hex_value(s.subrange(0, 2)) != 0xff
    &&& hex_value(s.subrange(3, 35)) != 0
    &&& hex_value(s.subrange(36, 52)) != 0
}

/// The view of an optional header value.
pub open spec fn opt_view(h: Option<&str>) -> Option<Seq<char>> {
    match h {
        Some(s) => Some(s@),
        None => None,
    }
}

/// What extraction settles on: the identifiers a well-formed header
/// carries, or the root context for anything else.
pub open spec fn spec_extract(h: Option<Seq<char>>) -> TraceContext {
    match h {
        Some(s) => if valid_traceparent(s) {
            TraceContext {
                has_parent: true,
                trace_id: hex_value(s.subrange(3, 35)) as u128,
                span_id: hex_value(s.subrange(36, 52)) as u64,
                flags: hex_value(s.subrange(53, 55)) as u8,
            }
        } else {
            root_context()
        },
        None => root_context(),
    }
}

fn root_context_exec() -> (r: TraceContext)
    ensures
        r == root_context(),
{
    TraceContext { has_parent: false, trace_id: 0, span_id: 0, flags: 0 }
}

/// Reads the hex field of `s` between the character positions `start` and
/// `end`, or reports that the field is not lowercase hex.
fn parse_hex_field(s: &str, start: usize, end: usize) -> (r: Option<u128>)
    requires
        start <= end <= s@.len(),
        end - start <= 32,
    ensures
        match r {
            Some(v) => all_lower_hex(s@.subrange(start as int, end as int)) && v == hex_value(
                s@.subrange(start as int, end as int),
            ),
            None => !all_lower_hex(s@.subrange(start as int, end as int)),
        },
{
    let mut acc: u128 = 0;
    let mut i: usize = start;
    while i < end
        invariant
            start <= i <= end <= s@.len(),
            end - start <= 32,
            all_lower_hex(s@.subrange(start as int, i as int)),
            acc == hex_value(s@.subrange(start as int, i as int)),
            acc < pow16((i - start) as nat),
        decreases end - i,
    {
        let c = s.get_char(i);
        let u = c as u32;
        let nib: u8 = if 0x30 <= u && u <= 0x39 {
            (u - 0x30) as u8
        } else if 0x61 <= u && u <= 0x66 {
            (u - 0x61 + 10) as u8
        } else {
            proof {
                assert(!is_lower_hex(s@[i as int]));
                assert(s@.subrange(start as int, end as int)[i - start as int] == s@[i as int]);
            }
            return None;
        };
        proof {
            let pre = s@.subrange(start as int, i as int);
            let cur = s@.subrange(start as int, i + 1 as int);
            assert(cur.drop_last() =~= pre);
            assert(cur.last() == s@[i as int]);
            assert(is_lower_hex(s@[i as int]));
            assert(hex_nibble(s@[i as int]) == nib);
            lemma_hex_value_bound(cur);
            lemma_pow16_le((i + 1 - start) as nat, 32);
            lemma_pow16_values();
        }
        acc = acc * 16 + nib as u128;
        i = i + 1;
    }
    Some(acc)
}

proof fn lemma_pow16_values()
    ensures
        pow16(2) == 0x100,
        pow16(16) == 0x10000000000000000,
        pow16(32) == 0x100000000000000000000000000000000,
{
    assert(pow16(0) == 1);
    assert(pow16(1) == 16);
    assert(pow16(2) == 0x100);
    assert(pow16(3) == 0x1000);
    assert(pow16(4) == 0x10000);
    assert(pow16(5) == 0x100000);
    assert(pow16(6) == 0x1000000);
    assert(pow16(7) == 0x10000000);
    assert(pow16(8) == 0x100000000);
    assert(pow16(9) == 0x1000000000);
    assert(pow16(10) == 0x10000000000);
    assert(pow16(11) == 0x100000000000);
    assert(pow16(12) == 0x1000000000000);
    assert(pow16(13) == 0x10000000000000);
    assert(pow16(14) == 0x100000000000000);
    assert(pow16(15) == 0x1000000000000000);
    assert(pow16(16) == 0x10000000000000000);
    assert(pow16(17) == 0x100000000000000000);
    assert(pow16(18) == 0x1000000000000000000);
    assert(pow16(19) == 0x10000000000000000000);
    assert(pow16(20) == 0x100000000000000000000);
    assert(pow16(21) == 0x1000000000000000000000);
    assert(pow16(22) == 0x10000000000000000000000);
    assert(pow16(23) == 0x100000000000000000000000);
    assert(pow16(24) == 0x1000000000000000000000000);
    assert(pow16(25) == 0x10000000000000000000000000);
    assert(pow16(26) == 0x100000000000000000000000000);
    assert(pow16(27) == 0x1000000000000000000000000000);
    assert(pow16(28) == 0x10000000000000000000000000000);
    assert(pow16(29) == 0x100000000000000000000000000000);
    assert(pow16(30) == 0x1000000000000000000000000000000);
    assert(pow16(31) == 0x10000000000000000000000000000000);
    assert(pow16(32) == 0x100000000000000000000000000000000);
}

proof fn lemma_pow16_le(a: nat, b: nat)
    requires
        a <= b,
    ensures
        pow16(a) <= pow16(b),
    decreases b,
{
    if a < b {
        lemma_pow16_le(a, (b - 1) as nat);
        assert(pow16(a) >= 1) by {
            lemma_pow16_pos(a);
        }
    }
}

proof fn lemma_pow16_pos(a: nat)
    ensures
        pow16(a) >= 1,
    decreases a,
{
    if a > 0 {
        lemma_pow16_pos((a - 1) as nat);
    }
}

/// Extracts the parent trace context from the request's `traceparent`
/// header. Deterministic and pure; never fails: a missing or malformed
/// header yields the root context, so a fresh trace is rooted here.
pub fn extract_context_from_request(traceparent: Option<&str>) -> (r: TraceContext)
    ensures
        r == spec_extract(opt_view(traceparent)),
{
    match traceparent {
        None => root_context_exec(),
        Some(s) => extract_from_header(s),
    }
}

fn extract_from_header(s: &str) -> (r: TraceContext)
    ensures
        r == spec_extract(Some(s@)),
{
    if s.unicode_len() != 55 {
        return root_context_exec();
    }
    if s.get_char(2) != '-' || s.get_char(35) != '-' || s.get_char(52) != '-' {
        return root_context_exec();
    }
    let version = match parse_hex_field(s, 0, 2) {
        Some(v) => v,
        None => {
            return root_context_exec();
        },
    };
    if version == 0xff {
        return root_context_exec();
    }
    let trace_id = match parse_hex_field(s, 3, 35) {
        Some(v) => v,
        None => {
            return root_context_exec();
        },
    };
    if trace_id == 0 {
        return root_context_exec();
    }
    let span_id = match parse_hex_field(s, 36, 52) {
        Some(v) => v,
        None => {
            return root_context_exec();
        },
    };
    if span_id == 0 {
        return root_context_exec();
    }
    let flags = match parse_hex_field(s, 53, 55) {
        Some(v) => v,
        None => {
            return root_context_exec();
        },
    };
    proof {
        lemma_hex_value_bound(s@.subrange(36, 52));
        lemma_hex_value_bound(s@.subrange(53, 55));
        lemma_pow16_values();
    }
    TraceContext {
        has_parent: true,
        trace_id,
        span_id: span_id as u64,
        flags: flags as u8,
    }
}

/// The status a finished span reports.
pub enum SpanStatus {
    Unset,
    Okay,
    Error(String),
}

#[verifier::external_type_specification]
#[verifier::external_body]
pub struct ExContext(opentelemetry::Context);

#[verifier::external_type_specification]
#[verifier::external_body]
pub struct ExBoxedSpan(opentelemetry::global::BoxedSpan);

/// Relies on opentelemetry's `SpanContext::new` and
/// `Context::with_remote_span_context`: the context carrying the propagated
/// parent identifiers, which the started span becomes a child of.
#[verifier::external_body]
fn otel_parent_context(trace_id: u128, span_id: u64, flags: u8) -> opentelemetry::Context {
    opentelemetry::Context::new().with_remote_span_context(
        opentelemetry::trace::SpanContext::new(
            opentelemetry::trace::TraceId::from_bytes(trace_id.to_be_bytes()),
            opentelemetry::trace::SpanId::from_bytes(span_id.to_be_bytes()),
            opentelemetry::trace::TraceFlags::new(flags),
            true,
            opentelemetry::trace::TraceState::default(),
        ),
    )
}

/// Relies on opentelemetry's `Context::new`: an empty context, so the
/// started span roots a fresh trace.
#[verifier::external_body]
fn otel_root_context() -> opentelemetry::Context {
    opentelemetry::Context::new()
}

/// Relies on opentelemetry's global tracer and span builder: starts a
/// server-kind span with the given operation name as a child of `cx`.
#[verifier::external_body]
fn otel_start_span(cx: &opentelemetry::Context, name: &'static str) -> opentelemetry::global::BoxedSpan {
    let tracer = opentelemetry::global::tracer("kv_gateway");
    tracer.span_builder(name).with_kind(opentelemetry::trace::SpanKind::Server).start_with_context(
        &tracer,
        cx,
    )
}

/// Relies on opentelemetry's `Span::set_attribute`: tags the span with the
/// key being operated on.
#[verifier::external_body]
fn otel_set_attribute_key(span: &mut opentelemetry::global::BoxedSpan, key: &String) {
    opentelemetry::trace::Span::set_attribute(
        span,
        opentelemetry::KeyValue::new("key", key.clone()),
    );
}

/// Relies on opentelemetry's `Span::set_status` with `Status::Ok`.
#[verifier::external_body]
fn otel_set_status_ok(span: &mut opentelemetry::global::BoxedSpan) {
    opentelemetry::trace::Span::set_status(span, opentelemetry::trace::Status::Ok);
}

/// Relies on opentelemetry's `Span::set_status` with `Status::error`.
#[verifier::external_body]
fn otel_set_status_error(span: &mut opentelemetry::global::BoxedSpan, message: &String) {
    opentelemetry::trace::Span::set_status(
        span,
        opentelemetry::trace::Status::error(message.clone()),
    );
}

/// Relies on opentelemetry's `Span::end`: flushes the span's completion.
#[verifier::external_body]
fn otel_end(span: &mut opentelemetry::global::BoxedSpan) {
    opentelemetry::trace::Span::end(span);
}

/// One traced operation: a timed, attributed unit of work owned exclusively
/// by the handling of one request, child of the propagated context, and
/// never shared across requests.
pub struct Span {
    pub parent: TraceContext,
    pub key_attr: Option<String>,
    pub status: SpanStatus,
    pub finished: bool,
    pub emitter: opentelemetry::global::BoxedSpan,
}

/// Starts the server-kind span for the current request as a child of
/// `parent_cx`, named for the operation: not yet tagged, status not yet
/// set, not finished.
pub fn current_span(parent_cx: TraceContext, op: Op) -> (s: Span)
    ensures
        s.parent == parent_cx,
        s.key_attr is None,
        s.status is Unset,
        !s.finished,
{
    let cx = if parent_cx.has_parent {
        otel_parent_context(parent_cx.trace_id, parent_cx.span_id, parent_cx.flags)
    } else {
        otel_root_context()
    };
    let name = match op {
        Op::Put => "put",
        Op::Get => "get",
    };
    let emitter = otel_start_span(&cx, name);
    Span { parent: parent_cx, key_attr: None, status: SpanStatus::Unset, finished: false, emitter }
}

impl Span {
    /// Tags the span with the key the request operates on.
    pub fn set_key_attribute(&mut self, key: &String)
        requires
            !old(self).finished,
        ensures
            final(self).parent == old(self).parent,
            final(self).status == old(self).status,
            final(self).finished == old(self).finished,
            final(self).key_attr matches Some(k) && k@ == key@,
    {
        otel_set_attribute_key(&mut self.emitter, key);
        self.key_attr = Some(key.clone());
    }

    /// Sets the span's status; a span takes no further status once finished.
    pub fn set_status(&mut self, status: SpanStatus)
        requires
            !old(self).finished,
        ensures
            final(self).parent == old(self).parent,
            final(self).key_attr == old(self).key_attr,
            final(self).finished == old(self).finished,
            final(self).status == status,
    {
        match &status {
            SpanStatus::Okay => otel_set_status_ok(&mut self.emitter),
            SpanStatus::Error(m) => otel_set_status_error(&mut self.emitter, m),
            SpanStatus::Unset => {},
        }
        self.status = status;
    }

    /// Flushes span completion; called exactly once per request, on every
    /// exit path, so no span is left open.
    pub fn finish(&mut self)
        requires
            !old(self).finished,
        ensures
            final(self).parent == old(self).parent,
            final(self).key_attr == old(self).key_attr,
            final(self).status == old(self).status,
            final(self).finished,
    {
        otel_end(&mut self.emitter);
        self.finished = true;
    }
}

/// The status an outcome earns: a success and an absent key are expected
/// business outcomes and report OK; only an engine failure reports an
/// error, carrying the diagnostic that names the operation and the key.
pub open spec fn span_status_matches(st: SpanStatus, op: Op, k: Seq<char>, o: Outcome) -> bool {
    match o {
        Outcome::Success(_) => st is Okay,
        Outcome::NotFound => st is Okay,
        Outcome::Failure(d) => st matches SpanStatus::Error(m) && m@ == failure_message(op, k, d@),
    }
}

/// Sets the span's status from the outcome of the operation on `key`.
pub fn set_outcome(span: &mut Span, op: Op, key: &String, outcome: &Outcome)
    requires
        !old(span).finished,
    ensures
        final(span).parent == old(span).parent,
        final(span).key_attr == old(span).key_attr,
        final(span).finished == old(span).finished,
        span_status_matches(final(span).status, op, key@, *outcome),
{
    match outcome {
        Outcome::Success(_) => span.set_status(SpanStatus::Okay),
        Outcome::NotFound => span.set_status(SpanStatus::Okay),
        Outcome::Failure(d) => {
            let m = build_failure_message(op, key, d);
            span.set_status(SpanStatus::Error(m));
        },
    }
}

/// The span status is consistent with the HTTP status the same outcome is
/// sent as: an error status exactly for a 500, OK for the business
/// outcomes 200 and 404.
pub proof fn lemma_span_status_consistent(st: SpanStatus, op: Op, k: Seq<char>, o: Outcome)
    requires
        span_status_matches(st, op, k, o),
    ensures
        st is Error <==> status_of(o) == 500,
        st is Okay <==> (status_of(o) == 200 || status_of(o) == 404),
{
}

} // verus!
