//! The request handler's state machine: one session per inbound request,
//! moving through `Received`, `ContextExtracted`, `Dispatched`,
//! `OutcomeMapped` and `Responded`, terminal on `Responded`, with no retries
//! and no re-entry.
//!
//! The session owns the request's span. Its well-formedness ties the span's
//! lifecycle to the phase: one span is opened when the context is
//! extracted, given its status when the outcome is mapped, and finished
//! exactly once when the response goes out — on every exit path.

use vstd::prelude::*;
use crate::outcome::{get_outcome, put_outcome, Op, Outcome};
use crate::response::{body_of, format_response, status_of, HttpResponse};
use crate::storage;
use crate::storage::{spec_read, Store};
use crate::telemetry::{
    current_span, extract_context_from_request, opt_view, set_outcome, span_status_matches,
    spec_extract, Span, TraceContext,
};

verus! {

/// The stations one request passes through, in order.
pub enum Phase {
    Received,
    ContextExtracted,
    Dispatched,
    OutcomeMapped,
    Responded,
}

/// What the storage call must have settled on: a write always succeeds and
/// carries no value; a read carries the stored value or is the distinct
/// not-found outcome, judged against the store contents before the call.
pub open spec fn outcome_matches(o: Outcome, op: Op, m: Map<Seq<char>, Seq<char>>, k: Seq<char>) -> bool {
    match op {
        Op::Put => o matches Outcome::Success(v) && v is None,
        Op::Get => match spec_read(m, k) {
            Some(v) => o matches Outcome::Success(ov) && ov matches Some(w) && w@ == v,
            None => o is NotFound,
        },
    }
}

/// The handling of one request: its operation, key and (for a write) value,
/// the phase reached, the extracted parent context, the one span it owns,
/// the outcome once dispatched, and the span-lifecycle ledger.
pub struct Session {
    pub op: Op,
    pub key: String,
    pub value: Option<String>,
    pub phase: Phase,
    pub cx: TraceContext,
    pub span: Option<Span>,
    pub outcome: Option<Outcome>,
    pub spans_opened: Ghost<int>,
    pub spans_finished: Ghost<int>,
}

impl Session {
    /// The span the session owns is a child of the extracted context and is
    /// tagged with the key being operated on.
    pub open spec fn span_wf(self, sp: Span) -> bool {
        &&& sp.parent == self.cx
        &&& sp.key_attr matches Some(k) && k@ == self.key@
    }

    /// Phase-indexed well-formedness: which fields are settled, and the
    /// span-lifecycle ledger — no span before extraction, exactly one open
    /// span from extraction to the response, finished exactly at the end.
    pub open spec fn wf(self) -> bool {
        &&& (self.op is Put <==> self.value is Some)
        &&& match self.phase {
            Phase::Received => {
                &&& self.span is None
                &&& self.outcome is None
                &&& self.spans_opened@ == 0
                &&& self.spans_finished@ == 0
            },
            Phase::ContextExtracted => {
                &&& self.spans_opened@ == 1
                &&& self.spans_finished@ == 0
                &&& self.span matches Some(sp) && self.span_wf(sp) && !sp.finished
                    && sp.status is Unset
                &&& self.outcome is None
            },
            Phase::Dispatched => {
                &&& self.spans_opened@ == 1
                &&& self.spans_finished@ == 0
                &&& self.span matches Some(sp) && self.span_wf(sp) && !sp.finished
                    && sp.status is Unset
                &&& self.outcome is Some
            },
            Phase::OutcomeMapped => {
                &&& self.spans_opened@ == 1
                &&& self.spans_finished@ == 0
                &&& self.span matches Some(sp) && self.span_wf(sp) && !sp.finished && (
                self.outcome matches Some(o) && span_status_matches(
                    sp.status,
                    self.op,
                    self.key@,
                    o,
                ))
            },
            Phase::Responded => {
                &&& self.spans_opened@ == 1
                &&& self.spans_finished@ == 1
                &&& self.span matches Some(sp) && self.span_wf(sp) && sp.finished && (
                self.outcome matches Some(o) && span_status_matches(
                    sp.status,
                    self.op,
                    self.key@,
                    o,
                ))
            },
        }
    }

    /// A request has arrived: the router has fixed the operation and the
    /// key, and (for a write) the body is the value. No span exists yet.
    pub fn receive(op: Op, key: &String, value: Option<&String>) -> (s: Session)
        requires
            op is Put <==> value is Some,
        ensures
            s.wf(),
            s.phase is Received,
            s.op == op,
            s.key@ == key@,
            (match value {
                Some(v) => s.value matches Some(sv) && sv@ == v@,
                None => s.value is None,
            }),
    {
        let owned_value = match value {
            Some(v) => Some(v.clone()),
            None => None,
        };
        Session {
            op,
            key: key.clone(),
            value: owned_value,
            phase: Phase::Received,
            cx: TraceContext { has_parent: false, trace_id: 0, span_id: 0, flags: 0 },
            span: None,
            outcome: None,
            spans_opened: Ghost(0),
            spans_finished: Ghost(0),
        }
    }

    /// Extracts the parent context from the propagation header and starts
    /// the request's one server-kind span as its child, tagged with the key.
    pub fn extract_and_start(&mut self, traceparent: Option<&str>)
        requires
            old(self).wf(),
            old(self).phase is Received,
        ensures
            final(self).wf(),
            final(self).phase is ContextExtracted,
            final(self).op == old(self).op,
            final(self).key@ == old(self).key@,
            final(self).value == old(self).value,
            final(self).cx == spec_extract(opt_view(traceparent)),
            final(self).spans_opened@ == 1,
            final(self).spans_finished@ == 0,
    {
        let cx = extract_context_from_request(traceparent);
        self.cx = cx;
        let mut sp = current_span(cx, self.op);
        sp.set_key_attribute(&self.key);
        self.span = Some(sp);
        self.spans_opened = Ghost(1);
        self.phase = Phase::ContextExtracted;
    }

    /// Invokes the storage adapter: a write appends to the store, a read
    /// leaves it unchanged; either answer is classified into the outcome.
    pub fn dispatch(&mut self, store: &mut Store)
        requires
            old(self).wf(),
            old(self).phase is ContextExtracted,
        ensures
            final(self).wf(),
            final(self).phase is Dispatched,
            final(self).op == old(self).op,
            final(self).key@ == old(self).key@,
            final(self).value == old(self).value,
            final(self).cx == old(self).cx,
            final(self).span == old(self).span,
            final(self).spans_opened@ == 1,
            final(self).spans_finished@ == 0,
            (old(self).op is Put ==> (old(self).value matches Some(v) && final(store)@ == old(
                store,
            )@.insert(old(self).key@, v@))),
            (old(self).op is Get ==> final(store)@ == old(store)@),
            final(self).outcome matches Some(o) && outcome_matches(
                o,
                old(self).op,
                old(store)@,
                old(self).key@,
            ),
    {
        let op = self.op;
        let o = match op {
            Op::Put => {
                let res = match &self.value {
                    Some(v) => storage::put(store, &self.key, v),
                    None => {
                        proof {
                            assert(false);
                        }
                        Ok(())
                    },
                };
                put_outcome(res)
            },
            Op::Get => {
                let res = storage::get(store, &self.key);
                get_outcome(res)
            },
        };
        self.outcome = Some(o);
        self.phase = Phase::Dispatched;
    }

    /// Sets the span's status from the outcome and converts the outcome
    /// into the wire response; both consumers see the same classification.
    pub fn map_outcome(&mut self) -> (r: HttpResponse)
        requires
            old(self).wf(),
            old(self).phase is Dispatched,
        ensures
            final(self).wf(),
            final(self).phase is OutcomeMapped,
            final(self).op == old(self).op,
            final(self).key@ == old(self).key@,
            final(self).value == old(self).value,
            final(self).cx == old(self).cx,
            final(self).outcome == old(self).outcome,
            final(self).spans_opened@ == 1,
            final(self).spans_finished@ == 0,
            old(self).outcome matches Some(o) && r.status == status_of(o) && r.body@ == body_of(
                old(self).key@,
                o,
            ),
    {
        let op = self.op;
        let r = match (&mut self.span, &self.outcome) {
            (Some(sp), Some(o)) => {
                set_outcome(sp, op, &self.key, o);
                format_response(&self.key, o)
            },
            _ => {
                proof {
                    assert(false);
                }
                HttpResponse { status: 500, body: Vec::new() }
            },
        };
        self.phase = Phase::OutcomeMapped;
        r
    }

    /// Finishes the request's span — the one status-setting and the one
    /// completion this request gets — and seals the session.
    pub fn respond(&mut self)
        requires
            old(self).wf(),
            old(self).phase is OutcomeMapped,
        ensures
            final(self).wf(),
            final(self).phase is Responded,
            final(self).op == old(self).op,
            final(self).key@ == old(self).key@,
            final(self).value == old(self).value,
            final(self).cx == old(self).cx,
            final(self).outcome == old(self).outcome,
            final(self).spans_opened@ == 1,
            final(self).spans_finished@ == 1,
            (old(self).span matches Some(osp) && final(self).span matches Some(sp) && sp.finished
                && sp.status == osp.status && sp.parent == osp.parent && sp.key_attr
                == osp.key_attr),
    {
        match &mut self.span {
            Some(sp) => sp.finish(),
            None => {
                proof {
                    assert(false);
                }
            },
        }
        self.spans_finished = Ghost(1);
        self.phase = Phase::Responded;
    }
}

/// Span lifecycle: a session that has answered its request opened exactly
/// one span and finished exactly one, and the span's status agrees with the
/// HTTP status produced from the same outcome — OK for the business
/// outcomes sent as 200 and 404, an error exactly for a 500.
pub proof fn lemma_span_lifecycle(s: Session)
    requires
        s.wf(),
        s.phase is Responded,
    ensures
        s.spans_opened@ == 1,
        s.spans_finished@ == 1,
        s.span matches Some(sp) && sp.finished && (s.outcome matches Some(o) && (sp.status
            is Error <==> status_of(o) == 500) && (sp.status is Okay <==> (status_of(o) == 200
            || status_of(o) == 404))),
{
    match s.span {
        Some(sp) => match s.outcome {
            Some(o) => {
                crate::telemetry::lemma_span_status_consistent(sp.status, s.op, s.key@, o);
            },
            None => {},
        },
        None => {},
    }
}

} // verus!
