//! A minimal key-value gateway: the request-handling and observability
//! pipeline of an HTTP front end over a durable key-value store.
//!
//! The library holds the verified core: the storage adapter and its
//! log-structured engine, W3C trace-context extraction and the span
//! lifecycle, the per-request state machine, the outcome taxonomy, and
//! the response formatter. The surrounding process (listener, runtime,
//! exporter wiring) lives outside the library and drives it.

use vstd::prelude::*;

pub mod handlers;
pub mod outcome;
pub mod response;
pub mod session;
pub mod storage;
pub mod telemetry;

verus! {

/// Shared per-process state handed to every request: the storage engine
/// handle, created once before the first request is served.
pub struct AppState {
    pub store: storage::Store,
}

} // verus!
