//! The outcome taxonomy: the classified result of one storage operation,
//! produced by the request handler from the adapter's answer and consumed
//! by both the response formatter and the tracing layer, so that both see
//! the same authoritative classification.

use vstd::prelude::*;
use vstd::string::StringExecFns;
use crate::storage::StorageError;

verus! {

/// The storage operation a request asks for, fixed by the path it was
/// routed on.
#[derive(Clone, Copy)]
pub enum Op {
    Put,
    Get,
}

/// The classified result of a storage call: success (carrying the value a
/// read found, or nothing for a write), a key absent on read, or an engine
/// failure carrying its detail.
pub enum Outcome {
    Success(Option<String>),
    NotFound,
    Failure(String),
}

/// The confirmation sent after a successful write, naming the key.
pub open spec fn put_ok_message(k: Seq<char>) -> Seq<char> {
    "put key \""@ + k + "\" successfully"@
}

/// The message sent when a read finds nothing, naming the key. The client
/// supplied the key, so echoing it back leaks nothing.
pub open spec fn not_found_message(k: Seq<char>) -> Seq<char> {
    "key \""@ + k + "\" not found"@
}

/// The diagnostic recorded when the engine malfunctions: the operation, the
/// key, and the engine's own detail. Logged and traced, never sent to the
/// client.
pub open spec fn failure_message(op: Op, k: Seq<char>, detail: Seq<char>) -> Seq<char> {
    (match op {
        Op::Put => "cannot put key \""@,
        Op::Get => "cannot get key \""@,
    }) + k + "\": "@ + detail
}

/// Builds the write confirmation for `key`.
pub fn build_put_ok_message(key: &String) -> (r: String)
    ensures
        r@ == put_ok_message(key@),
{
    let mut m = "put key \"".to_owned();
    m.append(key.as_str());
    m.append("\" successfully");
    m
}

/// Builds the not-found message for `key`.
pub fn build_not_found_message(key: &String) -> (r: String)
    ensures
        r@ == not_found_message(key@),
{
    let mut m = "key \"".to_owned();
    m.append(key.as_str());
    m.append("\" not found");
    m
}

/// Builds the failure diagnostic for `op` on `key` with the engine's detail.
pub fn build_failure_message(op: Op, key: &String, detail: &String) -> (r: String)
    ensures
        r@ == failure_message(op, key@, detail@),
{
    let mut m = match op {
        Op::Put => "cannot put key \"".to_owned(),
        Op::Get => "cannot get key \"".to_owned(),
    };
    m.append(key.as_str());
    m.append("\": ");
    m.append(detail.as_str());
    m
}

/// Classifies the adapter's answer to a write: a success carries no value,
/// a malfunction becomes a failure carrying the engine's message.
pub fn put_outcome(r: Result<(), StorageError>) -> (o: Outcome)
    ensures
        match r {
            Ok(_) => o matches Outcome::Success(v) && v is None,
            Err(e) => o matches Outcome::Failure(d) && d@ == e.message@,
        },
{
    match r {
        Ok(_) => Outcome::Success(None),
        Err(e) => Outcome::Failure(e.message),
    }
}

/// Classifies the adapter's answer to a read: a present value is a success
/// carrying it, an absent key is the distinct not-found outcome, and a
/// malfunction becomes a failure carrying the engine's message.
pub fn get_outcome(r: Result<Option<String>, StorageError>) -> (o: Outcome)
    ensures
        match r {
            Ok(v) => match v {
                Some(val) => o matches Outcome::Success(ov) && ov matches Some(w) && w@ == val@,
                None => o is NotFound,
            },
            Err(e) => o matches Outcome::Failure(d) && d@ == e.message@,
        },
{
    match r {
        Ok(Some(val)) => Outcome::Success(Some(val)),
        Ok(None) => Outcome::NotFound,
        Err(e) => Outcome::Failure(e.message),
    }
}

} // verus!
