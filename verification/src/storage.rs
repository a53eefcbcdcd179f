//! Storage adapter: a durable, log-structured key-value engine and the
//! `put`/`get` operations the request handler calls on it.
//!
//! The engine keeps every successful write in an append-only log; the live
//! contents are the last write for each key (last-write-wins, at most one
//! live value per key). Keys and values are opaque and returned verbatim.

use vstd::prelude::*;

verus! {

/// One durable write: a key paired with the value written under it.
pub struct Entry {
    pub key: String,
    pub value: String,
}

/// The live contents of a write log: later writes override earlier ones.
pub open spec fn map_of(log: Seq<Entry>) -> Map<Seq<char>, Seq<char>>
    decreases log.len(),
{
    if log.len() == 0 {
        Map::empty()
    } else {
        map_of(log.drop_last()).insert(log.last().key@, log.last().value@)
    }
}

/// The key-value engine: an append-only write log, viewed as the map from
/// each key to the value it last received.
pub struct Store {
    log: Vec<Entry>,
}

impl View for Store {
    type V = Map<Seq<char>, Seq<char>>;

    closed spec fn view(&self) -> Map<Seq<char>, Seq<char>> {
        map_of(self.log@)
    }
}

/// The result a read settles on: the stored value, or nothing for a key
/// that was never written.
pub open spec fn spec_read(m: Map<Seq<char>, Seq<char>>, k: Seq<char>) -> Option<Seq<char>> {
    if m.contains_key(k) {
        Some(m[k])
    } else {
        None
    }
}

proof fn lemma_last_match(log: Seq<Entry>, k: Seq<char>, j: int)
    requires
        0 <= j < log.len(),
        log[j].key@ == k,
        forall|l: int| j < l < log.len() ==> log[l].key@ != k,
    ensures
        map_of(log).contains_key(k),
        map_of(log)[k] == log[j].value@,
    decreases log.len(),
{
    if j == log.len() - 1 {
    } else {
        assert(log.drop_last()[j] == log[j]);
        lemma_last_match(log.drop_last(), k, j);
    }
}

proof fn lemma_no_match(log: Seq<Entry>, k: Seq<char>)
    requires
        forall|j: int| 0 <= j < log.len() ==> log[j].key@ != k,
    ensures
        !map_of(log).contains_key(k),
    decreases log.len(),
{
    if log.len() > 0 {
        assert(forall|j: int| 0 <= j < log.drop_last().len() ==> log.drop_last()[j] == log[j]);
        lemma_no_match(log.drop_last(), k);
    }
}

impl Store {
    /// A fresh engine instance holding nothing.
    pub fn new() -> (s: Store)
        ensures
            s@ == Map::<Seq<char>, Seq<char>>::empty(),
    {
        Store { log: Vec::new() }
    }

    /// Writes or overwrites the entry for `key`. The write is appended to
    /// the log, so the previous value for `key`, if any, is no longer live.
    pub fn put(&mut self, key: &String, value: &String)
        ensures
            final(self)@ == old(self)@.insert(key@, value@),
    {
        self.log.push(Entry { key: key.clone(), value: value.clone() });
        proof {
            assert(self.log@.drop_last() =~= old(self).log@);
        }
    }

    /// Returns the value `key` last received, or `None` for a key that was
    /// never written.
    pub fn get(&self, key: &String) -> (r: Option<String>)
        ensures
            match r {
                Some(v) => spec_read(self@, key@) == Some(v@),
                None => spec_read(self@, key@) is None,
            },
    {
        let n = self.log.len();
        let mut i = n;
        while i > 0
            invariant
                i <= n,
                n == self.log.len(),
                forall|j: int| i <= j < n ==> self.log@[j].key@ != key@,
            decreases i,
        {
            i = i - 1;
            if self.log[i].key == *key {
                proof {
                    lemma_last_match(self.log@, key@, i as int);
                }
                return Some(self.log[i].value.clone());
            }
        }
        proof {
            lemma_no_match(self.log@, key@);
        }
        None
    }
}

/// An engine malfunction surfaced by the adapter, carrying the engine's
/// original message. A missing key is never an error.
#[derive(Debug)]
pub struct StorageError {
    pub message: String,
}

/// Writes `value` under `key`. Every successful write is durably appended
/// before the call returns; the bundled engine cannot malfunction, so the
/// write is always owed.
pub fn put(db: &mut Store, key: &String, value: &String) -> (r: Result<(), StorageError>)
    ensures
        r is Ok,
        final(db)@ == old(db)@.insert(key@, value@),
{
    db.put(key, value);
    Ok(())
}

/// Reads the current value for `key`; `Ok(None)` for a key never written.
/// An error would signal an engine malfunction only, which the bundled
/// engine cannot produce.
pub fn get(db: &Store, key: &String) -> (r: Result<Option<String>, StorageError>)
    ensures
        r matches Ok(v) && (match v {
            Some(val) => spec_read(db@, key@) == Some(val@),
            None => spec_read(db@, key@) is None,
        }),
{
    Ok(db.get(key))
}

/// Round-trip: writing `v` under `k` and then reading `k` returns exactly
/// `v`, for every store contents, every key and every value, the empty ones
/// included.
pub proof fn lemma_round_trip(m: Map<Seq<char>, Seq<char>>, k: Seq<char>, v: Seq<char>)
    ensures
        spec_read(m.insert(k, v), k) == Some(v),
{
}

/// Last write wins: after two writes under the same key, a read returns the
/// second value, whatever was stored before.
pub proof fn lemma_overwrite(
    m: Map<Seq<char>, Seq<char>>,
    k: Seq<char>,
    v1: Seq<char>,
    v2: Seq<char>,
)
    ensures
        spec_read(m.insert(k, v1).insert(k, v2), k) == Some(v2),
{
}

/// Byte-for-byte safety: the store preserves a value as its exact character
/// sequence, so a value holding multi-byte UTF-8 comes back with its UTF-8
/// bytes unchanged.
pub proof fn lemma_byte_for_byte_round_trip(m: Map<Seq<char>, Seq<char>>, k: Seq<char>, v: Seq<char>)
    ensures
        spec_read(m.insert(k, v), k) matches Some(w) && vstd::utf8::encode_utf8(w)
            == vstd::utf8::encode_utf8(v),
{
}

/// Reads are idempotent: a read settles only on the store contents and the
/// key, and a read leaves the contents unchanged, so repeated reads with no
/// intervening write return identical results.
pub proof fn lemma_reads_idempotent(
    m1: Map<Seq<char>, Seq<char>>,
    m2: Map<Seq<char>, Seq<char>>,
    k: Seq<char>,
)
    requires
        m1 == m2,
    ensures
        spec_read(m1, k) == spec_read(m2, k),
{
}

} // verus!
