//! Response formatter: maps an operation outcome to the uniform wire
//! response. Successful bodies are JSON-encoded strings; a failure sends an
//! empty body so no internal error detail leaks to the client.

use vstd::prelude::*;
use vstd::string::StrSliceExecFns;
use vstd::utf8::encode_utf8;
use crate::outcome::{not_found_message, put_ok_message, Outcome};

verus! {

/// One wire response: an HTTP status code and the body bytes to send.
pub struct HttpResponse {
    pub status: u16,
    pub body: Vec<u8>,
}

/// The lowercase hex digit for a nibble.
pub open spec fn hex_digit(n: u8) -> u8 {
    if n < 10 {
        (0x30 + n) as u8
    } else {
        (0x57 + n) as u8
    }
}

fn hex_digit_exec(n: u8) -> (r: u8)
    requires
        n < 16,
    ensures
        r == hex_digit(n),
{
    if n < 10 {
        0x30 + n
    } else {
        0x57 + n
    }
}

/// How one byte of a UTF-8 string is written inside a JSON string: quote
/// and backslash get a two-byte escape, the named control bytes get their
/// short escape, the remaining control bytes get `\u00` and two lowercase
/// hex digits, and every other byte (multi-byte UTF-8 included) passes
/// through verbatim.
pub open spec fn escape_byte(b: u8) -> Seq<u8> {
    if b == 0x22 {
        seq![0x5cu8, 0x22u8]
    } else if b == 0x5c {
        seq![0x5cu8, 0x5cu8]
    } else if b == 0x08 {
        seq![0x5cu8, 0x62u8]
    } else if b == 0x09 {
        seq![0x5cu8, 0x74u8]
    } else if b == 0x0a {
        seq![0x5cu8, 0x6eu8]
    } else if b == 0x0c {
        seq![0x5cu8, 0x66u8]
    } else if b == 0x0d {
        seq![0x5cu8, 0x72u8]
    } else if b < 0x20 {
        seq![0x5cu8, 0x75u8, 0x30u8, 0x30u8, hex_digit(b / 16), hex_digit(b % 16)]
    } else {
        seq![b]
    }
}

/// The escaped form of a whole byte sequence.
pub open spec fn escape_bytes(s: Seq<u8>) -> Seq<u8>
    decreases s.len(),
{
    if s.len() == 0 {
        Seq::empty()
    } else {
        escape_bytes(s.drop_last()) + escape_byte(s.last())
    }
}

/// The bytes a string is sent as: its UTF-8 encoding, escaped, between
/// double quotes.
pub open spec fn json_string_bytes(s: Seq<char>) -> Seq<u8> {
    seq![0x22u8] + escape_bytes(encode_utf8(s)) + seq![0x22u8]
}

/// Escaping never truncates: every byte of the value contributes at least
/// one byte to the wire body, so a value of any size is sent whole.
pub proof fn lemma_escape_no_truncation(s: Seq<u8>)
    ensures
        escape_bytes(s).len() >= s.len(),
    decreases s.len(),
{
    if s.len() > 0 {
        lemma_escape_no_truncation(s.drop_last());
    }
}

/// JSON-encodes a string for the wire.
fn encode_json_string(s: &String) -> (r: Vec<u8>)
    ensures
        r@ == json_string_bytes(s@),
{
    let bytes = s.as_str().as_bytes_vec();
    let mut out: Vec<u8> = Vec::new();
    out.push(0x22);
    let mut i: usize = 0;
    while i < bytes.len()
        invariant
            i <= bytes.len(),
            bytes@ == encode_utf8(s@),
            out@ == seq![0x22u8] + escape_bytes(bytes@.subrange(0, i as int)),
        decreases bytes.len() - i,
    {
        let b = bytes[i];
        if b == 0x22 {
            out.push(0x5c);
            out.push(0x22);
        } else if b == 0x5c {
            out.push(0x5c);
            out.push(0x5c);
        } else if b == 0x08 {
            out.push(0x5c);
            out.push(0x62);
        } else if b == 0x09 {
            out.push(0x5c);
            out.push(0x74);
        } else if b == 0x0a {
            out.push(0x5c);
            out.push(0x6e);
        } else if b == 0x0c {
            out.push(0x5c);
            out.push(0x66);
        } else if b == 0x0d {
            out.push(0x5c);
            out.push(0x72);
        } else if b < 0x20 {
            out.push(0x5c);
            out.push(0x75);
            out.push(0x30);
            out.push(0x30);
            out.push(hex_digit_exec(b / 16));
            out.push(hex_digit_exec(b % 16));
        } else {
            out.push(b);
        }
        proof {
            assert(bytes@.subrange(0, i + 1 as int).drop_last() =~= bytes@.subrange(0, i as int));
            assert(bytes@.subrange(0, i + 1 as int).last() == bytes@[i as int]);
            assert(out@ =~= seq![0x22u8] + escape_bytes(bytes@.subrange(0, i + 1 as int)));
        }
        i = i + 1;
    }
    out.push(0x22);
    proof {
        assert(bytes@.subrange(0, bytes@.len() as int) =~= bytes@);
        assert(out@ =~= json_string_bytes(s@));
    }
    out
}

/// A successful operation: HTTP 200 with the body JSON-encoded.
pub fn success(body: &String) -> (r: HttpResponse)
    ensures
        r.status == 200,
        r.body@ == json_string_bytes(body@),
{
    HttpResponse { status: 200, body: encode_json_string(body) }
}

/// A key absent on read: HTTP 404 with the message JSON-encoded.
pub fn not_found(body: &String) -> (r: HttpResponse)
    ensures
        r.status == 404,
        r.body@ == json_string_bytes(body@),
{
    HttpResponse { status: 404, body: encode_json_string(body) }
}

/// An engine malfunction: HTTP 500 with an empty body. The detail is kept
/// for server-side logging and tracing; none of it reaches the client.
pub fn internal_server_error(_detail: &String) -> (r: HttpResponse)
    ensures
        r.status == 500,
        r.body@ =~= Seq::<u8>::empty(),
{
    HttpResponse { status: 500, body: Vec::new() }
}

/// The status code each outcome maps to. Every variant has exactly one
/// mapping, and the formatter never fails.
pub open spec fn status_of(o: Outcome) -> u16 {
    match o {
        Outcome::Success(_) => 200,
        Outcome::NotFound => 404,
        Outcome::Failure(_) => 500,
    }
}

/// The body each outcome maps to, for the request key `k`: the value a read
/// found, the write confirmation, the not-found message, or nothing.
pub open spec fn body_of(k: Seq<char>, o: Outcome) -> Seq<u8> {
    match o {
        Outcome::Success(ov) => match ov {
            Some(v) => json_string_bytes(v@),
            None => json_string_bytes(put_ok_message(k)),
        },
        Outcome::NotFound => json_string_bytes(not_found_message(k)),
        Outcome::Failure(_) => Seq::empty(),
    }
}

/// Converts an outcome into the wire response for the request on `key`.
pub fn format_response(key: &String, outcome: &Outcome) -> (r: HttpResponse)
    ensures
        r.status == status_of(*outcome),
        r.body@ == body_of(key@, *outcome),
{
    match outcome {
        Outcome::Success(ov) => match ov {
            Some(v) => success(v),
            None => {
                let m = crate::outcome::build_put_ok_message(key);
                success(&m)
            },
        },
        Outcome::NotFound => {
            let m = crate::outcome::build_not_found_message(key);
            not_found(&m)
        },
        Outcome::Failure(d) => internal_server_error(d),
    }
}

} // verus!
