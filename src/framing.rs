//! The wire format: one JSON value per line.
use vstd::prelude::*;
use vstd::string::*;

use crate::error::BridgeError;
use crate::json::{json_bytes, parse_json, parsed_json, to_json_bytes};

verus! {

/// The byte that ends every line on the wire.
pub const NEWLINE: u8 = 10;

/// The whitespace characters of JSON's grammar.
pub open spec fn is_json_space(c: char) -> bool {
    c == ' ' || c == '\t' || c == '\n' || c == '\r'
}

/// A line that holds nothing but whitespace, or nothing at all.
pub open spec fn is_blank(s: Seq<char>) -> bool {
    forall|i: int| 0 <= i < s.len() ==> is_json_space(#[trigger] s[i])
}

/// The bytes that carry one JSON value on the wire: its compact
/// serialization and a newline.
pub open spec fn framed(v: serde_json::Value) -> Seq<u8> {
    json_bytes(v).push(NEWLINE)
}

/// What one read of a line from the worker's output gave.
#[derive(Debug, Clone, PartialEq, Eq)]
pub enum ReadOutcome {
    /// A line, with or without its newline.
    Line(String),
    /// The worker's output ended before any byte of a line.
    Closed,
    /// The read failed.
    Failed(String),
}

/// What a response read from the worker stands for.
pub open spec fn decodes_to(outcome: ReadOutcome, r: Result<serde_json::Value, BridgeError>) -> bool {
    match outcome {
        ReadOutcome::Closed => r matches Err(BridgeError::Io(_)),
        ReadOutcome::Failed(e) => r == Err::<serde_json::Value, BridgeError>(BridgeError::Io(e)),
        ReadOutcome::Line(s) => if is_blank(s@) {
            r matches Err(BridgeError::Protocol(_))
        } else {
            match parsed_json(s@) {
                Some(v) => r == Ok::<serde_json::Value, BridgeError>(v),
                None => r matches Err(BridgeError::Protocol(_)),
            }
        },
    }
}

/// Whether a line holds only whitespace.
pub fn is_blank_line(s: &str) -> (r: bool)
    ensures
        r == is_blank(s@),
{
    let n = s.unicode_len();
    let mut i: usize = 0;
    while i < n
        invariant
            n == s@.len(),
            i <= n,
            forall|j: int| 0 <= j < i ==> is_json_space(#[trigger] s@[j]),
        decreases n - i,
    {
        let c = s.get_char(i);
        if !(c == ' ' || c == '\t' || c == '\n' || c == '\r') {
            return false;
        }
        i = i + 1;
    }
    true
}

/// The bytes to write for one request: the value's serialization and a
/// newline.
pub fn frame(v: &serde_json::Value) -> (r: Vec<u8>)
    ensures
        r@ == framed(*v),
{
    match to_json_bytes(v) {
        Ok(b) => {
            let mut line = b;
            line.push(NEWLINE);
            line
        },
        Err(_) => unreached(),
    }
}

/// Reads back the worker's answer: a closed or failing stream is an I/O
/// error, a blank line or one that is not JSON a protocol error, and any
/// other line the JSON value it holds.
pub fn decode_response(outcome: ReadOutcome) -> (r: Result<serde_json::Value, BridgeError>)
    ensures
        decodes_to(outcome, r),
{
    match outcome {
        ReadOutcome::Closed => Err(BridgeError::Io(String::from_str("worker closed its output"))),
        ReadOutcome::Failed(e) => Err(BridgeError::Io(e)),
        ReadOutcome::Line(s) => {
            if is_blank_line(s.as_str()) {
                Err(BridgeError::Protocol(String::from_str("empty response from worker")))
            } else {
                match parse_json(s.as_str()) {
                    Ok(v) => Ok(v),
                    Err(e) => Err(BridgeError::Protocol(e)),
                }
            }
        },
    }
}

} // verus!
