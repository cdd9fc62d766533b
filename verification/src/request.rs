//! Reading one request line into a `Request`.
//!
//! A request line holds at least three whitespace-separated tokens: method,
//! path and protocol version. Anything with fewer tokens is malformed and
//! parses to `None`; the caller answers such a line with a client-error
//! response rather than dropping the connection.

use vstd::prelude::*;

verus! {

use crate::bytes::ascii_bytes;
use crate::bytes::ascii_view;
use crate::bytes::bytes_eq;
use crate::bytes::sub_bytes;

/// True of the bytes that separate the tokens of a request line.
pub open spec fn is_ws(b: u8) -> bool {
    b == ' ' as u8 || b == '\t' as u8 || b == '\r' as u8 || b == '\n' as u8
}

/// The first position at or after `i` that does not hold whitespace.
pub open spec fn skip_ws(s: Seq<u8>, i: int) -> int
    recommends
        0 <= i <= s.len(),
    decreases s.len() - i,
{
    if i < 0 || i >= s.len() || !is_ws(s[i]) {
        i
    } else {
        skip_ws(s, i + 1)
    }
}

/// The first position at or after `i` that holds whitespace, or the end.
pub open spec fn skip_token(s: Seq<u8>, i: int) -> int
    recommends
        0 <= i <= s.len(),
    decreases s.len() - i,
{
    if i < 0 || i >= s.len() || is_ws(s[i]) {
        i
    } else {
        skip_token(s, i + 1)
    }
}

/// A parsed request line.
pub struct Request {
    pub method: Vec<u8>,
    pub path: Vec<u8>,
    pub version: Vec<u8>,
}

/// The mathematical content of a `Request`.
pub ghost struct RequestModel {
    pub method: Seq<u8>,
    pub path: Seq<u8>,
    pub version: Seq<u8>,
}

impl View for Request {
    type V = RequestModel;

    open spec fn view(&self) -> RequestModel {
        RequestModel { method: self.method@, path: self.path@, version: self.version@ }
    }
}

/// The three leading whitespace-separated tokens of `s`, when all three are
/// present and nonempty; `None` otherwise.
pub open spec fn parse_request_line_spec(s: Seq<u8>) -> Option<RequestModel> {
    let m_start = skip_ws(s, 0);
    let m_end = skip_token(s, m_start);
    let p_start = skip_ws(s, m_end);
    let p_end = skip_token(s, p_start);
    let v_start = skip_ws(s, p_end);
    let v_end = skip_token(s, v_start);
    if m_start < m_end && p_start < p_end && v_start < v_end {
        Some(
            RequestModel {
                method: s.subrange(m_start, m_end),
                path: s.subrange(p_start, p_end),
                version: s.subrange(v_start, v_end),
            },
        )
    } else {
        None
    }
}

/// True when the byte separates tokens.
fn is_ws_byte(b: u8) -> (r: bool)
    ensures
        r == is_ws(b),
{
    b == ' ' as u8 || b == '\t' as u8 || b == '\r' as u8 || b == '\n' as u8
}

/// Walks past whitespace, starting at `i`.
fn skip_ws_exec(s: &[u8], i: usize) -> (r: usize)
    requires
        i <= s@.len(),
    ensures
        r == skip_ws(s@, i as int),
        i <= r <= s@.len(),
{
    let mut j: usize = i;
    while j < s.len() && is_ws_byte(s[j])
        invariant
            i <= j <= s@.len(),
            skip_ws(s@, i as int) == skip_ws(s@, j as int),
        decreases s@.len() - j,
    {
        j += 1;
    }
    j
}

/// Walks past one token, starting at `i`.
fn skip_token_exec(s: &[u8], i: usize) -> (r: usize)
    requires
        i <= s@.len(),
    ensures
        r == skip_token(s@, i as int),
        i <= r <= s@.len(),
{
    let mut j: usize = i;
    while j < s.len() && !is_ws_byte(s[j])
        invariant
            i <= j <= s@.len(),
            skip_token(s@, i as int) == skip_token(s@, j as int),
        decreases s@.len() - j,
    {
        j += 1;
    }
    j
}

/// True when draining header lines is over: the peer closed (a zero-byte
/// read) or sent the blank line that ends the header block.
pub fn header_drain_done(bytes_read: usize, line: &[u8]) -> (r: bool)
    ensures
        r == (bytes_read == 0 || line@ == ascii_view("\r\n"@)),
{
    proof {
        reveal_strlit("\r\n");
    }
    bytes_read == 0 || bytes_eq(line, ascii_bytes("\r\n"))
}

/// Splits a request line into its method, path and version tokens.
///
/// Returns `None` when the line holds fewer than three tokens.
pub fn parse_request_line(line: &[u8]) -> (r: Option<Request>)
    ensures
        match r {
            Some(req) => parse_request_line_spec(line@) == Some(req@),
            None => parse_request_line_spec(line@) is None,
        },
{
    let m_start = skip_ws_exec(line, 0);
    let m_end = skip_token_exec(line, m_start);
    let p_start = skip_ws_exec(line, m_end);
    let p_end = skip_token_exec(line, p_start);
    let v_start = skip_ws_exec(line, p_end);
    let v_end = skip_token_exec(line, v_start);
    if m_start < m_end && p_start < p_end && v_start < v_end {
        Some(
            Request {
                method: sub_bytes(line, m_start, m_end),
                path: sub_bytes(line, p_start, p_end),
                version: sub_bytes(line, v_start, v_end),
            },
        )
    } else {
        None
    }
}

} // verus!
