//! Framing a complete response.
//!
//! A response on the wire is a status line, a `Content-Length` header whose
//! digits denote exactly the body's byte length, a `Content-Type` header, a
//! close-after-response connection policy, a blank line ending the header
//! block, and then the raw body bytes with nothing after them.

use vstd::prelude::*;

verus! {

use vstd::utf8::is_ascii_chars;

use crate::bytes::ascii_view;
use crate::bytes::dec_rep;
use crate::bytes::push_ascii;
use crate::bytes::push_dec;

/// A response about to be written: status, reason phrase, content type and
/// body.
pub struct Response {
    pub status_code: u16,
    pub reason_phrase: &'static str,
    pub content_type: &'static str,
    pub body: Vec<u8>,
}

/// The mathematical content of a `Response`.
pub ghost struct ResponseModel {
    pub status_code: u16,
    pub reason_phrase: Seq<char>,
    pub content_type: Seq<char>,
    pub body: Seq<u8>,
}

impl View for Response {
    type V = ResponseModel;

    open spec fn view(&self) -> ResponseModel {
        ResponseModel {
            status_code: self.status_code,
            reason_phrase: self.reason_phrase@,
            content_type: self.content_type@,
            body: self.body@,
        }
    }
}

impl ResponseModel {
    /// The header text can be put on the wire byte for byte.
    pub open spec fn wf(self) -> bool {
        is_ascii_chars(self.reason_phrase) && is_ascii_chars(self.content_type)
    }
}

/// The status line: protocol, code, reason phrase.
pub open spec fn status_line(code: u16, reason: Seq<char>) -> Seq<u8> {
    ascii_view("HTTP/1.1 "@) + dec_rep(code as nat) + ascii_view(" "@) + ascii_view(reason)
        + ascii_view("\r\n"@)
}

/// The `Content-Length` header line for a body of `n` bytes.
pub open spec fn content_length_line(n: nat) -> Seq<u8> {
    ascii_view("Content-Length: "@) + dec_rep(n) + ascii_view("\r\n"@)
}

/// The `Content-Type` header line.
pub open spec fn content_type_line(ct: Seq<char>) -> Seq<u8> {
    ascii_view("Content-Type: "@) + ascii_view(ct) + ascii_view("\r\n"@)
}

/// The whole header block, ending with the blank line before the body.
pub open spec fn header_bytes(code: u16, reason: Seq<char>, ct: Seq<char>, body_len: nat) -> Seq<
    u8,
> {
    status_line(code, reason) + content_length_line(body_len) + content_type_line(ct)
        + ascii_view("Connection: close\r\n"@) + ascii_view("\r\n"@)
}

/// Everything a response puts on the wire: the header block, then the body.
pub open spec fn wire_of(m: ResponseModel) -> Seq<u8> {
    header_bytes(m.status_code, m.reason_phrase, m.content_type, m.body.len()) + m.body
}

impl Response {
    /// Lays the response out as wire bytes: the full header block first,
    /// then the body, with no trailing data.
    pub fn encode(&self) -> (r: Vec<u8>)
        requires
            self@.wf(),
        ensures
            r@ == wire_of(self@),
    {
        proof {
            reveal_strlit("HTTP/1.1 ");
            reveal_strlit(" ");
            reveal_strlit("\r\n");
            reveal_strlit("Content-Length: ");
            reveal_strlit("Content-Type: ");
            reveal_strlit("Connection: close\r\n");
        }
        let mut out: Vec<u8> = Vec::new();
        push_ascii(&mut out, "HTTP/1.1 ");
        push_dec(&mut out, self.status_code as usize);
        push_ascii(&mut out, " ");
        push_ascii(&mut out, self.reason_phrase);
        push_ascii(&mut out, "\r\n");
        push_ascii(&mut out, "Content-Length: ");
        push_dec(&mut out, self.body.len());
        push_ascii(&mut out, "\r\n");
        push_ascii(&mut out, "Content-Type: ");
        push_ascii(&mut out, self.content_type);
        push_ascii(&mut out, "\r\n");
        push_ascii(&mut out, "Connection: close\r\n");
        push_ascii(&mut out, "\r\n");
        out.extend_from_slice(self.body.as_slice());
        proof {
            assert(out@ =~= wire_of(self@));
        }
        out
    }
}

} // verus!
