//! The per-connection decision pipeline.
//!
//! One connection is handled in two steps, with all I/O left to the caller:
//! `plan_response` turns the request line (or its absence) into what is owed
//! to the peer, and `finish_fetch` turns the outcome of the filesystem read
//! into the final response. Every failure becomes a response or a silent
//! close; nothing here can abort a connection, let alone the acceptor.

use vstd::prelude::*;

verus! {

use crate::bytes::ascii_bytes;
use crate::bytes::ascii_view;
use crate::bytes::bytes_eq;
use crate::bytes::push_ascii;
use crate::content_type::content_type_of;
use crate::content_type::get_content_type;
use crate::request::parse_request_line;
use crate::request::parse_request_line_spec;
use crate::resolve::fallback_path;
use crate::resolve::fallback_rel;
use crate::resolve::resolve_path;
use crate::resolve::resolve_spec;
use crate::resolve::ResolvedTarget;
use crate::resolve::TargetModel;
use crate::response::wire_of;
use crate::response::Response;
use crate::response::ResponseModel;

/// What the handler owes the peer after reading one request line.
pub enum Plan {
    /// The peer closed before sending anything: no response at all.
    NoResponse,
    /// The answer needs no filesystem access (malformed line, non-GET).
    Immediate(Response),
    /// A GET: serve the resolved target.
    Fetch(ResolvedTarget),
}

/// The mathematical content of a `Plan`.
pub ghost enum PlanModel {
    NoResponse,
    Immediate(ResponseModel),
    Fetch(TargetModel),
}

impl View for Plan {
    type V = PlanModel;

    open spec fn view(&self) -> PlanModel {
        match self {
            Plan::NoResponse => PlanModel::NoResponse,
            Plan::Immediate(r) => PlanModel::Immediate(r@),
            Plan::Fetch(t) => PlanModel::Fetch(t@),
        }
    }
}

/// The answer to a request line with fewer than three tokens.
pub open spec fn bad_request_model() -> ResponseModel {
    ResponseModel {
        status_code: 400,
        reason_phrase: "Bad Request"@,
        content_type: "text/html"@,
        body: ascii_view("Bad Request"@),
    }
}

/// The answer to a method other than GET.
pub open spec fn method_not_allowed_model() -> ResponseModel {
    ResponseModel {
        status_code: 405,
        reason_phrase: "Method Not Allowed"@,
        content_type: "text/html"@,
        body: ascii_view("Only GET is supported"@),
    }
}

/// What one request line, read under `root`, obliges the server to do.
pub open spec fn plan_spec(root: Seq<u8>, line: Seq<u8>) -> PlanModel {
    if line.len() == 0 {
        PlanModel::NoResponse
    } else {
        match parse_request_line_spec(line) {
            None => PlanModel::Immediate(bad_request_model()),
            Some(req) => if req.method != ascii_view("GET"@) {
                PlanModel::Immediate(method_not_allowed_model())
            } else {
                PlanModel::Fetch(resolve_spec(root, req.path))
            },
        }
    }
}

/// The 400 response.
fn bad_request() -> (r: Response)
    ensures
        r@ == bad_request_model(),
        r@.wf(),
{
    proof {
        reveal_strlit("Bad Request");
        reveal_strlit("text/html");
    }
    let mut body: Vec<u8> = Vec::new();
    push_ascii(&mut body, "Bad Request");
    proof {
        assert(body@ =~= ascii_view("Bad Request"@));
    }
    Response {
        status_code: 400,
        reason_phrase: "Bad Request",
        content_type: "text/html",
        body,
    }
}

/// The 405 response.
fn method_not_allowed() -> (r: Response)
    ensures
        r@ == method_not_allowed_model(),
        r@.wf(),
{
    proof {
        reveal_strlit("Method Not Allowed");
        reveal_strlit("Only GET is supported");
        reveal_strlit("text/html");
    }
    let mut body: Vec<u8> = Vec::new();
    push_ascii(&mut body, "Only GET is supported");
    proof {
        assert(body@ =~= ascii_view("Only GET is supported"@));
    }
    Response {
        status_code: 405,
        reason_phrase: "Method Not Allowed",
        content_type: "text/html",
        body,
    }
}

/// Decides, from the one request line a connection sends, what the server
/// owes the peer.
///
/// An empty line means the peer closed before sending a request: no
/// response. A line with fewer than three tokens is malformed and gets the
/// 400 response. A method other than GET gets the 405 response. A GET is
/// resolved under `root` and must be served.
pub fn plan_response(root: &[u8], line: &[u8]) -> (p: Plan)
    ensures
        p@ == plan_spec(root@, line@),
        p@ matches PlanModel::Immediate(m) ==> m.wf(),
{
    if line.len() == 0 {
        return Plan::NoResponse;
    }
    match parse_request_line(line) {
        None => Plan::Immediate(bad_request()),
        Some(req) => {
            proof {
                reveal_strlit("GET");
            }
            if !bytes_eq(req.method.as_slice(), ascii_bytes("GET")) {
                Plan::Immediate(method_not_allowed())
            } else {
                Plan::Fetch(resolve_path(root, req.path.as_slice()))
            }
        },
    }
}

/// The 200 answer: the target's own content, typed by its extension.
pub open spec fn ok_model(fs_path: Seq<u8>, content: Seq<u8>) -> ResponseModel {
    ResponseModel {
        status_code: 200,
        reason_phrase: "OK"@,
        content_type: content_type_of(fs_path),
        body: content,
    }
}

/// The 404 answer: the fallback document (or a built-in note when even that
/// is missing), typed by the fallback's own extension.
pub open spec fn not_found_model(root: Seq<u8>, fallback: Option<Seq<u8>>) -> ResponseModel {
    ResponseModel {
        status_code: 404,
        reason_phrase: "Not Found"@,
        content_type: content_type_of(root + fallback_rel()),
        body: match fallback {
            Some(b) => b,
            None => ascii_view("404 Not Found"@),
        },
    }
}

/// The response owed once the filesystem has answered: the target's content
/// when the target was real and readable, the fallback document otherwise.
pub open spec fn finish_spec(
    root: Seq<u8>,
    t: TargetModel,
    content: Option<Seq<u8>>,
    fallback: Option<Seq<u8>>,
) -> ResponseModel {
    if !t.is_fallback && content is Some {
        ok_model(t.filesystem_path, content.unwrap())
    } else {
        not_found_model(root, fallback)
    }
}

/// Builds the final response from the read outcomes the caller obtained:
/// `content` for the resolved target, `fallback` for the fallback document.
pub fn finish_fetch(
    root: &[u8],
    target: &ResolvedTarget,
    content: Option<Vec<u8>>,
    fallback: Option<Vec<u8>>,
) -> (r: Response)
    ensures
        r@ == finish_spec(root@, target@, content.deep_view(), fallback.deep_view()),
        r@.wf(),
{
    proof {
        reveal_strlit("OK");
        reveal_strlit("Not Found");
        reveal_strlit("404 Not Found");
    }
    let ghost content_model = content.deep_view();
    if !target.is_fallback && content.is_some() {
        let c = content.unwrap();
        proof {
            assert(content_model == Some(c.deep_view()));
            assert(c.deep_view() =~= c@);
        }
        let ct = get_content_type(target.filesystem_path.as_slice());
        Response { status_code: 200, reason_phrase: "OK", content_type: ct, body: c }
    } else {
        let fp = fallback_path(root);
        let ct = get_content_type(fp.as_slice());
        let body: Vec<u8> = match fallback {
            Some(b) => {
                proof {
                    assert(b.deep_view() =~= b@);
                }
                b
            },
            None => {
                let mut v: Vec<u8> = Vec::new();
                push_ascii(&mut v, "404 Not Found");
                proof {
                    assert(v@ =~= ascii_view("404 Not Found"@));
                }
                v
            },
        };
        Response { status_code: 404, reason_phrase: "Not Found", content_type: ct, body }
    }
}

/// The content root as a mathematical store: what `read` would return for
/// each path that exists.
pub open spec fn lookup(fs: Map<Seq<u8>, Seq<u8>>, path: Seq<u8>) -> Option<Seq<u8>> {
    if fs.contains_key(path) {
        Some(fs[path])
    } else {
        None
    }
}

/// The response a GET of `path` is owed when the content root holds `fs`.
pub open spec fn get_response_spec(
    fs: Map<Seq<u8>, Seq<u8>>,
    root: Seq<u8>,
    path: Seq<u8>,
) -> ResponseModel {
    let t = resolve_spec(root, path);
    finish_spec(root, t, lookup(fs, t.filesystem_path), lookup(fs, root + fallback_rel()))
}

/// Everything one connection is owed on the wire, from its request line and
/// the content root: nothing for a silent close, one complete response
/// otherwise.
pub open spec fn response_of(
    fs: Map<Seq<u8>, Seq<u8>>,
    root: Seq<u8>,
    line: Seq<u8>,
) -> Option<Seq<u8>> {
    match plan_spec(root, line) {
        PlanModel::NoResponse => None,
        PlanModel::Immediate(m) => Some(wire_of(m)),
        PlanModel::Fetch(t) => Some(
            wire_of(
                finish_spec(root, t, lookup(fs, t.filesystem_path), lookup(fs, root + fallback_rel())),
            ),
        ),
    }
}

} // verus!
