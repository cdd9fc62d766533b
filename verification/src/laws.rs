//! The guarantees the pipeline gives as a whole, stated once and proved.
//!
//! Each law here quantifies over all inputs; the concrete scenarios live in
//! the crate's tests.

use vstd::prelude::*;

verus! {

use crate::bytes::all_digits;
use crate::bytes::ascii_view;
use crate::bytes::dec_rep;
use crate::bytes::dec_val;
use crate::bytes::ends_with;
use crate::bytes::lemma_dec_rep_val;
use crate::content_type::content_type_of;
use crate::handler::get_response_spec;
use crate::handler::lookup;
use crate::handler::not_found_model;
use crate::handler::plan_spec;
use crate::handler::response_of;
use crate::handler::PlanModel;
use crate::request::parse_request_line_spec;
use crate::request::RequestModel;
use crate::resolve::contains_dotdot;
use crate::resolve::fallback_rel;
use crate::resolve::is_fallback_spec;
use crate::resolve::lemma_strip_slashes_at;
use crate::resolve::resolve_spec;
use crate::resolve::sanitize_spec;
use crate::resolve::strip_slashes;
use crate::response::header_bytes;
use crate::response::wire_of;
use crate::response::ResponseModel;

/// A pair of dots in the tail of `s` is a pair of dots in `s`.
proof fn lemma_dotdot_drop_first(s: Seq<u8>)
    requires
        s.len() > 0,
        contains_dotdot(s.drop_first()),
    ensures
        contains_dotdot(s),
{
    let t = s.drop_first();
    let i = choose|i: int|
        0 <= i && i + 1 < t.len() && #[trigger] t[i] == '.' as u8 && t[i + 1] == '.' as u8;
    assert(s[i + 1] == '.' as u8 && s[i + 2] == '.' as u8);
}

/// Removing leading separators cannot remove a pair of dots.
proof fn lemma_strip_keeps_dotdot(s: Seq<u8>)
    requires
        contains_dotdot(s),
    ensures
        contains_dotdot(strip_slashes(s)),
    decreases s.len(),
{
    if s.len() > 0 && s[0] == '/' as u8 {
        let i = choose|i: int|
            0 <= i && i + 1 < s.len() && #[trigger] s[i] == '.' as u8 && s[i + 1] == '.' as u8;
        let t = s.drop_first();
        assert(t[i - 1] == '.' as u8 && t[i] == '.' as u8);
        lemma_strip_keeps_dotdot(t);
    }
}

/// Removing leading separators cannot create a pair of dots.
proof fn lemma_strip_makes_no_dotdot(s: Seq<u8>)
    requires
        contains_dotdot(strip_slashes(s)),
    ensures
        contains_dotdot(s),
    decreases s.len(),
{
    if s.len() > 0 && s[0] == '/' as u8 {
        lemma_strip_makes_no_dotdot(s.drop_first());
        lemma_dotdot_drop_first(s);
    }
}

/// What is left after stripping never starts with a separator.
proof fn lemma_strip_no_leading_slash(s: Seq<u8>)
    ensures
        strip_slashes(s).len() > 0 ==> strip_slashes(s)[0] != '/' as u8,
    decreases s.len(),
{
    if s.len() > 0 && s[0] == '/' as u8 {
        lemma_strip_no_leading_slash(s.drop_first());
    }
}

/// The index document's relative path is clean: no dots pair, no leading
/// separator.
proof fn lemma_index_rel_clean()
    ensures
        !contains_dotdot(ascii_view("index.html"@)),
        ascii_view("index.html"@).len() == 10,
        ascii_view("index.html"@)[0] == 'i' as u8,
{
    reveal_strlit("index.html");
    let v = ascii_view("index.html"@);
    assert(v =~= seq![105u8, 110u8, 100u8, 101u8, 120u8, 46u8, 104u8, 116u8, 109u8, 108u8]);
    assert forall|i: int| 0 <= i && i + 1 < v.len() implies !(#[trigger] v[i] == '.' as u8
        && v[i + 1] == '.' as u8) by {
        if v[i] == '.' as u8 {
            assert(i == 5);
            assert(v[6] != '.' as u8);
        }
    }
}

/// The fallback document's relative path is clean as well.
proof fn lemma_fallback_rel_clean()
    ensures
        !contains_dotdot(fallback_rel()),
        fallback_rel().len() == 8,
        fallback_rel()[0] == '4' as u8,
{
    reveal_strlit("404.html");
    let v = fallback_rel();
    assert(v =~= seq![52u8, 48u8, 52u8, 46u8, 104u8, 116u8, 109u8, 108u8]);
    assert forall|i: int| 0 <= i && i + 1 < v.len() implies !(#[trigger] v[i] == '.' as u8
        && v[i + 1] == '.' as u8) by {
        if v[i] == '.' as u8 {
            assert(i == 3);
            assert(v[4] != '.' as u8);
        }
    }
}

/// Law: a requested path without a parent-directory pair resolves to a
/// filesystem path confined under the content root: the root itself,
/// followed by a remainder with no parent-directory pair and no leading
/// separator.
pub proof fn law_resolve_confined(root: Seq<u8>, path: Seq<u8>)
    requires
        !contains_dotdot(path),
    ensures
        ({
            let t = resolve_spec(root, path);
            let rest = sanitize_spec(path);
            &&& !t.is_fallback
            &&& t.filesystem_path == root + rest
            &&& t.filesystem_path.subrange(0, root.len() as int) == root
            &&& !contains_dotdot(rest)
            &&& rest.len() > 0 ==> rest[0] != '/' as u8
        }),
{
    let rest = sanitize_spec(path);
    if path == seq!['/' as u8] {
        lemma_index_rel_clean();
    } else {
        if contains_dotdot(rest) {
            lemma_strip_makes_no_dotdot(path);
        }
        lemma_strip_no_leading_slash(path);
    }
    let t = resolve_spec(root, path);
    assert(t.filesystem_path.subrange(0, root.len() as int) =~= root);
}

/// Law: a requested path that holds a parent-directory pair anywhere is
/// always diverted to the fallback document, whatever the content root
/// holds; the response is the 404 fallback, never a file outside the root.
pub proof fn law_traversal_fallback(
    fs: Map<Seq<u8>, Seq<u8>>,
    root: Seq<u8>,
    path: Seq<u8>,
)
    requires
        contains_dotdot(path),
    ensures
        is_fallback_spec(path),
        resolve_spec(root, path).filesystem_path == root + fallback_rel(),
        get_response_spec(fs, root, path) == not_found_model(
            root,
            lookup(fs, root + fallback_rel()),
        ),
{
    let i = choose|i: int|
        0 <= i && i + 1 < path.len() && #[trigger] path[i] == '.' as u8 && path[i + 1]
            == '.' as u8;
    assert(path.len() >= 2);
    assert(path != seq!['/' as u8]);
    lemma_strip_keeps_dotdot(path);
}

/// Law: on the wire, the header block is followed by exactly the body, and
/// the digits of the `Content-Length` header denote exactly the body's byte
/// length.
pub proof fn law_content_length_exact(m: ResponseModel)
    ensures
        wire_of(m).len() == header_bytes(m.status_code, m.reason_phrase, m.content_type, m.body.len()).len() + m.body.len(),
        wire_of(m).subrange(
            wire_of(m).len() - m.body.len(),
            wire_of(m).len() as int,
        ) == m.body,
        all_digits(dec_rep(m.body.len())),
        dec_val(dec_rep(m.body.len())) == m.body.len(),
{
    lemma_dec_rep_val(m.body.len());
    assert(wire_of(m).subrange(wire_of(m).len() - m.body.len(), wire_of(m).len() as int)
        =~= m.body);
}

/// Law: a request for `/` is served exactly as a request for `/index.html`,
/// whatever the content root holds.
pub proof fn law_index_document(fs: Map<Seq<u8>, Seq<u8>>, root: Seq<u8>)
    ensures
        sanitize_spec(ascii_view("/"@)) == sanitize_spec(ascii_view("/index.html"@)),
        resolve_spec(root, ascii_view("/"@)) == resolve_spec(root, ascii_view("/index.html"@)),
        get_response_spec(fs, root, ascii_view("/"@)) == get_response_spec(
            fs,
            root,
            ascii_view("/index.html"@),
        ),
{
    reveal_strlit("/");
    reveal_strlit("/index.html");
    reveal_strlit("index.html");
    let pa = ascii_view("/"@);
    let pb = ascii_view("/index.html"@);
    assert(pa =~= seq!['/' as u8]);
    assert(pb.len() == 11 && pb[0] == '/' as u8 && pb[1] == 'i' as u8);
    assert(pb != seq!['/' as u8]);
    lemma_strip_slashes_at(pb, 1);
    assert(pb.subrange(1, 11) =~= ascii_view("index.html"@));
    assert(sanitize_spec(pa) == sanitize_spec(pb));
}

/// Law: the two whole request lines `GET / HTTP/1.1` and
/// `GET /index.html HTTP/1.1` are owed identical wire bytes, whatever the
/// content root holds.
pub proof fn law_index_document_request_lines(fs: Map<Seq<u8>, Seq<u8>>, root: Seq<u8>)
    ensures
        response_of(fs, root, ascii_view("GET / HTTP/1.1\r\n"@)) == response_of(
            fs,
            root,
            ascii_view("GET /index.html HTTP/1.1\r\n"@),
        ),
{
    reveal_strlit("GET / HTTP/1.1\r\n");
    reveal_strlit("GET /index.html HTTP/1.1\r\n");
    reveal_strlit("GET");
    reveal_strlit("/");
    reveal_strlit("/index.html");
    let la = ascii_view("GET / HTTP/1.1\r\n"@);
    let lb = ascii_view("GET /index.html HTTP/1.1\r\n"@);
    let ca = seq![
        71u8, 69u8, 84u8, 32u8, 47u8, 32u8, 72u8, 84u8, 84u8, 80u8, 47u8, 49u8, 46u8, 49u8,
        13u8, 10u8,
    ];
    let cb = seq![
        71u8, 69u8, 84u8, 32u8, 47u8, 105u8, 110u8, 100u8, 101u8, 120u8, 46u8, 104u8, 116u8,
        109u8, 108u8, 32u8, 72u8, 84u8, 84u8, 80u8, 47u8, 49u8, 46u8, 49u8, 13u8, 10u8,
    ];
    assert(la =~= ca);
    assert(lb =~= cb);
    reveal_with_fuel(crate::request::skip_ws, 3);
    reveal_with_fuel(crate::request::skip_token, 13);
    assert(parse_request_line_spec(ca) == Some(
        RequestModel {
            method: ca.subrange(0, 3),
            path: ca.subrange(4, 5),
            version: ca.subrange(6, 14),
        },
    ));
    assert(parse_request_line_spec(cb) == Some(
        RequestModel {
            method: cb.subrange(0, 3),
            path: cb.subrange(4, 15),
            version: cb.subrange(16, 24),
        },
    ));
    assert(ca.subrange(0, 3) =~= ascii_view("GET"@));
    assert(cb.subrange(0, 3) =~= ascii_view("GET"@));
    assert(ca.subrange(4, 5) =~= ascii_view("/"@));
    assert(cb.subrange(4, 15) =~= ascii_view("/index.html"@));
    law_index_document(fs, root);
}

/// The fallback document is typed by its own extension.
pub proof fn lemma_fallback_content_type(root: Seq<u8>)
    ensures
        content_type_of(root + fallback_rel()) == "text/html; charset=UTF-8"@,
{
    reveal_strlit("404.html");
    reveal_strlit(".html");
    let p = root + fallback_rel();
    assert(fallback_rel() =~= seq![52u8, 48u8, 52u8, 46u8, 104u8, 116u8, 109u8, 108u8]);
    assert(ascii_view(".html"@) =~= seq![46u8, 104u8, 116u8, 109u8, 108u8]);
    assert(p.subrange(p.len() - 5, p.len() as int) =~= ascii_view(".html"@));
    assert(ends_with(p, ascii_view(".html"@)));
}

/// Law: a GET whose resolved target the content root does not hold is
/// answered with the fallback document, a 404 status, and the content type
/// of the fallback's own extension.
pub proof fn law_missing_file_fallback(
    fs: Map<Seq<u8>, Seq<u8>>,
    root: Seq<u8>,
    path: Seq<u8>,
)
    requires
        !fs.contains_key(resolve_spec(root, path).filesystem_path),
    ensures
        ({
            let m = get_response_spec(fs, root, path);
            &&& m.status_code == 404
            &&& m.reason_phrase == "Not Found"@
            &&& m.content_type == "text/html; charset=UTF-8"@
            &&& m.body == match lookup(fs, root + fallback_rel()) {
                Some(b) => b,
                None => ascii_view("404 Not Found"@),
            }
        }),
{
    lemma_fallback_content_type(root);
}

/// Law: a connection that closes before sending any byte is owed no
/// response at all, and its handling succeeds silently.
pub proof fn law_silent_close(fs: Map<Seq<u8>, Seq<u8>>, root: Seq<u8>)
    ensures
        plan_spec(root, Seq::<u8>::empty()) == PlanModel::NoResponse,
        response_of(fs, root, Seq::<u8>::empty()) is None,
{
}

} // verus!
