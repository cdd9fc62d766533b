use static_server::content_type::get_content_type;
use static_server::handler::{finish_fetch, plan_response, Plan};
use static_server::request::parse_request_line;
use static_server::resolve::{fallback_path, resolve_path};
use static_server::response::Response;

const ROOT: &[u8] = b"out/";

#[test]
fn parse_well_formed_line() {
    let req = parse_request_line(b"GET /style.css HTTP/1.1\r\n").unwrap();
    assert_eq!(req.method, b"GET");
    assert_eq!(req.path, b"/style.css");
    assert_eq!(req.version, b"HTTP/1.1");
}

#[test]
fn parse_tolerates_extra_whitespace() {
    let req = parse_request_line(b"  GET \t /a.html   HTTP/1.0  trailing\r\n").unwrap();
    assert_eq!(req.method, b"GET");
    assert_eq!(req.path, b"/a.html");
    assert_eq!(req.version, b"HTTP/1.0");
}

#[test]
fn parse_rejects_short_lines() {
    assert!(parse_request_line(b"").is_none());
    assert!(parse_request_line(b"\r\n").is_none());
    assert!(parse_request_line(b"GET\r\n").is_none());
    assert!(parse_request_line(b"GET /\r\n").is_none());
}

#[test]
fn content_types_by_extension() {
    assert_eq!(get_content_type(b"out/a.html"), "text/html; charset=UTF-8");
    assert_eq!(get_content_type(b"out/a.css"), "text/css");
    assert_eq!(get_content_type(b"out/a.js"), "application/javascript");
    assert_eq!(get_content_type(b"out/a.json"), "application/json");
    assert_eq!(get_content_type(b"out/a.png"), "image/png");
    assert_eq!(get_content_type(b"out/a.jpg"), "image/jpeg");
    assert_eq!(get_content_type(b"out/a.jpeg"), "image/jpeg");
    assert_eq!(get_content_type(b"out/a.gif"), "image/gif");
    assert_eq!(get_content_type(b"out/a.svg"), "image/svg+xml");
    assert_eq!(get_content_type(b"out/a.ico"), "image/x-icon");
    assert_eq!(get_content_type(b"out/a.woff2"), "font/woff2");
    assert_eq!(get_content_type(b"out/a.woff"), "font/woff");
    assert_eq!(get_content_type(b"out/a.ttf"), "font/ttf");
    assert_eq!(get_content_type(b"out/a.otf"), "font/otf");
}

#[test]
fn content_type_default_is_binary() {
    assert_eq!(get_content_type(b"out/archive.tar"), "application/octet-stream");
    assert_eq!(get_content_type(b"out/no_extension"), "application/octet-stream");
    assert_eq!(get_content_type(b""), "application/octet-stream");
}

#[test]
fn resolve_root_is_index_document() {
    let t = resolve_path(ROOT, b"/");
    assert!(!t.is_fallback);
    assert_eq!(t.filesystem_path, b"out/index.html");
}

#[test]
fn resolve_plain_file() {
    let t = resolve_path(ROOT, b"/style.css");
    assert!(!t.is_fallback);
    assert_eq!(t.filesystem_path, b"out/style.css");
}

#[test]
fn resolve_strips_leading_separators() {
    let t = resolve_path(ROOT, b"//nested/dir/page.html");
    assert!(!t.is_fallback);
    assert_eq!(t.filesystem_path, b"out/nested/dir/page.html");
}

#[test]
fn resolve_rejects_parent_traversal() {
    let t = resolve_path(ROOT, b"/../../etc/passwd");
    assert!(t.is_fallback);
    assert_eq!(t.filesystem_path, b"out/404.html");
}

#[test]
fn resolve_rejects_embedded_traversal() {
    let t = resolve_path(ROOT, b"/a/../secret.txt");
    assert!(t.is_fallback);
    assert_eq!(t.filesystem_path, b"out/404.html");
}

#[test]
fn fallback_path_under_root() {
    assert_eq!(fallback_path(ROOT), b"out/404.html");
}

#[test]
fn encode_frames_status_headers_blank_line_body() {
    let body = b"p { color: red; }".to_vec();
    let len = body.len();
    let r = Response {
        status_code: 200,
        reason_phrase: "OK",
        content_type: "text/css",
        body,
    };
    let wire = r.encode();
    let expected_header = format!(
        "HTTP/1.1 200 OK\r\nContent-Length: {}\r\nContent-Type: text/css\r\nConnection: close\r\n\r\n",
        len
    );
    let mut expected = expected_header.into_bytes();
    expected.extend_from_slice(b"p { color: red; }");
    assert_eq!(wire, expected);
}

#[test]
fn content_length_equals_body_length() {
    let bodies: Vec<Vec<u8>> = vec![
        Vec::new(),
        b"x".to_vec(),
        vec![0u8; 1234],
        b"0123456789".repeat(11),
    ];
    for body in bodies {
        let len = body.len();
        let r = Response {
            status_code: 200,
            reason_phrase: "OK",
            content_type: "application/octet-stream",
            body,
        };
        let wire = r.encode();
        // The body is exactly the bytes after the blank line.
        let marker = b"\r\n\r\n";
        let split = wire
            .windows(marker.len())
            .position(|w| w == marker)
            .unwrap()
            + marker.len();
        assert_eq!(wire.len() - split, len);
        // The Content-Length digits denote that same length.
        let text = String::from_utf8(wire[..split].to_vec()).unwrap();
        let field = text
            .split("\r\n")
            .find(|l| l.starts_with("Content-Length: "))
            .unwrap();
        let parsed: usize = field["Content-Length: ".len()..].parse().unwrap();
        assert_eq!(parsed, len);
    }
}

#[test]
fn plan_empty_line_is_silent_close() {
    match plan_response(ROOT, b"") {
        Plan::NoResponse => {}
        _ => panic!("an empty read must produce no response"),
    }
}

#[test]
fn plan_malformed_line_is_bad_request() {
    match plan_response(ROOT, b"NONSENSE\r\n") {
        Plan::Immediate(r) => {
            assert_eq!(r.status_code, 400);
            assert_eq!(r.reason_phrase, "Bad Request");
            assert_eq!(r.content_type, "text/html");
            assert_eq!(r.body, b"Bad Request");
        }
        _ => panic!("a malformed line must get an immediate response"),
    }
}

#[test]
fn plan_non_get_is_method_not_allowed() {
    match plan_response(ROOT, b"POST /form HTTP/1.1\r\n") {
        Plan::Immediate(r) => {
            assert_eq!(r.status_code, 405);
            assert_eq!(r.reason_phrase, "Method Not Allowed");
            assert_eq!(r.body, b"Only GET is supported");
        }
        _ => panic!("a non-GET must get an immediate response"),
    }
}

#[test]
fn plan_get_fetches_resolved_target() {
    match plan_response(ROOT, b"GET /style.css HTTP/1.1\r\n") {
        Plan::Fetch(t) => {
            assert!(!t.is_fallback);
            assert_eq!(t.filesystem_path, b"out/style.css");
        }
        _ => panic!("a GET must fetch"),
    }
}

#[test]
fn served_css_scenario() {
    // GET /style.css where the file exists with known bytes.
    let file = b"body { margin: 0; }".to_vec();
    let plan = plan_response(ROOT, b"GET /style.css HTTP/1.1\r\n");
    let target = match plan {
        Plan::Fetch(t) => t,
        _ => panic!("a GET must fetch"),
    };
    let resp = finish_fetch(ROOT, &target, Some(file.clone()), Some(b"gone".to_vec()));
    assert_eq!(resp.status_code, 200);
    assert_eq!(resp.reason_phrase, "OK");
    assert_eq!(resp.content_type, "text/css");
    assert_eq!(resp.body, file);
    let wire = resp.encode();
    let mut expected = format!(
        "HTTP/1.1 200 OK\r\nContent-Length: {}\r\nContent-Type: text/css\r\nConnection: close\r\n\r\n",
        file.len()
    )
    .into_bytes();
    expected.extend_from_slice(&file);
    assert_eq!(wire, expected);
}

#[test]
fn traversal_scenario_gets_fallback() {
    // GET /../../etc/passwd must never leave the root: it is answered with
    // the fallback document and a 404 status.
    let plan = plan_response(ROOT, b"GET /../../etc/passwd HTTP/1.1\r\n");
    let target = match plan {
        Plan::Fetch(t) => t,
        _ => panic!("a GET must fetch"),
    };
    assert!(target.is_fallback);
    assert_eq!(target.filesystem_path, b"out/404.html");
    let fallback = b"<h1>not found</h1>".to_vec();
    let resp = finish_fetch(ROOT, &target, None, Some(fallback.clone()));
    assert_eq!(resp.status_code, 404);
    assert_eq!(resp.reason_phrase, "Not Found");
    assert_eq!(resp.content_type, "text/html; charset=UTF-8");
    assert_eq!(resp.body, fallback);
}

#[test]
fn missing_file_gets_fallback_with_classifier_type() {
    let plan = plan_response(ROOT, b"GET /absent.css HTTP/1.1\r\n");
    let target = match plan {
        Plan::Fetch(t) => t,
        _ => panic!("a GET must fetch"),
    };
    assert!(!target.is_fallback);
    let fallback = b"<h1>not found</h1>".to_vec();
    let resp = finish_fetch(ROOT, &target, None, Some(fallback.clone()));
    assert_eq!(resp.status_code, 404);
    // The fallback document is typed by its own extension, not the request's.
    assert_eq!(resp.content_type, "text/html; charset=UTF-8");
    assert_eq!(resp.body, fallback);
}

#[test]
fn missing_fallback_document_gets_builtin_body() {
    let plan = plan_response(ROOT, b"GET /absent.bin HTTP/1.1\r\n");
    let target = match plan {
        Plan::Fetch(t) => t,
        _ => panic!("a GET must fetch"),
    };
    let resp = finish_fetch(ROOT, &target, None, None);
    assert_eq!(resp.status_code, 404);
    assert_eq!(resp.body, b"404 Not Found");
}

#[test]
fn root_served_as_index_document() {
    // Requesting / and requesting /index.html resolve to the same target and
    // therefore to the same response.
    let index = b"<html><body>hi</body></html>".to_vec();
    let respond = |line: &[u8]| -> Vec<u8> {
        match plan_response(ROOT, line) {
            Plan::Fetch(t) => {
                assert_eq!(t.filesystem_path, b"out/index.html");
                finish_fetch(ROOT, &t, Some(index.clone()), None).encode()
            }
            _ => panic!("a GET must fetch"),
        }
    };
    let a = respond(b"GET / HTTP/1.1\r\n");
    let b = respond(b"GET /index.html HTTP/1.1\r\n");
    assert_eq!(a, b);
}

#[test]
fn independent_requests_keep_their_own_content() {
    // Two requests handled back to back share no state: each response body
    // is exactly the file handed to it.
    let css = b"a { color: blue; }".to_vec();
    let html = b"<p>hello</p>".to_vec();
    let serve = |line: &[u8], file: Vec<u8>| -> Vec<u8> {
        match plan_response(ROOT, line) {
            Plan::Fetch(t) => finish_fetch(ROOT, &t, Some(file), None).encode(),
            _ => panic!("a GET must fetch"),
        }
    };
    let wire_a = serve(b"GET /a.css HTTP/1.1\r\n", css.clone());
    let wire_b = serve(b"GET /b.html HTTP/1.1\r\n", html.clone());
    assert!(wire_a.ends_with(&css));
    assert!(wire_b.ends_with(&html));
    assert!(wire_a.windows(css.len()).filter(|w| *w == css.as_slice()).count() == 1);
}
