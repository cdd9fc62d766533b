//! Classifying a file path's extension into a content type.
//!
//! A pure suffix match over a fixed table; the extensions are mutually
//! exclusive, and an unrecognized extension maps to the generic binary
//! content type. The classifier never fails: it always returns a value.

use vstd::prelude::*;

verus! {

use crate::bytes::ascii_view;
use crate::bytes::ends_with;
use crate::bytes::has_suffix;

/// The content type served for a file at path `p`, chosen by its extension.
pub open spec fn content_type_of(p: Seq<u8>) -> Seq<char> {
    if ends_with(p, ascii_view(".html"@)) {
        "text/html; charset=UTF-8"@
    } else if ends_with(p, ascii_view(".css"@)) {
        "text/css"@
    } else if ends_with(p, ascii_view(".js"@)) {
        "application/javascript"@
    } else if ends_with(p, ascii_view(".json"@)) {
        "application/json"@
    } else if ends_with(p, ascii_view(".png"@)) {
        "image/png"@
    } else if ends_with(p, ascii_view(".jpg"@)) || ends_with(p, ascii_view(".jpeg"@)) {
        "image/jpeg"@
    } else if ends_with(p, ascii_view(".gif"@)) {
        "image/gif"@
    } else if ends_with(p, ascii_view(".svg"@)) {
        "image/svg+xml"@
    } else if ends_with(p, ascii_view(".ico"@)) {
        "image/x-icon"@
    } else if ends_with(p, ascii_view(".woff2"@)) {
        "font/woff2"@
    } else if ends_with(p, ascii_view(".woff"@)) {
        "font/woff"@
    } else if ends_with(p, ascii_view(".ttf"@)) {
        "font/ttf"@
    } else if ends_with(p, ascii_view(".otf"@)) {
        "font/otf"@
    } else {
        "application/octet-stream"@
    }
}

/// Maps a file path to the content type its extension calls for, with a
/// generic binary default for unknown extensions.
pub fn get_content_type(path: &[u8]) -> (r: &'static str)
    ensures
        r@ == content_type_of(path@),
        r.is_ascii(),
{
    proof {
        reveal_strlit(".html");
        reveal_strlit(".css");
        reveal_strlit(".js");
        reveal_strlit(".json");
        reveal_strlit(".png");
        reveal_strlit(".jpg");
        reveal_strlit(".jpeg");
        reveal_strlit(".gif");
        reveal_strlit(".svg");
        reveal_strlit(".ico");
        reveal_strlit(".woff2");
        reveal_strlit(".woff");
        reveal_strlit(".ttf");
        reveal_strlit(".otf");
        reveal_strlit("text/html; charset=UTF-8");
        reveal_strlit("text/css");
        reveal_strlit("application/javascript");
        reveal_strlit("application/json");
        reveal_strlit("image/png");
        reveal_strlit("image/jpeg");
        reveal_strlit("image/gif");
        reveal_strlit("image/svg+xml");
        reveal_strlit("image/x-icon");
        reveal_strlit("font/woff2");
        reveal_strlit("font/woff");
        reveal_strlit("font/ttf");
        reveal_strlit("font/otf");
        reveal_strlit("application/octet-stream");
    }
    if has_suffix(path, ".html") {
        "text/html; charset=UTF-8"
    } else if has_suffix(path, ".css") {
        "text/css"
    } else if has_suffix(path, ".js") {
        "application/javascript"
    } else if has_suffix(path, ".json") {
        "application/json"
    } else if has_suffix(path, ".png") {
        "image/png"
    } else if has_suffix(path, ".jpg") || has_suffix(path, ".jpeg") {
        "image/jpeg"
    } else if has_suffix(path, ".gif") {
        "image/gif"
    } else if has_suffix(path, ".svg") {
        "image/svg+xml"
    } else if has_suffix(path, ".ico") {
        "image/x-icon"
    } else if has_suffix(path, ".woff2") {
        "font/woff2"
    } else if has_suffix(path, ".woff") {
        "font/woff"
    } else if has_suffix(path, ".ttf") {
        "font/ttf"
    } else if has_suffix(path, ".otf") {
        "font/otf"
    } else {
        "application/octet-stream"
    }
}

} // verus!
