//! A verified core for a minimal static-file server.
//!
//! The library holds the pure request-handling pipeline: parsing a request
//! line, sandboxing the requested path under a content root, classifying a
//! file extension into a content type, and framing a complete response.
//! All I/O (sockets, file reads) stays outside; callers hand the library
//! plain bytes and write back the bytes the library produces.

pub mod bytes;
pub mod content_type;
pub mod handler;
pub mod laws;
pub mod request;
pub mod resolve;
pub mod response;
