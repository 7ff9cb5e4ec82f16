//! Decoding of HTTP response bodies according to the `Content-Encoding`
//! response header.
//!
//! The crate classifies the header value into a closed set of encodings
//! (brotli, gzip, deflate, identity), dispatches the body bytes to the
//! matching decompressor, and surfaces typed failures when the header value
//! is unrecognized or a decoder rejects the stream.

pub mod decode;
pub mod encoding;
pub mod error;
pub mod http;
