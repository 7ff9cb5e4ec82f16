//! The slice of the HTTP response model that decoding reads: headers in
//! receipt order and the raw body bytes.

use vstd::prelude::*;

verus! {

/// One HTTP header, name and value as received.
#[derive(Debug)]
pub struct Header {
    pub name: String,
    pub value: String,
}

/// The protocol version of a response.
#[derive(Clone, Debug, PartialEq, Eq, Structural)]
pub enum Version {
    Http10,
    Http11,
    Http2,
}

/// An HTTP response: status line data, headers in receipt order, and the
/// raw, possibly compressed, body bytes.
#[derive(Debug)]
pub struct Response {
    pub version: Version,
    pub status: u32,
    pub headers: Vec<Header>,
    pub body: Vec<u8>,
}

} // verus!
