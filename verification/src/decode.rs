//! Decompression of a response body: one bounded-read brotli decoder, gzip
//! and zlib decoders that read to end of stream, and the dispatcher that
//! picks the decoder the `Content-Encoding` header names.

use crate::encoding::{classify_view, spec_classify, Encoding};
use crate::error::{ErrorModel, RunnerError};
use crate::http::{Header, Response};
use std::io::Read;
use vstd::prelude::*;

verus! {

/// What one bounded read of the brotli decoder yields for `data`: `None`
/// where the read fails, otherwise the bytes read, at most 4096 of them.
pub uninterp spec fn brotli_single_read(data: Seq<u8>) -> Option<Seq<u8>>;

/// What the gzip decoder yields for `data`, read to end of stream: `None`
/// where the header or the stream is rejected, otherwise the full
/// decompressed bytes.
pub uninterp spec fn gzip_decoded(data: Seq<u8>) -> Option<Seq<u8>>;

/// What the zlib decoder yields for `data`, read to end of stream: `None`
/// where the header or the stream is rejected, otherwise the full
/// decompressed bytes.
pub uninterp spec fn zlib_decoded(data: Seq<u8>) -> Option<Seq<u8>>;

/// Relies on `brotli::Decompressor::new` and its `std::io::Read` impl:
/// decompressing an in-memory stream is a deterministic function of the
/// input bytes, and one read with a 4096-byte buffer either fails or yields
/// some prefix of the decompressed stream.
#[verifier::external_body]
fn brotli_read_chunk(data: &[u8]) -> (r: Option<Vec<u8>>)
    ensures
        match r {
            Some(v) => brotli_single_read(data@) == Some(v@),
            None => brotli_single_read(data@) is None,
        },
{
    let mut reader = brotli::Decompressor::new(data, 4096);
    let mut buf = [0u8; 4096];
    match reader.read(&mut buf[..]) {
        Err(_) => None,
        Ok(n) => Some(buf[..n].to_vec()),
    }
}

/// Relies on `libflate::gzip::Decoder::new` and its `std::io::Read` impl:
/// decompressing an in-memory stream is a deterministic function of the
/// input bytes.
#[verifier::external_body]
fn gzip_read_to_end(data: &[u8]) -> (r: Option<Vec<u8>>)
    ensures
        match r {
            Some(v) => gzip_decoded(data@) == Some(v@),
            None => gzip_decoded(data@) is None,
        },
{
    let mut decoder = match libflate::gzip::Decoder::new(data) {
        Ok(d) => d,
        Err(_) => return None,
    };
    let mut buf = Vec::new();
    match decoder.read_to_end(&mut buf) {
        Ok(_) => Some(buf),
        Err(_) => None,
    }
}

/// Relies on `libflate::zlib::Decoder::new` and its `std::io::Read` impl:
/// decompressing an in-memory stream is a deterministic function of the
/// input bytes.
#[verifier::external_body]
fn zlib_read_to_end(data: &[u8]) -> (r: Option<Vec<u8>>)
    ensures
        match r {
            Some(v) => zlib_decoded(data@) == Some(v@),
            None => zlib_decoded(data@) is None,
        },
{
    let mut decoder = match libflate::zlib::Decoder::new(data) {
        Ok(d) => d,
        Err(_) => return None,
    };
    let mut buf = Vec::new();
    match decoder.read_to_end(&mut buf) {
        Ok(_) => Some(buf),
        Err(_) => None,
    }
}

/// The name a decode failure reports for each encoding. Identity decoding
/// never fails, so its name never reaches an error.
pub open spec fn codec_name(enc: Encoding) -> Seq<char> {
    match enc {
        Encoding::Brotli => "brotli"@,
        Encoding::Gzip => "gzip"@,
        Encoding::Deflate => "zlib"@,
        Encoding::Identity => "identity"@,
    }
}

/// What decoding `body` under `enc` yields: `None` where the codec rejects
/// the bytes. Identity yields the bytes unchanged and never fails.
pub open spec fn decoded_body(enc: Encoding, body: Seq<u8>) -> Option<Seq<u8>> {
    match enc {
        Encoding::Brotli => brotli_single_read(body),
        Encoding::Gzip => gzip_decoded(body),
        Encoding::Deflate => zlib_decoded(body),
        Encoding::Identity => Some(body),
    }
}

/// What decoding a response with `headers` and `body` returns: the error of
/// classification where the header value is unrecognized, the body
/// unchanged where no encoding or identity is named, and the named codec's
/// yield otherwise, with the codec's name where it fails.
pub open spec fn spec_decode(headers: Seq<Header>, body: Seq<u8>) -> Result<Seq<u8>, ErrorModel> {
    match spec_classify(headers) {
        Err(e) => Err(e),
        Ok(None) => Ok(body),
        Ok(Some(enc)) => match decoded_body(enc, body) {
            Some(d) => Ok(d),
            None => Err(ErrorModel::CouldNotUncompressResponse(codec_name(enc))),
        },
    }
}

/// A decode result with both sides taken to the model.
pub open spec fn decode_view(r: Result<Vec<u8>, RunnerError>) -> Result<Seq<u8>, ErrorModel> {
    match r {
        Ok(v) => Ok(v@),
        Err(e) => Err(e@),
    }
}

/// Copy `data` byte for byte into a fresh buffer.
fn copy_bytes(data: &[u8]) -> (r: Vec<u8>)
    ensures
        r@ == data@,
{
    let n = data.len();
    let mut out: Vec<u8> = Vec::new();
    let mut i: usize = 0;
    while i < n
        invariant
            n == data@.len(),
            i <= n,
            out@.len() == i,
            forall|j: int| 0 <= j < i ==> out@[j] == data@[j],
        decreases n - i,
    {
        out.push(data[i]);
        i += 1;
    }
    proof {
        assert(out@ =~= data@);
    }
    out
}

/// Decode `data` as one brotli stream, reading a single bounded chunk of at
/// most 4096 bytes.
pub fn uncompress_brotli(data: &[u8]) -> (r: Result<Vec<u8>, RunnerError>)
    ensures
        match r {
            Ok(v) => brotli_single_read(data@) == Some(v@),
            Err(e) => brotli_single_read(data@) is None && e@
                == ErrorModel::CouldNotUncompressResponse("brotli"@),
        },
{
    match brotli_read_chunk(data) {
        Some(v) => Ok(v),
        None => Err(RunnerError::CouldNotUncompressResponse("brotli".to_owned())),
    }
}

/// Decode `data` as a gzip stream, to end of stream.
pub fn uncompress_gzip(data: &[u8]) -> (r: Result<Vec<u8>, RunnerError>)
    ensures
        match r {
            Ok(v) => gzip_decoded(data@) == Some(v@),
            Err(e) => gzip_decoded(data@) is None && e@ == ErrorModel::CouldNotUncompressResponse(
                "gzip"@,
            ),
        },
{
    match gzip_read_to_end(data) {
        Some(v) => Ok(v),
        None => Err(RunnerError::CouldNotUncompressResponse("gzip".to_owned())),
    }
}

/// Decode `data` as a zlib-wrapped deflate stream, to end of stream.
pub fn uncompress_zlib(data: &[u8]) -> (r: Result<Vec<u8>, RunnerError>)
    ensures
        match r {
            Ok(v) => zlib_decoded(data@) == Some(v@),
            Err(e) => zlib_decoded(data@) is None && e@ == ErrorModel::CouldNotUncompressResponse(
                "zlib"@,
            ),
        },
{
    match zlib_read_to_end(data) {
        Some(v) => Ok(v),
        None => Err(RunnerError::CouldNotUncompressResponse("zlib".to_owned())),
    }
}

impl Response {
    /// Decode this response's body according to its `Content-Encoding`
    /// header: classify the header value, pass the body through unchanged
    /// where no encoding or identity is named, and otherwise hand the body
    /// to the named codec.
    pub fn uncompress_body(&self) -> (r: Result<Vec<u8>, RunnerError>)
        ensures
            decode_view(r) == spec_decode(self.headers@, self.body@),
    {
        let encoding = match self.content_encoding() {
            Ok(e) => e,
            Err(err) => {
                return Err(err);
            },
        };
        match encoding {
            Some(Encoding::Identity) => Ok(copy_bytes(self.body.as_slice())),
            Some(Encoding::Gzip) => uncompress_gzip(self.body.as_slice()),
            Some(Encoding::Deflate) => uncompress_zlib(self.body.as_slice()),
            Some(Encoding::Brotli) => uncompress_brotli(self.body.as_slice()),
            None => Ok(copy_bytes(self.body.as_slice())),
        }
    }
}

/// Identity round trip: where classification finds no encoding or finds
/// identity, decoding returns the body bytes unchanged, whatever they hold.
pub proof fn lemma_identity_round_trip(headers: Seq<Header>, body: Seq<u8>)
    requires
        spec_classify(headers) == Ok::<Option<Encoding>, ErrorModel>(None) || spec_classify(headers)
            == Ok::<Option<Encoding>, ErrorModel>(Some(Encoding::Identity)),
    ensures
        spec_decode(headers, body) == Ok::<Seq<u8>, ErrorModel>(body),
{
}

/// Decoding is deterministic: two decode results for the same headers and
/// body agree, as byte buffers or as errors.
pub proof fn lemma_decode_deterministic(
    headers: Seq<Header>,
    body: Seq<u8>,
    r1: Result<Vec<u8>, RunnerError>,
    r2: Result<Vec<u8>, RunnerError>,
)
    requires
        decode_view(r1) == spec_decode(headers, body),
        decode_view(r2) == spec_decode(headers, body),
    ensures
        decode_view(r1) == decode_view(r2),
{
}

} // verus!
