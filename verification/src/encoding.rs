//! Classification of the `Content-Encoding` header: find the first header
//! of that name (compared case-insensitively) and map its value to a
//! recognized encoding.

use crate::error::{ErrorModel, RunnerError};
use crate::http::{Header, Response};
use vstd::prelude::*;

verus! {

/// A recognized content encoding of a response body.
#[derive(Clone, Debug, PartialEq, Eq, Structural)]
pub enum Encoding {
    Brotli,
    Gzip,
    Deflate,
    Identity,
}

/// The code point of `c` with an ASCII upper-case letter folded to lower
/// case; every other character is left as it stands.
pub open spec fn lower_code(c: char) -> u32 {
    if 65 <= c as u32 && c as u32 <= 90 {
        (c as u32 + 32) as u32
    } else {
        c as u32
    }
}

/// Whether `name`, compared ASCII-case-insensitively, is `content-encoding`.
pub open spec fn is_content_encoding_name(name: Seq<char>) -> bool {
    &&& name.len() == "content-encoding"@.len()
    &&& forall|i: int|
        0 <= i < name.len() ==> #[trigger] lower_code(name[i]) == "content-encoding"@[i] as u32
}

/// The encoding a `Content-Encoding` value names, compared case-sensitively
/// against the four recognized literals; `None` for every other value.
pub open spec fn encoding_of(value: Seq<char>) -> Option<Encoding> {
    if value == "br"@ {
        Some(Encoding::Brotli)
    } else if value == "gzip"@ {
        Some(Encoding::Gzip)
    } else if value == "deflate"@ {
        Some(Encoding::Deflate)
    } else if value == "identity"@ {
        Some(Encoding::Identity)
    } else {
        None
    }
}

/// The value of the first `Content-Encoding` header, if any.
pub open spec fn spec_content_encoding(headers: Seq<Header>) -> Option<Seq<char>>
    decreases headers.len(),
{
    if headers.len() == 0 {
        None
    } else if is_content_encoding_name(headers[0].name@) {
        Some(headers[0].value@)
    } else {
        spec_content_encoding(headers.skip(1))
    }
}

/// What classification returns for `headers`: the recognized encoding of
/// the first `Content-Encoding` header, `None` where no such header exists,
/// and an error carrying the raw value where the value is unrecognized.
pub open spec fn spec_classify(headers: Seq<Header>) -> Result<Option<Encoding>, ErrorModel> {
    match spec_content_encoding(headers) {
        None => Ok(None),
        Some(v) => match encoding_of(v) {
            Some(e) => Ok(Some(e)),
            None => Err(ErrorModel::UnsupportedContentEncoding(v)),
        },
    }
}

/// A classification result with its error taken to the model.
pub open spec fn classify_view(r: Result<Option<Encoding>, RunnerError>) -> Result<
    Option<Encoding>,
    ErrorModel,
> {
    match r {
        Ok(o) => Ok(o),
        Err(e) => Err(e@),
    }
}

/// Whether `c` folded to lower case has the code point of `t`.
fn char_matches_lower(c: char, t: char) -> (r: bool)
    ensures
        r == (lower_code(c) == t as u32),
{
    let u = c as u32;
    let lu = if 65 <= u && u <= 90 {
        u + 32
    } else {
        u
    };
    lu == t as u32
}

/// Whether `name` is `content-encoding` up to ASCII case.
fn name_is_content_encoding(name: &str) -> (r: bool)
    ensures
        r == is_content_encoding_name(name@),
{
    let target = "content-encoding";
    proof {
        reveal_strlit("content-encoding");
        assert(target@ == "content-encoding"@);
    }
    let len = name.unicode_len();
    if len != target.unicode_len() {
        return false;
    }
    let mut i: usize = 0;
    while i < len
        invariant
            target@ == "content-encoding"@,
            len == name@.len(),
            name@.len() == "content-encoding"@.len(),
            i <= len,
            forall|j: int|
                0 <= j < i ==> #[trigger] lower_code(name@[j]) == "content-encoding"@[j] as u32,
        decreases len - i,
    {
        let c = name.get_char(i);
        let t = target.get_char(i);
        if !char_matches_lower(c, t) {
            return false;
        }
        i += 1;
    }
    true
}

/// Whether two strings hold the same characters.
fn str_eq(a: &str, b: &str) -> (r: bool)
    ensures
        r == (a@ == b@),
{
    let n = a.unicode_len();
    if n != b.unicode_len() {
        return false;
    }
    let mut i: usize = 0;
    while i < n
        invariant
            n == a@.len(),
            n == b@.len(),
            i <= n,
            forall|j: int| 0 <= j < i ==> a@[j] == b@[j],
        decreases n - i,
    {
        if a.get_char(i) != b.get_char(i) {
            return false;
        }
        i += 1;
    }
    proof {
        assert(a@ =~= b@);
    }
    true
}

/// The encoding named by a `Content-Encoding` value, compared
/// case-sensitively; `None` for a value outside the recognized set.
pub fn encoding_from_value(value: &str) -> (r: Option<Encoding>)
    ensures
        r == encoding_of(value@),
{
    if str_eq(value, "br") {
        Some(Encoding::Brotli)
    } else if str_eq(value, "gzip") {
        Some(Encoding::Gzip)
    } else if str_eq(value, "deflate") {
        Some(Encoding::Deflate)
    } else if str_eq(value, "identity") {
        Some(Encoding::Identity)
    } else {
        None
    }
}

impl Response {
    /// Scan the headers in receipt order for the first whose name is
    /// `Content-Encoding` in any ASCII case, and classify its value.
    pub fn content_encoding(&self) -> (r: Result<Option<Encoding>, RunnerError>)
        ensures
            classify_view(r) == spec_classify(self.headers@),
    {
        let n = self.headers.len();
        let mut i: usize = 0;
        proof {
            assert(self.headers@.skip(0) =~= self.headers@);
        }
        while i < n
            invariant
                n == self.headers@.len(),
                i <= n,
                spec_content_encoding(self.headers@.skip(i as int)) == spec_content_encoding(
                    self.headers@,
                ),
            decreases n - i,
        {
            let header = &self.headers[i];
            if name_is_content_encoding(header.name.as_str()) {
                proof {
                    assert(self.headers@.skip(i as int)[0] == self.headers@[i as int]);
                }
                return match encoding_from_value(header.value.as_str()) {
                    Some(e) => Ok(Some(e)),
                    None => Err(RunnerError::UnsupportedContentEncoding(header.value.clone())),
                };
            }
            proof {
                assert(self.headers@.skip(i as int).skip(1) =~= self.headers@.skip(i as int + 1));
            }
            i += 1;
        }
        Ok(None)
    }
}

/// Where no header's name is `content-encoding` in any ASCII case variant,
/// classification finds no encoding.
pub proof fn lemma_no_content_encoding_header(headers: Seq<Header>)
    requires
        forall|i: int| 0 <= i < headers.len() ==> !is_content_encoding_name(
            #[trigger] headers[i].name@,
        ),
    ensures
        spec_content_encoding(headers) is None,
        spec_classify(headers) == Ok::<Option<Encoding>, ErrorModel>(None),
    decreases headers.len(),
{
    if headers.len() > 0 {
        assert forall|i: int| 0 <= i < headers.skip(1).len() implies !is_content_encoding_name(
            #[trigger] headers.skip(1)[i].name@,
        ) by {
            assert(headers.skip(1)[i] == headers[i + 1]);
        }
        lemma_no_content_encoding_header(headers.skip(1));
    }
}

/// Header-name matching is ASCII-case-insensitive: two names that agree
/// characterwise up to ASCII case are both accepted or both rejected.
pub proof fn lemma_name_case_insensitive(n1: Seq<char>, n2: Seq<char>)
    requires
        n1.len() == n2.len(),
        forall|i: int| 0 <= i < n1.len() ==> #[trigger] lower_code(n1[i]) == lower_code(n2[i]),
    ensures
        is_content_encoding_name(n1) == is_content_encoding_name(n2),
{
    if is_content_encoding_name(n1) {
        assert forall|i: int| 0 <= i < n2.len() implies #[trigger] lower_code(n2[i])
            == "content-encoding"@[i] as u32 by {
            assert(lower_code(n1[i]) == "content-encoding"@[i] as u32);
        }
    }
    if is_content_encoding_name(n2) {
        assert forall|i: int| 0 <= i < n1.len() implies #[trigger] lower_code(n1[i])
            == "content-encoding"@[i] as u32 by {
            assert(lower_code(n2[i]) == "content-encoding"@[i] as u32);
        }
    }
}

} // verus!
