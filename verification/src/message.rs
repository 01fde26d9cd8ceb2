//! The HTTP message model: requests, responses, headers, and the
//! byte-level helpers (ASCII case folding) that header matching needs.

use vstd::prelude::*;

verus! {

/// Protocol version of an HTTP message. The echo path copies it from the
/// request to the response unchanged.
#[derive(Clone, Copy, Debug, PartialEq, Eq, Structural)]
pub enum HttpVersion {
    Http10,
    Http11,
    Http2,
}

/// One header line: name and value as raw bytes. Names compare
/// case-insensitively; values are opaque bytes.
#[derive(Clone, Debug)]
pub struct Header {
    pub name: Vec<u8>,
    pub value: Vec<u8>,
}

/// Mathematical model of a header.
#[verifier::ext_equal]
pub struct HeaderModel {
    pub name: Seq<u8>,
    pub value: Seq<u8>,
}

impl View for Header {
    type V = HeaderModel;

    open spec fn view(&self) -> HeaderModel {
        HeaderModel { name: self.name@, value: self.value@ }
    }
}

/// Model of a header list.
pub open spec fn headers_model(hs: Seq<Header>) -> Seq<HeaderModel> {
    hs.map_values(|h: Header| h@)
}

/// An inbound HTTP request, already decoded from the wire by the caller.
pub struct HttpRequest {
    pub method: Vec<u8>,
    pub target: Vec<u8>,
    pub version: HttpVersion,
    pub headers: Vec<Header>,
    pub body: Vec<u8>,
}

/// Mathematical model of a request.
#[verifier::ext_equal]
pub struct HttpRequestModel {
    pub method: Seq<u8>,
    pub target: Seq<u8>,
    pub version: HttpVersion,
    pub headers: Seq<HeaderModel>,
    pub body: Seq<u8>,
}

impl View for HttpRequest {
    type V = HttpRequestModel;

    open spec fn view(&self) -> HttpRequestModel {
        HttpRequestModel {
            method: self.method@,
            target: self.target@,
            version: self.version,
            headers: headers_model(self.headers@),
            body: self.body@,
        }
    }
}

/// An outbound HTTP response, handed back to the caller for encoding.
pub struct HttpResponse {
    pub status: u16,
    pub version: HttpVersion,
    pub headers: Vec<Header>,
    pub body: Vec<u8>,
}

/// Mathematical model of a response.
#[verifier::ext_equal]
pub struct HttpResponseModel {
    pub status: u16,
    pub version: HttpVersion,
    pub headers: Seq<HeaderModel>,
    pub body: Seq<u8>,
}

impl View for HttpResponse {
    type V = HttpResponseModel;

    open spec fn view(&self) -> HttpResponseModel {
        HttpResponseModel {
            status: self.status,
            version: self.version,
            headers: headers_model(self.headers@),
            body: self.body@,
        }
    }
}

/// ASCII lower-casing of one byte.
pub open spec fn spec_lower(c: u8) -> u8 {
    if 65 <= c && c <= 90 {
        (c + 32) as u8
    } else {
        c
    }
}

/// ASCII lower-casing of a byte sequence.
pub open spec fn lower_bytes(s: Seq<u8>) -> Seq<u8> {
    s.map_values(|c: u8| spec_lower(c))
}

/// Byte sequences equal up to ASCII case.
pub open spec fn eq_ignore_case(a: Seq<u8>, b: Seq<u8>) -> bool {
    lower_bytes(a) == lower_bytes(b)
}

/// ASCII lower-casing of one byte.
pub fn lower_byte(c: u8) -> (r: u8)
    ensures
        r == spec_lower(c),
{
    if 65 <= c && c <= 90 {
        c + 32
    } else {
        c
    }
}

/// Case-insensitive comparison of two byte strings.
pub fn bytes_eq_ignore_case(a: &[u8], b: &[u8]) -> (r: bool)
    ensures
        r == eq_ignore_case(a@, b@),
{
    if a.len() != b.len() {
        assert(lower_bytes(a@).len() != lower_bytes(b@).len());
        return false;
    }
    let n = a.len();
    let mut i: usize = 0;
    while i < n
        invariant
            n == a@.len() == b@.len(),
            i <= n,
            forall|k: int| 0 <= k < i ==> spec_lower(a@[k]) == spec_lower(b@[k]),
        decreases n - i,
    {
        if lower_byte(a[i]) != lower_byte(b[i]) {
            assert(lower_bytes(a@)[i as int] != lower_bytes(b@)[i as int]);
            return false;
        }
        i += 1;
    }
    assert(lower_bytes(a@) =~= lower_bytes(b@));
    true
}


/// Copies a byte string into a fresh vector.
pub fn copy_bytes(src: &[u8]) -> (r: Vec<u8>)
    ensures
        r@ == src@,
{
    let n = src.len();
    let mut r: Vec<u8> = Vec::new();
    let mut i: usize = 0;
    while i < n
        invariant
            n == src@.len(),
            i <= n,
            r@ == src@.subrange(0, i as int),
        decreases n - i,
    {
        r.push(src[i]);
        proof {
            assert(src@.subrange(0, i as int) + seq![src@[i as int]] =~= src@.subrange(
                0,
                i + 1,
            ));
        }
        i += 1;
    }
    proof {
        assert(src@.subrange(0, n as int) =~= src@);
    }
    r
}

/// Copies a header list into a fresh vector with the same model.
pub fn copy_headers(hs: &Vec<Header>) -> (r: Vec<Header>)
    ensures
        headers_model(r@) == headers_model(hs@),
{
    let n = hs.len();
    let mut r: Vec<Header> = Vec::new();
    let mut i: usize = 0;
    while i < n
        invariant
            n == hs@.len(),
            i <= n,
            r@.len() == i,
            headers_model(r@) =~~= headers_model(hs@).subrange(0, i as int),
        decreases n - i,
    {
        let h = Header {
            name: copy_bytes(hs[i].name.as_slice()),
            value: copy_bytes(hs[i].value.as_slice()),
        };
        proof {
            assert(h@ == hs@[i as int]@);
        }
        let ghost r_old = r@;
        r.push(h);
        proof {
            assert forall|k: int| 0 <= k < i + 1 implies headers_model(r@)[k] == headers_model(
                hs@,
            ).subrange(0, i + 1)[k] by {
                assert(headers_model(r@)[k] == r@[k]@);
                if k < i {
                    assert(r@[k] == r_old[k]);
                    assert(headers_model(r_old)[k] == r_old[k]@);
                }
            }
            assert(headers_model(r@) =~~= headers_model(hs@).subrange(0, i + 1));
        }
        i += 1;
    }
    proof {
        assert(headers_model(hs@).subrange(0, n as int) =~= headers_model(hs@));
    }
    r
}

} // verus!
