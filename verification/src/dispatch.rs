//! The protocol dispatcher: decides whether a request is a plain HTTP
//! exchange or an upgrade attempt, mirrors plain requests back, and
//! performs the upgrade handshake.
//!
//! Upgrade detection follows the standard negotiation: the `Connection`
//! header must list the token `Upgrade` and the `Upgrade` header the token
//! `websocket`, comma-separated, trimmed, compared without regard to ASCII
//! case. A detected upgrade then needs a `Sec-WebSocket-Key` header and
//! `Sec-WebSocket-Version: 13`; the handshake response carries the accept
//! key derived from the request key.

use vstd::prelude::*;

use crate::message::{
    eq_ignore_case, headers_model, lower_bytes, spec_lower, bytes_eq_ignore_case, lower_byte,
    Header, HeaderModel, HttpRequest, HttpRequestModel, HttpResponse, HttpResponseModel,
    HttpVersion,
};

verus! {

/// The bytes of `"connection"`.
pub open spec fn connection_name() -> Seq<u8> {
    seq![99u8, 111, 110, 110, 101, 99, 116, 105, 111, 110]
}

/// The bytes of `"connection"`.
pub fn connection_name_vec() -> (r: Vec<u8>)
    ensures
        r@ == connection_name(),
{
    let v: Vec<u8> = vec![99u8, 111, 110, 110, 101, 99, 116, 105, 111, 110];
    assert(v@ =~= connection_name());
    v
}

/// The bytes of `"upgrade"`.
pub open spec fn upgrade_name() -> Seq<u8> {
    seq![117u8, 112, 103, 114, 97, 100, 101]
}

/// The bytes of `"upgrade"`.
pub fn upgrade_name_vec() -> (r: Vec<u8>)
    ensures
        r@ == upgrade_name(),
{
    let v: Vec<u8> = vec![117u8, 112, 103, 114, 97, 100, 101];
    assert(v@ =~= upgrade_name());
    v
}

/// The bytes of `"Upgrade"`.
pub open spec fn upgrade_token() -> Seq<u8> {
    seq![85u8, 112, 103, 114, 97, 100, 101]
}

/// The bytes of `"Upgrade"`.
pub fn upgrade_token_vec() -> (r: Vec<u8>)
    ensures
        r@ == upgrade_token(),
{
    let v: Vec<u8> = vec![85u8, 112, 103, 114, 97, 100, 101];
    assert(v@ =~= upgrade_token());
    v
}

/// The bytes of `"websocket"`.
pub open spec fn websocket_token() -> Seq<u8> {
    seq![119u8, 101, 98, 115, 111, 99, 107, 101, 116]
}

/// The bytes of `"websocket"`.
pub fn websocket_token_vec() -> (r: Vec<u8>)
    ensures
        r@ == websocket_token(),
{
    let v: Vec<u8> = vec![119u8, 101, 98, 115, 111, 99, 107, 101, 116];
    assert(v@ =~= websocket_token());
    v
}

/// The bytes of `"sec-websocket-key"`.
pub open spec fn sec_websocket_key_name() -> Seq<u8> {
    seq![115u8, 101, 99, 45, 119, 101, 98, 115, 111, 99, 107, 101, 116, 45, 107, 101, 121]
}

/// The bytes of `"sec-websocket-key"`.
pub fn sec_websocket_key_name_vec() -> (r: Vec<u8>)
    ensures
        r@ == sec_websocket_key_name(),
{
    let v: Vec<u8> = vec![115u8, 101, 99, 45, 119, 101, 98, 115, 111, 99, 107, 101, 116, 45, 107, 101, 121];
    assert(v@ =~= sec_websocket_key_name());
    v
}

/// The bytes of `"sec-websocket-version"`.
pub open spec fn sec_websocket_version_name() -> Seq<u8> {
    seq![115u8, 101, 99, 45, 119, 101, 98, 115, 111, 99, 107, 101, 116, 45, 118, 101, 114, 115, 105, 111, 110]
}

/// The bytes of `"sec-websocket-version"`.
pub fn sec_websocket_version_name_vec() -> (r: Vec<u8>)
    ensures
        r@ == sec_websocket_version_name(),
{
    let v: Vec<u8> = vec![115u8, 101, 99, 45, 119, 101, 98, 115, 111, 99, 107, 101, 116, 45, 118, 101, 114, 115, 105, 111, 110];
    assert(v@ =~= sec_websocket_version_name());
    v
}

/// The bytes of `"13"`.
pub open spec fn version_13() -> Seq<u8> {
    seq![49u8, 51]
}

/// The bytes of `"13"`.
pub fn version_13_vec() -> (r: Vec<u8>)
    ensures
        r@ == version_13(),
{
    let v: Vec<u8> = vec![49u8, 51];
    assert(v@ =~= version_13());
    v
}

/// The bytes of `"sec-websocket-accept"`.
pub open spec fn sec_websocket_accept_name() -> Seq<u8> {
    seq![115u8, 101, 99, 45, 119, 101, 98, 115, 111, 99, 107, 101, 116, 45, 97, 99, 99, 101, 112, 116]
}

/// The bytes of `"sec-websocket-accept"`.
pub fn sec_websocket_accept_name_vec() -> (r: Vec<u8>)
    ensures
        r@ == sec_websocket_accept_name(),
{
    let v: Vec<u8> = vec![115u8, 101, 99, 45, 119, 101, 98, 115, 111, 99, 107, 101, 116, 45, 97, 99, 99, 101, 112, 116];
    assert(v@ =~= sec_websocket_accept_name());
    v
}

/// The bytes of `"258EAFA5-E914-47DA-95CA-C5AB0DC85B11"`.
pub open spec fn handshake_guid() -> Seq<u8> {
    seq![50u8, 53, 56, 69, 65, 70, 65, 53, 45, 69, 57, 49, 52, 45, 52, 55, 68, 65, 45, 57, 53, 67, 65, 45, 67, 53, 65, 66, 48, 68, 67, 56, 53, 66, 49, 49]
}

/// The bytes of `"258EAFA5-E914-47DA-95CA-C5AB0DC85B11"`.
pub fn handshake_guid_vec() -> (r: Vec<u8>)
    ensures
        r@ == handshake_guid(),
{
    let v: Vec<u8> = vec![50u8, 53, 56, 69, 65, 70, 65, 53, 45, 69, 57, 49, 52, 45, 52, 55, 68, 65, 45, 57, 53, 67, 65, 45, 67, 53, 65, 66, 48, 68, 67, 56, 53, 66, 49, 49];
    assert(v@ =~= handshake_guid());
    v
}

/// The bytes of `"Sec-WebSocket-Key header is missing"`.
pub open spec fn missing_key_text() -> Seq<u8> {
    seq![83u8, 101, 99, 45, 87, 101, 98, 83, 111, 99, 107, 101, 116, 45, 75, 101, 121, 32, 104, 101, 97, 100, 101, 114, 32, 105, 115, 32, 109, 105, 115, 115, 105, 110, 103]
}

/// The bytes of `"Sec-WebSocket-Key header is missing"`.
pub fn missing_key_text_vec() -> (r: Vec<u8>)
    ensures
        r@ == missing_key_text(),
{
    let v: Vec<u8> = vec![83u8, 101, 99, 45, 87, 101, 98, 83, 111, 99, 107, 101, 116, 45, 75, 101, 121, 32, 104, 101, 97, 100, 101, 114, 32, 105, 115, 32, 109, 105, 115, 115, 105, 110, 103];
    assert(v@ =~= missing_key_text());
    v
}

/// The bytes of `"Sec-Websocket-Version must be 13"`.
pub open spec fn bad_version_text() -> Seq<u8> {
    seq![83u8, 101, 99, 45, 87, 101, 98, 115, 111, 99, 107, 101, 116, 45, 86, 101, 114, 115, 105, 111, 110, 32, 109, 117, 115, 116, 32, 98, 101, 32, 49, 51]
}

/// The bytes of `"Sec-Websocket-Version must be 13"`.
pub fn bad_version_text_vec() -> (r: Vec<u8>)
    ensures
        r@ == bad_version_text(),
{
    let v: Vec<u8> = vec![83u8, 101, 99, 45, 87, 101, 98, 115, 111, 99, 107, 101, 116, 45, 86, 101, 114, 115, 105, 111, 110, 32, 109, 117, 115, 116, 32, 98, 101, 32, 49, 51];
    assert(v@ =~= bad_version_text());
    v
}

/// A byte that counts as ASCII whitespace when header tokens are trimmed.
pub open spec fn is_ws_byte(c: u8) -> bool {
    c == 32 || c == 9 || c == 10 || c == 12 || c == 13
}

/// A header-token segment with leading and trailing whitespace removed:
/// whitespace is stripped from the front, then from the back.
pub open spec fn trimmed(s: Seq<u8>) -> Seq<u8>
    decreases s.len(),
{
    if s.len() == 0 {
        s
    } else if is_ws_byte(s[0]) {
        trimmed(s.drop_first())
    } else if is_ws_byte(s.last()) {
        trimmed(s.drop_last())
    } else {
        s
    }
}

/// `[i, j)` spans exactly one comma-delimited segment of `v`.
pub open spec fn is_comma_segment(v: Seq<u8>, i: int, j: int) -> bool {
    &&& 0 <= i <= j <= v.len()
    &&& (i == 0 || v[i - 1] == 44)
    &&& (j == v.len() || v[j] == 44)
    &&& forall|k: int| i <= k < j ==> v[k] != 44
}

/// Some comma-delimited segment of `v`, trimmed, equals `token` up to
/// ASCII case.
pub open spec fn value_has_token(v: Seq<u8>, token: Seq<u8>) -> bool {
    exists|i: int, j: int|
        is_comma_segment(v, i, j) && eq_ignore_case(trimmed(v.subrange(i, j)), token)
}

/// Some header named `name` (compared without regard to case) carries
/// `token` in its comma-separated value list.
pub open spec fn headers_have_token(hs: Seq<HeaderModel>, name: Seq<u8>, token: Seq<u8>) -> bool {
    exists|n: int|
        0 <= n < hs.len() && eq_ignore_case(hs[n].name, name) && value_has_token(
            hs[n].value,
            token,
        )
}

/// The request asks for a protocol upgrade to a websocket: `Connection`
/// lists `Upgrade` and `Upgrade` lists `websocket`.
pub open spec fn spec_is_upgrade_request(r: HttpRequestModel) -> bool {
    headers_have_token(r.headers, connection_name(), upgrade_token()) && headers_have_token(
        r.headers,
        upgrade_name(),
        websocket_token(),
    )
}

/// Narrows `[lo, hi)` until `v` carries no whitespace at either end.
fn trim_bounds(v: &[u8], lo0: usize, hi0: usize) -> (r: (usize, usize))
    requires
        lo0 <= hi0 <= v@.len(),
    ensures
        lo0 <= r.0 <= r.1 <= hi0,
        v@.subrange(r.0 as int, r.1 as int) == trimmed(v@.subrange(lo0 as int, hi0 as int)),
{
    let mut lo = lo0;
    let mut hi = hi0;
    while lo < hi && is_ws(v[lo])
        invariant
            lo0 <= lo <= hi <= hi0 <= v@.len(),
            trimmed(v@.subrange(lo as int, hi as int)) == trimmed(
                v@.subrange(lo0 as int, hi0 as int),
            ),
        decreases hi - lo,
    {
        proof {
            assert(v@.subrange(lo as int, hi as int).drop_first() =~= v@.subrange(
                lo + 1,
                hi as int,
            ));
        }
        lo += 1;
    }
    while lo < hi && is_ws(v[hi - 1])
        invariant
            lo0 <= lo <= hi <= hi0 <= v@.len(),
            lo < hi ==> !is_ws_byte(v@[lo as int]),
            trimmed(v@.subrange(lo as int, hi as int)) == trimmed(
                v@.subrange(lo0 as int, hi0 as int),
            ),
        decreases hi - lo,
    {
        proof {
            assert(v@.subrange(lo as int, hi as int).drop_last() =~= v@.subrange(
                lo as int,
                hi - 1,
            ));
        }
        hi -= 1;
    }
    proof {
        let s = v@.subrange(lo as int, hi as int);
        assert(trimmed(s) == s);
    }
    (lo, hi)
}

/// Whether `c` is trimmed away at a token's edges.
fn is_ws(c: u8) -> (r: bool)
    ensures
        r == is_ws_byte(c),
{
    c == 32 || c == 9 || c == 10 || c == 12 || c == 13
}

/// Compares `v[lo..hi]` with `token`, without regard to ASCII case.
fn range_eq_ignore_case(v: &[u8], lo: usize, hi: usize, token: &[u8]) -> (r: bool)
    requires
        lo <= hi <= v@.len(),
    ensures
        r == eq_ignore_case(v@.subrange(lo as int, hi as int), token@),
{
    let ghost s = v@.subrange(lo as int, hi as int);
    if hi - lo != token.len() {
        assert(lower_bytes(s).len() != lower_bytes(token@).len());
        return false;
    }
    let n = token.len();
    let mut i: usize = 0;
    while i < n
        invariant
            lo + n == hi,
            hi <= v@.len(),
            n == token@.len(),
            i <= n,
            s == v@.subrange(lo as int, hi as int),
            forall|k: int| 0 <= k < i ==> spec_lower(s[k]) == spec_lower(token@[k]),
        decreases n - i,
    {
        if lower_byte(v[lo + i]) != lower_byte(token[i]) {
            assert(lower_bytes(s)[i as int] != lower_bytes(token@)[i as int]);
            return false;
        }
        i += 1;
    }
    assert(lower_bytes(s) =~= lower_bytes(token@));
    true
}

/// Whether the comma-delimited segment `v[lo..hi]`, trimmed, names `token`.
fn segment_matches(v: &[u8], lo: usize, hi: usize, token: &[u8]) -> (r: bool)
    requires
        lo <= hi <= v@.len(),
    ensures
        r == eq_ignore_case(trimmed(v@.subrange(lo as int, hi as int)), token@),
{
    let (a, b) = trim_bounds(v, lo, hi);
    range_eq_ignore_case(v, a, b, token)
}

/// Two comma-delimited segments that end at the same place start at the
/// same place: the segment that ends at `j` and does not match `token`
/// rules out every segment ending at `j`.
proof fn lemma_segment_unique(v: Seq<u8>, token: Seq<u8>, start: int, j: int)
    requires
        is_comma_segment(v, start, j),
        !eq_ignore_case(trimmed(v.subrange(start, j)), token),
    ensures
        forall|i: int|
            is_comma_segment(v, i, j) ==> !eq_ignore_case(trimmed(v.subrange(i, j)), token),
{
    assert forall|i: int| is_comma_segment(v, i, j) implies !eq_ignore_case(
        trimmed(v.subrange(i, j)),
        token,
    ) by {
        if i < start {
            assert(v[start - 1] == 44);
        } else if i > start {
            assert(v[i - 1] != 44);
        }
    }
}

/// Scans the comma-separated value `v` for a segment that, trimmed, equals
/// `token` up to ASCII case.
fn value_contains_token(v: &[u8], token: &[u8]) -> (r: bool)
    ensures
        r == value_has_token(v@, token@),
{
    let n = v.len();
    let mut start: usize = 0;
    let mut k: usize = 0;
    while k < n
        invariant
            n == v@.len(),
            start <= k <= n,
            start == 0 || v@[start - 1] == 44,
            forall|m: int| start <= m < k ==> v@[m] != 44,
            forall|i: int, j: int|
                is_comma_segment(v@, i, j) && j < k ==> !eq_ignore_case(
                    trimmed(v@.subrange(i, j)),
                    token@,
                ),
        decreases n - k,
    {
        if v[k] == 44 {
            assert(is_comma_segment(v@, start as int, k as int));
            if segment_matches(v, start, k, token) {
                return true;
            }
            proof {
                lemma_segment_unique(v@, token@, start as int, k as int);
            }
            start = k + 1;
        }
        k += 1;
    }
    assert(is_comma_segment(v@, start as int, n as int));
    if segment_matches(v, start, n, token) {
        return true;
    }
    proof {
        lemma_segment_unique(v@, token@, start as int, n as int);
        if value_has_token(v@, token@) {
            let (i, j) = choose|i: int, j: int|
                is_comma_segment(v@, i, j) && eq_ignore_case(trimmed(v@.subrange(i, j)), token@);
            assert(j <= n);
        }
    }
    false
}

/// Whether some header named `name` carries `token` in its value list.
pub fn headers_contain_token(headers: &Vec<Header>, name: &[u8], token: &[u8]) -> (r: bool)
    ensures
        r == headers_have_token(headers_model(headers@), name@, token@),
{
    let ghost hs = headers_model(headers@);
    let count = headers.len();
    let mut n: usize = 0;
    while n < count
        invariant
            count == headers@.len(),
            hs == headers_model(headers@),
            n <= count,
            forall|m: int|
                0 <= m < n ==> !(eq_ignore_case(hs[m].name, name@) && value_has_token(
                    hs[m].value,
                    token@,
                )),
        decreases count - n,
    {
        assert(hs[n as int] == headers@[n as int]@);
        let h = &headers[n];
        if bytes_eq_ignore_case(h.name.as_slice(), name) {
            if value_contains_token(h.value.as_slice(), token) {
                return true;
            }
        }
        n += 1;
    }
    false
}

/// Decides upgrade eligibility from the negotiation headers alone.
pub fn is_upgrade_request(req: &HttpRequest) -> (r: bool)
    ensures
        r == spec_is_upgrade_request(req@),
{
    let conn = connection_name_vec();
    let upg_tok = upgrade_token_vec();
    let upg = upgrade_name_vec();
    let ws_tok = websocket_token_vec();
    headers_contain_token(&req.headers, conn.as_slice(), upg_tok.as_slice())
        && headers_contain_token(&req.headers, upg.as_slice(), ws_tok.as_slice())
}


/// Appends a copy of `src` to `dst`.
pub fn push_all(dst: &mut Vec<u8>, src: &[u8])
    ensures
        final(dst)@ == old(dst)@ + src@,
{
    let n = src.len();
    let mut i: usize = 0;
    while i < n
        invariant
            n == src@.len(),
            i <= n,
            dst@ == old(dst)@ + src@.subrange(0, i as int),
        decreases n - i,
    {
        dst.push(src[i]);
        proof {
            assert(old(dst)@ + src@.subrange(0, i as int) + seq![src@[i as int]] =~= old(dst)@
                + src@.subrange(0, i + 1));
        }
        i += 1;
    }
    proof {
        assert(src@.subrange(0, n as int) =~= src@);
    }
}

/// Exact equality of two byte strings.
pub fn bytes_eq(a: &[u8], b: &[u8]) -> (r: bool)
    ensures
        r == (a@ == b@),
{
    if a.len() != b.len() {
        return false;
    }
    let n = a.len();
    let mut i: usize = 0;
    while i < n
        invariant
            n == a@.len() == b@.len(),
            i <= n,
            forall|k: int| 0 <= k < i ==> a@[k] == b@[k],
        decreases n - i,
    {
        if a[i] != b[i] {
            return false;
        }
        i += 1;
    }
    proof {
        assert(a@ =~= b@);
    }
    true
}

/// The SHA-1 digest of a byte sequence, named: it is a pure function of
/// the input, computed by an outside crate.
pub uninterp spec fn sha1_of(data: Seq<u8>) -> Seq<u8>;

/// The standard base64 encoding of a byte sequence, named: it is a pure
/// function of the input, computed by an outside crate.
pub uninterp spec fn base64_std_of(data: Seq<u8>) -> Seq<u8>;

/// Relies on sha1::Sha1 through the Digest trait: the digest depends on
/// the input bytes alone.
#[verifier::external_body]
fn sha1_digest(data: &Vec<u8>) -> (r: Vec<u8>)
    ensures
        r@ == sha1_of(data@),
{
    let digest = <sha1::Sha1 as sha1::Digest>::digest(data.as_slice());
    digest.as_slice().to_vec()
}

/// Relies on base64's STANDARD engine: the encoding depends on the input
/// bytes alone.
#[verifier::external_body]
fn base64_encode(data: &Vec<u8>) -> (r: Vec<u8>)
    ensures
        r@ == base64_std_of(data@),
{
    base64::Engine::encode(&base64::engine::general_purpose::STANDARD, data.as_slice())
        .into_bytes()
}

/// The accept key the handshake response owes for a request key: the
/// standard base64 encoding of the SHA-1 digest of the key followed by the
/// handshake GUID.
pub open spec fn accept_key_of(key: Seq<u8>) -> Seq<u8> {
    base64_std_of(sha1_of(key + handshake_guid()))
}

/// Derives the accept key for a request key.
pub fn accept_key(key: &Vec<u8>) -> (r: Vec<u8>)
    ensures
        r@ == accept_key_of(key@),
{
    let mut data: Vec<u8> = Vec::new();
    push_all(&mut data, key.as_slice());
    let mut guid = handshake_guid_vec();
    data.append(&mut guid);
    proof {
        assert(data@ =~= key@ + handshake_guid());
    }
    let digest = sha1_digest(&data);
    base64_encode(&digest)
}

/// The value of the first header named `name` (compared without regard to
/// ASCII case), if any.
pub open spec fn first_header_value(hs: Seq<HeaderModel>, name: Seq<u8>) -> Option<Seq<u8>>
    decreases hs.len(),
{
    if hs.len() == 0 {
        Option::None
    } else if eq_ignore_case(hs[0].name, name) {
        Option::Some(hs[0].value)
    } else {
        first_header_value(hs.drop_first(), name)
    }
}

/// Finds the first header named `name`, returning its position.
fn find_header(headers: &Vec<Header>, name: &[u8]) -> (r: Option<usize>)
    ensures
        match r {
            Option::Some(n) => n < headers@.len() && first_header_value(
                headers_model(headers@),
                name@,
            ) == Option::Some(headers@[n as int]@.value),
            Option::None => first_header_value(headers_model(headers@), name@)
                == Option::<Seq<u8>>::None,
        },
{
    let ghost hs = headers_model(headers@);
    proof {
        assert(hs.skip(0) =~= hs);
    }
    let count = headers.len();
    let mut n: usize = 0;
    while n < count
        invariant
            count == headers@.len(),
            hs == headers_model(headers@),
            n <= count,
            first_header_value(hs, name@) == first_header_value(hs.skip(n as int), name@),
        decreases count - n,
    {
        assert(hs[n as int] == headers@[n as int]@);
        assert(hs.skip(n as int)[0] == hs[n as int]);
        if bytes_eq_ignore_case(headers[n].name.as_slice(), name) {
            return Some(n);
        }
        proof {
            assert(hs.skip(n as int).drop_first() =~= hs.skip(n + 1));
        }
        n += 1;
    }
    proof {
        assert(hs.skip(count as int) =~= Seq::<HeaderModel>::empty());
    }
    None
}

/// Why an upgrade attempt was turned down.
#[derive(Clone, Copy, Debug, PartialEq, Eq, Structural)]
pub enum HandshakeError {
    /// The request carries no `Sec-WebSocket-Key` header.
    MissingKey,
    /// The request's `Sec-WebSocket-Version` header is absent or not `13`.
    BadVersion,
}

impl HandshakeError {
    /// The failure description the rejection response carries as its body.
    pub open spec fn spec_message(self) -> Seq<u8> {
        match self {
            HandshakeError::MissingKey => missing_key_text(),
            HandshakeError::BadVersion => bad_version_text(),
        }
    }

    /// The failure description the rejection response carries as its body.
    pub fn message(&self) -> (r: Vec<u8>)
        ensures
            r@ == self.spec_message(),
    {
        match self {
            HandshakeError::MissingKey => missing_key_text_vec(),
            HandshakeError::BadVersion => bad_version_text_vec(),
        }
    }
}

/// The headers of a successful handshake response.
pub open spec fn handshake_headers(key: Seq<u8>) -> Seq<HeaderModel> {
    seq![
        HeaderModel { name: connection_name(), value: upgrade_name() },
        HeaderModel { name: upgrade_name(), value: websocket_token() },
        HeaderModel { name: sec_websocket_accept_name(), value: accept_key_of(key) },
    ]
}

/// A successful handshake response: switching protocols, with the accept
/// key derived from the request key, and an empty body.
pub open spec fn spec_handshake_response(key: Seq<u8>) -> HttpResponseModel {
    HttpResponseModel {
        status: 101,
        version: HttpVersion::Http11,
        headers: handshake_headers(key),
        body: Seq::<u8>::empty(),
    }
}

/// What the handshake owes for a request: the key header is read first,
/// so a request that lacks it is turned down for the missing key even if
/// its version is also wrong; then the version must be exactly `13`.
pub open spec fn spec_handshake(r: HttpRequestModel) -> Result<HttpResponseModel, HandshakeError> {
    match first_header_value(r.headers, sec_websocket_key_name()) {
        Option::None => Result::Err(HandshakeError::MissingKey),
        Option::Some(key) => {
            if first_header_value(r.headers, sec_websocket_version_name()) == Option::Some(
                version_13(),
            ) {
                Result::Ok(spec_handshake_response(key))
            } else {
                Result::Err(HandshakeError::BadVersion)
            }
        },
    }
}

/// Performs the upgrade handshake: checks the negotiation headers and
/// synthesizes the switching-protocols response, or says exactly why the
/// attempt was turned down.
pub fn upgrade_handshake(req: &HttpRequest) -> (r: Result<HttpResponse, HandshakeError>)
    ensures
        match r {
            Result::Ok(resp) => spec_handshake(req@) == Result::<_, HandshakeError>::Ok(resp@),
            Result::Err(e) => spec_handshake(req@) == Result::<HttpResponseModel, _>::Err(e),
        },
{
    let key_name = sec_websocket_key_name_vec();
    let ki = match find_header(&req.headers, key_name.as_slice()) {
        Some(ki) => ki,
        None => {
            return Err(HandshakeError::MissingKey);
        },
    };
    let ver_name = sec_websocket_version_name_vec();
    let v13 = version_13_vec();
    let version_ok = match find_header(&req.headers, ver_name.as_slice()) {
        Some(vi) => bytes_eq(req.headers[vi].value.as_slice(), v13.as_slice()),
        None => false,
    };
    if !version_ok {
        return Err(HandshakeError::BadVersion);
    }
    let acc = accept_key(&req.headers[ki].value);
    let mut headers: Vec<Header> = Vec::new();
    headers.push(Header { name: connection_name_vec(), value: upgrade_name_vec() });
    headers.push(Header { name: upgrade_name_vec(), value: websocket_token_vec() });
    headers.push(Header { name: sec_websocket_accept_name_vec(), value: acc });
    let resp = HttpResponse {
        status: 101,
        version: HttpVersion::Http11,
        headers,
        body: Vec::new(),
    };
    proof {
        let key = req@.headers[ki as int].value;
        assert(headers_model(resp.headers@) =~= handshake_headers(key));
        assert(resp@ =~= spec_handshake_response(key));
    }
    Ok(resp)
}


/// What the HTTP echo path owes: status 200, and the request's version,
/// header set and body bytes unchanged.
pub open spec fn spec_echo(r: HttpRequestModel) -> HttpResponseModel {
    HttpResponseModel { status: 200, version: r.version, headers: r.headers, body: r.body }
}

/// Mirrors a request back: status 200, the request's own version, its full
/// header set verbatim, and its body bytes unchanged. Nothing is added.
pub fn echo(req: HttpRequest) -> (resp: HttpResponse)
    ensures
        resp@ == spec_echo(req@),
{
    let resp = HttpResponse {
        status: 200,
        version: req.version,
        headers: req.headers,
        body: req.body,
    };
    proof {
        assert(resp@ =~= spec_echo(req@));
    }
    resp
}

/// The response that turns an upgrade attempt down: a 400 whose body is
/// the failure description, with no headers added.
pub open spec fn spec_reject(e: HandshakeError) -> HttpResponseModel {
    HttpResponseModel {
        status: 400,
        version: HttpVersion::Http11,
        headers: Seq::<HeaderModel>::empty(),
        body: e.spec_message(),
    }
}

/// Builds the rejection response for a failed upgrade attempt.
pub fn to_response(e: HandshakeError) -> (resp: HttpResponse)
    ensures
        resp@ == spec_reject(e),
{
    let resp = HttpResponse {
        status: 400,
        version: HttpVersion::Http11,
        headers: Vec::new(),
        body: e.message(),
    };
    proof {
        assert(resp@ =~= spec_reject(e));
    }
    resp
}

/// How one request was answered. Exactly one response is produced per
/// request, in every branch; only `Upgraded` hands the caller a streaming
/// session to run.
pub enum DispatchOutcome {
    /// A plain exchange: the echoed response.
    Plain(HttpResponse),
    /// A successful upgrade: the handshake response to send synchronously;
    /// the caller then starts the streaming echo session as an independent
    /// unit of work.
    Upgraded(HttpResponse),
    /// A failed upgrade attempt: the rejection; no session is created.
    Rejected(HttpResponse),
}

/// Model of a dispatch outcome.
pub enum DispatchModel {
    Plain(HttpResponseModel),
    Upgraded(HttpResponseModel),
    Rejected(HttpResponseModel),
}

impl View for DispatchOutcome {
    type V = DispatchModel;

    open spec fn view(&self) -> DispatchModel {
        match self {
            DispatchOutcome::Plain(r) => DispatchModel::Plain(r@),
            DispatchOutcome::Upgraded(r) => DispatchModel::Upgraded(r@),
            DispatchOutcome::Rejected(r) => DispatchModel::Rejected(r@),
        }
    }
}

/// What the dispatcher owes for a request: a request that does not ask
/// for an upgrade is echoed and no session is created; an eligible upgrade
/// gets the handshake response and a session; a failed attempt gets the
/// 400 rejection and no session.
pub open spec fn spec_process(r: HttpRequestModel) -> DispatchModel {
    if !spec_is_upgrade_request(r) {
        DispatchModel::Plain(spec_echo(r))
    } else {
        match spec_handshake(r) {
            Result::Ok(resp) => DispatchModel::Upgraded(resp),
            Result::Err(e) => DispatchModel::Rejected(spec_reject(e)),
        }
    }
}

/// Routes one request: plain requests are echoed, upgrade attempts go
/// through the handshake. Exactly one response comes back; only the
/// `Upgraded` outcome asks the caller to start a streaming session.
pub fn process_request(req: HttpRequest) -> (out: DispatchOutcome)
    ensures
        out@ == spec_process(req@),
        !spec_is_upgrade_request(req@) ==> out is Plain,
        spec_is_upgrade_request(req@) && spec_handshake(req@) is Ok ==> out is Upgraded,
        spec_is_upgrade_request(req@) && spec_handshake(req@) is Err ==> out is Rejected,
{
    if !is_upgrade_request(&req) {
        DispatchOutcome::Plain(echo(req))
    } else {
        match upgrade_handshake(&req) {
            Result::Ok(resp) => DispatchOutcome::Upgraded(resp),
            Result::Err(e) => DispatchOutcome::Rejected(to_response(e)),
        }
    }
}

} // verus!
