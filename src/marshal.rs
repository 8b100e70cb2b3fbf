//! Crossing the native boundary: the request goes out as a pointer and a
//! signed 32-bit length, the response comes back as a NUL-terminated buffer.

use vstd::prelude::*;
use vstd::utf8::{decode_utf8, encode_utf8, valid_utf8};
use vstd::string::StringSliceAdditionalSpecFns;

use crate::error::BridgeError;

verus! {

/// The largest byte length the native entry point can be told about.
pub const MAX_REQUEST_LEN: usize = 2147483647;

/// The length handed to the native entry point for a request whose UTF-8
/// encoding is `bytes`, or the reason no such length exists.
pub open spec fn request_length_spec(bytes: Seq<u8>) -> Result<i32, BridgeError> {
    if bytes.len() <= i32::MAX {
        Ok(bytes.len() as i32)
    } else {
        Err(BridgeError::RequestTooLong)
    }
}

/// The bytes of a NUL-terminated buffer that precede its first NUL; the whole
/// buffer when it holds none.
pub open spec fn until_nul(buf: Seq<u8>) -> Seq<u8>
    decreases buf.len(),
{
    if buf.len() == 0 {
        buf
    } else if buf[0] == 0u8 {
        Seq::empty()
    } else {
        seq![buf[0]].add(until_nul(buf.drop_first()))
    }
}

/// What one call returns for `request` when the managed side answers the
/// request's bytes with the buffer `handler` gives for them.
pub open spec fn call_response(handler: spec_fn(Seq<u8>) -> Seq<u8>, request: Seq<char>) -> Seq<char> {
    lossy_utf8(until_nul(handler(encode_utf8(request))))
}

/// The text `String::from_utf8_lossy` makes of `bytes`.
pub uninterp spec fn lossy_utf8(bytes: Seq<u8>) -> Seq<char>;

/// Relies on `String::from_utf8_lossy`: valid UTF-8 is decoded as it is, and
/// each invalid sequence becomes U+FFFD instead of failing.
#[verifier::external_body]
fn lossy_decode(bytes: &[u8]) -> (r: String)
    ensures
        r@ == lossy_utf8(bytes@),
        valid_utf8(bytes@) ==> r@ == decode_utf8(bytes@),
        !valid_utf8(bytes@) ==> r@.contains('\u{FFFD}'),
{
    String::from_utf8_lossy(bytes).into_owned()
}

/// The first NUL of a buffer, wherever it stands, cuts the text there.
proof fn lemma_until_nul_is_prefix(buf: Seq<u8>, n: int)
    requires
        0 <= n <= buf.len(),
        forall|i: int| 0 <= i < n ==> buf[i] != 0u8,
        n < buf.len() ==> buf[n] == 0u8,
    ensures
        until_nul(buf) =~= buf.subrange(0, n),
    decreases n,
{
    if n > 0 {
        let rest = buf.drop_first();
        assert forall|i: int| 0 <= i < n - 1 implies rest[i] != 0u8 by {
            assert(rest[i] == buf[i + 1]);
        }
        lemma_until_nul_is_prefix(rest, n - 1);
        assert(buf.subrange(0, n) =~= seq![buf[0]].add(rest.subrange(0, n - 1)));
    }
}

/// The length to send along with `request`: its UTF-8 byte count, or
/// `RequestTooLong` where that count does not fit in an `i32`.
pub fn request_length(request: &str) -> (r: Result<i32, BridgeError>)
    ensures
        r == request_length_spec(request.spec_bytes()),
{
    let n = request.as_bytes().len();
    if n <= MAX_REQUEST_LEN {
        Ok(n as i32)
    } else {
        Err(BridgeError::RequestTooLong)
    }
}

/// Index of the first NUL in `buf`, or its length when it holds none.
pub fn nul_position(buf: &[u8]) -> (r: usize)
    ensures
        r <= buf@.len(),
        forall|i: int| 0 <= i < r ==> buf@[i] != 0u8,
        r < buf@.len() ==> buf@[r as int] == 0u8,
{
    let mut i: usize = 0;
    while i < buf.len()
        invariant
            i <= buf@.len(),
            forall|k: int| 0 <= k < i ==> buf@[k] != 0u8,
        decreases buf@.len() - i,
    {
        if buf[i] == 0u8 {
            return i;
        }
        i = i + 1;
    }
    i
}

/// The text of a response buffer handed back by the managed side: the bytes
/// before its first NUL, decoded as UTF-8 with invalid sequences replaced.
/// The buffer is consumed, so it is released exactly once, here.
pub fn decode_response(buffer: Vec<u8>) -> (r: String)
    ensures
        r@ == lossy_utf8(until_nul(buffer@)),
        valid_utf8(until_nul(buffer@)) ==> r@ == decode_utf8(until_nul(buffer@)),
        !valid_utf8(until_nul(buffer@)) ==> r@.contains('\u{FFFD}'),
{
    let mut buffer = buffer;
    let end = nul_position(buffer.as_slice());
    proof {
        lemma_until_nul_is_prefix(buffer@, end as int);
    }
    buffer.truncate(end);
    lossy_decode(buffer.as_slice())
}

/// With a managed handler that answers equal bytes with equal buffers, two
/// calls with the same request that fits the native length return the same
/// text, and send the same length.
pub proof fn lemma_same_request_same_response(
    handler: spec_fn(Seq<u8>) -> Seq<u8>,
    first: Seq<char>,
    second: Seq<char>,
)
    requires
        first == second,
        request_length_spec(encode_utf8(first)) is Ok,
    ensures
        request_length_spec(encode_utf8(first)) == request_length_spec(encode_utf8(second)),
        call_response(handler, first) == call_response(handler, second),
{
}

} // verus!
