//! What the connection handler decides between its reads and writes.
//!
//! One connection carries one request. Its handler reads until the header
//! block is complete, parses it, reads as many body bytes as the headers
//! declare, routes the request and writes the response. The reads and the
//! write belong to the caller; what lies between them is here.

use vstd::prelude::*;
use vstd::slice::slice_subrange;
use crate::bytes::{
    all_digits, decimal, decimal_value, is_digit, lemma_decimal_round_trip, CR, LF,
};
use crate::error::BodyError;
use crate::headers::HeaderMap;
use crate::request::{Request, RequestLine};
use crate::response::content_length;

verus! {

/// The header block is complete: the buffer ends with an empty line.
pub open spec fn ends_with_empty_line(s: Seq<u8>) -> bool {
    s.len() >= 4 && s.subrange(s.len() - 4, s.len() as int) == seq![CR, LF, CR, LF]
}

/// Tells whether the connection handler is done reading the header block,
/// after a read that added `bytes_read` bytes to `buf`: the peer has closed
/// the connection, or the block's last four bytes are the empty line.
pub fn header_block_complete(buf: &[u8], bytes_read: usize) -> (r: bool)
    ensures
        r == (bytes_read == 0 || ends_with_empty_line(buf@)),
{
    if bytes_read == 0 {
        return true;
    }
    let len = buf.len();
    if len < 4 {
        return false;
    }
    let r = buf[len - 4] == CR && buf[len - 3] == LF && buf[len - 2] == CR && buf[len - 1] == LF;
    proof {
        let tail = buf@.subrange(len - 4, len as int);
        if r {
            assert(tail =~= seq![CR, LF, CR, LF]);
        } else {
            assert(tail[0] == buf@[len - 4] && tail[1] == buf@[len - 3] && tail[2] == buf@[len - 2]
                && tail[3] == buf@[len - 1]);
        }
    }
    r
}

/// The number that `s` denotes, where it is made of ASCII digits and the
/// number is at most `i32::MAX`.
pub open spec fn parse_i32(s: Seq<u8>) -> Option<i32> {
    if all_digits(s) && decimal_value(s) <= i32::MAX {
        Some(decimal_value(s) as i32)
    } else {
        None
    }
}

/// A longer string of digits does not denote a smaller number.
proof fn lemma_decimal_value_prefix(s: Seq<u8>, n: int)
    requires
        all_digits(s),
        0 <= n <= s.len(),
    ensures
        decimal_value(s.take(n)) <= decimal_value(s),
    decreases s.len(),
{
    if n < s.len() {
        assert(all_digits(s.drop_last()));
        lemma_decimal_value_prefix(s.drop_last(), n);
        assert(s.drop_last().take(n) =~= s.take(n));
    } else {
        assert(s.take(n) =~= s);
    }
}

/// A length that is written in decimal is read back as it was written,
/// as long as it fits.
pub proof fn lemma_length_round_trip(n: nat)
    requires
        n <= i32::MAX,
    ensures
        parse_i32(decimal(n)) == Some(n as i32),
{
    lemma_decimal_round_trip(n);
}

/// Reads a decimal number. It fails where a byte is no ASCII digit and
/// where the number does not fit.
pub fn byte_slice_to_i32(bytes_slice: &[u8]) -> (r: Result<i32, BodyError>)
    ensures
        match parse_i32(bytes_slice@) {
            Some(n) => r matches Ok(value) && value == n,
            None => r matches Err(e) && e == BodyError::InvalidContentLength,
        },
{
    let ghost s = bytes_slice@;
    let mut total: i32 = 0;
    let mut i: usize = 0;
    while i < bytes_slice.len()
        invariant
            s == bytes_slice@,
            i <= s.len(),
            all_digits(s.take(i as int)),
            total == decimal_value(s.take(i as int)),
            0 <= total,
        decreases s.len() - i,
    {
        let byte = bytes_slice[i];
        let ghost next = s.take(i as int + 1);
        proof {
            assert(next.drop_last() =~= s.take(i as int));
        }
        if 48 <= byte && byte <= 57 {
            let cur: i32 = (byte - 48) as i32;
            if total > (i32::MAX - cur) / 10 {
                proof {
                    if all_digits(s) {
                        lemma_decimal_value_prefix(s, i as int + 1);
                    }
                }
                return Err(BodyError::InvalidContentLength);
            }
            total = total * 10 + cur;
        } else {
            return Err(BodyError::InvalidContentLength);
        }
        i += 1;
    }
    assert(s.take(i as int) =~= s);
    Ok(total)
}

/// The number of body bytes that headers declare.
///
/// The header is looked up under the exact name `Content-Length`. A request
/// without it declares nothing, which is no failure of the request; a value
/// that is no number, or too large a one, is.
pub open spec fn declared_length(headers: Map<Seq<u8>, Seq<u8>>) -> Result<nat, BodyError> {
    if !headers.dom().contains(content_length()) {
        Err(BodyError::NoContentLength)
    } else {
        match parse_i32(headers[content_length()]) {
            Some(n) => Ok(n as nat),
            None => Err(BodyError::InvalidContentLength),
        }
    }
}

/// The body of a request, cut from `stream`: the bytes that came over the
/// connection after the header block.
///
/// The body is the first bytes of the stream, as many as the headers
/// declare. A stream that is shorter than that is an error of its own, and
/// so is the absence of a declared length.
pub open spec fn body_of(headers: Map<Seq<u8>, Seq<u8>>, stream: Seq<u8>) -> Result<
    Seq<u8>,
    BodyError,
> {
    match declared_length(headers) {
        Err(e) => Err(e),
        Ok(n) => if n <= stream.len() {
            Ok(stream.take(n as int))
        } else {
            Err(BodyError::Truncated)
        },
    }
}

/// Tells how many body bytes the connection handler has to read.
pub fn content_length_of(headers: &HeaderMap<&[u8]>) -> (r: Result<usize, BodyError>)
    ensures
        match declared_length(headers@) {
            Ok(n) => r matches Ok(size) && size == n,
            Err(e) => r matches Err(found) && found == e,
        },
{
    let size = match headers.get("Content-Length".as_bytes()) {
        Some(size) => size,
        None => return Err(BodyError::NoContentLength),
    };
    match byte_slice_to_i32(size) {
        Ok(size) => Ok(size as usize),
        Err(e) => Err(e),
    }
}

/// Tells how many bytes the connection handler has to read after the
/// header block: as many as the headers declare, and none where they
/// declare nothing. It fails where the declared length is no number; the
/// connection is then closed without a response.
pub fn expected_body_length(headers: &HeaderMap<&[u8]>) -> (r: Result<usize, BodyError>)
    ensures
        match declared_length(headers@) {
            Ok(n) => r matches Ok(size) && size == n,
            Err(BodyError::NoContentLength) => r matches Ok(size) && size == 0,
            Err(e) => r matches Err(found) && found == e,
        },
{
    match content_length_of(headers) {
        Err(BodyError::NoContentLength) => Ok(0),
        r => r,
    }
}

/// Cuts the body out of what was read after the header block.
pub fn read_body<'a>(stream: &'a [u8], headers: &HeaderMap<&[u8]>) -> (r: Result<
    &'a [u8],
    BodyError,
>)
    ensures
        match body_of(headers@, stream@) {
            Ok(body) => r matches Ok(found) && found@ == body,
            Err(e) => r matches Err(found) && found == e,
        },
{
    let size = match content_length_of(headers) {
        Ok(size) => size,
        Err(e) => return Err(e),
    };
    if size <= stream.len() {
        Ok(slice_subrange(stream, 0, size))
    } else {
        Err(BodyError::Truncated)
    }
}

impl<'buf> Request<'buf> {
    /// The body is as long as the headers declare, and empty where they
    /// declare nothing. This holds of every request that `assemble_request`
    /// makes.
    pub open spec fn well_formed(&self) -> bool {
        match declared_length(self.headers@) {
            Ok(n) => self.body@.len() == n,
            Err(BodyError::NoContentLength) => self.body@.len() == 0,
            Err(_) => false,
        }
    }
}

/// Makes the request out of a parsed header block and of `stream`, the
/// bytes that were read after it.
///
/// A request without a declared length gets an empty body. One whose
/// declared length is no number, or whose stream ended early, is refused:
/// the connection is then closed without a response.
pub fn assemble_request<'buf>(
    request_line: RequestLine,
    headers: HeaderMap<&'buf [u8]>,
    stream: &'buf [u8],
) -> (r: Result<Request<'buf>, BodyError>)
    ensures
        match body_of(headers@, stream@) {
            Ok(body) => r matches Ok(request) && request.request_line == request_line
                && request.headers == headers && request.body@ == body,
            Err(BodyError::NoContentLength) => r matches Ok(request) && request.request_line
                == request_line && request.headers == headers && request.body@.len() == 0,
            Err(e) => r matches Err(found) && found == e,
        },
        r matches Ok(request) ==> request.well_formed(),
{
    let body = match read_body(stream, &headers) {
        Ok(body) => body,
        Err(BodyError::NoContentLength) => slice_subrange(stream, 0, 0),
        Err(e) => return Err(e),
    };
    Ok(Request { request_line, headers, body })
}

/// The event-driven server. It is a placeholder: it does nothing and
/// returns at once.
pub fn run_ipv4_server_event_based(ip: &str, port: u16) {
}

} // verus!
