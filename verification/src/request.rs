//! The request model and the parser of the header block.

use vstd::prelude::*;
use vstd::slice::{slice_subrange, slice_to_vec};
use vstd::utf8::{decode_utf8, encode_utf8, valid_utf8};
use crate::bytes::{ascii, bytes_eq, is_ascii_whitespace, is_whitespace, lemma_text_ascii, text, COLON, CR, LF};
use crate::error::ParseError;
use crate::headers::{put, Entry, HeaderMap};
use crate::http_utils::HttpProtocol;

verus! {

/// The request methods.
#[derive(Clone, Copy, Debug, PartialEq, Eq, Structural)]
pub enum HttpMethod {
    GET,
    POST,
    PUT,
    DELETE,
    HEAD,
    OPTIONS,
    TRACE,
    CONNECT,
}

impl HttpMethod {
    /// The token that stands for this method on the wire.
    pub open spec fn token(self) -> Seq<u8> {
        match self {
            HttpMethod::GET => text("GET"),
            HttpMethod::POST => text("POST"),
            HttpMethod::PUT => text("PUT"),
            HttpMethod::DELETE => text("DELETE"),
            HttpMethod::HEAD => text("HEAD"),
            HttpMethod::OPTIONS => text("OPTIONS"),
            HttpMethod::TRACE => text("TRACE"),
            HttpMethod::CONNECT => text("CONNECT"),
        }
    }

    /// The method that a token names, if any. Tokens are matched byte for
    /// byte: case matters, and nothing is trimmed.
    pub open spec fn parse(bytes: Seq<u8>) -> Option<HttpMethod> {
        if bytes == HttpMethod::GET.token() {
            Some(HttpMethod::GET)
        } else if bytes == HttpMethod::POST.token() {
            Some(HttpMethod::POST)
        } else if bytes == HttpMethod::PUT.token() {
            Some(HttpMethod::PUT)
        } else if bytes == HttpMethod::DELETE.token() {
            Some(HttpMethod::DELETE)
        } else if bytes == HttpMethod::HEAD.token() {
            Some(HttpMethod::HEAD)
        } else if bytes == HttpMethod::OPTIONS.token() {
            Some(HttpMethod::OPTIONS)
        } else if bytes == HttpMethod::TRACE.token() {
            Some(HttpMethod::TRACE)
        } else if bytes == HttpMethod::CONNECT.token() {
            Some(HttpMethod::CONNECT)
        } else {
            None
        }
    }

    /// The wire token of this method.
    pub fn as_bytes(&self) -> (r: &'static [u8])
        ensures
            r@ == self.token(),
    {
        match self {
            HttpMethod::GET => "GET".as_bytes(),
            HttpMethod::POST => "POST".as_bytes(),
            HttpMethod::PUT => "PUT".as_bytes(),
            HttpMethod::DELETE => "DELETE".as_bytes(),
            HttpMethod::HEAD => "HEAD".as_bytes(),
            HttpMethod::OPTIONS => "OPTIONS".as_bytes(),
            HttpMethod::TRACE => "TRACE".as_bytes(),
            HttpMethod::CONNECT => "CONNECT".as_bytes(),
        }
    }

    /// The tokens, written out byte by byte.
    pub proof fn lemma_tokens()
        ensures
            HttpMethod::GET.token() == ascii(seq!['G', 'E', 'T']),
            HttpMethod::POST.token() == ascii(seq!['P', 'O', 'S', 'T']),
            HttpMethod::PUT.token() == ascii(seq!['P', 'U', 'T']),
            HttpMethod::DELETE.token() == ascii(seq!['D', 'E', 'L', 'E', 'T', 'E']),
            HttpMethod::HEAD.token() == ascii(seq!['H', 'E', 'A', 'D']),
            HttpMethod::OPTIONS.token() == ascii(seq!['O', 'P', 'T', 'I', 'O', 'N', 'S']),
            HttpMethod::TRACE.token() == ascii(seq!['T', 'R', 'A', 'C', 'E']),
            HttpMethod::CONNECT.token() == ascii(seq!['C', 'O', 'N', 'N', 'E', 'C', 'T']),
    {
        reveal_strlit("GET");
        reveal_strlit("POST");
        reveal_strlit("PUT");
        reveal_strlit("DELETE");
        reveal_strlit("HEAD");
        reveal_strlit("OPTIONS");
        reveal_strlit("TRACE");
        reveal_strlit("CONNECT");
        lemma_text_ascii("GET");
        lemma_text_ascii("POST");
        lemma_text_ascii("PUT");
        lemma_text_ascii("DELETE");
        lemma_text_ascii("HEAD");
        lemma_text_ascii("OPTIONS");
        lemma_text_ascii("TRACE");
        lemma_text_ascii("CONNECT");
    }

    /// The round trip of the tokens: the token of a method parses to that
    /// method, so that what was parsed is written out as the bytes that were
    /// read. And nothing but its token parses to a method.
    pub proof fn lemma_round_trip(m: HttpMethod)
        ensures
            HttpMethod::parse(m.token()) == Some(m),
            HttpMethod::parse(m.token()) matches Some(parsed) && parsed.token() == m.token(),
            forall|bytes: Seq<u8>| HttpMethod::parse(bytes) == Some(m) ==> bytes == m.token(),
    {
        HttpMethod::lemma_tokens();
        let get = HttpMethod::GET.token();
        let post = HttpMethod::POST.token();
        let put = HttpMethod::PUT.token();
        let delete = HttpMethod::DELETE.token();
        let head = HttpMethod::HEAD.token();
        let options = HttpMethod::OPTIONS.token();
        let trace = HttpMethod::TRACE.token();
        let connect = HttpMethod::CONNECT.token();
        assert(get.len() == 3 && put.len() == 3 && post.len() == 4 && head.len() == 4);
        assert(trace.len() == 5 && delete.len() == 6 && options.len() == 7 && connect.len() == 7);
        assert(get[0] != put[0]);
        assert(post[0] != head[0]);
        assert(options[0] != connect[0]);
    }
}

impl<'a> TryFrom<&'a [u8]> for HttpMethod {
    type Error = ParseError;

    /// Reads a wire token. What it returns is said by `try_from_spec`
    /// below: the method that `parse` finds, or the error.
    fn try_from(method: &'a [u8]) -> (r: Result<Self, Self::Error>) {
        if bytes_eq(method, HttpMethod::GET.as_bytes()) {
            Ok(HttpMethod::GET)
        } else if bytes_eq(method, HttpMethod::POST.as_bytes()) {
            Ok(HttpMethod::POST)
        } else if bytes_eq(method, HttpMethod::PUT.as_bytes()) {
            Ok(HttpMethod::PUT)
        } else if bytes_eq(method, HttpMethod::DELETE.as_bytes()) {
            Ok(HttpMethod::DELETE)
        } else if bytes_eq(method, HttpMethod::HEAD.as_bytes()) {
            Ok(HttpMethod::HEAD)
        } else if bytes_eq(method, HttpMethod::OPTIONS.as_bytes()) {
            Ok(HttpMethod::OPTIONS)
        } else if bytes_eq(method, HttpMethod::TRACE.as_bytes()) {
            Ok(HttpMethod::TRACE)
        } else if bytes_eq(method, HttpMethod::CONNECT.as_bytes()) {
            Ok(HttpMethod::CONNECT)
        } else {
            Err(ParseError::UnknownMethod)
        }
    }
}

impl<'a> vstd::std_specs::convert::TryFromSpecImpl<&'a [u8]> for HttpMethod {
    open spec fn obeys_try_from_spec() -> bool {
        true
    }

    open spec fn try_from_spec(method: &'a [u8]) -> Result<Self, Self::Error> {
        match HttpMethod::parse(method@) {
            Some(m) => Ok(m),
            None => Err(ParseError::UnknownMethod),
        }
    }
}

/// The first line of a request.
#[derive(Debug)]
pub struct RequestLine {
    pub method: HttpMethod,
    /// The path as it came over the wire; nothing is percent-decoded.
    pub path: String,
    pub protocol: HttpProtocol,
}

/// A request line as a value of mathematics.
pub ghost struct RequestLineView {
    pub method: HttpMethod,
    pub path: Seq<char>,
    pub protocol: HttpProtocol,
}

impl View for RequestLine {
    type V = RequestLineView;

    open spec fn view(&self) -> RequestLineView {
        RequestLineView { method: self.method, path: self.path@, protocol: self.protocol }
    }
}

/// A parsed request. The headers and the body borrow from the buffers that
/// were read from the connection; nothing is copied.
#[derive(Debug)]
pub struct Request<'buf> {
    pub request_line: RequestLine,
    pub headers: HeaderMap<&'buf [u8]>,
    pub body: &'buf [u8],
}

impl<'buf> Request<'buf> {
    /// The path of the request as bytes.
    pub open spec fn path(&self) -> Seq<u8> {
        encode_utf8(self.request_line.path@)
    }
}

/// `s` without its leading ASCII whitespace.
pub open spec fn trim_start(s: Seq<u8>) -> Seq<u8>
    decreases s.len(),
{
    if s.len() > 0 && is_ascii_whitespace(s[0]) {
        trim_start(s.drop_first())
    } else {
        s
    }
}

/// `s` without its trailing ASCII whitespace.
pub open spec fn trim_end(s: Seq<u8>) -> Seq<u8>
    decreases s.len(),
{
    if s.len() > 0 && is_ascii_whitespace(s.last()) {
        trim_end(s.drop_last())
    } else {
        s
    }
}

/// `s` without its leading and trailing ASCII whitespace. A string of
/// whitespace alone is trimmed to the empty string.
pub open spec fn trimmed(s: Seq<u8>) -> Seq<u8> {
    trim_end(trim_start(s))
}

/// Where the leading whitespace of `s` ends: everything before that place
/// is whitespace, the byte at it is not, and `trim_start` keeps what begins
/// there.
pub proof fn lemma_trim_start(s: Seq<u8>) -> (from: int)
    ensures
        0 <= from <= s.len(),
        trim_start(s) == s.subrange(from, s.len() as int),
        forall|i: int| 0 <= i < from ==> is_ascii_whitespace(#[trigger] s[i]),
        from < s.len() ==> !is_ascii_whitespace(s[from]),
    decreases s.len(),
{
    if s.len() > 0 && is_ascii_whitespace(s[0]) {
        let rest = s.drop_first();
        let from = lemma_trim_start(rest);
        assert forall|i: int| 0 <= i < from + 1 implies is_ascii_whitespace(#[trigger] s[i]) by {
            if i > 0 {
                assert(s[i] == rest[i - 1]);
            }
        }
        from + 1
    } else {
        0
    }
}

/// Where the trailing whitespace of `s` begins: everything from that place
/// on is whitespace, the byte before it is not, and `trim_end` keeps what
/// ends there.
pub proof fn lemma_trim_end(s: Seq<u8>) -> (to: int)
    ensures
        0 <= to <= s.len(),
        trim_end(s) == s.subrange(0, to),
        forall|i: int| to <= i < s.len() ==> is_ascii_whitespace(#[trigger] s[i]),
        0 < to ==> !is_ascii_whitespace(s[to - 1]),
    decreases s.len(),
{
    if s.len() > 0 && is_ascii_whitespace(s.last()) {
        let rest = s.drop_last();
        let to = lemma_trim_end(rest);
        assert forall|i: int| to <= i < s.len() implies is_ascii_whitespace(#[trigger] s[i]) by {
            if i < rest.len() {
                assert(s[i] == rest[i]);
            }
        }
        to
    } else {
        s.len() as int
    }
}

/// What trimming does: it keeps one stretch of `s`, cuts whitespace only,
/// and leaves no whitespace at either end of what it keeps.
pub proof fn lemma_trimmed(s: Seq<u8>) -> (kept: (int, int))
    ensures
        0 <= kept.0 <= kept.1 <= s.len(),
        trimmed(s) == s.subrange(kept.0, kept.1),
        forall|i: int| 0 <= i < kept.0 ==> is_ascii_whitespace(#[trigger] s[i]),
        forall|i: int| kept.1 <= i < s.len() ==> is_ascii_whitespace(#[trigger] s[i]),
        kept.0 < kept.1 ==> !is_ascii_whitespace(s[kept.0]) && !is_ascii_whitespace(s[kept.1 - 1]),
{
    let from = lemma_trim_start(s);
    let rest = s.subrange(from, s.len() as int);
    let to = lemma_trim_end(rest);
    assert forall|i: int| from + to <= i < s.len() implies is_ascii_whitespace(#[trigger] s[i]) by {
        assert(s[i] == rest[i - from]);
    }
    (from, from + to)
}

/// Strips the ASCII whitespace at both ends of `byte_slice`.
pub fn trim_byte_slice(byte_slice: &[u8]) -> (r: &[u8])
    ensures
        r@ == trimmed(byte_slice@),
{
    let ghost s = byte_slice@;
    let len = byte_slice.len();
    let mut start: usize = 0;
    assert(s.subrange(0, len as int) =~= s);
    while start < len && is_whitespace(byte_slice[start])
        invariant
            s == byte_slice@,
            len == s.len(),
            start <= len,
            trim_start(s) == trim_start(s.subrange(start as int, len as int)),
        decreases len - start,
    {
        assert(s.subrange(start as int, len as int).drop_first() =~= s.subrange(
            start as int + 1,
            len as int,
        ));
        start += 1;
    }
    let ghost rest = s.subrange(start as int, len as int);
    let mut end: usize = len;
    while end > start && is_whitespace(byte_slice[end - 1])
        invariant
            s == byte_slice@,
            start <= end <= len,
            len == s.len(),
            trim_end(rest) == trim_end(s.subrange(start as int, end as int)),
        decreases end - start,
    {
        assert(s.subrange(start as int, end as int).drop_last() =~= s.subrange(
            start as int,
            end as int - 1,
        ));
        end -= 1;
    }
    slice_subrange(byte_slice, start, end)
}

/// The place of the first ASCII whitespace byte of `s` at or after `from`,
/// or the length of `s` where there is none.
pub open spec fn field_end(s: Seq<u8>, from: int) -> int
    decreases s.len() - from,
{
    if from >= s.len() {
        s.len() as int
    } else if is_ascii_whitespace(s[from]) {
        from
    } else {
        field_end(s, from + 1)
    }
}

/// What a request line holds. The line is cut at every ASCII whitespace
/// byte; the first three fields are the method, the path and the protocol,
/// and what follows the third field is not read. Two whitespace bytes in a
/// row enclose an empty field.
pub open spec fn parse_line(line: Seq<u8>) -> Result<RequestLineView, ParseError> {
    let first = field_end(line, 0);
    let second = field_end(line, first + 1);
    let third = field_end(line, second + 1);
    if first >= line.len() || second >= line.len() {
        Err(ParseError::MissingToken)
    } else {
        let method = line.subrange(0, first);
        let path = line.subrange(first + 1, second);
        let protocol = line.subrange(second + 1, third);
        match HttpMethod::parse(method) {
            None => Err(ParseError::UnknownMethod),
            Some(m) => if !valid_utf8(path) {
                Err(ParseError::InvalidPath)
            } else {
                match HttpProtocol::parse(protocol) {
                    None => Err(ParseError::UnknownProtocol),
                    Some(p) => Ok(RequestLineView { method: m, path: decode_utf8(path), protocol: p }),
                }
            },
        }
    }
}

/// The end of the field of `s` that begins at `from`.
fn find_whitespace(s: &[u8], from: usize) -> (r: usize)
    requires
        from <= s@.len(),
    ensures
        r == field_end(s@, from as int),
        from <= r <= s@.len(),
{
    let mut i: usize = from;
    while i < s.len() && !is_whitespace(s[i])
        invariant
            from <= i <= s@.len(),
            field_end(s@, from as int) == field_end(s@, i as int),
        decreases s@.len() - i,
    {
        i += 1;
    }
    i
}

/// `String::from_utf8` of the standard library: the text that `bytes`
/// encode, and nothing where they are not valid UTF-8. This contract is
/// taken from the documentation of that function and is not proved here.
#[verifier::external_body]
fn string_from_utf8(bytes: Vec<u8>) -> (r: Option<String>)
    ensures
        r is Some <==> valid_utf8(bytes@),
        r matches Some(s) ==> s@ == decode_utf8(bytes@),
{
    String::from_utf8(bytes).ok()
}

/// Parses a request line, given without its line terminator.
pub fn parse_request_line(request_line: &[u8]) -> (r: Result<RequestLine, ParseError>)
    ensures
        match parse_line(request_line@) {
            Ok(line) => r matches Ok(parsed) && parsed@ == line,
            Err(e) => r matches Err(found) && found == e,
        },
{
    let len = request_line.len();
    let first = find_whitespace(request_line, 0);
    if first >= len {
        return Err(ParseError::MissingToken);
    }
    let second = find_whitespace(request_line, first + 1);
    if second >= len {
        return Err(ParseError::MissingToken);
    }
    let third = find_whitespace(request_line, second + 1);
    let method = match HttpMethod::try_from(slice_subrange(request_line, 0, first)) {
        Ok(method) => method,
        Err(e) => return Err(e),
    };
    let path = match string_from_utf8(slice_to_vec(slice_subrange(request_line, first + 1, second))) {
        Some(path) => path,
        None => return Err(ParseError::InvalidPath),
    };
    let protocol = match HttpProtocol::try_from(slice_subrange(request_line, second + 1, third)) {
        Ok(protocol) => protocol,
        Err(e) => return Err(e),
    };
    Ok(RequestLine { method, path, protocol })
}

/// A line terminator begins at place `i` of `s`.
pub open spec fn crlf_at(s: Seq<u8>, i: int) -> bool {
    0 <= i && i + 1 < s.len() && s[i] == CR && s[i + 1] == LF
}

/// The places below `n` at which a line terminator begins, in rising order.
pub open spec fn crlf_offsets(s: Seq<u8>, n: int) -> Seq<int>
    decreases n,
{
    if n <= 0 {
        Seq::empty()
    } else if crlf_at(s, n - 1) {
        crlf_offsets(s, n - 1).push(n - 1)
    } else {
        crlf_offsets(s, n - 1)
    }
}

/// Every offset is the place of a line terminator, and two terminators do
/// not overlap.
pub proof fn lemma_crlf_offsets(s: Seq<u8>, n: int)
    ensures
        forall|k: int|
            0 <= k < crlf_offsets(s, n).len() ==> crlf_at(s, #[trigger] crlf_offsets(s, n)[k])
                && crlf_offsets(s, n)[k] < n,
        forall|k: int|
            0 < k < crlf_offsets(s, n).len() ==> crlf_offsets(s, n)[k - 1] + 2
                <= #[trigger] crlf_offsets(s, n)[k],
    decreases n,
{
    if n > 0 {
        lemma_crlf_offsets(s, n - 1);
        let before = crlf_offsets(s, n - 1);
        if crlf_at(s, n - 1) && before.len() > 0 {
            // the byte behind a terminator's first byte is a line feed, so no
            // terminator begins there
            let last = before[before.len() - 1];
            assert(crlf_at(s, last));
            assert(last + 1 != n - 1);
        }
    }
}

/// The place of the first colon of `line`, or its length where it has none.
pub open spec fn colon_index(line: Seq<u8>, from: int) -> int
    decreases line.len() - from,
{
    if from >= line.len() {
        line.len() as int
    } else if line[from] == COLON {
        from
    } else {
        colon_index(line, from + 1)
    }
}

/// The name and the value of a header line: what stands before its first
/// colon, as it is, and what stands behind it, trimmed. A line without a
/// colon is no header.
pub open spec fn split_header(line: Seq<u8>) -> Option<Entry> {
    let colon = colon_index(line, 0);
    if colon >= line.len() {
        None
    } else {
        Some((line.subrange(0, colon), trimmed(line.subrange(colon + 1, line.len() as int))))
    }
}

/// The place at which line `k` of the buffer begins, where `offsets` are
/// the places of its line terminators.
pub open spec fn line_start(offsets: Seq<int>, k: int) -> int {
    if k <= 0 {
        0
    } else {
        offsets[k - 1] + 2
    }
}

/// Line `k` of the buffer, without its terminator.
pub open spec fn line(s: Seq<u8>, offsets: Seq<int>, k: int) -> Seq<u8> {
    s.subrange(line_start(offsets, k), offsets[k])
}

/// The number of the first line, from line `k` on, that is empty or has no
/// terminator: the line at which the headers end.
pub open spec fn headers_end(s: Seq<u8>, offsets: Seq<int>, k: int) -> int
    decreases offsets.len() - k,
{
    if k >= offsets.len() || line(s, offsets, k).len() == 0 {
        k
    } else {
        headers_end(s, offsets, k + 1)
    }
}

/// The header lines: those after the request line and before the first
/// empty line.
pub open spec fn header_lines(s: Seq<u8>, offsets: Seq<int>) -> Seq<Seq<u8>> {
    Seq::new((headers_end(s, offsets, 1) - 1) as nat, |i: int| line(s, offsets, i + 1))
}

/// The entries that header lines give, taken in their order, so that of two
/// lines with one name the later one stays. Nothing where a line has no
/// colon.
pub open spec fn collect_headers(lines: Seq<Seq<u8>>) -> Option<Seq<Entry>>
    decreases lines.len(),
{
    if lines.len() == 0 {
        Some(Seq::empty())
    } else {
        match (collect_headers(lines.drop_last()), split_header(lines.last())) {
            (Some(entries), Some((name, value))) => Some(put(entries, name, value)),
            _ => None,
        }
    }
}

/// What a header block holds: the request line and the header entries.
///
/// It is refused where it has fewer than three line terminators (a request
/// line, one header and the empty line need three), where the request line
/// is refused, and where a header line has no colon, in this order.
pub open spec fn parse_head(s: Seq<u8>) -> Result<(RequestLineView, Seq<Entry>), ParseError> {
    let offsets = crlf_offsets(s, s.len() as int);
    if offsets.len() <= 2 {
        Err(ParseError::TooFewLines)
    } else {
        match parse_line(line(s, offsets, 0)) {
            Err(e) => Err(e),
            Ok(request_line) => match collect_headers(header_lines(s, offsets)) {
                None => Err(ParseError::MissingColon),
                Some(entries) => Ok((request_line, entries)),
            },
        }
    }
}

/// The headers end at or after the line from which one looks for their end.
proof fn lemma_headers_end_bounds(s: Seq<u8>, offsets: Seq<int>, k: int)
    ensures
        k <= headers_end(s, offsets, k),
        k <= offsets.len() ==> headers_end(s, offsets, k) <= offsets.len(),
    decreases offsets.len() - k,
{
    if k < offsets.len() && line(s, offsets, k).len() > 0 {
        lemma_headers_end_bounds(s, offsets, k + 1);
    }
}

/// One line without a colon spoils the whole block.
proof fn lemma_collect_none(lines: Seq<Seq<u8>>, i: int)
    requires
        0 <= i < lines.len(),
        split_header(lines[i]) is None,
    ensures
        collect_headers(lines) is None,
    decreases lines.len(),
{
    if i < lines.len() - 1 {
        lemma_collect_none(lines.drop_last(), i);
    }
}

/// The places at which a line terminator begins.
fn crlf_positions(buf: &[u8]) -> (r: Vec<usize>)
    ensures
        r@.map_values(|x: usize| x as int) == crlf_offsets(buf@, buf@.len() as int),
{
    let mut positions: Vec<usize> = Vec::new();
    let len = buf.len();
    if len < 2 {
        proof {
            reveal_with_fuel(crlf_offsets, 2);
        }
        return positions;
    }
    let mut i: usize = 0;
    while i + 1 < len
        invariant
            len == buf@.len(),
            len >= 2,
            i + 1 <= len,
            positions@.map_values(|x: usize| x as int) == crlf_offsets(buf@, i as int),
        decreases len - i,
    {
        if buf[i] == CR && buf[i + 1] == LF {
            positions.push(i);
        }
        i += 1;
    }
    positions
}

/// Cuts a header line at its first colon.
fn split_header_line<'a>(line: &'a [u8]) -> (r: Option<(&'a [u8], &'a [u8])>)
    ensures
        match split_header(line@) {
            Some((name, value)) => r matches Some(pair) && pair.0@ == name && pair.1@ == value,
            None => r is None,
        },
{
    let len = line.len();
    let mut colon: usize = 0;
    while colon < len && line[colon] != COLON
        invariant
            len == line@.len(),
            colon <= len,
            colon_index(line@, 0) == colon_index(line@, colon as int),
        decreases len - colon,
    {
        colon += 1;
    }
    if colon >= len {
        None
    } else {
        let name = slice_subrange(line, 0, colon);
        let value = trim_byte_slice(slice_subrange(line, colon + 1, len));
        Some((name, value))
    }
}

/// Reads the header lines of `buf`, whose line terminators begin at
/// `positions`.
fn parse_header_lines<'a>(buf: &'a [u8], positions: &Vec<usize>) -> (r: Option<HeaderMap<&'a [u8]>>)
    requires
        positions@.len() > 0,
        positions@.map_values(|x: usize| x as int) == crlf_offsets(buf@, buf@.len() as int),
    ensures
        match collect_headers(header_lines(buf@, positions@.map_values(|x: usize| x as int))) {
            Some(entries) => r matches Some(headers) && headers.entries() == entries,
            None => r is None,
        },
{
    let ghost s = buf@;
    let ghost offsets = positions@.map_values(|x: usize| x as int);
    let len = buf.len();
    proof {
        lemma_crlf_offsets(s, s.len() as int);
        assert(crlf_at(s, offsets[0]));
    }
    let mut headers: HeaderMap<&[u8]> = HeaderMap::new();
    let mut start: usize = positions[0] + 2;
    let mut k: usize = 1;
    while k < positions.len()
        invariant_except_break
            1 <= k <= positions@.len(),
            start == line_start(offsets, k as int),
            collect_headers(Seq::new((k - 1) as nat, |i: int| line(s, offsets, i + 1))) == Some(
                headers.entries(),
            ),
            headers_end(s, offsets, k as int) == headers_end(s, offsets, 1),
        invariant
            s == buf@,
            s.len() == len,
            offsets == positions@.map_values(|x: usize| x as int),
            forall|j: int|
                0 <= j < offsets.len() ==> crlf_at(s, #[trigger] offsets[j]) && offsets[j]
                    < s.len(),
            forall|j: int| 0 < j < offsets.len() ==> offsets[j - 1] + 2 <= #[trigger] offsets[j],
        ensures
            1 <= k <= positions@.len(),
            headers_end(s, offsets, 1) == k,
            collect_headers(Seq::new((k - 1) as nat, |i: int| line(s, offsets, i + 1))) == Some(
                headers.entries(),
            ),
        decreases positions@.len() - k,
    {
        let end = positions[k];
        if start == end {
            break;
        }
        let ghost lines = Seq::new(k as nat, |i: int| line(s, offsets, i + 1));
        proof {
            assert(lines.drop_last() =~= Seq::new((k - 1) as nat, |i: int| line(s, offsets, i + 1)));
            lemma_headers_end_bounds(s, offsets, k as int + 1);
        }
        match split_header_line(slice_subrange(buf, start, end)) {
            None => {
                proof {
                    lemma_collect_none(header_lines(s, offsets), k as int - 1);
                }
                return None;
            },
            Some((name, value)) => {
                headers.insert(name, value);
            },
        }
        start = end + 2;
        k += 1;
    }
    Some(headers)
}

/// Parses a header block: everything that was read from the connection up
/// to and including the empty line that ends the headers.
///
/// The result borrows from `request_buf`. Header names are kept as they are
/// written, values are trimmed, and of two header lines with one name the
/// later one stays.
pub fn parse_request_before_body(request_buf: &Vec<u8>) -> (r: Result<
    (RequestLine, HeaderMap<&[u8]>),
    ParseError,
>)
    ensures
        match parse_head(request_buf@) {
            Ok((request_line, entries)) => r matches Ok(parsed) && parsed.0@ == request_line
                && parsed.1.entries() == entries,
            Err(e) => r matches Err(found) && found == e,
        },
{
    let buf: &[u8] = request_buf.as_slice();
    let positions = crlf_positions(buf);
    if positions.len() <= 2 {
        return Err(ParseError::TooFewLines);
    }
    proof {
        lemma_crlf_offsets(buf@, buf@.len() as int);
    }
    let request_line = match parse_request_line(slice_subrange(buf, 0, positions[0])) {
        Ok(request_line) => request_line,
        Err(e) => return Err(e),
    };
    match parse_header_lines(buf, &positions) {
        Some(headers) => Ok((request_line, headers)),
        None => Err(ParseError::MissingColon),
    }
}

} // verus!
