//! The response model, its builder and its serializer.

use vstd::prelude::*;
use crate::bytes::{decimal, decimal_bytes, text, COLON, CR, LF, SPACE};
use crate::headers::{distinct_keys, has_key, put, Entry, HeaderMap};
use crate::http_utils::HttpProtocol;

pub use crate::status::StatusCode;

verus! {

/// A response: what the serializer writes to the wire.
#[derive(Debug)]
pub struct Response {
    protocol: HttpProtocol,
    status_code: StatusCode,
    headers: HeaderMap<Vec<u8>>,
    body: Vec<u8>,
}

/// A response as a value of mathematics. The headers stand in the order in
/// which they are written.
pub ghost struct ResponseView {
    pub protocol: HttpProtocol,
    pub status_code: StatusCode,
    pub headers: Seq<Entry>,
    pub body: Seq<u8>,
}

impl View for Response {
    type V = ResponseView;

    closed spec fn view(&self) -> ResponseView {
        ResponseView {
            protocol: self.protocol,
            status_code: self.status_code,
            headers: self.headers.entries(),
            body: self.body@,
        }
    }
}

/// The name of the header that declares the length of the body.
pub open spec fn content_length() -> Seq<u8> {
    text("Content-Length")
}

/// The first line of a response: protocol, status number and reason phrase,
/// with one space between them.
pub open spec fn status_line(protocol: HttpProtocol, status_code: StatusCode) -> Seq<u8> {
    protocol.token() + seq![SPACE] + decimal(status_code.code()) + seq![SPACE] + text(
        status_code.reason(),
    ) + seq![CR, LF]
}

/// One header on the wire: name, colon, space, value, line terminator.
pub open spec fn header_line(entry: Entry) -> Seq<u8> {
    entry.0 + seq![COLON, SPACE] + entry.1 + seq![CR, LF]
}

/// The header lines of `entries`, one after the other.
pub open spec fn header_block(entries: Seq<Entry>) -> Seq<u8>
    decreases entries.len(),
{
    if entries.len() == 0 {
        Seq::empty()
    } else {
        header_block(entries.drop_last()) + header_line(entries.last())
    }
}

/// The line that declares the length of `body`, for a response whose
/// headers do not; nothing for one whose headers do.
pub open spec fn length_line(headers: Seq<Entry>, body: Seq<u8>) -> Seq<u8> {
    if has_key(headers, content_length()) {
        Seq::empty()
    } else {
        header_line((content_length(), decimal(body.len())))
    }
}

/// The bytes of a response: the status line, the headers, the length of
/// the body where no header declares it, an empty line, and the body with
/// nothing behind it.
pub open spec fn serialized(response: ResponseView) -> Seq<u8> {
    status_line(response.protocol, response.status_code) + header_block(response.headers)
        + length_line(response.headers, response.body) + seq![CR, LF] + response.body
}

/// The response that a handler falls back to: not found, without headers
/// and without a body.
pub open spec fn default_response() -> ResponseView {
    ResponseView {
        protocol: HttpProtocol::HTTP1_1,
        status_code: StatusCode::NotFound,
        headers: Seq::empty(),
        body: Seq::empty(),
    }
}

impl Response {
    /// A builder on which nothing is set yet.
    pub fn builder() -> (r: ResponseBuilder)
        ensures
            r@ == (ResponseBuilderView {
                protocol: HttpProtocol::HTTP1_1,
                status_code: None,
                headers: Seq::empty(),
                body: Seq::empty(),
            }),
    {
        ResponseBuilder { protocol: None, status_code: None, headers: None, body: None }
    }

    /// The protocol version of the status line.
    pub fn protocol(&self) -> (r: HttpProtocol)
        ensures
            r == self@.protocol,
    {
        self.protocol
    }

    /// The status.
    pub fn status_code(&self) -> (r: StatusCode)
        ensures
            r == self@.status_code,
    {
        self.status_code
    }

    /// The headers. No name occurs twice among them.
    pub fn headers(&self) -> (r: &HeaderMap<Vec<u8>>)
        ensures
            r.entries() == self@.headers,
            distinct_keys(self@.headers),
    {
        proof {
            use_type_invariant(&self.headers);
        }
        &self.headers
    }

    /// The body.
    pub fn body(&self) -> (r: &[u8])
        ensures
            r@ == self@.body,
    {
        self.body.as_slice()
    }

    /// Renders the response as the bytes that go to the wire.
    pub fn serialize(&self) -> (r: Vec<u8>)
        ensures
            r@ == serialized(self@),
    {
        let mut raw_response: Vec<u8> = Vec::new();
        raw_response.extend_from_slice(self.protocol.as_bytes());
        raw_response.push(SPACE);
        raw_response.extend_from_slice(self.status_code.value());
        raw_response.push(SPACE);
        raw_response.extend_from_slice(self.status_code.string_value());
        raw_response.push(CR);
        raw_response.push(LF);

        let ghost entries = self.headers.entries();
        let ghost line = raw_response@;
        let count = self.headers.len();
        let mut i: usize = 0;
        while i < count
            invariant
                entries == self.headers.entries(),
                count == entries.len(),
                i <= count,
                raw_response@ == line + header_block(entries.take(i as int)),
            decreases count - i,
        {
            let (key, val) = self.headers.entry(i);
            raw_response.extend_from_slice(key.as_slice());
            raw_response.push(COLON);
            raw_response.push(SPACE);
            raw_response.extend_from_slice(val.as_slice());
            raw_response.push(CR);
            raw_response.push(LF);
            proof {
                assert(entries.take(i as int + 1).drop_last() =~= entries.take(i as int));
            }
            i += 1;
        }
        assert(entries.take(count as int) =~= entries);
        if !self.headers.contains_key("Content-Length".as_bytes()) {
            let length = decimal_bytes(self.body.len());
            raw_response.extend_from_slice("Content-Length".as_bytes());
            raw_response.push(COLON);
            raw_response.push(SPACE);
            raw_response.extend_from_slice(length.as_slice());
            raw_response.push(CR);
            raw_response.push(LF);
        }
        raw_response.push(CR);
        raw_response.push(LF);
        raw_response.extend_from_slice(self.body.as_slice());
        raw_response
    }
}

impl Default for Response {
    /// The fallback of a handler: see `default_response`.
    fn default() -> (r: Self)
        ensures
            r@ == default_response(),
    {
        Response {
            protocol: HttpProtocol::HTTP1_1,
            status_code: StatusCode::NotFound,
            headers: HeaderMap::new(),
            body: Vec::new(),
        }
    }
}

/// The staging area of a response. Nothing is checked before `build`.
#[derive(Debug)]
pub struct ResponseBuilder {
    protocol: Option<HttpProtocol>,
    status_code: Option<StatusCode>,
    headers: Option<HeaderMap<Vec<u8>>>,
    body: Option<Vec<u8>>,
}

/// What a builder holds: the protocol (HTTP/1.1 until one is set), the
/// status if one is set, the headers and the body (empty until they are
/// set).
pub ghost struct ResponseBuilderView {
    pub protocol: HttpProtocol,
    pub status_code: Option<StatusCode>,
    pub headers: Seq<Entry>,
    pub body: Seq<u8>,
}

/// Why a response could not be built.
#[derive(Clone, Copy, Debug, PartialEq, Eq, Structural)]
pub enum ResponseBuilderError {
    /// No status code was set.
    NoStatusCode,
}

impl View for ResponseBuilder {
    type V = ResponseBuilderView;

    closed spec fn view(&self) -> ResponseBuilderView {
        ResponseBuilderView {
            protocol: match self.protocol {
                Some(protocol) => protocol,
                None => HttpProtocol::HTTP1_1,
            },
            status_code: self.status_code,
            headers: match self.headers {
                Some(headers) => headers.entries(),
                None => Seq::empty(),
            },
            body: match self.body {
                Some(body) => body@,
                None => Seq::empty(),
            },
        }
    }
}

impl ResponseBuilder {
    /// Sets the protocol version.
    pub fn protocol(self, protocol: HttpProtocol) -> (r: Self)
        ensures
            r@ == (ResponseBuilderView { protocol: protocol, ..self@ }),
    {
        let mut builder = self;
        builder.protocol = Some(protocol);
        builder
    }

    /// Sets the status.
    pub fn status_code(self, status_code: StatusCode) -> (r: Self)
        ensures
            r@ == (ResponseBuilderView { status_code: Some(status_code), ..self@ }),
    {
        let mut builder = self;
        builder.status_code = Some(status_code);
        builder
    }

    /// Puts the header `key: val`. A header that was put under the same name
    /// before is replaced.
    pub fn header(self, key: &str, val: &str) -> (r: Self)
        ensures
            r@ == (ResponseBuilderView { headers: put(self@.headers, text(key), text(val)), ..self@ }),
    {
        let mut builder = self;
        let mut headers = match builder.headers {
            Some(headers) => headers,
            None => HeaderMap::new(),
        };
        headers.insert(key.as_bytes_vec(), val.as_bytes_vec());
        builder.headers = Some(headers);
        builder
    }

    /// Sets the body.
    pub fn body(self, body: Vec<u8>) -> (r: Self)
        ensures
            r@ == (ResponseBuilderView { body: body@, ..self@ }),
    {
        let mut builder = self;
        builder.body = Some(body);
        builder
    }

    /// Builds the response. It fails where no status was set, and only
    /// there.
    pub fn build(self) -> (r: Result<Response, ResponseBuilderError>)
        ensures
            match self@.status_code {
                Some(status_code) => r matches Ok(response) && response@ == (ResponseView {
                    protocol: self@.protocol,
                    status_code: status_code,
                    headers: self@.headers,
                    body: self@.body,
                }),
                None => r matches Err(e) && e == ResponseBuilderError::NoStatusCode,
            },
    {
        let protocol = match self.protocol {
            Some(protocol) => protocol,
            None => HttpProtocol::HTTP1_1,
        };
        let status_code = match self.status_code {
            Some(status_code) => status_code,
            None => return Err(ResponseBuilderError::NoStatusCode),
        };
        let headers = match self.headers {
            Some(headers) => headers,
            None => HeaderMap::new(),
        };
        let body = match self.body {
            Some(body) => body,
            None => Vec::new(),
        };
        Ok(Response { protocol, status_code, headers, body })
    }
}

} // verus!
