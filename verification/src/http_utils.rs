//! Protocol versions and their wire tokens.

use vstd::prelude::*;
use crate::bytes::{ascii, bytes_eq, lemma_text_ascii, text};
use crate::error::ParseError;

verus! {

/// The protocol versions that a request line or a status line can name.
#[derive(Clone, Copy, Debug, PartialEq, Eq, Structural)]
pub enum HttpProtocol {
    HTTP1_0,
    HTTP1_1,
    HTTP2,
    HTTP3,
}

impl HttpProtocol {
    /// The token that stands for this version on the wire.
    pub open spec fn token(self) -> Seq<u8> {
        match self {
            HttpProtocol::HTTP1_0 => text("HTTP/1.0"),
            HttpProtocol::HTTP1_1 => text("HTTP/1.1"),
            HttpProtocol::HTTP2 => text("HTTP/2"),
            HttpProtocol::HTTP3 => text("HTTP/3"),
        }
    }

    /// The version that a token names, if any. Tokens are matched byte for
    /// byte: case matters, and nothing is trimmed.
    pub open spec fn parse(bytes: Seq<u8>) -> Option<HttpProtocol> {
        if bytes == HttpProtocol::HTTP1_0.token() {
            Some(HttpProtocol::HTTP1_0)
        } else if bytes == HttpProtocol::HTTP1_1.token() {
            Some(HttpProtocol::HTTP1_1)
        } else if bytes == HttpProtocol::HTTP2.token() {
            Some(HttpProtocol::HTTP2)
        } else if bytes == HttpProtocol::HTTP3.token() {
            Some(HttpProtocol::HTTP3)
        } else {
            None
        }
    }

    /// The wire token of this version.
    pub fn as_bytes(&self) -> (r: &'static [u8])
        ensures
            r@ == self.token(),
    {
        match self {
            HttpProtocol::HTTP1_0 => "HTTP/1.0".as_bytes(),
            HttpProtocol::HTTP1_1 => "HTTP/1.1".as_bytes(),
            HttpProtocol::HTTP2 => "HTTP/2".as_bytes(),
            HttpProtocol::HTTP3 => "HTTP/3".as_bytes(),
        }
    }

    /// The tokens, written out byte by byte.
    pub proof fn lemma_tokens()
        ensures
            HttpProtocol::HTTP1_0.token() == ascii(seq!['H', 'T', 'T', 'P', '/', '1', '.', '0']),
            HttpProtocol::HTTP1_1.token() == ascii(seq!['H', 'T', 'T', 'P', '/', '1', '.', '1']),
            HttpProtocol::HTTP2.token() == ascii(seq!['H', 'T', 'T', 'P', '/', '2']),
            HttpProtocol::HTTP3.token() == ascii(seq!['H', 'T', 'T', 'P', '/', '3']),
    {
        reveal_strlit("HTTP/1.0");
        reveal_strlit("HTTP/1.1");
        reveal_strlit("HTTP/2");
        reveal_strlit("HTTP/3");
        lemma_text_ascii("HTTP/1.0");
        lemma_text_ascii("HTTP/1.1");
        lemma_text_ascii("HTTP/2");
        lemma_text_ascii("HTTP/3");
    }

    /// The round trip of the tokens: the token of a version parses to that
    /// version, so that what was parsed is written out as the bytes that
    /// were read. And nothing but its token parses to a version.
    pub proof fn lemma_round_trip(p: HttpProtocol)
        ensures
            HttpProtocol::parse(p.token()) == Some(p),
            HttpProtocol::parse(p.token()) matches Some(parsed) && parsed.token() == p.token(),
            forall|bytes: Seq<u8>| HttpProtocol::parse(bytes) == Some(p) ==> bytes == p.token(),
    {
        HttpProtocol::lemma_tokens();
        let a = HttpProtocol::HTTP1_0.token();
        let b = HttpProtocol::HTTP1_1.token();
        let c = HttpProtocol::HTTP2.token();
        let d = HttpProtocol::HTTP3.token();
        assert(a[7] != b[7]);
        assert(c[5] != d[5]);
    }
}

impl<'a> TryFrom<&'a [u8]> for HttpProtocol {
    type Error = ParseError;

    /// Reads a wire token. What it returns is said by `try_from_spec`
    /// below: the protocol version that `parse` finds, or the error.
    fn try_from(protocol: &'a [u8]) -> (r: Result<Self, Self::Error>) {
        if bytes_eq(protocol, HttpProtocol::HTTP1_0.as_bytes()) {
            Ok(HttpProtocol::HTTP1_0)
        } else if bytes_eq(protocol, HttpProtocol::HTTP1_1.as_bytes()) {
            Ok(HttpProtocol::HTTP1_1)
        } else if bytes_eq(protocol, HttpProtocol::HTTP2.as_bytes()) {
            Ok(HttpProtocol::HTTP2)
        } else if bytes_eq(protocol, HttpProtocol::HTTP3.as_bytes()) {
            Ok(HttpProtocol::HTTP3)
        } else {
            Err(ParseError::UnknownProtocol)
        }
    }
}

impl<'a> vstd::std_specs::convert::TryFromSpecImpl<&'a [u8]> for HttpProtocol {
    open spec fn obeys_try_from_spec() -> bool {
        true
    }

    open spec fn try_from_spec(protocol: &'a [u8]) -> Result<Self, Self::Error> {
        match HttpProtocol::parse(protocol@) {
            Some(p) => Ok(p),
            None => Err(ParseError::UnknownProtocol),
        }
    }
}

} // verus!
