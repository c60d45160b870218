//! What can go wrong while a request is read.

use vstd::prelude::*;

verus! {

/// Why a header block was refused.
#[derive(Clone, Copy, Debug, PartialEq, Eq, Structural)]
pub enum ParseError {
    /// The buffer holds fewer than three line terminators.
    TooFewLines,
    /// The request line has fewer than three fields.
    MissingToken,
    /// The first field of the request line is no known method.
    UnknownMethod,
    /// The path is not valid UTF-8.
    InvalidPath,
    /// The third field of the request line is no known protocol version.
    UnknownProtocol,
    /// A header line has no colon.
    MissingColon,
}

impl ParseError {
    /// A sentence for the log.
    pub fn message(&self) -> (r: &'static str)
        ensures
            r@ == self.spec_message()@,
    {
        match self {
            ParseError::TooFewLines => "Something is wrong in request. CRLF <= 2 detected",
            ParseError::MissingToken => "Request line with fewer than three fields",
            ParseError::UnknownMethod => "Met Unknown Http Method while parsing.",
            ParseError::InvalidPath => "Error in converting path to string",
            ParseError::UnknownProtocol => "Met unknown Http Protocol while parsing",
            ParseError::MissingColon => "Header line without a colon",
        }
    }

    /// The sentence that `message` returns.
    pub open spec fn spec_message(&self) -> &'static str {
        match self {
            ParseError::TooFewLines => "Something is wrong in request. CRLF <= 2 detected",
            ParseError::MissingToken => "Request line with fewer than three fields",
            ParseError::UnknownMethod => "Met Unknown Http Method while parsing.",
            ParseError::InvalidPath => "Error in converting path to string",
            ParseError::UnknownProtocol => "Met unknown Http Protocol while parsing",
            ParseError::MissingColon => "Header line without a colon",
        }
    }
}

/// Why the body of a request could not be had.
#[derive(Clone, Copy, Debug, PartialEq, Eq, Structural)]
pub enum BodyError {
    /// The request has no `Content-Length` header. This is the common case
    /// of a request without a body; it is reported so that the caller
    /// decides.
    NoContentLength,
    /// The value of `Content-Length` holds a byte that is no ASCII digit, or
    /// is a number above `i32::MAX`.
    InvalidContentLength,
    /// The connection ended before the declared number of bytes came.
    Truncated,
}

impl BodyError {
    /// A sentence for the log.
    pub fn message(&self) -> (r: &'static str)
        ensures
            r@ == self.spec_message()@,
    {
        match self {
            BodyError::NoContentLength => "No Content Length",
            BodyError::InvalidContentLength => "Error in parsing byte slice to i32",
            BodyError::Truncated => "Error in reading body",
        }
    }

    /// The sentence that `message` returns.
    pub open spec fn spec_message(&self) -> &'static str {
        match self {
            BodyError::NoContentLength => "No Content Length",
            BodyError::InvalidContentLength => "Error in parsing byte slice to i32",
            BodyError::Truncated => "Error in reading body",
        }
    }
}

} // verus!
