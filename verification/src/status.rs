//! The status codes of a response: their numbers and their reason phrases.

use vstd::prelude::*;
use vstd::utf8::is_ascii_chars;
use crate::bytes::{decimal, digit, lemma_decimal_round_trip, lemma_text_ascii, text};

verus! {

/// The status of a response. Every variant has one number and one reason
/// phrase; there is no fallback for a number outside this list.
#[derive(Clone, Copy, Debug, PartialEq, Eq, Structural)]
pub enum StatusCode {
    // 1xx: informational
    Continue,
    SwitchingProtocol,
    Processing,
    EarlyHints,
    // 2xx: successful
    OK,
    Created,
    Accepted,
    NonAuthoritativeInformation,
    NoContent,
    ResetContent,
    PartialContent,
    MultiStatus,
    AlreadyReported,
    IMUsed,
    // 3xx: redirection
    MultipleChoices,
    MovedPermanently,
    Found,
    SeeOther,
    NotModified,
    UseProxy,
    Unused,
    TemporaryRedirect,
    PermanentRedirect,
    // 4xx: client error
    BadRequest,
    Unauthorized,
    PaymentRequired,
    Forbidden,
    NotFound,
    MethodNotAllowed,
    NotAcceptible,
    ProxyAuthenticationRequired,
    RequestTimeout,
    Conflict,
    Gone,
    LengthRequired,
    PreconditionFailed,
    PayloadTooLarge,
    URITooLong,
    UnsupportedMediaType,
    RangeNotSatisfiable,
    ExpectationFailed,
    ImATeapot,
    MisdirectedRequest,
    UnprocessableContent,
    Locked,
    FailedDependency,
    TooEarly,
    UpgradeRequired,
    PreconditionRequired,
    TooManyRequests,
    RequestHeaderFieldsTooLarge,
    UnavailableForLegalReasons,
    // 5xx: server error
    InternalServerError,
    NotImplemented,
    BadGateway,
    ServiceUnavailable,
    GatewayTimeout,
    HTTPVersionNotSupported,
    VariantsAlsoNegotiates,
    InsufficientStorage,
    LoopDetected,
    NotExtended,
    NetworkAuthenticationRequired,
}

impl StatusCode {
    /// The number of this status.
    pub open spec fn code(self) -> nat {
        match self {
            StatusCode::Continue => 100,
            StatusCode::SwitchingProtocol => 101,
            StatusCode::Processing => 102,
            StatusCode::EarlyHints => 103,
            StatusCode::OK => 200,
            StatusCode::Created => 201,
            StatusCode::Accepted => 202,
            StatusCode::NonAuthoritativeInformation => 203,
            StatusCode::NoContent => 204,
            StatusCode::ResetContent => 205,
            StatusCode::PartialContent => 206,
            StatusCode::MultiStatus => 207,
            StatusCode::AlreadyReported => 208,
            StatusCode::IMUsed => 226,
            StatusCode::MultipleChoices => 300,
            StatusCode::MovedPermanently => 301,
            StatusCode::Found => 302,
            StatusCode::SeeOther => 303,
            StatusCode::NotModified => 304,
            StatusCode::UseProxy => 305,
            StatusCode::Unused => 306,
            StatusCode::TemporaryRedirect => 307,
            StatusCode::PermanentRedirect => 308,
            StatusCode::BadRequest => 400,
            StatusCode::Unauthorized => 401,
            StatusCode::PaymentRequired => 402,
            StatusCode::Forbidden => 403,
            StatusCode::NotFound => 404,
            StatusCode::MethodNotAllowed => 405,
            StatusCode::NotAcceptible => 406,
            StatusCode::ProxyAuthenticationRequired => 407,
            StatusCode::RequestTimeout => 408,
            StatusCode::Conflict => 409,
            StatusCode::Gone => 410,
            StatusCode::LengthRequired => 411,
            StatusCode::PreconditionFailed => 412,
            StatusCode::PayloadTooLarge => 413,
            StatusCode::URITooLong => 414,
            StatusCode::UnsupportedMediaType => 415,
            StatusCode::RangeNotSatisfiable => 416,
            StatusCode::ExpectationFailed => 417,
            StatusCode::ImATeapot => 418,
            StatusCode::MisdirectedRequest => 421,
            StatusCode::UnprocessableContent => 422,
            StatusCode::Locked => 423,
            StatusCode::FailedDependency => 424,
            StatusCode::TooEarly => 425,
            StatusCode::UpgradeRequired => 426,
            StatusCode::PreconditionRequired => 428,
            StatusCode::TooManyRequests => 429,
            StatusCode::RequestHeaderFieldsTooLarge => 431,
            StatusCode::UnavailableForLegalReasons => 451,
            StatusCode::InternalServerError => 500,
            StatusCode::NotImplemented => 501,
            StatusCode::BadGateway => 502,
            StatusCode::ServiceUnavailable => 503,
            StatusCode::GatewayTimeout => 504,
            StatusCode::HTTPVersionNotSupported => 505,
            StatusCode::VariantsAlsoNegotiates => 506,
            StatusCode::InsufficientStorage => 507,
            StatusCode::LoopDetected => 508,
            StatusCode::NotExtended => 510,
            StatusCode::NetworkAuthenticationRequired => 511,
        }
    }

    /// The reason phrase of this status.
    pub open spec fn reason(self) -> &'static str {
        match self {
            StatusCode::Continue => "Continue",
            StatusCode::SwitchingProtocol => "SwitchingProtocol",
            StatusCode::Processing => "Processing",
            StatusCode::EarlyHints => "EarlyHints",
            StatusCode::OK => "OK",
            StatusCode::Created => "Created",
            StatusCode::Accepted => "Accepted",
            StatusCode::NonAuthoritativeInformation => "NonAuthoritativeInformation",
            StatusCode::NoContent => "NoContent",
            StatusCode::ResetContent => "ResetContent",
            StatusCode::PartialContent => "PartialContent",
            StatusCode::MultiStatus => "MultiStatus",
            StatusCode::AlreadyReported => "AlreadyReported",
            StatusCode::IMUsed => "IMUsed",
            StatusCode::MultipleChoices => "MultipleChoices",
            StatusCode::MovedPermanently => "MovedPermanently",
            StatusCode::Found => "Found",
            StatusCode::SeeOther => "SeeOther",
            StatusCode::NotModified => "NotModified",
            StatusCode::UseProxy => "UseProxy",
            StatusCode::Unused => "Unused",
            StatusCode::TemporaryRedirect => "TemporaryRedirect",
            StatusCode::PermanentRedirect => "PermanentRedirect",
            StatusCode::BadRequest => "BadRequest",
            StatusCode::Unauthorized => "Unauthorized",
            StatusCode::PaymentRequired => "PaymentRequired",
            StatusCode::Forbidden => "Forbidden",
            StatusCode::NotFound => "Not Found",
            StatusCode::MethodNotAllowed => "MethodNotAllowed",
            StatusCode::NotAcceptible => "NotAcceptible",
            StatusCode::ProxyAuthenticationRequired => "ProxyAuthenticationRequired",
            StatusCode::RequestTimeout => "RequestTimeout",
            StatusCode::Conflict => "Conflict",
            StatusCode::Gone => "Gone",
            StatusCode::LengthRequired => "LengthRequired",
            StatusCode::PreconditionFailed => "PreconditionFailed",
            StatusCode::PayloadTooLarge => "PayloadTooLarge",
            StatusCode::URITooLong => "URITooLong",
            StatusCode::UnsupportedMediaType => "UnsupportedMediaType",
            StatusCode::RangeNotSatisfiable => "RangeNotSatisfiable",
            StatusCode::ExpectationFailed => "ExpectationFailed",
            StatusCode::ImATeapot => "ImATeapot",
            StatusCode::MisdirectedRequest => "MisdirectedRequest",
            StatusCode::UnprocessableContent => "UnprocessableContent",
            StatusCode::Locked => "Locked",
            StatusCode::FailedDependency => "FailedDependency",
            StatusCode::TooEarly => "TooEarly",
            StatusCode::UpgradeRequired => "UpgradeRequired",
            StatusCode::PreconditionRequired => "PreconditionRequired",
            StatusCode::TooManyRequests => "TooManyRequests",
            StatusCode::RequestHeaderFieldsTooLarge => "RequestHeaderFieldsTooLarge",
            StatusCode::UnavailableForLegalReasons => "UnavailableForLegalReasons",
            StatusCode::InternalServerError => "InternalServerError",
            StatusCode::NotImplemented => "NotImplemented",
            StatusCode::BadGateway => "BadGateway",
            StatusCode::ServiceUnavailable => "ServiceUnavailable",
            StatusCode::GatewayTimeout => "GatewayTimeout",
            StatusCode::HTTPVersionNotSupported => "HTTPVersionNotSupported",
            StatusCode::VariantsAlsoNegotiates => "VariantsAlsoNegotiates",
            StatusCode::InsufficientStorage => "InsufficientStorage",
            StatusCode::LoopDetected => "LoopDetected",
            StatusCode::NotExtended => "NotExtended",
            StatusCode::NetworkAuthenticationRequired => "NetworkAuthenticationRequired",
        }
    }

    /// The number of this status as three ASCII digits.
    pub fn value(&self) -> (r: &'static [u8])
        ensures
            r@ == decimal(self.code()),
    {
        match self {
            StatusCode::Continue => {
                proof {
                    reveal_strlit("100");
                }
                three_digits("100", Ghost(100))
            },
            StatusCode::SwitchingProtocol => {
                proof {
                    reveal_strlit("101");
                }
                three_digits("101", Ghost(101))
            },
            StatusCode::Processing => {
                proof {
                    reveal_strlit("102");
                }
                three_digits("102", Ghost(102))
            },
            StatusCode::EarlyHints => {
                proof {
                    reveal_strlit("103");
                }
                three_digits("103", Ghost(103))
            },
            StatusCode::OK => {
                proof {
                    reveal_strlit("200");
                }
                three_digits("200", Ghost(200))
            },
            StatusCode::Created => {
                proof {
                    reveal_strlit("201");
                }
                three_digits("201", Ghost(201))
            },
            StatusCode::Accepted => {
                proof {
                    reveal_strlit("202");
                }
                three_digits("202", Ghost(202))
            },
            StatusCode::NonAuthoritativeInformation => {
                proof {
                    reveal_strlit("203");
                }
                three_digits("203", Ghost(203))
            },
            StatusCode::NoContent => {
                proof {
                    reveal_strlit("204");
                }
                three_digits("204", Ghost(204))
            },
            StatusCode::ResetContent => {
                proof {
                    reveal_strlit("205");
                }
                three_digits("205", Ghost(205))
            },
            StatusCode::PartialContent => {
                proof {
                    reveal_strlit("206");
                }
                three_digits("206", Ghost(206))
            },
            StatusCode::MultiStatus => {
                proof {
                    reveal_strlit("207");
                }
                three_digits("207", Ghost(207))
            },
            StatusCode::AlreadyReported => {
                proof {
                    reveal_strlit("208");
                }
                three_digits("208", Ghost(208))
            },
            StatusCode::IMUsed => {
                proof {
                    reveal_strlit("226");
                }
                three_digits("226", Ghost(226))
            },
            StatusCode::MultipleChoices => {
                proof {
                    reveal_strlit("300");
                }
                three_digits("300", Ghost(300))
            },
            StatusCode::MovedPermanently => {
                proof {
                    reveal_strlit("301");
                }
                three_digits("301", Ghost(301))
            },
            StatusCode::Found => {
                proof {
                    reveal_strlit("302");
                }
                three_digits("302", Ghost(302))
            },
            StatusCode::SeeOther => {
                proof {
                    reveal_strlit("303");
                }
                three_digits("303", Ghost(303))
            },
            StatusCode::NotModified => {
                proof {
                    reveal_strlit("304");
                }
                three_digits("304", Ghost(304))
            },
            StatusCode::UseProxy => {
                proof {
                    reveal_strlit("305");
                }
                three_digits("305", Ghost(305))
            },
            StatusCode::Unused => {
                proof {
                    reveal_strlit("306");
                }
                three_digits("306", Ghost(306))
            },
            StatusCode::TemporaryRedirect => {
                proof {
                    reveal_strlit("307");
                }
                three_digits("307", Ghost(307))
            },
            StatusCode::PermanentRedirect => {
                proof {
                    reveal_strlit("308");
                }
                three_digits("308", Ghost(308))
            },
            StatusCode::BadRequest => {
                proof {
                    reveal_strlit("400");
                }
                three_digits("400", Ghost(400))
            },
            StatusCode::Unauthorized => {
                proof {
                    reveal_strlit("401");
                }
                three_digits("401", Ghost(401))
            },
            StatusCode::PaymentRequired => {
                proof {
                    reveal_strlit("402");
                }
                three_digits("402", Ghost(402))
            },
            StatusCode::Forbidden => {
                proof {
                    reveal_strlit("403");
                }
                three_digits("403", Ghost(403))
            },
            StatusCode::NotFound => {
                proof {
                    reveal_strlit("404");
                }
                three_digits("404", Ghost(404))
            },
            StatusCode::MethodNotAllowed => {
                proof {
                    reveal_strlit("405");
                }
                three_digits("405", Ghost(405))
            },
            StatusCode::NotAcceptible => {
                proof {
                    reveal_strlit("406");
                }
                three_digits("406", Ghost(406))
            },
            StatusCode::ProxyAuthenticationRequired => {
                proof {
                    reveal_strlit("407");
                }
                three_digits("407", Ghost(407))
            },
            StatusCode::RequestTimeout => {
                proof {
                    reveal_strlit("408");
                }
                three_digits("408", Ghost(408))
            },
            StatusCode::Conflict => {
                proof {
                    reveal_strlit("409");
                }
                three_digits("409", Ghost(409))
            },
            StatusCode::Gone => {
                proof {
                    reveal_strlit("410");
                }
                three_digits("410", Ghost(410))
            },
            StatusCode::LengthRequired => {
                proof {
                    reveal_strlit("411");
                }
                three_digits("411", Ghost(411))
            },
            StatusCode::PreconditionFailed => {
                proof {
                    reveal_strlit("412");
                }
                three_digits("412", Ghost(412))
            },
            StatusCode::PayloadTooLarge => {
                proof {
                    reveal_strlit("413");
                }
                three_digits("413", Ghost(413))
            },
            StatusCode::URITooLong => {
                proof {
                    reveal_strlit("414");
                }
                three_digits("414", Ghost(414))
            },
            StatusCode::UnsupportedMediaType => {
                proof {
                    reveal_strlit("415");
                }
                three_digits("415", Ghost(415))
            },
            StatusCode::RangeNotSatisfiable => {
                proof {
                    reveal_strlit("416");
                }
                three_digits("416", Ghost(416))
            },
            StatusCode::ExpectationFailed => {
                proof {
                    reveal_strlit("417");
                }
                three_digits("417", Ghost(417))
            },
            StatusCode::ImATeapot => {
                proof {
                    reveal_strlit("418");
                }
                three_digits("418", Ghost(418))
            },
            StatusCode::MisdirectedRequest => {
                proof {
                    reveal_strlit("421");
                }
                three_digits("421", Ghost(421))
            },
            StatusCode::UnprocessableContent => {
                proof {
                    reveal_strlit("422");
                }
                three_digits("422", Ghost(422))
            },
            StatusCode::Locked => {
                proof {
                    reveal_strlit("423");
                }
                three_digits("423", Ghost(423))
            },
            StatusCode::FailedDependency => {
                proof {
                    reveal_strlit("424");
                }
                three_digits("424", Ghost(424))
            },
            StatusCode::TooEarly => {
                proof {
                    reveal_strlit("425");
                }
                three_digits("425", Ghost(425))
            },
            StatusCode::UpgradeRequired => {
                proof {
                    reveal_strlit("426");
                }
                three_digits("426", Ghost(426))
            },
            StatusCode::PreconditionRequired => {
                proof {
                    reveal_strlit("428");
                }
                three_digits("428", Ghost(428))
            },
            StatusCode::TooManyRequests => {
                proof {
                    reveal_strlit("429");
                }
                three_digits("429", Ghost(429))
            },
            StatusCode::RequestHeaderFieldsTooLarge => {
                proof {
                    reveal_strlit("431");
                }
                three_digits("431", Ghost(431))
            },
            StatusCode::UnavailableForLegalReasons => {
                proof {
                    reveal_strlit("451");
                }
                three_digits("451", Ghost(451))
            },
            StatusCode::InternalServerError => {
                proof {
                    reveal_strlit("500");
                }
                three_digits("500", Ghost(500))
            },
            StatusCode::NotImplemented => {
                proof {
                    reveal_strlit("501");
                }
                three_digits("501", Ghost(501))
            },
            StatusCode::BadGateway => {
                proof {
                    reveal_strlit("502");
                }
                three_digits("502", Ghost(502))
            },
            StatusCode::ServiceUnavailable => {
                proof {
                    reveal_strlit("503");
                }
                three_digits("503", Ghost(503))
            },
            StatusCode::GatewayTimeout => {
                proof {
                    reveal_strlit("504");
                }
                three_digits("504", Ghost(504))
            },
            StatusCode::HTTPVersionNotSupported => {
                proof {
                    reveal_strlit("505");
                }
                three_digits("505", Ghost(505))
            },
            StatusCode::VariantsAlsoNegotiates => {
                proof {
                    reveal_strlit("506");
                }
                three_digits("506", Ghost(506))
            },
            StatusCode::InsufficientStorage => {
                proof {
                    reveal_strlit("507");
                }
                three_digits("507", Ghost(507))
            },
            StatusCode::LoopDetected => {
                proof {
                    reveal_strlit("508");
                }
                three_digits("508", Ghost(508))
            },
            StatusCode::NotExtended => {
                proof {
                    reveal_strlit("510");
                }
                three_digits("510", Ghost(510))
            },
            StatusCode::NetworkAuthenticationRequired => {
                proof {
                    reveal_strlit("511");
                }
                three_digits("511", Ghost(511))
            },
        }
    }

    /// The reason phrase of this status, as bytes.
    pub fn string_value(&self) -> (r: &'static [u8])
        ensures
            r@ == text(self.reason()),
    {
        match self {
            StatusCode::Continue => "Continue".as_bytes(),
            StatusCode::SwitchingProtocol => "SwitchingProtocol".as_bytes(),
            StatusCode::Processing => "Processing".as_bytes(),
            StatusCode::EarlyHints => "EarlyHints".as_bytes(),
            StatusCode::OK => "OK".as_bytes(),
            StatusCode::Created => "Created".as_bytes(),
            StatusCode::Accepted => "Accepted".as_bytes(),
            StatusCode::NonAuthoritativeInformation => "NonAuthoritativeInformation".as_bytes(),
            StatusCode::NoContent => "NoContent".as_bytes(),
            StatusCode::ResetContent => "ResetContent".as_bytes(),
            StatusCode::PartialContent => "PartialContent".as_bytes(),
            StatusCode::MultiStatus => "MultiStatus".as_bytes(),
            StatusCode::AlreadyReported => "AlreadyReported".as_bytes(),
            StatusCode::IMUsed => "IMUsed".as_bytes(),
            StatusCode::MultipleChoices => "MultipleChoices".as_bytes(),
            StatusCode::MovedPermanently => "MovedPermanently".as_bytes(),
            StatusCode::Found => "Found".as_bytes(),
            StatusCode::SeeOther => "SeeOther".as_bytes(),
            StatusCode::NotModified => "NotModified".as_bytes(),
            StatusCode::UseProxy => "UseProxy".as_bytes(),
            StatusCode::Unused => "Unused".as_bytes(),
            StatusCode::TemporaryRedirect => "TemporaryRedirect".as_bytes(),
            StatusCode::PermanentRedirect => "PermanentRedirect".as_bytes(),
            StatusCode::BadRequest => "BadRequest".as_bytes(),
            StatusCode::Unauthorized => "Unauthorized".as_bytes(),
            StatusCode::PaymentRequired => "PaymentRequired".as_bytes(),
            StatusCode::Forbidden => "Forbidden".as_bytes(),
            StatusCode::NotFound => "Not Found".as_bytes(),
            StatusCode::MethodNotAllowed => "MethodNotAllowed".as_bytes(),
            StatusCode::NotAcceptible => "NotAcceptible".as_bytes(),
            StatusCode::ProxyAuthenticationRequired => "ProxyAuthenticationRequired".as_bytes(),
            StatusCode::RequestTimeout => "RequestTimeout".as_bytes(),
            StatusCode::Conflict => "Conflict".as_bytes(),
            StatusCode::Gone => "Gone".as_bytes(),
            StatusCode::LengthRequired => "LengthRequired".as_bytes(),
            StatusCode::PreconditionFailed => "PreconditionFailed".as_bytes(),
            StatusCode::PayloadTooLarge => "PayloadTooLarge".as_bytes(),
            StatusCode::URITooLong => "URITooLong".as_bytes(),
            StatusCode::UnsupportedMediaType => "UnsupportedMediaType".as_bytes(),
            StatusCode::RangeNotSatisfiable => "RangeNotSatisfiable".as_bytes(),
            StatusCode::ExpectationFailed => "ExpectationFailed".as_bytes(),
            StatusCode::ImATeapot => "ImATeapot".as_bytes(),
            StatusCode::MisdirectedRequest => "MisdirectedRequest".as_bytes(),
            StatusCode::UnprocessableContent => "UnprocessableContent".as_bytes(),
            StatusCode::Locked => "Locked".as_bytes(),
            StatusCode::FailedDependency => "FailedDependency".as_bytes(),
            StatusCode::TooEarly => "TooEarly".as_bytes(),
            StatusCode::UpgradeRequired => "UpgradeRequired".as_bytes(),
            StatusCode::PreconditionRequired => "PreconditionRequired".as_bytes(),
            StatusCode::TooManyRequests => "TooManyRequests".as_bytes(),
            StatusCode::RequestHeaderFieldsTooLarge => "RequestHeaderFieldsTooLarge".as_bytes(),
            StatusCode::UnavailableForLegalReasons => "UnavailableForLegalReasons".as_bytes(),
            StatusCode::InternalServerError => "InternalServerError".as_bytes(),
            StatusCode::NotImplemented => "NotImplemented".as_bytes(),
            StatusCode::BadGateway => "BadGateway".as_bytes(),
            StatusCode::ServiceUnavailable => "ServiceUnavailable".as_bytes(),
            StatusCode::GatewayTimeout => "GatewayTimeout".as_bytes(),
            StatusCode::HTTPVersionNotSupported => "HTTPVersionNotSupported".as_bytes(),
            StatusCode::VariantsAlsoNegotiates => "VariantsAlsoNegotiates".as_bytes(),
            StatusCode::InsufficientStorage => "InsufficientStorage".as_bytes(),
            StatusCode::LoopDetected => "LoopDetected".as_bytes(),
            StatusCode::NotExtended => "NotExtended".as_bytes(),
            StatusCode::NetworkAuthenticationRequired => "NetworkAuthenticationRequired".as_bytes(),
        }
    }

    /// Every status number lies in one of the five classes.
    pub proof fn lemma_code_range(self)
        ensures
            100 <= self.code() < 600,
    {
    }

    /// No two statuses share a reason phrase.
    pub proof fn lemma_reason_injective(a: StatusCode, b: StatusCode)
        requires
            a.reason()@ == b.reason()@,
        ensures
            a == b,
    {
        reveal_strlit("Continue");
        reveal_strlit("SwitchingProtocol");
        reveal_strlit("Processing");
        reveal_strlit("EarlyHints");
        reveal_strlit("OK");
        reveal_strlit("Created");
        reveal_strlit("Accepted");
        reveal_strlit("NonAuthoritativeInformation");
        reveal_strlit("NoContent");
        reveal_strlit("ResetContent");
        reveal_strlit("PartialContent");
        reveal_strlit("MultiStatus");
        reveal_strlit("AlreadyReported");
        reveal_strlit("IMUsed");
        reveal_strlit("MultipleChoices");
        reveal_strlit("MovedPermanently");
        reveal_strlit("Found");
        reveal_strlit("SeeOther");
        reveal_strlit("NotModified");
        reveal_strlit("UseProxy");
        reveal_strlit("Unused");
        reveal_strlit("TemporaryRedirect");
        reveal_strlit("PermanentRedirect");
        reveal_strlit("BadRequest");
        reveal_strlit("Unauthorized");
        reveal_strlit("PaymentRequired");
        reveal_strlit("Forbidden");
        reveal_strlit("Not Found");
        reveal_strlit("MethodNotAllowed");
        reveal_strlit("NotAcceptible");
        reveal_strlit("ProxyAuthenticationRequired");
        reveal_strlit("RequestTimeout");
        reveal_strlit("Conflict");
        reveal_strlit("Gone");
        reveal_strlit("LengthRequired");
        reveal_strlit("PreconditionFailed");
        reveal_strlit("PayloadTooLarge");
        reveal_strlit("URITooLong");
        reveal_strlit("UnsupportedMediaType");
        reveal_strlit("RangeNotSatisfiable");
        reveal_strlit("ExpectationFailed");
        reveal_strlit("ImATeapot");
        reveal_strlit("MisdirectedRequest");
        reveal_strlit("UnprocessableContent");
        reveal_strlit("Locked");
        reveal_strlit("FailedDependency");
        reveal_strlit("TooEarly");
        reveal_strlit("UpgradeRequired");
        reveal_strlit("PreconditionRequired");
        reveal_strlit("TooManyRequests");
        reveal_strlit("RequestHeaderFieldsTooLarge");
        reveal_strlit("UnavailableForLegalReasons");
        reveal_strlit("InternalServerError");
        reveal_strlit("NotImplemented");
        reveal_strlit("BadGateway");
        reveal_strlit("ServiceUnavailable");
        reveal_strlit("GatewayTimeout");
        reveal_strlit("HTTPVersionNotSupported");
        reveal_strlit("VariantsAlsoNegotiates");
        reveal_strlit("InsufficientStorage");
        reveal_strlit("LoopDetected");
        reveal_strlit("NotExtended");
        reveal_strlit("NetworkAuthenticationRequired");
        assert(mark(a.reason()@) == mark(b.reason()@));
    }

    /// No two statuses share a number, so a number names at most one status.
    pub proof fn lemma_code_injective(a: StatusCode, b: StatusCode)
        requires
            a.code() == b.code(),
        ensures
            a == b,
    {
    }

    /// The table can be read in both directions: what `value` returns
    /// belongs to one status only, and so does what `string_value` returns.
    pub proof fn lemma_bidirectional(a: StatusCode, b: StatusCode)
        ensures
            decimal(a.code()) == decimal(b.code()) ==> a == b,
            text(a.reason()) == text(b.reason()) ==> a == b,
    {
        if decimal(a.code()) == decimal(b.code()) {
            lemma_decimal_round_trip(a.code());
            lemma_decimal_round_trip(b.code());
            StatusCode::lemma_code_injective(a, b);
        }
        if text(a.reason()) == text(b.reason()) {
            vstd::utf8::encode_utf8_decode_utf8(a.reason()@);
            vstd::utf8::encode_utf8_decode_utf8(b.reason()@);
            StatusCode::lemma_reason_injective(a, b);
        }
    }
}

/// The length of a text with its first and its fourth character: enough to
/// tell the reason phrases apart.
spec fn mark(s: Seq<char>) -> (nat, char, char) {
    (s.len(), if s.len() > 0 { s[0] } else { ' ' }, if s.len() > 3 { s[3] } else { ' ' })
}

/// The bytes of a number of three digits that is written out as text.
fn three_digits(s: &'static str, Ghost(n): Ghost<nat>) -> (r: &'static [u8])
    requires
        100 <= n <= 999,
        s@.len() == 3,
        is_ascii_chars(s@),
        s@[0] as u8 == digit(n / 100),
        s@[1] as u8 == digit((n / 10) % 10),
        s@[2] as u8 == digit(n % 10),
    ensures
        r@ == decimal(n),
{
    let r = s.as_bytes();
    proof {
        lemma_text_ascii(s);
        reveal_with_fuel(decimal, 3);
    }
    r
}

} // verus!
