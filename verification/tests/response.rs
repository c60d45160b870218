use webserver::bytes::decimal_bytes;
use webserver::http_utils::HttpProtocol;
use webserver::response::{Response, ResponseBuilderError, StatusCode};

const STATUS_TABLE: [(StatusCode, &str, &str); 63] = [
    (StatusCode::Continue, "100", "Continue"),
    (StatusCode::SwitchingProtocol, "101", "SwitchingProtocol"),
    (StatusCode::Processing, "102", "Processing"),
    (StatusCode::EarlyHints, "103", "EarlyHints"),
    (StatusCode::OK, "200", "OK"),
    (StatusCode::Created, "201", "Created"),
    (StatusCode::Accepted, "202", "Accepted"),
    (StatusCode::NonAuthoritativeInformation, "203", "NonAuthoritativeInformation"),
    (StatusCode::NoContent, "204", "NoContent"),
    (StatusCode::ResetContent, "205", "ResetContent"),
    (StatusCode::PartialContent, "206", "PartialContent"),
    (StatusCode::MultiStatus, "207", "MultiStatus"),
    (StatusCode::AlreadyReported, "208", "AlreadyReported"),
    (StatusCode::IMUsed, "226", "IMUsed"),
    (StatusCode::MultipleChoices, "300", "MultipleChoices"),
    (StatusCode::MovedPermanently, "301", "MovedPermanently"),
    (StatusCode::Found, "302", "Found"),
    (StatusCode::SeeOther, "303", "SeeOther"),
    (StatusCode::NotModified, "304", "NotModified"),
    (StatusCode::UseProxy, "305", "UseProxy"),
    (StatusCode::Unused, "306", "Unused"),
    (StatusCode::TemporaryRedirect, "307", "TemporaryRedirect"),
    (StatusCode::PermanentRedirect, "308", "PermanentRedirect"),
    (StatusCode::BadRequest, "400", "BadRequest"),
    (StatusCode::Unauthorized, "401", "Unauthorized"),
    (StatusCode::PaymentRequired, "402", "PaymentRequired"),
    (StatusCode::Forbidden, "403", "Forbidden"),
    (StatusCode::NotFound, "404", "Not Found"),
    (StatusCode::MethodNotAllowed, "405", "MethodNotAllowed"),
    (StatusCode::NotAcceptible, "406", "NotAcceptible"),
    (StatusCode::ProxyAuthenticationRequired, "407", "ProxyAuthenticationRequired"),
    (StatusCode::RequestTimeout, "408", "RequestTimeout"),
    (StatusCode::Conflict, "409", "Conflict"),
    (StatusCode::Gone, "410", "Gone"),
    (StatusCode::LengthRequired, "411", "LengthRequired"),
    (StatusCode::PreconditionFailed, "412", "PreconditionFailed"),
    (StatusCode::PayloadTooLarge, "413", "PayloadTooLarge"),
    (StatusCode::URITooLong, "414", "URITooLong"),
    (StatusCode::UnsupportedMediaType, "415", "UnsupportedMediaType"),
    (StatusCode::RangeNotSatisfiable, "416", "RangeNotSatisfiable"),
    (StatusCode::ExpectationFailed, "417", "ExpectationFailed"),
    (StatusCode::ImATeapot, "418", "ImATeapot"),
    (StatusCode::MisdirectedRequest, "421", "MisdirectedRequest"),
    (StatusCode::UnprocessableContent, "422", "UnprocessableContent"),
    (StatusCode::Locked, "423", "Locked"),
    (StatusCode::FailedDependency, "424", "FailedDependency"),
    (StatusCode::TooEarly, "425", "TooEarly"),
    (StatusCode::UpgradeRequired, "426", "UpgradeRequired"),
    (StatusCode::PreconditionRequired, "428", "PreconditionRequired"),
    (StatusCode::TooManyRequests, "429", "TooManyRequests"),
    (StatusCode::RequestHeaderFieldsTooLarge, "431", "RequestHeaderFieldsTooLarge"),
    (StatusCode::UnavailableForLegalReasons, "451", "UnavailableForLegalReasons"),
    (StatusCode::InternalServerError, "500", "InternalServerError"),
    (StatusCode::NotImplemented, "501", "NotImplemented"),
    (StatusCode::BadGateway, "502", "BadGateway"),
    (StatusCode::ServiceUnavailable, "503", "ServiceUnavailable"),
    (StatusCode::GatewayTimeout, "504", "GatewayTimeout"),
    (StatusCode::HTTPVersionNotSupported, "505", "HTTPVersionNotSupported"),
    (StatusCode::VariantsAlsoNegotiates, "506", "VariantsAlsoNegotiates"),
    (StatusCode::InsufficientStorage, "507", "InsufficientStorage"),
    (StatusCode::LoopDetected, "508", "LoopDetected"),
    (StatusCode::NotExtended, "510", "NotExtended"),
    (StatusCode::NetworkAuthenticationRequired, "511", "NetworkAuthenticationRequired"),
];

fn find(haystack: &[u8], needle: &[u8]) -> bool {
    haystack.windows(needle.len()).any(|window| window == needle)
}

#[test]
fn every_status_has_its_number_and_its_reason() {
    for (status, number, reason) in STATUS_TABLE {
        assert_eq!(status.value(), number.as_bytes());
        assert_eq!(status.string_value(), reason.as_bytes());
    }
}

#[test]
fn status_numbers_have_three_digits_in_the_five_classes() {
    for (status, _, _) in STATUS_TABLE {
        let value = status.value();
        assert_eq!(value.len(), 3);
        assert!(value.iter().all(|b| b.is_ascii_digit()));
        assert!((b'1'..=b'5').contains(&value[0]));
    }
}

#[test]
fn no_two_statuses_share_a_number_or_a_reason() {
    for (i, (a, _, _)) in STATUS_TABLE.iter().enumerate() {
        for (b, _, _) in STATUS_TABLE.iter().skip(i + 1) {
            assert_ne!(a, b);
            assert_ne!(a.value(), b.value());
            assert_ne!(a.string_value(), b.string_value());
        }
    }
}

#[test]
fn the_statuses_of_the_router() {
    assert_eq!(StatusCode::OK.value(), b"200");
    assert_eq!(StatusCode::OK.string_value(), b"OK");
    assert_eq!(StatusCode::NotFound.value(), b"404");
    assert_eq!(StatusCode::NotFound.string_value(), b"Not Found");
    assert_eq!(StatusCode::MethodNotAllowed.value(), b"405");
    assert_eq!(StatusCode::MethodNotAllowed.string_value(), b"MethodNotAllowed");
}

#[test]
fn the_length_of_the_body_is_added_where_it_is_not_set() {
    let response =
        Response::builder().status_code(StatusCode::OK).body(b"abc".to_vec()).build().unwrap();
    let raw = response.serialize();
    assert!(find(&raw, b"\r\nContent-Length: 3\r\n"));
    assert_eq!(raw, b"HTTP/1.1 200 OK\r\nContent-Length: 3\r\n\r\nabc");
}

#[test]
fn a_length_that_is_set_is_not_added_again() {
    let response = Response::builder()
        .status_code(StatusCode::OK)
        .header("Content-Length", "99")
        .body(b"abc".to_vec())
        .build()
        .unwrap();
    assert_eq!(response.serialize(), b"HTTP/1.1 200 OK\r\nContent-Length: 99\r\n\r\nabc");
}

#[test]
fn the_length_header_is_known_by_its_exact_name() {
    let response = Response::builder()
        .status_code(StatusCode::OK)
        .header("content-length", "99")
        .body(b"abc".to_vec())
        .build()
        .unwrap();
    assert_eq!(
        response.serialize(),
        b"HTTP/1.1 200 OK\r\ncontent-length: 99\r\nContent-Length: 3\r\n\r\nabc"
    );
}

#[test]
fn an_empty_body_has_the_length_zero() {
    let response = Response::builder().status_code(StatusCode::NoContent).build().unwrap();
    assert_eq!(response.serialize(), b"HTTP/1.1 204 NoContent\r\nContent-Length: 0\r\n\r\n");
}

#[test]
fn a_long_body_has_its_length_in_decimal() {
    let body = vec![b'x'; 12345];
    let response = Response::builder().status_code(StatusCode::OK).body(body.clone()).build().unwrap();
    let mut expected = b"HTTP/1.1 200 OK\r\nContent-Length: 12345\r\n\r\n".to_vec();
    expected.extend_from_slice(&body);
    assert_eq!(response.serialize(), expected);
}

#[test]
fn headers_are_written_in_the_order_in_which_their_names_came() {
    let response = Response::builder()
        .header("B", "1")
        .header("A", "2")
        .header("B", "3")
        .status_code(StatusCode::Created)
        .protocol(HttpProtocol::HTTP1_0)
        .body(b"{}".to_vec())
        .build()
        .unwrap();
    assert_eq!(
        response.serialize(),
        b"HTTP/1.0 201 Created\r\nB: 3\r\nA: 2\r\nContent-Length: 2\r\n\r\n{}"
    );
}

#[test]
fn the_body_is_written_as_it_is() {
    let body = b"\r\n\r\n\x00\xff".to_vec();
    let response = Response::builder().status_code(StatusCode::OK).body(body).build().unwrap();
    assert_eq!(
        response.serialize(),
        b"HTTP/1.1 200 OK\r\nContent-Length: 6\r\n\r\n\r\n\r\n\x00\xff"
    );
}

#[test]
fn serializing_twice_gives_the_same_bytes() {
    let response = Response::builder()
        .status_code(StatusCode::OK)
        .header("X", "1")
        .header("Y", "2")
        .header("Z", "3")
        .build()
        .unwrap();
    assert_eq!(response.serialize(), response.serialize());
}

#[test]
fn every_protocol_token_can_open_the_status_line() {
    for (protocol, token) in [
        (HttpProtocol::HTTP1_0, "HTTP/1.0"),
        (HttpProtocol::HTTP1_1, "HTTP/1.1"),
        (HttpProtocol::HTTP2, "HTTP/2"),
        (HttpProtocol::HTTP3, "HTTP/3"),
    ] {
        let response =
            Response::builder().protocol(protocol).status_code(StatusCode::OK).build().unwrap();
        assert_eq!(response.protocol(), protocol);
        let expected = format!("{} 200 OK\r\nContent-Length: 0\r\n\r\n", token);
        assert_eq!(response.serialize(), expected.as_bytes());
    }
}

#[test]
fn building_without_a_status_fails() {
    assert_eq!(Response::builder().build().err(), Some(ResponseBuilderError::NoStatusCode));
    let builder = Response::builder()
        .protocol(HttpProtocol::HTTP1_1)
        .header("A", "b")
        .body(b"x".to_vec());
    assert_eq!(builder.build().err(), Some(ResponseBuilderError::NoStatusCode));
}

#[test]
fn the_builder_defaults() {
    let response = Response::builder().status_code(StatusCode::Accepted).build().unwrap();
    assert_eq!(response.protocol(), HttpProtocol::HTTP1_1);
    assert_eq!(response.status_code(), StatusCode::Accepted);
    assert_eq!(response.headers().len(), 0);
    assert_eq!(response.body(), b"");
}

#[test]
fn the_last_setting_of_the_builder_stays() {
    let response = Response::builder()
        .status_code(StatusCode::OK)
        .status_code(StatusCode::Gone)
        .protocol(HttpProtocol::HTTP2)
        .protocol(HttpProtocol::HTTP3)
        .body(b"one".to_vec())
        .body(b"two".to_vec())
        .header("K", "one")
        .header("K", "two")
        .build()
        .unwrap();
    assert_eq!(response.status_code(), StatusCode::Gone);
    assert_eq!(response.protocol(), HttpProtocol::HTTP3);
    assert_eq!(response.body(), b"two");
    assert_eq!(response.headers().len(), 1);
    assert_eq!(response.headers().get(b"K"), Some(&b"two".to_vec()));
}

#[test]
fn header_text_is_stored_as_utf8() {
    let response = Response::builder()
        .status_code(StatusCode::OK)
        .header("X-Caf\u{e9}", "\u{2713}")
        .build()
        .unwrap();
    assert_eq!(
        response.headers().get("X-Caf\u{e9}".as_bytes()),
        Some(&"\u{2713}".as_bytes().to_vec())
    );
    assert_eq!(response.headers().get(b"X-Caf\xc3\xa9"), Some(&b"\xe2\x9c\x93".to_vec()));
}

#[test]
fn the_default_response_is_not_found() {
    let response = Response::default();
    assert_eq!(response.protocol(), HttpProtocol::HTTP1_1);
    assert_eq!(response.status_code(), StatusCode::NotFound);
    assert_eq!(response.headers().len(), 0);
    assert_eq!(response.body(), b"");
    assert_eq!(response.serialize(), b"HTTP/1.1 404 Not Found\r\nContent-Length: 0\r\n\r\n");
}

#[test]
fn decimal_bytes_writes_without_leading_zeros() {
    assert_eq!(decimal_bytes(0), b"0");
    assert_eq!(decimal_bytes(9), b"9");
    assert_eq!(decimal_bytes(10), b"10");
    assert_eq!(decimal_bytes(99), b"99");
    assert_eq!(decimal_bytes(100), b"100");
    assert_eq!(decimal_bytes(12345), b"12345");
    assert_eq!(decimal_bytes(usize::MAX), usize::MAX.to_string().as_bytes());
}
