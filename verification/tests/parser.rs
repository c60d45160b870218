use webserver::error::ParseError;
use webserver::http_utils::HttpProtocol;
use webserver::request::{
    parse_request_before_body, parse_request_line, trim_byte_slice, HttpMethod,
};
use webserver::run::assemble_request;

const METHODS: [HttpMethod; 8] = [
    HttpMethod::GET,
    HttpMethod::POST,
    HttpMethod::PUT,
    HttpMethod::DELETE,
    HttpMethod::HEAD,
    HttpMethod::OPTIONS,
    HttpMethod::TRACE,
    HttpMethod::CONNECT,
];

const PROTOCOLS: [HttpProtocol; 4] = [
    HttpProtocol::HTTP1_0,
    HttpProtocol::HTTP1_1,
    HttpProtocol::HTTP2,
    HttpProtocol::HTTP3,
];

fn parse_error(buf: &[u8]) -> Option<ParseError> {
    parse_request_before_body(&buf.to_vec()).err()
}

#[test]
fn parses_a_minimal_request() {
    let buf = b"GET /x HTTP/1.1\r\nHost: a\r\n\r\n".to_vec();
    let (line, headers) = parse_request_before_body(&buf).unwrap();
    assert_eq!(line.method, HttpMethod::GET);
    assert_eq!(line.path, "/x");
    assert_eq!(line.protocol, HttpProtocol::HTTP1_1);
    assert_eq!(headers.len(), 1);
    assert_eq!(headers.get(b"Host").copied(), Some(&b"a"[..]));
    let request = assemble_request(line, headers, b"").unwrap();
    assert!(request.body.is_empty());
}

#[test]
fn method_tokens_round_trip() {
    for method in METHODS {
        let token = method.as_bytes();
        let parsed = HttpMethod::try_from(token).unwrap();
        assert_eq!(parsed, method);
        assert_eq!(parsed.as_bytes(), token);
    }
}

#[test]
fn protocol_tokens_round_trip() {
    for protocol in PROTOCOLS {
        let token = protocol.as_bytes();
        let parsed = HttpProtocol::try_from(token).unwrap();
        assert_eq!(parsed, protocol);
        assert_eq!(parsed.as_bytes(), token);
    }
}

#[test]
fn wire_tokens_are_exact() {
    assert_eq!(HttpMethod::GET.as_bytes(), b"GET");
    assert_eq!(HttpMethod::POST.as_bytes(), b"POST");
    assert_eq!(HttpMethod::PUT.as_bytes(), b"PUT");
    assert_eq!(HttpMethod::DELETE.as_bytes(), b"DELETE");
    assert_eq!(HttpMethod::HEAD.as_bytes(), b"HEAD");
    assert_eq!(HttpMethod::OPTIONS.as_bytes(), b"OPTIONS");
    assert_eq!(HttpMethod::TRACE.as_bytes(), b"TRACE");
    assert_eq!(HttpMethod::CONNECT.as_bytes(), b"CONNECT");
    assert_eq!(HttpProtocol::HTTP1_0.as_bytes(), b"HTTP/1.0");
    assert_eq!(HttpProtocol::HTTP1_1.as_bytes(), b"HTTP/1.1");
    assert_eq!(HttpProtocol::HTTP2.as_bytes(), b"HTTP/2");
    assert_eq!(HttpProtocol::HTTP3.as_bytes(), b"HTTP/3");
}

#[test]
fn tokens_are_matched_exactly() {
    assert_eq!(HttpMethod::try_from(&b"get"[..]), Err(ParseError::UnknownMethod));
    assert_eq!(HttpMethod::try_from(&b"GET "[..]), Err(ParseError::UnknownMethod));
    assert_eq!(HttpMethod::try_from(&b""[..]), Err(ParseError::UnknownMethod));
    assert_eq!(HttpMethod::try_from(&b"PATCH"[..]), Err(ParseError::UnknownMethod));
    assert_eq!(HttpProtocol::try_from(&b"http/1.1"[..]), Err(ParseError::UnknownProtocol));
    assert_eq!(HttpProtocol::try_from(&b"HTTP/1.2"[..]), Err(ParseError::UnknownProtocol));
    assert_eq!(HttpProtocol::try_from(&b"HTTP/2.0"[..]), Err(ParseError::UnknownProtocol));
    assert_eq!(HttpProtocol::try_from(&b""[..]), Err(ParseError::UnknownProtocol));
}

#[test]
fn fewer_than_three_terminators_are_refused() {
    assert_eq!(parse_error(b""), Some(ParseError::TooFewLines));
    assert_eq!(parse_error(b"GET /x HTTP/1.1"), Some(ParseError::TooFewLines));
    assert_eq!(parse_error(b"GET /x HTTP/1.1\r\n"), Some(ParseError::TooFewLines));
    assert_eq!(parse_error(b"GET /x HTTP/1.1\r\n\r\n"), Some(ParseError::TooFewLines));
    assert_eq!(parse_error(b"GET /x HTTP/1.1\r\nHost: a\r\n"), Some(ParseError::TooFewLines));
    assert_eq!(parse_error(b"GET /x HTTP/1.1\nHost: a\n\n\n"), Some(ParseError::TooFewLines));
    assert_eq!(parse_error(b"\r"), Some(ParseError::TooFewLines));
}

#[test]
fn the_count_of_terminators_is_checked_first() {
    assert_eq!(parse_error(b"nonsense\r\n\r\n"), Some(ParseError::TooFewLines));
    assert_eq!(parse_error(b"nonsense\r\nno colon\r\n\r\n"), Some(ParseError::MissingToken));
    assert_eq!(parse_error(b"FETCH /x HTTP/1.1\r\nno colon\r\n\r\n"), Some(ParseError::UnknownMethod));
}

#[test]
fn missing_tokens_are_refused() {
    assert_eq!(parse_error(b"\r\nHost: a\r\n\r\n"), Some(ParseError::MissingToken));
    assert_eq!(parse_error(b"GET\r\nHost: a\r\n\r\n"), Some(ParseError::MissingToken));
    assert_eq!(parse_error(b"GET /x\r\nHost: a\r\n\r\n"), Some(ParseError::MissingToken));
    assert_eq!(parse_request_line(b"GET /x").err(), Some(ParseError::MissingToken));
    assert_eq!(parse_request_line(b"").err(), Some(ParseError::MissingToken));
}

#[test]
fn a_missing_token_comes_before_an_unknown_method() {
    assert_eq!(parse_request_line(b"FETCH /x").err(), Some(ParseError::MissingToken));
    assert_eq!(parse_request_line(b"FETCH /x HTTP/9").err(), Some(ParseError::UnknownMethod));
    assert_eq!(parse_request_line(b"GET /\xff HTTP/9").err(), Some(ParseError::InvalidPath));
    assert_eq!(parse_request_line(b"GET /x HTTP/9").err(), Some(ParseError::UnknownProtocol));
}

#[test]
fn unknown_method_is_refused() {
    assert_eq!(parse_error(b"FETCH /x HTTP/1.1\r\nHost: a\r\n\r\n"), Some(ParseError::UnknownMethod));
    assert_eq!(parse_error(b"get /x HTTP/1.1\r\nHost: a\r\n\r\n"), Some(ParseError::UnknownMethod));
}

#[test]
fn a_path_that_is_not_utf8_is_refused() {
    assert_eq!(parse_error(b"GET /\xff HTTP/1.1\r\nHost: a\r\n\r\n"), Some(ParseError::InvalidPath));
    assert_eq!(parse_error(b"GET /\xc3 HTTP/1.1\r\nHost: a\r\n\r\n"), Some(ParseError::InvalidPath));
}

#[test]
fn a_path_of_several_bytes_per_character_is_kept() {
    let line = parse_request_line("GET /caf\u{e9} HTTP/1.0".as_bytes()).unwrap();
    assert_eq!(line.path, "/caf\u{e9}");
    assert_eq!(line.protocol, HttpProtocol::HTTP1_0);
}

#[test]
fn the_path_is_not_percent_decoded() {
    let line = parse_request_line(b"GET /a%20b?x=1 HTTP/1.1").unwrap();
    assert_eq!(line.path, "/a%20b?x=1");
}

#[test]
fn unknown_protocol_is_refused() {
    assert_eq!(parse_error(b"GET /x HTTP/1.2\r\nHost: a\r\n\r\n"), Some(ParseError::UnknownProtocol));
    assert_eq!(parse_error(b"GET /x http/1.1\r\nHost: a\r\n\r\n"), Some(ParseError::UnknownProtocol));
}

#[test]
fn a_header_line_without_a_colon_is_refused() {
    assert_eq!(parse_error(b"GET /x HTTP/1.1\r\nHost a\r\n\r\n"), Some(ParseError::MissingColon));
    assert_eq!(
        parse_error(b"GET /x HTTP/1.1\r\nHost: a\r\nbroken\r\n\r\n"),
        Some(ParseError::MissingColon)
    );
}

#[test]
fn a_line_behind_the_empty_line_is_not_read() {
    let buf = b"GET /x HTTP/1.1\r\nHost: a\r\n\r\nbroken\r\n".to_vec();
    let (_, headers) = parse_request_before_body(&buf).unwrap();
    assert_eq!(headers.len(), 1);
}

#[test]
fn every_method_and_protocol_is_parsed_in_a_request_line() {
    for method in METHODS {
        for protocol in PROTOCOLS {
            let mut line = method.as_bytes().to_vec();
            line.extend_from_slice(b" /p ");
            line.extend_from_slice(protocol.as_bytes());
            let parsed = parse_request_line(&line).unwrap();
            assert_eq!(parsed.method, method);
            assert_eq!(parsed.path, "/p");
            assert_eq!(parsed.protocol, protocol);
        }
    }
}

#[test]
fn the_request_line_is_cut_at_every_whitespace_byte() {
    let line = parse_request_line(b"PUT\t/x\x0cHTTP/1.0").unwrap();
    assert_eq!(line.method, HttpMethod::PUT);
    assert_eq!(line.path, "/x");
    assert_eq!(line.protocol, HttpProtocol::HTTP1_0);
    // two spaces enclose an empty path, and the protocol field is then "/x"
    assert_eq!(parse_request_line(b"GET  /x HTTP/1.1").err(), Some(ParseError::UnknownProtocol));
    // a vertical tab is no ASCII whitespace
    assert_eq!(parse_request_line(b"GET\x0b/x HTTP/1.1").err(), Some(ParseError::MissingToken));
}

#[test]
fn what_follows_the_third_field_is_not_read() {
    let line = parse_request_line(b"GET /x HTTP/1.1 and more").unwrap();
    assert_eq!(line.method, HttpMethod::GET);
    assert_eq!(line.path, "/x");
    assert_eq!(line.protocol, HttpProtocol::HTTP1_1);
    let line = parse_request_line(b"GET /x HTTP/1.1 ").unwrap();
    assert_eq!(line.protocol, HttpProtocol::HTTP1_1);
}

#[test]
fn an_empty_path_is_a_path() {
    let line = parse_request_line(b"GET  HTTP/1.1").unwrap();
    assert_eq!(line.path, "");
}

#[test]
fn the_later_of_two_headers_with_one_name_stays() {
    let buf = b"GET /x HTTP/1.1\r\nA: 1\r\nB: 2\r\nA: 3\r\n\r\n".to_vec();
    let (_, headers) = parse_request_before_body(&buf).unwrap();
    assert_eq!(headers.len(), 2);
    assert_eq!(headers.get(b"A").copied(), Some(&b"3"[..]));
    assert_eq!(headers.get(b"B").copied(), Some(&b"2"[..]));
    // the name keeps the place at which it first came
    let (name, value) = headers.entry(0);
    assert_eq!((*name, *value), (&b"A"[..], &b"3"[..]));
    let (name, value) = headers.entry(1);
    assert_eq!((*name, *value), (&b"B"[..], &b"2"[..]));
}

#[test]
fn header_names_are_case_sensitive() {
    let buf = b"GET /x HTTP/1.1\r\nhost: a\r\nHost: b\r\n\r\n".to_vec();
    let (_, headers) = parse_request_before_body(&buf).unwrap();
    assert_eq!(headers.len(), 2);
    assert_eq!(headers.get(b"host").copied(), Some(&b"a"[..]));
    assert_eq!(headers.get(b"Host").copied(), Some(&b"b"[..]));
    assert_eq!(headers.get(b"HOST"), None);
    assert!(!headers.contains_key(b"HOST"));
    assert!(headers.contains_key(b"Host"));
}

#[test]
fn a_header_is_cut_at_its_first_colon() {
    let buf = b"GET /x HTTP/1.1\r\nHost: a:8080\r\nX:\r\n:v\r\n\r\n".to_vec();
    let (_, headers) = parse_request_before_body(&buf).unwrap();
    assert_eq!(headers.len(), 3);
    assert_eq!(headers.get(b"Host").copied(), Some(&b"a:8080"[..]));
    assert_eq!(headers.get(b"X").copied(), Some(&b""[..]));
    assert_eq!(headers.get(b"").copied(), Some(&b"v"[..]));
}

#[test]
fn header_values_are_trimmed_and_names_are_not() {
    let buf = b"GET /x HTTP/1.1\r\n Name \t:  \t v w \t \r\nBlank:  \t \r\n\r\n".to_vec();
    let (_, headers) = parse_request_before_body(&buf).unwrap();
    assert_eq!(headers.get(b" Name \t").copied(), Some(&b"v w"[..]));
    assert_eq!(headers.get(b"Name"), None);
    assert_eq!(headers.get(b"Blank").copied(), Some(&b""[..]));
}

#[test]
fn the_headers_end_at_the_first_empty_line() {
    let buf = b"GET /x HTTP/1.1\r\nA: 1\r\n\r\nB: 2\r\n\r\n".to_vec();
    let (_, headers) = parse_request_before_body(&buf).unwrap();
    assert_eq!(headers.len(), 1);
    assert_eq!(headers.get(b"B"), None);
}

#[test]
fn a_block_may_have_no_header() {
    let buf = b"GET /x HTTP/1.1\r\n\r\n\r\n".to_vec();
    let (line, headers) = parse_request_before_body(&buf).unwrap();
    assert_eq!(line.path, "/x");
    assert_eq!(headers.len(), 0);
}

#[test]
fn without_an_empty_line_every_terminated_line_is_a_header() {
    let buf = b"GET /x HTTP/1.1\r\nA: 1\r\nB: 2\r\nC: 3".to_vec();
    let (_, headers) = parse_request_before_body(&buf).unwrap();
    assert_eq!(headers.len(), 2);
    assert_eq!(headers.get(b"A").copied(), Some(&b"1"[..]));
    assert_eq!(headers.get(b"B").copied(), Some(&b"2"[..]));
    assert_eq!(headers.get(b"C"), None);
}

#[test]
fn a_lone_carriage_return_or_line_feed_ends_no_line() {
    let buf = b"GET /x HTTP/1.1\r\nA: 1\r2\n3\r\n\r\n".to_vec();
    let (_, headers) = parse_request_before_body(&buf).unwrap();
    assert_eq!(headers.len(), 1);
    // the value is trimmed at its ends only
    assert_eq!(headers.get(b"A").copied(), Some(&b"1\r2\n3"[..]));
}

#[test]
fn trim_byte_slice_strips_both_ends() {
    assert_eq!(trim_byte_slice(b"  a b \t\r\n"), b"a b");
    assert_eq!(trim_byte_slice(b"a"), b"a");
    assert_eq!(trim_byte_slice(b"\x0ca\x0c"), b"a");
    assert_eq!(trim_byte_slice(b""), b"");
    assert_eq!(trim_byte_slice(b" \t\r\n"), b"");
    // a vertical tab and a non-breaking space are no ASCII whitespace
    assert_eq!(trim_byte_slice(b"\x0ba\xa0"), b"\x0ba\xa0");
}

#[test]
fn parse_error_messages() {
    assert_eq!(
        ParseError::TooFewLines.message(),
        "Something is wrong in request. CRLF <= 2 detected"
    );
    assert_eq!(ParseError::UnknownMethod.message(), "Met Unknown Http Method while parsing.");
    assert_eq!(ParseError::InvalidPath.message(), "Error in converting path to string");
    assert_eq!(ParseError::UnknownProtocol.message(), "Met unknown Http Protocol while parsing");
    assert_eq!(ParseError::MissingToken.message(), "Request line with fewer than three fields");
    assert_eq!(ParseError::MissingColon.message(), "Header line without a colon");
}
