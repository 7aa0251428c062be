use http_codec::protocol::Header;
use http_codec::protocol::Headers;
use http_codec::protocol::HttpVersion;
use http_codec::protocol::IoErrorKind;
use http_codec::protocol::Method;
use http_codec::protocol::ParseRequestError;
use http_codec::protocol::RawResponse;
use http_codec::protocol::RequestLine;
use http_codec::protocol::StatusCode;
use http_codec::protocol::StatusLine;
use http_codec::protocol::read_http_request;

#[test]
pub fn test_parse_http_method() {
    let source = "GET";
    let method = Method::parse(source).unwrap();
    assert_eq!(Method::GET, method);

    let source = "another";
    let method = Method::parse(source).expect_err("");
    assert_eq!(ParseRequestError::UnknownMethod("another".to_string()), method);
}

#[test]
pub fn test_parse_http_version() {
    let source = "HTTP/1.1";
    let version = HttpVersion::parse(source).unwrap();

    assert_eq!(HttpVersion::Http1_1, version);
}

#[test]
pub fn test_parse_http_header() {
    let source = "Content-Type: application/json";
    let header = Header::parse(source).unwrap();

    assert_eq!("Content-Type", header.field());
    assert_eq!("application/json", header.value());
}

#[test]
pub fn test_parse_request_line() {
    let source = "GET /some HTTP/1.1";
    let request_line = RequestLine::parse(source).unwrap();

    assert_eq!(Method::GET, request_line.method);
    assert_eq!(HttpVersion::Http1_1, request_line.version);
    assert_eq!("/some", request_line.uri);
}

#[test]
pub fn test_read_http_request() {
    let source: &[u8] = b"GET /foo/bar HTTP/1.1\r\nContent-Type: application/json\r\n\r\n";

    let request = read_http_request(source).unwrap();

    assert_eq!(Method::GET, request.request_line.method);
    assert_eq!(HttpVersion::Http1_1, request.request_line.version);
    assert_eq!("/foo/bar", request.request_line.uri);
    assert_eq!(1, request.headers.len());
    assert_eq!(Some("application/json"), request.headers.get("Content-Type"));
    assert_eq!(None, request.body);
}

#[test]
pub fn test_status_line_to_http_message() {
    let status_line = StatusLine::new(HttpVersion::Http1_1, StatusCode(200));

    let bytes = "HTTP/1.1 200 OK\r\n";

    assert_eq!(bytes, status_line.to_http_message());
}

#[test]
pub fn test_header_to_http_message() {
    let header = Header::new("hello".to_string(), "world".to_string());

    let actual = header.to_http_message();

    let expected = "hello: world\r\n";
    assert_eq!(expected, actual);
}

#[test]
fn method_round_trip_all_variants() {
    let variants = vec![
        Method::GET,
        Method::HEAD,
        Method::POST,
        Method::PUT,
        Method::DELETE,
        Method::PATCH,
        Method::OPTIONS,
        Method::TRACE,
    ];
    for m in variants {
        assert_eq!(Ok(m), Method::parse(m.as_str()));
    }
}

#[test]
fn version_round_trip_all_variants() {
    let variants = vec![HttpVersion::Http0_9, HttpVersion::Http1_0, HttpVersion::Http1_1];
    for v in variants {
        assert_eq!(Ok(v), HttpVersion::parse(v.as_str()));
    }
}

#[test]
fn unknown_http_version_is_rejected() {
    let err = HttpVersion::parse("HTTP/2.0").expect_err("");
    assert_eq!(ParseRequestError::UnknownHttpVersion("HTTP/2.0".to_string()), err);
}

#[test]
fn reason_phrases_for_enumerated_codes() {
    assert_eq!("Continue", StatusCode(100).default_reason_phrase());
    assert_eq!("OK", StatusCode(200).default_reason_phrase());
    assert_eq!("No Content", StatusCode(204).default_reason_phrase());
    assert_eq!("Moved Permanently", StatusCode(301).default_reason_phrase());
    assert_eq!("Bad Request", StatusCode(400).default_reason_phrase());
    assert_eq!("Not Found", StatusCode(404).default_reason_phrase());
    assert_eq!("Internal Server Error", StatusCode(500).default_reason_phrase());
    assert_eq!("Network Authentication Required", StatusCode(511).default_reason_phrase());
}

#[test]
fn reason_phrase_for_unlisted_code_is_unknown() {
    assert_eq!("Unknown", StatusCode(599).default_reason_phrase());
    assert_eq!("Unknown", StatusCode(0).default_reason_phrase());
    assert_eq!("Unknown", StatusCode(306).default_reason_phrase());
}

#[test]
fn malformed_header_line_is_rejected() {
    let err = Header::parse("malformed").expect_err("");
    assert_eq!(ParseRequestError::InvalidHeader("malformed".to_string()), err);
}

#[test]
fn header_splits_on_the_first_separator_only() {
    let header = Header::parse("a: b: c").unwrap();
    assert_eq!("a", header.field());
    assert_eq!("b: c", header.value());
}

#[test]
fn header_value_is_trimmed() {
    let header = Header::parse("Accept:   text/plain  ").unwrap();
    assert_eq!("Accept", header.field());
    assert_eq!("text/plain", header.value());
}

#[test]
fn headers_get_is_case_insensitive() {
    let mut headers = Headers::empty();
    headers.push(Header::new("Content-Type".to_string(), "application/json".to_string()));
    assert_eq!(Some("application/json"), headers.get("content-type"));
    assert_eq!(Some("application/json"), headers.get("CONTENT-TYPE"));
    assert_eq!(None, headers.get("content-length"));
}

#[test]
fn headers_get_returns_first_match() {
    let mut headers = Headers::empty();
    headers.push(Header::new("X-Tag".to_string(), "first".to_string()));
    headers.push(Header::new("x-tag".to_string(), "second".to_string()));
    assert_eq!(2, headers.len());
    assert_eq!(Some("first"), headers.get("X-TAG"));
}

#[test]
fn request_line_with_two_tokens_is_rejected() {
    let err = RequestLine::parse("GET /only").expect_err("");
    assert_eq!(ParseRequestError::RequestLine("GET /only".to_string()), err);
}

#[test]
fn request_line_with_bad_method_is_rejected_whole() {
    let err = RequestLine::parse("FETCH /x HTTP/1.1").expect_err("");
    assert_eq!(ParseRequestError::RequestLine("FETCH /x HTTP/1.1".to_string()), err);
}

#[test]
fn read_request_with_body() {
    let source: &[u8] = b"GET /foo/bar HTTP/1.1\r\nContent-Length: 5\r\n\r\nhello";

    let request = read_http_request(source).unwrap();

    assert_eq!(Some(b"hello".to_vec()), request.body);
}

#[test]
fn read_request_with_short_body_is_an_io_failure() {
    let source: &[u8] = b"GET /foo/bar HTTP/1.1\r\nContent-Length: 10\r\n\r\nhello";

    let err = read_http_request(source).expect_err("");
    assert_eq!(ParseRequestError::Io(IoErrorKind::UnexpectedEof), err);
}

#[test]
fn read_request_with_unparsable_length_has_no_body() {
    let source: &[u8] = b"GET /x HTTP/1.1\r\nContent-Length: five\r\n\r\nhello";

    let request = read_http_request(source).unwrap();
    assert_eq!(None, request.body);
}

#[test]
fn read_request_without_terminator_is_an_io_failure() {
    let source: &[u8] = b"GET /x HTTP/1.1";

    let err = read_http_request(source).expect_err("");
    assert_eq!(ParseRequestError::Io(IoErrorKind::UnexpectedEof), err);
}

#[test]
fn read_request_replaces_invalid_utf8_in_the_uri() {
    let source: &[u8] = b"GET /a\xFFb HTTP/1.1\r\n\r\n";

    let request = read_http_request(source).unwrap();
    assert_eq!("/a\u{FFFD}b", request.request_line.uri);
}

#[test]
fn encode_response_with_body() {
    let status_line = StatusLine::new(HttpVersion::Http1_1, StatusCode(200));
    let response = RawResponse::new(status_line, Headers::empty(), Some(b"hi".to_vec()));

    let bytes = response.into_vec();

    let expected: &[u8] = b"HTTP/1.1 200 OK\r\nContent-Length: 2\r\n\r\nhi";
    assert_eq!(expected, bytes.as_slice());
}

#[test]
fn encode_response_without_body() {
    let status_line = StatusLine::new(HttpVersion::Http1_0, StatusCode(404));
    let response = RawResponse::new(status_line, Headers::empty(), None);

    let bytes = response.into_vec();

    let expected: &[u8] = b"HTTP/1.0 404 Not Found\r\n\r\n";
    assert_eq!(expected, bytes.as_slice());
}

#[test]
fn encode_overwrites_stale_content_length() {
    let mut headers = Headers::empty();
    headers.push(Header::new("content-length".to_string(), "999".to_string()));
    let status_line = StatusLine::new(HttpVersion::Http1_1, StatusCode(200));
    let response = RawResponse::new(status_line, headers, Some(b"hi".to_vec()));

    let bytes = response.into_vec();

    let expected: &[u8] = b"HTTP/1.1 200 OK\r\ncontent-length: 2\r\n\r\nhi";
    assert_eq!(expected, bytes.as_slice());
}

#[test]
fn encoding_twice_is_byte_identical() {
    let build = || {
        let mut headers = Headers::empty();
        headers.push(Header::new("X-Tag".to_string(), "demo".to_string()));
        let status_line = StatusLine::new(HttpVersion::Http1_1, StatusCode(201));
        RawResponse::new(status_line, headers, Some(b"payload".to_vec()))
    };

    let first = build().into_vec();
    let second = build().into_vec();

    assert_eq!(first, second);
}

#[test]
fn error_messages_echo_the_offending_input() {
    let err = Method::parse("another").expect_err("");
    assert_eq!("unknown http method: another", err.to_message());

    let err = Header::parse("malformed").expect_err("");
    assert_eq!("invalid characters in header content: malformed", err.to_message());

    let err = ParseRequestError::Io(IoErrorKind::UnexpectedEof);
    assert_eq!("read failure: unexpected end of file", err.to_message());
}
