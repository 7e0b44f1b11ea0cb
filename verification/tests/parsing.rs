use httpd_core::HttpErrorKind;
use httpd_core::HttpVerb;
use httpd_core::Payload;
use httpd_core::parser::parse_query;
use httpd_core::request::Request;
use httpd_core::response::write_payload;
use httpd_core::stream::ByteSink;

fn parse_err(input: Vec<u8>) -> httpd_core::HttpError {
    match parse_query(input) {
        Ok(_) => panic!("a malformed request must not parse"),
        Err(err) => err,
    }
}

fn body_bytes(request: &mut Request) -> Vec<u8> {
    let payload = request.body().expect("request should carry a body stream");
    let mut sink = ByteSink::new();
    write_payload(payload, &mut sink).expect("draining an in-memory stream cannot fail");
    sink.into_bytes()
}

#[test]
fn parses_simple_get() {
    let input = b"GET /index.html HTTP/1.1\r\nHost: localhost\r\n\r\n".to_vec();
    let mut request = parse_query(input).expect("well-formed request");
    assert_eq!(request.verb(), HttpVerb::Get);
    assert_eq!(request.path().as_slice(), b"/index.html");
    assert_eq!(
        request.get_header(&b"Host".to_vec()),
        Some(b"localhost".to_vec())
    );
    assert_eq!(body_bytes(&mut request), b"".to_vec());
}

#[test]
fn parses_post_with_body_left_unread() {
    let input = b"POST /files/a HTTP/1.1\r\nContent-Length: 5\r\n\r\nhello".to_vec();
    let mut request = parse_query(input).expect("well-formed request");
    assert_eq!(request.verb(), HttpVerb::Post);
    assert_eq!(request.content_length(), Some(5));
    assert_eq!(body_bytes(&mut request), b"hello".to_vec());
}

#[test]
fn unknown_verb_is_not_an_error() {
    let input = b"BREW /pot HTTP/1.1\r\n\r\n".to_vec();
    let request = parse_query(input).expect("unknown verb parses");
    assert_eq!(request.verb(), HttpVerb::Unknown);
    assert_eq!(request.path().as_slice(), b"/pot");
}

#[test]
fn request_line_without_path_is_rejected() {
    let err = parse_err(b"GET\r\n\r\n".to_vec());
    assert_eq!(err.kind, HttpErrorKind::InvalidRequestLine);
}

#[test]
fn empty_input_is_rejected_as_request_line() {
    let err = parse_err(Vec::new());
    assert_eq!(err.kind, HttpErrorKind::InvalidRequestLine);
}

#[test]
fn header_without_separator_is_rejected() {
    let err = parse_err(b"GET / HTTP/1.1\r\nBadHeader\r\n\r\n".to_vec());
    assert_eq!(err.kind, HttpErrorKind::InvalidHeader);
}

#[test]
fn missing_blank_line_is_unexpected_eof() {
    let err = parse_err(b"GET / HTTP/1.1\r\nHost: x\r\n".to_vec());
    assert_eq!(err.kind, HttpErrorKind::UnexpectedEof);
}

#[test]
fn headers_keep_order_and_first_match_wins() {
    let input = b"GET / HTTP/1.1\r\nX: one\r\nY: two\r\nX: three\r\n\r\n".to_vec();
    let request = parse_query(input).expect("well-formed request");
    assert_eq!(request.get_header(&b"X".to_vec()), Some(b"one".to_vec()));
    assert_eq!(request.get_header(&b"Y".to_vec()), Some(b"two".to_vec()));
    assert_eq!(request.get_header(&b"Z".to_vec()), None);
}

#[test]
fn header_value_may_contain_separator() {
    let input = b"GET / HTTP/1.1\r\nVia: a: b\r\n\r\n".to_vec();
    let request = parse_query(input).expect("well-formed request");
    assert_eq!(request.get_header(&b"Via".to_vec()), Some(b"a: b".to_vec()));
}

#[test]
fn content_length_rejects_non_numeric_value() {
    let input = b"POST /files/a HTTP/1.1\r\nContent-Length: five\r\n\r\n".to_vec();
    let request = parse_query(input).expect("well-formed request");
    assert_eq!(request.content_length(), None);
}

#[test]
fn content_length_rejects_overflowing_value() {
    let input = b"POST /f HTTP/1.1\r\nContent-Length: 99999999999999999999999999\r\n\r\n".to_vec();
    let request = parse_query(input).expect("well-formed request");
    assert_eq!(request.content_length(), None);
}

#[test]
fn content_length_missing_header() {
    let input = b"POST /f HTTP/1.1\r\n\r\n".to_vec();
    let request = parse_query(input).expect("well-formed request");
    assert_eq!(request.content_length(), None);
}

#[test]
fn gzip_negotiation_reads_the_list() {
    let input =
        b"GET /echo/x HTTP/1.1\r\nAccept-Encoding: deflate, gzip, br\r\n\r\n".to_vec();
    let request = parse_query(input).expect("well-formed request");
    assert!(request.wants_gzip_encoding());

    let input = b"GET /echo/x HTTP/1.1\r\nAccept-Encoding: gzippy\r\n\r\n".to_vec();
    let request = parse_query(input).expect("well-formed request");
    assert!(!request.wants_gzip_encoding());

    let input = b"GET /echo/x HTTP/1.1\r\n\r\n".to_vec();
    let request = parse_query(input).expect("well-formed request");
    assert!(!request.wants_gzip_encoding());
}

#[test]
fn taking_the_body_twice_yields_nothing() {
    let input = b"GET / HTTP/1.1\r\n\r\nrest".to_vec();
    let mut request = parse_query(input).expect("well-formed request");
    assert_eq!(body_bytes(&mut request), b"rest".to_vec());
    assert!(request.body().is_none());
}

#[test]
fn set_payload_attaches_a_stream() {
    let mut request = Request::new(HttpVerb::Get, b"/".to_vec());
    request.set_payload(Payload::Simple(vec![b"one".to_vec(), b"two".to_vec()]));
    assert_eq!(body_bytes(&mut request), b"onetwo".to_vec());
}
