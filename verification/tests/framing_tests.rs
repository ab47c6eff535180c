use kafka_relay::framing::{
    find_header_end, http_response, parse_http_request, push_decimal, MISSING_SEPARATOR,
};

#[test]
fn parses_body_after_headers() {
    let req = b"POST / HTTP/1.1\r\nHost: 127.0.0.1\r\nContent-Type: application/json\r\n\r\n{\"data\":\"test_io_uring\"}";
    assert_eq!(parse_http_request(req), Ok(&b"{\"data\":\"test_io_uring\"}"[..]));
}

#[test]
fn missing_separator_is_an_error() {
    let req = b"POST / HTTP/1.1\r\nHost: 127.0.0.1\r\n";
    assert_eq!(
        parse_http_request(req),
        Err("Invalid HTTP request format: Missing header-body separator")
    );
    assert_eq!(parse_http_request(req), Err(MISSING_SEPARATOR));
}

#[test]
fn empty_request_has_no_separator() {
    assert_eq!(parse_http_request(b""), Err(MISSING_SEPARATOR));
}

#[test]
fn separator_at_the_end_gives_empty_body() {
    assert_eq!(parse_http_request(b"GET / HTTP/1.1\r\n\r\n"), Ok(&b""[..]));
    assert_eq!(parse_http_request(b"\r\n\r\n"), Ok(&b""[..]));
}

#[test]
fn first_separator_is_used() {
    assert_eq!(parse_http_request(b"a\r\n\r\nb\r\n\r\nc"), Ok(&b"b\r\n\r\nc"[..]));
}

#[test]
fn lone_line_breaks_are_not_a_separator() {
    assert_eq!(parse_http_request(b"a\r\nb\n\nc\r\r\n"), Err(MISSING_SEPARATOR));
    assert_eq!(parse_http_request(b"a\n\r\n\rb"), Err(MISSING_SEPARATOR));
}

#[test]
fn invalid_utf8_before_the_separator_is_cut_at_the_raw_separator() {
    let req = [0xFFu8, 13, 10, 13, 10, b'x', b'y', b'z'];
    assert_eq!(parse_http_request(&req), Ok(&b"xyz"[..]));
    assert_eq!(parse_http_request(&[0xFFu8, 13, 10, 13, 10]), Ok(&b""[..]));
    let mut many = vec![0xFFu8; 10];
    many.extend_from_slice(b"\r\n\r\nbody");
    assert_eq!(parse_http_request(&many), Ok(&b"body"[..]));
}

#[test]
fn valid_utf8_multibyte_request_is_cut_at_raw_separator() {
    let req = "é\r\n\r\n{\"data\":\"ü\"}".as_bytes();
    assert_eq!(parse_http_request(req), Ok("{\"data\":\"ü\"}".as_bytes()));
}

#[test]
fn appended_bytes_lengthen_the_body() {
    let head = b"POST / HTTP/1.1\r\n\r\n{\"data\":".to_vec();
    let mut longer = head.clone();
    longer.extend_from_slice(b"\"a\"}\r\n\r\nmore");
    assert_eq!(parse_http_request(&head), Ok(&b"{\"data\":"[..]));
    assert_eq!(parse_http_request(&longer), Ok(&b"{\"data\":\"a\"}\r\n\r\nmore"[..]));
}

#[test]
fn finds_header_end() {
    assert_eq!(find_header_end(b"ab\r\n\r\ncd\r\n\r\n"), Some(2));
    assert_eq!(find_header_end(b"\r\n\r"), None);
    assert_eq!(find_header_end(b"\r\n\r\n"), Some(0));
}

#[test]
fn writes_decimal_numbers() {
    let mut out = b"n=".to_vec();
    push_decimal(&mut out, 0);
    assert_eq!(out, b"n=0");
    let cases: [(usize, &str); 5] = [(7, "7"), (10, "10"), (16, "16"), (65535, "65535"), (1000000, "1000000")];
    for (n, text) in cases {
        let mut out = Vec::new();
        push_decimal(&mut out, n);
        assert_eq!(out, text.as_bytes());
    }
    let mut out = Vec::new();
    push_decimal(&mut out, usize::MAX);
    assert_eq!(out, usize::MAX.to_string().as_bytes());
}

#[test]
fn reply_to_acknowledged_payload() {
    assert_eq!(
        http_response(b"Payload received"),
        b"HTTP/1.1 200 OK\r\nContent-Type: text/plain\r\nContent-Length: 16\r\n\r\nPayload received".to_vec()
    );
}

#[test]
fn reply_with_empty_message() {
    assert_eq!(
        http_response(b""),
        b"HTTP/1.1 200 OK\r\nContent-Type: text/plain\r\nContent-Length: 0\r\n\r\n".to_vec()
    );
}

#[test]
fn reply_replaces_invalid_utf8_but_keeps_the_raw_length() {
    let out = http_response(&[b'a', 0xFF]);
    let mut expected = b"HTTP/1.1 200 OK\r\nContent-Type: text/plain\r\nContent-Length: 2\r\n\r\na".to_vec();
    expected.extend_from_slice(&[0xEF, 0xBF, 0xBD]);
    assert_eq!(out, expected);
}

#[test]
fn reply_with_invalid_utf8_round_trips_as_replacement() {
    let reply = http_response(&[0xFF]);
    assert_eq!(parse_http_request(&reply), Ok(&[0xEFu8, 0xBF, 0xBD][..]));
}

#[test]
fn reply_body_round_trips_through_the_parser() {
    for message in [&b"Invalid payload format"[..], b"", b"x\r\n\r\ny", "ünïcode".as_bytes()] {
        let reply = http_response(message);
        assert_eq!(parse_http_request(&reply), Ok(message));
    }
}
