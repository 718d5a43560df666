use thread_pool::server::{handle_connection, response, starts_with, Page};

#[test]
fn root_request_gets_the_greeting() {
    let mut buffer = [0u8; 512];
    let request = b"GET / HTTP/1.1\r\nHost: localhost\r\n\r\n";
    buffer[..request.len()].copy_from_slice(request);
    assert_eq!(handle_connection(&buffer), Page::Hello);
    assert_eq!(handle_connection(b"GET / HTTP/1.1\r\n"), Page::Hello);
}

#[test]
fn other_requests_get_the_error_page() {
    assert_eq!(handle_connection(b"GET /other HTTP/1.1\r\n"), Page::NotFound);
    assert_eq!(handle_connection(b"POST / HTTP/1.1\r\n"), Page::NotFound);
    assert_eq!(handle_connection(b"GET / HTTP/1.1\r"), Page::NotFound);
    assert_eq!(handle_connection(b"GET / HTTP/1.0\r\n"), Page::NotFound);
    assert_eq!(handle_connection(b" GET / HTTP/1.1\r\n"), Page::NotFound);
    assert_eq!(handle_connection(b""), Page::NotFound);
    assert_eq!(handle_connection(&[0u8; 512]), Page::NotFound);
}

#[test]
fn status_lines_and_files() {
    assert_eq!(Page::Hello.status_line(), b"HTTP/1.1 200 OK\r\n\r\n".to_vec());
    assert_eq!(Page::NotFound.status_line(), b"HTTP/1.1 404 NOT FOUND\r\n\r\n".to_vec());
    assert_eq!(Page::Hello.filename(), "view/hello.html");
    assert_eq!(Page::NotFound.filename(), "view/404.html");
}

#[test]
fn response_is_status_then_contents() {
    let body = "<h1>Hello!</h1>\n";
    let expected = format!("{}{}", "HTTP/1.1 200 OK\r\n\r\n", body);
    assert_eq!(response(Page::Hello, body.as_bytes()), expected.into_bytes());
    let expected = format!("{}{}", "HTTP/1.1 404 NOT FOUND\r\n\r\n", "gone");
    assert_eq!(response(Page::NotFound, b"gone"), expected.into_bytes());
    assert_eq!(response(Page::Hello, b""), b"HTTP/1.1 200 OK\r\n\r\n".to_vec());
}

#[test]
fn starts_with_compares_the_prefix() {
    assert!(starts_with(b"abcdef", b"abc"));
    assert!(starts_with(b"abc", b"abc"));
    assert!(starts_with(b"abc", b""));
    assert!(starts_with(b"", b""));
    assert!(!starts_with(b"ab", b"abc"));
    assert!(!starts_with(b"abd", b"abc"));
    assert!(!starts_with(b"xbc", b"abc"));
    assert!(!starts_with(b"", b"a"));
}
