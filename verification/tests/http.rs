use simple_rust_server::http::{build_response, route_request};

fn request_buffer(line: &[u8]) -> [u8; 1024] {
    let mut buffer = [0u8; 1024];
    buffer[..line.len()].copy_from_slice(line);
    buffer
}

#[test]
fn front_page_is_served() {
    let buffer = request_buffer(b"GET / HTTP/1.1\r\nHost: localhost\r\n\r\n");
    let route = route_request(&buffer);
    assert_eq!(route.status_line, "HTTP/1.1 200 OK\r\n\r\n");
    assert_eq!(route.filename, "hello.html");
    assert!(!route.delay);
}

#[test]
fn sleep_page_is_served_with_a_pause() {
    let buffer = request_buffer(b"GET /sleep HTTP/1.1\r\nHost: localhost\r\n\r\n");
    let route = route_request(&buffer);
    assert_eq!(route.status_line, "HTTP/1.1 200 OK\r\n\r\n");
    assert_eq!(route.filename, "hello.html");
    assert!(route.delay);
}

#[test]
fn unknown_path_is_answered_with_not_found() {
    let buffer = request_buffer(b"GET /missing HTTP/1.1\r\n\r\n");
    let route = route_request(&buffer);
    assert_eq!(route.status_line, "HTTP/1.1 404 NOT FOUND\r\n\r\n");
    assert_eq!(route.filename, "404.html");
    assert!(!route.delay);
}

#[test]
fn short_garbage_is_answered_with_not_found() {
    let route = route_request(b"GET");
    assert_eq!(route.status_line, "HTTP/1.1 404 NOT FOUND\r\n\r\n");
    assert_eq!(route.filename, "404.html");
}

#[test]
fn response_is_status_line_then_body() {
    let response = build_response("HTTP/1.1 200 OK\r\n\r\n", "<html>hi</html>");
    assert_eq!(response, "HTTP/1.1 200 OK\r\n\r\n<html>hi</html>");
}
