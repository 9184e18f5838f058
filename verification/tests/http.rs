use webserver::http::{construct_response_string, request_is_get_root, route_request, ResponseData};

#[test]
fn response_is_status_line_blank_header_block_then_body() {
    let seed = ResponseData {
        protocol: String::from("HTTP/1.1"),
        status_header: String::from("200 OK"),
        body: String::new(),
    };
    let response = construct_response_string(&seed, "hello");
    assert_eq!(response, "HTTP/1.1 200 OK\r\n\r\nhello");
}

#[test]
fn response_with_empty_body() {
    let seed = ResponseData {
        protocol: String::from("HTTP/1.1"),
        status_header: String::from("404 NOT FOUND"),
        body: String::new(),
    };
    let response = construct_response_string(&seed, "");
    assert_eq!(response, "HTTP/1.1 404 NOT FOUND\r\n\r\n");
}

#[test]
fn get_root_request_is_recognized() {
    assert!(request_is_get_root(b"GET / HTTP/1.1\r\nHost: localhost\r\n\r\n"));
    assert!(request_is_get_root(b"GET / "));
}

#[test]
fn other_requests_are_not_get_root() {
    assert!(!request_is_get_root(b""));
    assert!(!request_is_get_root(b"GET /"));
    assert!(!request_is_get_root(b"GET /favicon.ico HTTP/1.1\r\n"));
    assert!(!request_is_get_root(b"POST / HTTP/1.1\r\n"));
    assert!(!request_is_get_root(b"get / HTTP/1.1\r\n"));
}

#[test]
fn root_request_routes_to_index_page() {
    let (seed, path) = route_request(b"GET / HTTP/1.1\r\n");
    assert_eq!(seed.protocol, "HTTP/1.1");
    assert_eq!(seed.status_header, "200 OK");
    assert_eq!(seed.body, "");
    assert_eq!(path, "webapp/index.html");
}

#[test]
fn other_request_routes_to_not_found_page() {
    let (seed, path) = route_request(b"GET /missing HTTP/1.1\r\n");
    assert_eq!(seed.protocol, "HTTP/1.1");
    assert_eq!(seed.status_header, "404 NOT FOUND");
    assert_eq!(seed.body, "");
    assert_eq!(path, "webapp/404.html");
}
