use verge::platform::pac::{has_header_end, is_pac_request, response, url};

#[test]
fn only_complete_pac_requests_are_answered_with_the_script() {
    assert!(is_pac_request(b"GET /proxy.pac HTTP/1.1\r\nHost: x\r\n\r\n"));
    assert!(!is_pac_request(b"GET /proxy.pac HTTP/1.1\r\nHost: x\r\n"));
    assert!(!is_pac_request(b"GET /other HTTP/1.1\r\n\r\n"));
    assert!(!is_pac_request(b"POST /proxy.pac HTTP/1.1\r\n\r\n"));
    assert!(!is_pac_request(b""));
    assert!(has_header_end(b"\r\n\r\n"));
    assert!(!has_header_end(b"\r\n\r"));
}

#[test]
fn responses_carry_the_byte_length_of_their_body() {
    let ok = response(true, "function FindProxyForURL(){return \"DIRECT\";}");
    assert!(ok.starts_with("HTTP/1.1 200 OK\r\nContent-Type: application/x-ns-proxy-autoconfig\r\n"));
    assert!(ok.ends_with("Content-Length: 44\r\n\r\nfunction FindProxyForURL(){return \"DIRECT\";}"));
    let missing = response(false, "ignored");
    assert!(missing.starts_with("HTTP/1.1 404 Not Found\r\n"));
    assert!(missing.ends_with("Content-Length: 9\r\n\r\nNot found"));
    assert!(response(true, "é").ends_with("Content-Length: 2\r\n\r\né"));
    assert_eq!(url(8123), "http://127.0.0.1:8123/proxy.pac");
}
