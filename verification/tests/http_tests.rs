use interop::http::{
    build_http_action, check_http_request, finish_http, parse_method, HttpEvent, HttpRequest,
    Method,
};

fn request(url: &str, method: &str, headers: Vec<&[u8]>, body: &[u8], timeout_ms: u64) -> HttpRequest {
    HttpRequest {
        url: url.as_bytes().to_vec(),
        method: method.as_bytes().to_vec(),
        headers: headers.into_iter().map(|h| h.to_vec()).collect(),
        body: body.to_vec(),
        timeout_ms,
    }
}

#[test]
fn null_request_is_rejected() {
    let r = check_http_request(None).expect_err("null request must fail");
    assert_eq!(r.error.as_deref(), Some("Null request"));
    assert_eq!(r.status_code, 0);
    assert!(r.body.is_none());
}

#[test]
fn invalid_url_encoding_is_rejected() {
    let mut q = request("http://e.example/", "GET", vec![], b"", 1000);
    q.url = vec![0xFF, 0xFE];
    let r = check_http_request(Some(&q)).expect_err("bad url bytes must fail");
    assert_eq!(r.error.as_deref(), Some("Invalid URL encoding"));
    assert_eq!(r.status_code, 0);
}

#[test]
fn invalid_method_encoding_is_rejected() {
    let mut q = request("http://e.example/", "GET", vec![], b"", 1000);
    q.method = vec![0x80];
    let r = check_http_request(Some(&q)).expect_err("bad method bytes must fail");
    assert_eq!(r.error.as_deref(), Some("Invalid method encoding"));
    assert_eq!(r.status_code, 0);
}

#[test]
fn valid_request_decodes_url_and_method() {
    let q = request("http://e.example/x", "POST", vec![], b"", 1000);
    let (url, method) = check_http_request(Some(&q)).expect("valid request");
    assert_eq!(url, "http://e.example/x");
    assert_eq!(method, "POST");
}

#[test]
fn the_six_methods_parse() {
    assert_eq!(parse_method(&String::from("GET")), Some(Method::Get));
    assert_eq!(parse_method(&String::from("POST")), Some(Method::Post));
    assert_eq!(parse_method(&String::from("PUT")), Some(Method::Put));
    assert_eq!(parse_method(&String::from("DELETE")), Some(Method::Delete));
    assert_eq!(parse_method(&String::from("PATCH")), Some(Method::Patch));
    assert_eq!(parse_method(&String::from("HEAD")), Some(Method::Head));
}

#[test]
fn methods_outside_the_set_do_not_parse() {
    assert_eq!(parse_method(&String::from("OPTIONS")), None);
    assert_eq!(parse_method(&String::from("get")), None);
    assert_eq!(parse_method(&String::from("Get")), None);
    assert_eq!(parse_method(&String::from("")), None);
    assert_eq!(parse_method(&String::from("GET ")), None);
}

#[test]
fn unsupported_method_yields_error_with_status_zero() {
    let r = build_http_action(
        String::from("http://e.example/"),
        &String::from("OPTIONS"),
        &vec![],
        &vec![],
        1000,
    )
    .expect_err("unsupported method must fail");
    assert_eq!(r.error.as_deref(), Some("Unsupported HTTP method"));
    assert_eq!(r.status_code, 0);
    assert!(r.body.is_none());
}

#[test]
fn headers_are_split_and_trimmed() {
    let a = build_http_action(
        String::from("http://e.example/"),
        &String::from("GET"),
        &vec![b"  Content-Type :  text/plain  ".to_vec(), b"X-One:1".to_vec()],
        &vec![],
        1000,
    )
    .expect("action builds");
    assert_eq!(a.headers.len(), 2);
    assert_eq!(a.headers[0].name, "Content-Type");
    assert_eq!(a.headers[0].value, "text/plain");
    assert_eq!(a.headers[1].name, "X-One");
    assert_eq!(a.headers[1].value, "1");
}

#[test]
fn header_value_keeps_later_colons() {
    let a = build_http_action(
        String::from("http://e.example/"),
        &String::from("GET"),
        &vec![b"Referer: http://a.example/b".to_vec()],
        &vec![],
        1000,
    )
    .expect("action builds");
    assert_eq!(a.headers.len(), 1);
    assert_eq!(a.headers[0].name, "Referer");
    assert_eq!(a.headers[0].value, "http://a.example/b");
}

#[test]
fn lines_without_colon_are_dropped_without_failing() {
    let a = build_http_action(
        String::from("http://e.example/"),
        &String::from("GET"),
        &vec![
            b"First: 1".to_vec(),
            b"no colon here".to_vec(),
            vec![0xC3, 0x28],
            b"Last: 2".to_vec(),
        ],
        &vec![],
        1000,
    )
    .expect("dropped lines must not fail the call");
    assert_eq!(a.headers.len(), 2);
    assert_eq!(a.headers[0].name, "First");
    assert_eq!(a.headers[0].value, "1");
    assert_eq!(a.headers[1].name, "Last");
    assert_eq!(a.headers[1].value, "2");
}

#[test]
fn empty_body_means_no_body() {
    let a = build_http_action(
        String::from("http://e.example/"),
        &String::from("PUT"),
        &vec![],
        &vec![],
        1000,
    )
    .expect("action builds");
    assert!(a.body.is_none());
}

#[test]
fn body_bytes_are_attached_verbatim() {
    let a = build_http_action(
        String::from("http://e.example/"),
        &String::from("POST"),
        &vec![],
        &vec![0, 159, 146, 150],
        250,
    )
    .expect("action builds");
    assert_eq!(a.body.as_deref(), Some(&[0u8, 159, 146, 150][..]));
    assert_eq!(a.timeout_ms, 250);
    assert_eq!(a.method, Method::Post);
}

#[test]
fn received_404_not_found_is_a_success_envelope() {
    let r = finish_http(HttpEvent::Received(404, String::from("not found")));
    assert_eq!(r.status_code, 404);
    assert_eq!(r.body.as_deref(), Some("not found"));
    assert!(r.error.is_none());
}

#[test]
fn body_with_embedded_null_byte_is_rejected_whole() {
    let r = finish_http(HttpEvent::Received(200, String::from("cut\0here")));
    assert_eq!(r.status_code, 200);
    assert!(r.body.is_none());
    assert_eq!(r.error.as_deref(), Some("Response contains null bytes"));
}

#[test]
fn send_failure_keeps_status_zero() {
    let r = finish_http(HttpEvent::SendFailed(String::from("connection refused")));
    assert_eq!(r.status_code, 0);
    assert_eq!(r.error.as_deref(), Some("Request failed: connection refused"));
}

#[test]
fn read_failure_keeps_received_status() {
    let r = finish_http(HttpEvent::ReadFailed(503, String::from("reset")));
    assert_eq!(r.status_code, 503);
    assert_eq!(r.error.as_deref(), Some("Failed to read response: reset"));
}

#[test]
fn infrastructure_failures_share_the_error_channel() {
    let r = finish_http(HttpEvent::RuntimeFailed);
    assert_eq!(r.error.as_deref(), Some("Failed to create runtime"));
    assert_eq!(r.status_code, 0);
    let r = finish_http(HttpEvent::ClientFailed(String::from("no resources")));
    assert_eq!(r.error.as_deref(), Some("Failed to create client: no resources"));
    assert_eq!(r.status_code, 0);
}
