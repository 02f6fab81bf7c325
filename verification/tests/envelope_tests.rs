use interop::envelope::{
    create_dns_error, create_dns_success, create_http_error, dns_result_free, free_cstring,
    http_response_free,
};

#[test]
fn dns_error_envelope_has_error_only() {
    let r = create_dns_error(String::from("boom"));
    assert!(r.addresses.is_none());
    assert_eq!(r.count, 0);
    assert_eq!(r.error.as_deref(), Some("boom"));
}

#[test]
fn dns_success_envelope_has_addresses_only() {
    let r = create_dns_success(vec![String::from("127.0.0.1"), String::from("::1")]);
    assert!(r.error.is_none());
    assert_eq!(r.count, 2);
    let a = r.addresses.expect("addresses present");
    assert_eq!(a, vec![String::from("127.0.0.1"), String::from("::1")]);
}

#[test]
fn dns_count_matches_number_of_elements() {
    for n in 1..5usize {
        let addrs: Vec<String> = (0..n).map(|i| format!("10.0.0.{}", i)).collect();
        let r = create_dns_success(addrs);
        assert_eq!(r.count, n);
        assert_eq!(r.addresses.unwrap().len(), n);
    }
}

#[test]
fn http_error_envelope_keeps_status() {
    let r = create_http_error(String::from("bad"), 502);
    assert!(r.body.is_none());
    assert_eq!(r.status_code, 502);
    assert_eq!(r.error.as_deref(), Some("bad"));
}

#[test]
fn free_with_absent_marker_is_noop() {
    dns_result_free(None);
    http_response_free(None);
    free_cstring(None);
}

#[test]
fn free_releases_full_envelopes() {
    let d = create_dns_success(vec![String::from("192.168.0.1")]);
    dns_result_free(Some(d));
    let d = create_dns_error(String::from("x"));
    dns_result_free(Some(d));
    let h = create_http_error(String::from("y"), 0);
    http_response_free(Some(h));
    free_cstring(Some(String::from("loose text")));
}
