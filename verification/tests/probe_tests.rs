use interop::probe::{plan_unix_probe, probe_status, ProbeEvent};

#[test]
fn probe_status_codes() {
    assert_eq!(probe_status(ProbeEvent::Connected), 0);
    assert_eq!(probe_status(ProbeEvent::ConnectFailed), -1);
    assert_eq!(probe_status(ProbeEvent::PathInvalid), -1);
    assert_eq!(probe_status(ProbeEvent::Unsupported), -2);
}

#[test]
fn probe_path_is_validated_as_text() {
    let p = plan_unix_probe(&b"/tmp/some.sock".to_vec()).expect("well-formed path");
    assert_eq!(p, "/tmp/some.sock");
    assert!(plan_unix_probe(&vec![0xFF]).is_none());
}
