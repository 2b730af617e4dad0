use bws_rest_proxy::{
    forward_host, health, health_fw, health_listener, health_url, ForwardOutcome, IpAddress,
    ListenAddress, StatusCode,
};

fn status(code: u16) -> StatusCode {
    StatusCode::from_u16(code).unwrap()
}

#[test]
fn health_is_200_ok() {
    let (code, body) = health();
    assert_eq!(code.as_u16(), 200);
    assert_eq!(body, "Ok");
}

#[test]
fn forwarded_answer_is_passed_on() {
    let (code, body) = health_fw(ForwardOutcome::Answered { status: status(200), body: "Ok".to_string() });
    assert_eq!(code.as_u16(), 200);
    assert_eq!(body, "Ok");
    let (code, body) = health_fw(ForwardOutcome::Answered { status: status(503), body: "down".to_string() });
    assert_eq!(code.as_u16(), 503);
    assert_eq!(body, "down");
}

#[test]
fn unreadable_body_is_500() {
    let (code, body) = health_fw(ForwardOutcome::BodyUnreadable);
    assert_eq!(code.as_u16(), 500);
    assert_eq!(body, "Internal Server Error");
}

#[test]
fn failed_forward_keeps_the_status_of_the_failure() {
    let (code, body) = health_fw(ForwardOutcome::Failed { reported: Some(status(502)) });
    assert_eq!(code.as_u16(), 502);
    assert_eq!(body, "Internal Server Error");
    let (code, body) = health_fw(ForwardOutcome::Failed { reported: None });
    assert_eq!(code.as_u16(), 500);
    assert_eq!(body, "Internal Server Error");
}

#[test]
fn health_url_names_host_and_port() {
    assert_eq!(health_url("127.0.0.1", 3030), "http://127.0.0.1:3030/_health");
    assert_eq!(health_url("10.1.2.3", 0), "http://10.1.2.3:0/_health");
    assert_eq!(health_url("host", 7), "http://host:7/_health");
    assert_eq!(health_url("host", 80), "http://host:80/_health");
    assert_eq!(health_url("host", 10000), "http://host:10000/_health");
    assert_eq!(health_url("::1", 65535), "http://::1:65535/_health");
}

#[test]
fn forward_host_is_loopback_for_every_address() {
    assert_eq!(forward_host(IpAddress::V4(0), "0.0.0.0".to_string()), "127.0.0.1");
    assert_eq!(forward_host(IpAddress::V6(0), "::".to_string()), "127.0.0.1");
    assert_eq!(forward_host(IpAddress::V4(0x0a00_0001), "10.0.0.1".to_string()), "10.0.0.1");
    assert_eq!(forward_host(IpAddress::V6(1), "::1".to_string()), "::1");
}

#[test]
fn unspecified_address_has_no_bits_set() {
    assert!(IpAddress::V4(0).is_unspecified());
    assert!(IpAddress::V6(0).is_unspecified());
    assert!(!IpAddress::V4(0x7f00_0001).is_unspecified());
    assert!(!IpAddress::V6(1).is_unspecified());
}

#[test]
fn second_listener_needs_address_and_port() {
    let primary = ListenAddress { ip: IpAddress::V4(0), port: 3030 };
    let ip = IpAddress::V4(0x7f00_0001);
    assert_eq!(health_listener(primary, None, None), None);
    assert_eq!(health_listener(primary, Some(ip), None), None);
    assert_eq!(health_listener(primary, None, Some(3031)), None);
    assert_eq!(
        health_listener(primary, Some(ip), Some(3031)),
        Some(ListenAddress { ip, port: 3031 })
    );
}

#[test]
fn second_listener_is_dropped_on_the_primary_address() {
    let primary = ListenAddress { ip: IpAddress::V4(0), port: 3030 };
    assert_eq!(health_listener(primary, Some(IpAddress::V4(0)), Some(3030)), None);
    assert_eq!(
        health_listener(primary, Some(IpAddress::V4(0)), Some(3031)),
        Some(ListenAddress { ip: IpAddress::V4(0), port: 3031 })
    );
    assert_eq!(
        health_listener(primary, Some(IpAddress::V6(0)), Some(3030)),
        Some(ListenAddress { ip: IpAddress::V6(0), port: 3030 })
    );
}
