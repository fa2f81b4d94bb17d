use sthp::proxy::auth::Auth;
use sthp::proxy::request::RequestHead;
use sthp::proxy::target::{port_text, TargetAddress, DEFAULT_HTTP_PORT};

#[test]
fn auth_new_keeps_both_parts() {
    let auth = Auth::new("alice".to_string(), "s3cret".to_string());
    assert_eq!(auth.username, "alice");
    assert_eq!(auth.password, "s3cret");
    assert_eq!(auth.clone(), auth);
    assert_ne!(auth, Auth::new("alice".to_string(), "other".to_string()));
}

#[test]
fn plain_request_defaults_to_port_80() {
    assert_eq!(DEFAULT_HTTP_PORT, 80);
    let target = TargetAddress::resolve(false, Some("example.org"), None);
    assert_eq!(target, Some(TargetAddress::new("example.org".to_string(), 80)));
}

#[test]
fn plain_request_keeps_its_port() {
    let target = TargetAddress::resolve(false, Some("example.org"), Some(8080));
    assert_eq!(target, Some(TargetAddress::new("example.org".to_string(), 8080)));
}

#[test]
fn tunnel_needs_host_and_port() {
    assert_eq!(
        TargetAddress::resolve(true, Some("example.org"), Some(443)),
        Some(TargetAddress::new("example.org".to_string(), 443))
    );
    assert_eq!(TargetAddress::resolve(true, Some("example.org"), None), None);
    assert_eq!(TargetAddress::resolve(true, None, Some(443)), None);
    assert_eq!(TargetAddress::resolve(true, None, None), None);
}

#[test]
fn no_host_no_target() {
    assert_eq!(TargetAddress::resolve(false, None, None), None);
    assert_eq!(TargetAddress::resolve(false, None, Some(80)), None);
}

#[test]
fn socket_address_joins_host_and_port() {
    assert_eq!(TargetAddress::new("example.org".to_string(), 80).socket_address(), "example.org:80");
    assert_eq!(TargetAddress::new("127.0.0.1".to_string(), 8080).socket_address(), "127.0.0.1:8080");
    assert_eq!(TargetAddress::new("[::1]".to_string(), 443).socket_address(), "[::1]:443");
    assert_eq!(TargetAddress::new("h".to_string(), 0).socket_address(), "h:0");
    assert_eq!(TargetAddress::new("h".to_string(), 65535).socket_address(), "h:65535");
}

#[test]
fn port_text_is_decimal() {
    for port in [0u16, 1, 9, 10, 11, 80, 99, 100, 101, 443, 1080, 8080, 9999, 10000, 65535] {
        assert_eq!(port_text(port), port.to_string());
    }
}

#[test]
fn port_text_of_every_port() {
    for port in 0..=u16::MAX {
        assert_eq!(port_text(port), port.to_string());
    }
}

#[test]
fn target_clone_is_equal() {
    let target = TargetAddress::new("example.org".to_string(), 443);
    assert_eq!(target.clone(), target);
}

#[test]
fn connect_is_matched_by_case() {
    let head = |method: &str| RequestHead::new(method.to_string(), "example.org:443".to_string(), None);
    assert!(head("CONNECT").is_connect());
    assert!(!head("connect").is_connect());
    assert!(!head("Connect").is_connect());
    assert!(!head("GET").is_connect());
    assert!(!head("CONNECTX").is_connect());
    assert!(!head("").is_connect());
}

fn destination(method: &str, uri: &str) -> Option<TargetAddress> {
    RequestHead::new(method.to_string(), uri.to_string(), None).destination()
}

fn target(host: &str, port: u16) -> Option<TargetAddress> {
    Some(TargetAddress::new(host.to_string(), port))
}

#[test]
fn destination_of_an_absolute_target() {
    assert_eq!(destination("GET", "http://example.org/"), target("example.org", 80));
    assert_eq!(destination("GET", "http://example.org"), target("example.org", 80));
    assert_eq!(destination("GET", "http://example.org:8080/a?b=c"), target("example.org", 8080));
    assert_eq!(destination("HEAD", "https://example.org/"), target("example.org", 80));
    assert_eq!(destination("GET", "http://127.0.0.1:81/"), target("127.0.0.1", 81));
}

#[test]
fn destination_of_an_authority() {
    assert_eq!(destination("CONNECT", "example.org:443"), target("example.org", 443));
    assert_eq!(destination("CONNECT", "[::1]:8443"), target("[::1]", 8443));
    assert_eq!(destination("CONNECT", "10.0.0.1:22"), target("10.0.0.1", 22));
    assert_eq!(destination("GET", "example.org:443"), target("example.org", 443));
    assert_eq!(destination("GET", "example.org"), target("example.org", 80));
}

#[test]
fn destination_of_a_tunnel_needs_a_port() {
    assert_eq!(destination("CONNECT", "example.org"), None);
    assert_eq!(destination("CONNECT", "[::1]"), None);
    assert_eq!(destination("CONNECT", "http://example.org/"), None);
    assert_eq!(destination("CONNECT", "http://example.org:8443/"), target("example.org", 8443));
}

#[test]
fn destination_skips_user_information() {
    assert_eq!(destination("GET", "http://user:pw@example.org:81/"), target("example.org", 81));
    assert_eq!(destination("GET", "http://user@example.org/"), target("example.org", 80));
}

#[test]
fn no_destination_without_authority() {
    for uri in ["/", "/path?query", "*", "", "http://", "exa mple"] {
        assert_eq!(destination("GET", uri), None, "{}", uri);
        assert_eq!(destination("CONNECT", uri), None, "{}", uri);
    }
}

#[test]
fn port_too_large_is_read_as_no_port() {
    assert_eq!(destination("GET", "http://example.org:99999/"), target("example.org", 80));
    assert_eq!(destination("CONNECT", "example.org:65536"), None);
    assert_eq!(destination("CONNECT", "example.org:65535"), target("example.org", 65535));
}
