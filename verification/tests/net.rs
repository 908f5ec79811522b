use swarm_sync::config::bearer_authorization;
use swarm_sync::net::{
    http_with_rocket_port, trim_trailing_slashes, udp_address, udp_host, with_http_scheme,
    BaseUrlError, UdpHostError,
};

#[test]
fn rocket_url_gets_port_8000() {
    assert_eq!(http_with_rocket_port("core"), Ok("http://core:8000".to_string()));
    assert_eq!(http_with_rocket_port("http://core"), Ok("http://core:8000".to_string()));
    assert_eq!(http_with_rocket_port("http://core/"), Ok("http://core:8000".to_string()));
    assert_eq!(http_with_rocket_port("127.0.0.1"), Ok("http://127.0.0.1:8000".to_string()));
}

#[test]
fn rocket_url_replaces_explicit_port() {
    assert_eq!(http_with_rocket_port("http://core:8080"), Ok("http://core:8000".to_string()));
    assert_eq!(http_with_rocket_port("https://example.com:9443/api/"), Ok("https://example.com:8000/api".to_string()));
}

#[test]
fn rocket_url_errors() {
    assert_eq!(http_with_rocket_port(""), Err(BaseUrlError::InvalidBaseUrl));
    // A text that does not parse is tried again after `http://`.
    assert_eq!(http_with_rocket_port("http://[::1"), Ok("http://http:8000//[::1".to_string()));
    assert_eq!(http_with_rocket_port("mailto:me@example.com"), Err(BaseUrlError::CannotSetPort));
}

#[test]
fn heartbeat_host_of_base_url() {
    assert_eq!(udp_host("http://core:8000"), Ok("core".to_string()));
    assert_eq!(udp_host("core"), Ok("core".to_string()));
    assert_eq!(udp_host("mailto:me@example.com"), Err(UdpHostError::MissingHost));
    assert_eq!(udp_host(""), Err(UdpHostError::InvalidUrl));
    assert_eq!(udp_address("core", 5001), "core:5001");
}

#[test]
fn text_helpers() {
    assert_eq!(trim_trailing_slashes("a/b///"), "a/b");
    assert_eq!(trim_trailing_slashes("///"), "");
    assert_eq!(trim_trailing_slashes("x"), "x");
    assert_eq!(with_http_scheme("core"), "http://core");
    assert_eq!(bearer_authorization("tok"), "Bearer tok");
}
