use htmx_ssr::{BaseUrl, BoundAddr, ServerOptions, ServerState};

#[test]
fn explicit_base_url_is_used_verbatim() {
    let options = ServerOptions {
        base_url: Some(BaseUrl::new("https://proxy.example.com/app".to_string())),
    };
    let addr = BoundAddr {
        host: "127.0.0.1".to_string(),
        port: 3000,
    };
    let state = ServerState::new(options, addr);
    assert_eq!(state.base_url.as_str(), "https://proxy.example.com/app");
}

#[test]
fn inferred_base_url_uses_bound_address() {
    let addr = BoundAddr {
        host: "127.0.0.1".to_string(),
        port: 8080,
    };
    let state = ServerState::new(ServerOptions::default(), addr);
    assert_eq!(state.base_url.as_str(), "http://127.0.0.1:8080");
}

#[test]
fn inferred_base_url_renders_port_zero() {
    let addr = BoundAddr {
        host: "10.0.0.1".to_string(),
        port: 0,
    };
    let state = ServerState::new(ServerOptions::default(), addr);
    assert_eq!(state.base_url.as_str(), "http://10.0.0.1:0");
}

#[test]
fn inferred_base_url_renders_largest_port() {
    let addr = BoundAddr {
        host: "192.168.1.20".to_string(),
        port: 65535,
    };
    let state = ServerState::new(ServerOptions::default(), addr);
    assert_eq!(state.base_url.as_str(), "http://192.168.1.20:65535");
}

#[test]
fn inferred_base_url_keeps_bracketed_ipv6_host() {
    let addr = BoundAddr {
        host: "[::1]".to_string(),
        port: 80,
    };
    let state = ServerState::new(ServerOptions::default(), addr);
    assert_eq!(state.base_url.as_str(), "http://[::1]:80");
}

#[test]
fn base_url_duplicate_has_the_same_text() {
    let url = BaseUrl::new("http://example.com/".to_string());
    let copy = url.duplicate();
    assert_eq!(url.as_str(), copy.as_str());
}
