use rust_ssl_proxy::{forward_addr, host_addr, route, Method, RequestTarget, Route};

fn target(host: Option<&str>, port: Option<u16>) -> RequestTarget {
    RequestTarget { host: host.map(|h| h.to_string()), port }
}

#[test]
fn connect_to_host_and_port_tunnels() {
    let r = route(Method::Connect, &target(Some("www.domain.com"), Some(443)), "0.0.0.0");
    match &r {
        Route::Tunnel(a) => assert_eq!(a, "www.domain.com:443"),
        _ => panic!("expected a tunnel"),
    }
    assert_eq!(r.reply(), Some((200, "")));
}

#[test]
fn connect_without_port_is_refused() {
    let r = route(Method::Connect, &target(Some("www.domain.com"), None), "0.0.0.0");
    assert!(matches!(r, Route::BadTarget));
    assert_eq!(r.reply(), Some((400, "CONNECT must be to a socket address")));
}

#[test]
fn connect_without_host_is_refused() {
    assert!(matches!(route(Method::Connect, &target(None, Some(443)), "0.0.0.0"), Route::BadTarget));
    assert!(matches!(route(Method::Connect, &target(Some(""), Some(443)), "0.0.0.0"), Route::BadTarget));
    assert!(matches!(route(Method::Connect, &target(None, None), "0.0.0.0"), Route::BadTarget));
}

#[test]
fn other_methods_are_forwarded() {
    let r = route(Method::Other, &target(Some("example.test"), Some(3000)), "0.0.0.0");
    match &r {
        Route::Forward(a) => assert_eq!(a, "0.0.0.0:3000"),
        _ => panic!("expected forwarding"),
    }
    assert_eq!(r.reply(), None);
}

#[test]
fn forward_uses_default_port() {
    assert_eq!(forward_addr("0.0.0.0", &target(Some("example.test"), None)), "0.0.0.0:8080");
    assert_eq!(forward_addr("backend", &target(None, None)), "backend:8080");
    match route(Method::Other, &target(None, None), "0.0.0.0") {
        Route::Forward(a) => assert_eq!(a, "0.0.0.0:8080"),
        _ => panic!("expected forwarding"),
    }
}

#[test]
fn host_addr_ports_in_decimal() {
    assert_eq!(host_addr(&target(Some("h"), Some(0))), Some("h:0".to_string()));
    assert_eq!(host_addr(&target(Some("h"), Some(9))), Some("h:9".to_string()));
    assert_eq!(host_addr(&target(Some("h"), Some(10))), Some("h:10".to_string()));
    assert_eq!(host_addr(&target(Some("[::1]"), Some(65535))), Some("[::1]:65535".to_string()));
    assert_eq!(host_addr(&target(Some("h"), None)), None);
}
