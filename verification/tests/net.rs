use obscur_native::net::{
    plan_socks_route, NativeNetworkRuntime, NetError, ParsedUrl, WebSocketRoute,
    DEFAULT_SOCKS_PORT,
};

fn relay(scheme: &str, host: Option<&str>, port: Option<u16>, default: Option<u16>) -> ParsedUrl {
    ParsedUrl {
        text: String::new(),
        scheme: scheme.to_string(),
        host: host.map(|h| h.to_string()),
        port,
        port_or_default: default,
    }
}

fn proxy(scheme: &str, host: Option<&str>, port: Option<u16>) -> Result<ParsedUrl, String> {
    Ok(relay(scheme, host, port, port))
}

fn wss_relay() -> ParsedUrl {
    relay("wss", Some("relay.example"), None, Some(443))
}

#[test]
fn runtime_keeps_its_settings() {
    let mut net = NativeNetworkRuntime::new(false, "socks5://127.0.0.1:9050".to_string());
    assert!(!net.is_tor_enabled());
    assert_eq!(net.get_proxy_url(), "socks5://127.0.0.1:9050");
    net.set(true, "socks5h://10.0.0.1:9150".to_string());
    assert!(net.is_tor_enabled());
    assert_eq!(net.get_proxy_url(), "socks5h://10.0.0.1:9150");
    let snapshot = net.snapshot();
    assert!(snapshot.tor_enabled);
    assert_eq!(snapshot.proxy_url, "socks5h://10.0.0.1:9150");
}

#[test]
fn http_client_never_follows_redirects() {
    let net = NativeNetworkRuntime::new(false, "socks5://127.0.0.1:9050".to_string());
    let plan = net.http_client_plan();
    assert!(!plan.follow_redirects);
    assert_eq!(plan.proxy, None);
    let net = NativeNetworkRuntime::new(true, "socks5://127.0.0.1:9050".to_string());
    let plan = net.http_client_plan();
    assert!(!plan.follow_redirects);
    assert_eq!(plan.proxy, Some("socks5://127.0.0.1:9050".to_string()));
}

#[test]
fn proxy_url_without_port_defaults_to_9050() {
    assert_eq!(DEFAULT_SOCKS_PORT, 9050);
    let route = plan_socks_route(&proxy("socks5", Some("127.0.0.1"), None), &wss_relay()).unwrap();
    assert_eq!(route.proxy_host, "127.0.0.1");
    assert_eq!(route.proxy_port, 9050);
    assert_eq!(route.relay_host, "relay.example");
    assert_eq!(route.relay_port, 443);
}

#[test]
fn proxy_url_without_port_defaults_to_9050_when_parsed() {
    let net = NativeNetworkRuntime::new(true, "socks5://127.0.0.1".to_string());
    match net.websocket_route(&wss_relay()) {
        Ok(WebSocketRoute::Socks5Tls(route)) => {
            assert_eq!(route.proxy_host, "127.0.0.1");
            assert_eq!(route.proxy_port, 9050);
        }
        other => panic!("expected a tunnel, got {:?}", other),
    }
}

#[test]
fn proxy_port_is_kept_when_given() {
    let net = NativeNetworkRuntime::new(true, "socks5h://localhost:9150".to_string());
    match net.websocket_route(&wss_relay()) {
        Ok(WebSocketRoute::Socks5Tls(route)) => {
            assert_eq!(route.proxy_host, "localhost");
            assert_eq!(route.proxy_port, 9150);
        }
        other => panic!("expected a tunnel, got {:?}", other),
    }
}

#[test]
fn socks5h_is_accepted_like_socks5() {
    let a = plan_socks_route(&proxy("socks5", Some("h"), Some(1)), &wss_relay()).unwrap();
    let b = plan_socks_route(&proxy("socks5h", Some("h"), Some(1)), &wss_relay()).unwrap();
    assert_eq!(a.proxy_host, b.proxy_host);
    assert_eq!(a.proxy_port, b.proxy_port);
}

#[test]
fn socks_route_errors_come_in_order() {
    let bad_relay = relay("wss", None, None, None);
    let r = plan_socks_route(&Err("bad proxy".to_string()), &bad_relay);
    match r {
        Err(NetError::InvalidProxyUrl(m)) => assert_eq!(m, "bad proxy"),
        other => panic!("unexpected {:?}", other),
    }
    let r = plan_socks_route(&proxy("http", None, None), &bad_relay);
    assert!(matches!(r, Err(NetError::UnsupportedProxyScheme)));
    let r = plan_socks_route(&proxy("socks5", None, None), &bad_relay);
    assert!(matches!(r, Err(NetError::MissingProxyHost)));
    let r = plan_socks_route(&proxy("socks5", Some("h"), None), &bad_relay);
    assert!(matches!(r, Err(NetError::MissingRelayHost)));
    let no_port = relay("wss", Some("relay.example"), None, None);
    let r = plan_socks_route(&proxy("socks5", Some("h"), None), &no_port);
    assert!(matches!(r, Err(NetError::MissingRelayPort)));
}

#[test]
fn net_error_messages() {
    assert_eq!(NetError::InvalidProxyUrl("x".to_string()).message(), "x");
    assert_eq!(NetError::UnsupportedProxyScheme.message(), "Invalid SOCKS5 proxy URL");
    assert_eq!(NetError::MissingProxyHost.message(), "Proxy URL missing host");
    assert_eq!(NetError::MissingRelayHost.message(), "Relay URL missing host");
    assert_eq!(NetError::MissingRelayPort.message(), "Relay URL missing port");
}

#[test]
fn route_is_direct_without_tor_or_for_plain_ws() {
    let net = NativeNetworkRuntime::new(false, "garbage".to_string());
    assert!(matches!(net.websocket_route(&wss_relay()), Ok(WebSocketRoute::Direct)));
    let net = NativeNetworkRuntime::new(true, "garbage".to_string());
    let ws = relay("ws", Some("relay.example"), None, Some(80));
    assert!(matches!(net.websocket_route(&ws), Ok(WebSocketRoute::Direct)));
    assert!(matches!(
        net.websocket_route(&wss_relay()),
        Err(NetError::InvalidProxyUrl(_))
    ));
}
