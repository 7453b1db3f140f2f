use obscur_native::net::NativeNetworkRuntime;
use obscur_native::probe::{
    format_ws_error_details, probe_dns_finished, probe_relay, probe_tcp_finished,
    probe_ws_finished, DnsOutcome, ProbeStep, TcpOutcome, WsError, WsOutcome, DNS_TIMEOUT_MS,
    TCP_TIMEOUT_MS, WS_TIMEOUT_MS,
};

fn net() -> NativeNetworkRuntime {
    NativeNetworkRuntime::new(false, "socks5://127.0.0.1:9050".to_string())
}

#[test]
fn probe_starts_with_dns_lookup() {
    let (report, step) = probe_relay(&net(), "wss://relay.example/path").unwrap();
    assert_eq!(report.url, "wss://relay.example/path");
    assert_eq!(report.scheme, "wss");
    assert_eq!(report.host, Some("relay.example".to_string()));
    assert_eq!(report.port, Some(443));
    assert!(!report.tor_enabled);
    assert_eq!(report.proxy_url, None);
    assert!(!report.dns_ok && !report.tcp_ok && !report.ws_ok);
    assert!(report.dns_results.is_empty());
    assert_eq!(report.error, None);
    match step {
        ProbeStep::ResolveDns { host, port, timeout_ms } => {
            assert_eq!(host, "relay.example");
            assert_eq!(port, 443);
            assert_eq!(timeout_ms, 5000);
        }
        other => panic!("unexpected {:?}", other),
    }
}

#[test]
fn probe_reports_proxy_under_tor() {
    let net = NativeNetworkRuntime::new(true, "socks5://127.0.0.1:9050".to_string());
    let (report, _) = probe_relay(&net, "ws://relay.example:7777").unwrap();
    assert!(report.tor_enabled);
    assert_eq!(report.proxy_url, Some("socks5://127.0.0.1:9050".to_string()));
    assert_eq!(report.port, Some(7777));
}

#[test]
fn probe_refuses_unparsable_url() {
    assert_eq!(probe_relay(&net(), "::").unwrap_err(), "relative URL without a base");
}

#[test]
fn probe_ends_without_host_or_port() {
    let (report, step) = probe_relay(&net(), "data:text/plain,hello").unwrap();
    assert_eq!(report.error, Some("Relay URL missing host".to_string()));
    assert!(matches!(step, ProbeStep::Finished));
    let (report, step) = probe_relay(&net(), "foo://relay.example").unwrap();
    assert_eq!(report.error, Some("Relay URL missing port".to_string()));
    assert!(matches!(step, ProbeStep::Finished));
}

#[test]
fn unresolvable_host_ends_probe_with_dns_not_ok() {
    assert_eq!(DNS_TIMEOUT_MS, 5000);
    let (report, _) = probe_relay(&net(), "wss://no-such-host.invalid/").unwrap();
    let (report, step) =
        probe_dns_finished(report, DnsOutcome::Failed("no such host".to_string()));
    assert!(!report.dns_ok);
    assert_eq!(report.error, Some("DNS failed: no such host".to_string()));
    assert!(matches!(step, ProbeStep::Finished));

    let (report, _) = probe_relay(&net(), "wss://no-such-host.invalid/").unwrap();
    let (report, step) = probe_dns_finished(report, DnsOutcome::TimedOut);
    assert!(!report.dns_ok);
    assert_eq!(report.error, Some("DNS timeout".to_string()));
    assert!(matches!(step, ProbeStep::Finished));
}

#[test]
fn probe_runs_through_all_stages() {
    assert_eq!(TCP_TIMEOUT_MS, 5000);
    assert_eq!(WS_TIMEOUT_MS, 10000);
    let (report, _) = probe_relay(&net(), "wss://relay.example/").unwrap();
    let (report, step) =
        probe_dns_finished(report, DnsOutcome::Resolved(vec!["192.0.2.1:443".to_string()]));
    assert!(report.dns_ok);
    assert_eq!(report.dns_results, vec!["192.0.2.1:443".to_string()]);
    match step {
        ProbeStep::ConnectTcp { host, port, timeout_ms } => {
            assert_eq!((host.as_str(), port, timeout_ms), ("relay.example", 443, 5000));
        }
        other => panic!("unexpected {:?}", other),
    }
    let (report, step) = probe_tcp_finished(report, TcpOutcome::Connected);
    assert!(report.tcp_ok);
    assert!(matches!(step, ProbeStep::Handshake { timeout_ms: 10000 }));
    let report = probe_ws_finished(report, WsOutcome::Connected);
    assert!(report.ws_ok);
    assert_eq!(report.error, None);
}

#[test]
fn empty_dns_answer_goes_on_to_tcp() {
    let (report, _) = probe_relay(&net(), "wss://relay.example/").unwrap();
    let (report, step) = probe_dns_finished(report, DnsOutcome::Resolved(Vec::new()));
    assert!(!report.dns_ok);
    assert_eq!(report.error, None);
    assert!(matches!(step, ProbeStep::ConnectTcp { .. }));
}

#[test]
fn tcp_and_ws_failures_are_reported() {
    let (report, _) = probe_relay(&net(), "wss://relay.example/").unwrap();
    let (report, step) = probe_tcp_finished(report, TcpOutcome::Failed("refused".to_string()));
    assert_eq!(report.error, Some("TCP connect failed: refused".to_string()));
    assert!(!report.tcp_ok);
    assert!(matches!(step, ProbeStep::Finished));

    let (report, _) = probe_relay(&net(), "wss://relay.example/").unwrap();
    let (report, _) = probe_tcp_finished(report, TcpOutcome::TimedOut);
    assert_eq!(report.error, Some("TCP connect timeout".to_string()));

    let (report, _) = probe_relay(&net(), "wss://relay.example/").unwrap();
    let report = probe_ws_finished(report, WsOutcome::TimedOut);
    assert_eq!(report.error, Some("WS connect timeout".to_string()));
    assert!(!report.ws_ok);

    let (report, _) = probe_relay(&net(), "wss://relay.example/").unwrap();
    let http = WsError::Http {
        status: "403 Forbidden".to_string(),
        headers: "{\"server\": \"nginx\"}".to_string(),
    };
    let report = probe_ws_finished(report, WsOutcome::Failed(http));
    assert_eq!(
        report.error,
        Some(
            "WS connect failed: HTTP error: 403 Forbidden headers={\"server\": \"nginx\"}"
                .to_string()
        )
    );
}

#[test]
fn ws_error_details() {
    let http = WsError::Http { status: "502 Bad Gateway".to_string(), headers: "{}".to_string() };
    assert_eq!(format_ws_error_details(&http), "HTTP error: 502 Bad Gateway headers={}");
    assert_eq!(format_ws_error_details(&WsError::Other("tls".to_string())), "tls");
}
