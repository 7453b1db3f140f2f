//! The relay probe: a diagnostic in three stages (name lookup, TCP connect,
//! WebSocket handshake), each with its own deadline, that fills a report.
//!
//! The stages are carried out by the caller; the functions here say which
//! stage comes next and what each outcome writes into the report.

use vstd::prelude::*;
use crate::net::{opt_text, parse_url, url_parse_result, NativeNetworkRuntime, ParsedUrlView};
use crate::text::{concat2, texts};

verus! {

/// The deadline of the name lookup, in milliseconds.
pub const DNS_TIMEOUT_MS: u64 = 5000;

/// The deadline of the TCP connect, in milliseconds.
pub const TCP_TIMEOUT_MS: u64 = 5000;

/// The deadline of the WebSocket handshake, in milliseconds.
pub const WS_TIMEOUT_MS: u64 = 10000;

/// What a probe found out about a relay.
#[derive(Debug)]
pub struct RelayProbeReport {
    pub url: String,
    pub scheme: String,
    pub host: Option<String>,
    pub port: Option<u16>,
    pub tor_enabled: bool,
    pub proxy_url: Option<String>,
    pub dns_ok: bool,
    pub dns_results: Vec<String>,
    pub tcp_ok: bool,
    pub ws_ok: bool,
    pub error: Option<String>,
}

pub struct ProbeReportView {
    pub url: Seq<char>,
    pub scheme: Seq<char>,
    pub host: Option<Seq<char>>,
    pub port: Option<u16>,
    pub tor_enabled: bool,
    pub proxy_url: Option<Seq<char>>,
    pub dns_ok: bool,
    pub dns_results: Seq<Seq<char>>,
    pub tcp_ok: bool,
    pub ws_ok: bool,
    pub error: Option<Seq<char>>,
}

impl View for RelayProbeReport {
    type V = ProbeReportView;

    open spec fn view(&self) -> ProbeReportView {
        ProbeReportView {
            url: self.url@,
            scheme: self.scheme@,
            host: opt_text(self.host),
            port: self.port,
            tor_enabled: self.tor_enabled,
            proxy_url: opt_text(self.proxy_url),
            dns_ok: self.dns_ok,
            dns_results: texts(self.dns_results@),
            tcp_ok: self.tcp_ok,
            ws_ok: self.ws_ok,
            error: opt_text(self.error),
        }
    }
}

/// The stage that a probe carries out next.
#[derive(Debug)]
pub enum ProbeStep {
    /// Look the host up, within `timeout_ms`.
    ResolveDns { host: String, port: u16, timeout_ms: u64 },
    /// Open a TCP connection, within `timeout_ms`.
    ConnectTcp { host: String, port: u16, timeout_ms: u64 },
    /// Open the WebSocket through the network runtime, within `timeout_ms`,
    /// and close it again.
    Handshake { timeout_ms: u64 },
    /// The report is complete.
    Finished,
}

/// How the name lookup ended.
#[derive(Debug)]
pub enum DnsOutcome {
    /// The addresses that were found, as text.
    Resolved(Vec<String>),
    Failed(String),
    TimedOut,
}

/// How the TCP connect ended.
#[derive(Debug)]
pub enum TcpOutcome {
    Connected,
    Failed(String),
    TimedOut,
}

/// Why a WebSocket handshake failed.
#[derive(Debug)]
pub enum WsError {
    /// The server answered the handshake with an HTTP error; the status and
    /// the headers are kept as they came.
    Http { status: String, headers: String },
    /// Any other failure, as text.
    Other(String),
}

/// How the WebSocket handshake ended.
#[derive(Debug)]
pub enum WsOutcome {
    Connected,
    Failed(WsError),
    TimedOut,
}

/// The text for a failed handshake.
pub open spec fn ws_error_text(error: WsError) -> Seq<char> {
    match error {
        WsError::Http { status, headers } => "HTTP error: "@ + status@ + " headers="@ + headers@,
        WsError::Other(message) => message@,
    }
}

/// The text for a failed handshake: an HTTP error with its status and
/// headers, every other failure with its own message.
pub fn format_ws_error_details(error: &WsError) -> (text: String)
    ensures
        text@ == ws_error_text(*error),
{
    match error {
        WsError::Http { status, headers } => {
            let mut text = concat2("HTTP error: ", status.as_str());
            text.append(" headers=");
            text.append(headers.as_str());
            text
        },
        WsError::Other(message) => message.clone(),
    }
}

/// The report with which a probe of a relay whose URL parsed as `relay`
/// begins.
pub open spec fn initial_report(
    url: Seq<char>,
    relay: ParsedUrlView,
    tor_enabled: bool,
    proxy_url: Seq<char>,
) -> ProbeReportView {
    ProbeReportView {
        url,
        scheme: relay.scheme,
        host: relay.host,
        port: relay.port_or_default,
        tor_enabled,
        proxy_url: if tor_enabled {
            Some(proxy_url)
        } else {
            None
        },
        dns_ok: false,
        dns_results: Seq::empty(),
        tcp_ok: false,
        ws_ok: false,
        error: if relay.host is None {
            Some("Relay URL missing host"@)
        } else if relay.port_or_default is None {
            Some("Relay URL missing port"@)
        } else {
            None
        },
    }
}

/// `step` is the lookup of `host` and `port` under the lookup's deadline.
pub open spec fn is_dns_step(step: ProbeStep, host: Seq<char>, port: u16) -> bool {
    step matches ProbeStep::ResolveDns { host: h, port: p, timeout_ms } && h@ == host && p == port
        && timeout_ms == DNS_TIMEOUT_MS
}

/// `step` is the connect to `host` and `port` under the connect's deadline.
pub open spec fn is_tcp_step(step: ProbeStep, host: Seq<char>, port: u16) -> bool {
    step matches ProbeStep::ConnectTcp { host: h, port: p, timeout_ms } && h@ == host && p == port
        && timeout_ms == TCP_TIMEOUT_MS
}

/// Begins a probe. A URL that does not parse is refused with the parser's
/// message. A URL without a host or a port ends the probe at once, with the
/// error in the report; every other URL goes to the name lookup.
pub fn probe_relay(net: &NativeNetworkRuntime, url: &str) -> (r: Result<
    (RelayProbeReport, ProbeStep),
    String,
>)
    ensures
        match url_parse_result(url@) {
            Err(message) => r matches Err(e) && e@ == message,
            Ok(relay) => r matches Ok(begun) && begun.0@ == initial_report(
                url@,
                relay,
                net@.0,
                net@.1,
            ) && (if relay.host is Some && relay.port_or_default is Some {
                is_dns_step(begun.1, relay.host->0, relay.port_or_default->0)
            } else {
                begun.1 is Finished
            }),
        },
{
    let parsed = match parse_url(url) {
        Ok(parsed) => parsed,
        Err(message) => {
            return Err(message);
        },
    };
    let settings = net.snapshot();
    let mut report = RelayProbeReport {
        url: url.to_string(),
        scheme: parsed.scheme,
        host: parsed.host,
        port: parsed.port_or_default,
        tor_enabled: settings.tor_enabled,
        proxy_url: if settings.tor_enabled {
            Some(settings.proxy_url)
        } else {
            None
        },
        dns_ok: false,
        dns_results: Vec::new(),
        tcp_ok: false,
        ws_ok: false,
        error: None,
    };
    assert(texts(report.dns_results@) =~= Seq::empty());
    let host = match &report.host {
        Some(host) => host.clone(),
        None => {
            report.error = Some("Relay URL missing host".to_string());
            return Ok((report, ProbeStep::Finished));
        },
    };
    let port: u16 = match report.port {
        Some(port) => port,
        None => {
            report.error = Some("Relay URL missing port".to_string());
            return Ok((report, ProbeStep::Finished));
        },
    };
    Ok((report, ProbeStep::ResolveDns { host, port, timeout_ms: DNS_TIMEOUT_MS }))
}

/// What the name lookup writes into the report.
pub open spec fn after_dns(report: ProbeReportView, outcome: DnsOutcome) -> ProbeReportView {
    match outcome {
        DnsOutcome::Resolved(addresses) => ProbeReportView {
            dns_ok: addresses@.len() > 0,
            dns_results: texts(addresses@),
            ..report
        },
        DnsOutcome::Failed(reason) => ProbeReportView {
            error: Some("DNS failed: "@ + reason@),
            ..report
        },
        DnsOutcome::TimedOut => ProbeReportView { error: Some("DNS timeout"@), ..report },
    }
}

/// Takes the outcome of the name lookup. After a lookup that answered, the
/// TCP connect follows, also where no address was found; a lookup that failed
/// or ran out of time ends the probe.
pub fn probe_dns_finished(report: RelayProbeReport, outcome: DnsOutcome) -> (r: (
    RelayProbeReport,
    ProbeStep,
))
    ensures
        r.0@ == after_dns(report@, outcome),
        if outcome is Resolved && report.host is Some && report.port is Some {
            is_tcp_step(r.1, report@.host->0, report.port->0)
        } else {
            r.1 is Finished
        },
{
    let mut report = report;
    match outcome {
        DnsOutcome::Resolved(addresses) => {
            report.dns_ok = addresses.len() > 0;
            report.dns_results = addresses;
            let step = match (&report.host, report.port) {
                (Some(host), Some(port)) => ProbeStep::ConnectTcp {
                    host: host.clone(),
                    port,
                    timeout_ms: TCP_TIMEOUT_MS,
                },
                _ => ProbeStep::Finished,
            };
            (report, step)
        },
        DnsOutcome::Failed(reason) => {
            report.error = Some(concat2("DNS failed: ", reason.as_str()));
            (report, ProbeStep::Finished)
        },
        DnsOutcome::TimedOut => {
            report.error = Some("DNS timeout".to_string());
            (report, ProbeStep::Finished)
        },
    }
}

/// What the TCP connect writes into the report.
pub open spec fn after_tcp(report: ProbeReportView, outcome: TcpOutcome) -> ProbeReportView {
    match outcome {
        TcpOutcome::Connected => ProbeReportView { tcp_ok: true, ..report },
        TcpOutcome::Failed(reason) => ProbeReportView {
            error: Some("TCP connect failed: "@ + reason@),
            ..report
        },
        TcpOutcome::TimedOut => ProbeReportView { error: Some("TCP connect timeout"@), ..report },
    }
}

/// Takes the outcome of the TCP connect: after a connection the handshake
/// follows, under its own deadline; otherwise the probe ends.
pub fn probe_tcp_finished(report: RelayProbeReport, outcome: TcpOutcome) -> (r: (
    RelayProbeReport,
    ProbeStep,
))
    ensures
        r.0@ == after_tcp(report@, outcome),
        if outcome is Connected {
            r.1 == (ProbeStep::Handshake { timeout_ms: WS_TIMEOUT_MS })
        } else {
            r.1 is Finished
        },
{
    let mut report = report;
    match outcome {
        TcpOutcome::Connected => {
            report.tcp_ok = true;
            (report, ProbeStep::Handshake { timeout_ms: WS_TIMEOUT_MS })
        },
        TcpOutcome::Failed(reason) => {
            report.error = Some(concat2("TCP connect failed: ", reason.as_str()));
            (report, ProbeStep::Finished)
        },
        TcpOutcome::TimedOut => {
            report.error = Some("TCP connect timeout".to_string());
            (report, ProbeStep::Finished)
        },
    }
}

/// What the handshake writes into the report.
pub open spec fn after_ws(report: ProbeReportView, outcome: WsOutcome) -> ProbeReportView {
    match outcome {
        WsOutcome::Connected => ProbeReportView { ws_ok: true, ..report },
        WsOutcome::Failed(error) => ProbeReportView {
            error: Some("WS connect failed: "@ + ws_error_text(error)),
            ..report
        },
        WsOutcome::TimedOut => ProbeReportView { error: Some("WS connect timeout"@), ..report },
    }
}

/// Takes the outcome of the handshake, which completes the report.
pub fn probe_ws_finished(report: RelayProbeReport, outcome: WsOutcome) -> (r: RelayProbeReport)
    ensures
        r@ == after_ws(report@, outcome),
{
    let mut report = report;
    match outcome {
        WsOutcome::Connected => {
            report.ws_ok = true;
        },
        WsOutcome::Failed(error) => {
            let details = format_ws_error_details(&error);
            report.error = Some(concat2("WS connect failed: ", details.as_str()));
        },
        WsOutcome::TimedOut => {
            report.error = Some("WS connect timeout".to_string());
        },
    }
    report
}

/// A probe whose name lookup fails or runs out of time reports `dns_ok` as
/// unset and goes no further, and no lookup is given more than five seconds.
pub proof fn lemma_failed_lookup_ends_probe(
    url: Seq<char>,
    relay: ParsedUrlView,
    tor_enabled: bool,
    proxy_url: Seq<char>,
    outcome: DnsOutcome,
)
    requires
        !(outcome is Resolved),
    ensures
        !after_dns(initial_report(url, relay, tor_enabled, proxy_url), outcome).dns_ok,
        !after_dns(initial_report(url, relay, tor_enabled, proxy_url), outcome).tcp_ok,
        !after_dns(initial_report(url, relay, tor_enabled, proxy_url), outcome).ws_ok,
        after_dns(initial_report(url, relay, tor_enabled, proxy_url), outcome).error is Some,
        DNS_TIMEOUT_MS == 5000,
{
}

} // verus!
