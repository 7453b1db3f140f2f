//! Proxy-aware networking decisions: the runtime's settings, how a relay URL
//! is dialled, and how the HTTP client is to be configured.
//!
//! URLs are parsed by the `url` crate; what this module proves is what is
//! done with the parts.

use vstd::prelude::*;
use crate::text::same_text;

verus! {

/// The port of a SOCKS5 proxy whose URL names none.
pub const DEFAULT_SOCKS_PORT: u16 = 9050;

/// The parts of a parsed URL that the backend reads.
#[derive(Debug)]
pub struct ParsedUrl {
    /// The URL in its canonical string form.
    pub text: String,
    pub scheme: String,
    pub host: Option<String>,
    /// The port as the URL gives it.
    pub port: Option<u16>,
    /// The port, or the scheme's well-known port where the URL gives none.
    pub port_or_default: Option<u16>,
}

pub struct ParsedUrlView {
    pub text: Seq<char>,
    pub scheme: Seq<char>,
    pub host: Option<Seq<char>>,
    pub port: Option<u16>,
    pub port_or_default: Option<u16>,
}

/// The view of an optional string.
pub open spec fn opt_text(s: Option<String>) -> Option<Seq<char>> {
    match s {
        Some(t) => Some(t@),
        None => None,
    }
}

impl View for ParsedUrl {
    type V = ParsedUrlView;

    open spec fn view(&self) -> ParsedUrlView {
        ParsedUrlView {
            text: self.text@,
            scheme: self.scheme@,
            host: opt_text(self.host),
            port: self.port,
            port_or_default: self.port_or_default,
        }
    }
}

/// The well-known port of a scheme, as the `url` crate knows it.
pub open spec fn known_default_port(scheme: Seq<char>) -> Option<u16> {
    if scheme == "http"@ || scheme == "ws"@ {
        Some(80u16)
    } else if scheme == "https"@ || scheme == "wss"@ {
        Some(443u16)
    } else if scheme == "ftp"@ {
        Some(21u16)
    } else {
        None
    }
}

impl ParsedUrlView {
    /// `port_or_default` is the port, or else the scheme's well-known port.
    pub open spec fn ports_agree(self) -> bool {
        self.port_or_default == (match self.port {
            Some(p) => Some(p),
            None => known_default_port(self.scheme),
        })
    }
}

/// What `url::Url::parse` makes of `text`: the parts of the URL, or the
/// message of its error.
pub uninterp spec fn url_parse_result(text: Seq<char>) -> Result<ParsedUrlView, Seq<char>>;

/// Calls `url::Url::parse` on `text`. An `Ok` holds what `as_str`, `scheme`,
/// `host_str`, `port` and `port_or_known_default` return for the parsed URL;
/// an `Err` holds the message of the parse error. The contract names the
/// outcome and adds what the source of `port_or_known_default` shows: it is
/// the port, or else the well-known port of the scheme.
#[verifier::external_body]
pub(crate) fn parse_url(text: &str) -> (r: Result<ParsedUrl, String>)
    ensures
        match r {
            Ok(url) => url_parse_result(text@) == Ok::<ParsedUrlView, Seq<char>>(url@)
                && url@.ports_agree(),
            Err(message) => url_parse_result(text@) == Err::<ParsedUrlView, Seq<char>>(message@),
        },
{
    match url::Url::parse(text) {
        Ok(url) => Ok(
            ParsedUrl {
                text: url.as_str().to_owned(),
                scheme: url.scheme().to_owned(),
                host: url.host_str().map(|h| h.to_owned()),
                port: url.port(),
                port_or_default: url.port_or_known_default(),
            },
        ),
        Err(error) => Err(error.to_string()),
    }
}

/// The key under which a relay is known: the canonical string form of its
/// URL, and the text as it is where it is no URL.
pub open spec fn relay_key_spec(url: Seq<char>) -> Seq<char> {
    match url_parse_result(url) {
        Ok(parsed) => parsed.text,
        Err(_) => url,
    }
}

/// The key under which a relay is known.
pub fn relay_key(url: &str) -> (key: String)
    ensures
        key@ == relay_key_spec(url@),
{
    match parse_url(url) {
        Ok(parsed) => parsed.text,
        Err(_) => url.to_string(),
    }
}

/// Why a relay cannot be dialled through the proxy.
#[derive(Debug)]
pub enum NetError {
    /// The proxy URL does not parse; the message is the parser's.
    InvalidProxyUrl(String),
    /// The proxy URL has a scheme other than `socks5` and `socks5h`.
    UnsupportedProxyScheme,
    MissingProxyHost,
    MissingRelayHost,
    MissingRelayPort,
}

pub enum NetErrorView {
    InvalidProxyUrl(Seq<char>),
    UnsupportedProxyScheme,
    MissingProxyHost,
    MissingRelayHost,
    MissingRelayPort,
}

impl View for NetError {
    type V = NetErrorView;

    open spec fn view(&self) -> NetErrorView {
        match self {
            NetError::InvalidProxyUrl(m) => NetErrorView::InvalidProxyUrl(m@),
            NetError::UnsupportedProxyScheme => NetErrorView::UnsupportedProxyScheme,
            NetError::MissingProxyHost => NetErrorView::MissingProxyHost,
            NetError::MissingRelayHost => NetErrorView::MissingRelayHost,
            NetError::MissingRelayPort => NetErrorView::MissingRelayPort,
        }
    }
}

impl NetErrorView {
    /// The text shown for the error.
    pub open spec fn message(self) -> Seq<char> {
        match self {
            NetErrorView::InvalidProxyUrl(m) => m,
            NetErrorView::UnsupportedProxyScheme => "Invalid SOCKS5 proxy URL"@,
            NetErrorView::MissingProxyHost => "Proxy URL missing host"@,
            NetErrorView::MissingRelayHost => "Relay URL missing host"@,
            NetErrorView::MissingRelayPort => "Relay URL missing port"@,
        }
    }
}

impl NetError {
    /// The text shown for the error.
    pub fn message(&self) -> (s: String)
        ensures
            s@ == self@.message(),
    {
        match self {
            NetError::InvalidProxyUrl(m) => m.clone(),
            NetError::UnsupportedProxyScheme => "Invalid SOCKS5 proxy URL".to_string(),
            NetError::MissingProxyHost => "Proxy URL missing host".to_string(),
            NetError::MissingRelayHost => "Relay URL missing host".to_string(),
            NetError::MissingRelayPort => "Relay URL missing port".to_string(),
        }
    }
}

/// A tunnel through a SOCKS5 proxy to a relay, with TLS to follow.
#[derive(Debug)]
pub struct SocksRoute {
    pub proxy_host: String,
    pub proxy_port: u16,
    pub relay_host: String,
    pub relay_port: u16,
}

pub struct SocksRouteView {
    pub proxy_host: Seq<char>,
    pub proxy_port: u16,
    pub relay_host: Seq<char>,
    pub relay_port: u16,
}

impl View for SocksRoute {
    type V = SocksRouteView;

    open spec fn view(&self) -> SocksRouteView {
        SocksRouteView {
            proxy_host: self.proxy_host@,
            proxy_port: self.proxy_port,
            relay_host: self.relay_host@,
            relay_port: self.relay_port,
        }
    }
}

/// How the WebSocket to a relay is opened.
#[derive(Debug)]
pub enum WebSocketRoute {
    /// A plain handshake with the relay.
    Direct,
    /// SOCKS5 to the proxy, TLS to the relay's host name over that stream,
    /// then the handshake.
    Socks5Tls(SocksRoute),
}

pub enum WebSocketRouteView {
    Direct,
    Socks5Tls(SocksRouteView),
}

impl View for WebSocketRoute {
    type V = WebSocketRouteView;

    open spec fn view(&self) -> WebSocketRouteView {
        match self {
            WebSocketRoute::Direct => WebSocketRouteView::Direct,
            WebSocketRoute::Socks5Tls(route) => WebSocketRouteView::Socks5Tls(route@),
        }
    }
}

/// Whether a proxy URL's scheme is one of the two SOCKS5 schemes.
pub open spec fn is_socks5_scheme(scheme: Seq<char>) -> bool {
    scheme == "socks5"@ || scheme == "socks5h"@
}

/// The tunnel for a relay behind the proxy, from the parse of the proxy URL
/// and the parts of the relay URL. The checks come in this order: the proxy
/// URL parses, its scheme is a SOCKS5 scheme, it has a host; the relay URL has
/// a host and a port. A proxy URL without a port means port 9050.
pub open spec fn socks_route_spec(
    proxy: Result<ParsedUrlView, Seq<char>>,
    relay: ParsedUrlView,
) -> Result<SocksRouteView, NetErrorView> {
    match proxy {
        Err(message) => Err(NetErrorView::InvalidProxyUrl(message)),
        Ok(p) => if !is_socks5_scheme(p.scheme) {
            Err(NetErrorView::UnsupportedProxyScheme)
        } else if p.host is None {
            Err(NetErrorView::MissingProxyHost)
        } else if relay.host is None {
            Err(NetErrorView::MissingRelayHost)
        } else if relay.port_or_default is None {
            Err(NetErrorView::MissingRelayPort)
        } else {
            Ok(
                SocksRouteView {
                    proxy_host: p.host->0,
                    proxy_port: match p.port {
                        Some(port) => port,
                        None => DEFAULT_SOCKS_PORT,
                    },
                    relay_host: relay.host->0,
                    relay_port: relay.port_or_default->0,
                },
            )
        },
    }
}

/// The route to a relay: direct unless Tor is on and the relay speaks `wss`.
pub open spec fn websocket_route_spec(
    tor_enabled: bool,
    proxy: Result<ParsedUrlView, Seq<char>>,
    relay: ParsedUrlView,
) -> Result<WebSocketRouteView, NetErrorView> {
    if tor_enabled && relay.scheme == "wss"@ {
        match socks_route_spec(proxy, relay) {
            Ok(route) => Ok(WebSocketRouteView::Socks5Tls(route)),
            Err(e) => Err(e),
        }
    } else {
        Ok(WebSocketRouteView::Direct)
    }
}

/// The view of a parse outcome.
pub open spec fn parsed_view(r: Result<ParsedUrl, String>) -> Result<ParsedUrlView, Seq<char>> {
    match r {
        Ok(url) => Ok(url@),
        Err(message) => Err(message@),
    }
}

/// The view of a routing outcome.
pub open spec fn socks_view(r: Result<SocksRoute, NetError>) -> Result<
    SocksRouteView,
    NetErrorView,
> {
    match r {
        Ok(route) => Ok(route@),
        Err(e) => Err(e@),
    }
}

/// The view of a routing outcome.
pub open spec fn route_view(r: Result<WebSocketRoute, NetError>) -> Result<
    WebSocketRouteView,
    NetErrorView,
> {
    match r {
        Ok(route) => Ok(route@),
        Err(e) => Err(e@),
    }
}

/// Plans the tunnel to `relay` through the proxy whose URL parsed as `proxy`.
pub fn plan_socks_route(proxy: &Result<ParsedUrl, String>, relay: &ParsedUrl) -> (r: Result<
    SocksRoute,
    NetError,
>)
    ensures
        socks_view(r) == socks_route_spec(parsed_view(*proxy), relay@),
{
    match proxy {
        Err(message) => Err(NetError::InvalidProxyUrl(message.clone())),
        Ok(p) => {
            if !same_text(p.scheme.as_str(), "socks5") && !same_text(p.scheme.as_str(), "socks5h") {
                return Err(NetError::UnsupportedProxyScheme);
            }
            let proxy_host = match &p.host {
                Some(h) => h.clone(),
                None => {
                    return Err(NetError::MissingProxyHost);
                },
            };
            let proxy_port: u16 = match p.port {
                Some(port) => port,
                None => DEFAULT_SOCKS_PORT,
            };
            let relay_host = match &relay.host {
                Some(h) => h.clone(),
                None => {
                    return Err(NetError::MissingRelayHost);
                },
            };
            let relay_port: u16 = match relay.port_or_default {
                Some(port) => port,
                None => {
                    return Err(NetError::MissingRelayPort);
                },
            };
            Ok(SocksRoute { proxy_host, proxy_port, relay_host, relay_port })
        },
    }
}

/// How the HTTP client for uploads is to be built.
#[derive(Debug)]
pub struct HttpClientPlan {
    /// Always `false`: a signed upload never follows a redirect.
    pub follow_redirects: bool,
    /// The proxy that carries every request, if Tor is on.
    pub proxy: Option<String>,
}

/// One consistent reading of the runtime's settings.
#[derive(Debug)]
pub struct NetworkSettings {
    pub tor_enabled: bool,
    pub proxy_url: String,
}

/// The switch and the parameters of proxy-aware networking.
pub struct NativeNetworkRuntime {
    enable_tor: bool,
    proxy_url: String,
}

impl View for NativeNetworkRuntime {
    type V = (bool, Seq<char>);

    closed spec fn view(&self) -> (bool, Seq<char>) {
        (self.enable_tor, self.proxy_url@)
    }
}

impl NativeNetworkRuntime {
    pub fn new(enable_tor: bool, proxy_url: String) -> (runtime: Self)
        ensures
            runtime@ == (enable_tor, proxy_url@),
    {
        NativeNetworkRuntime { enable_tor, proxy_url }
    }

    /// Replaces both settings at once.
    pub fn set(&mut self, enable_tor: bool, proxy_url: String)
        ensures
            final(self)@ == (enable_tor, proxy_url@),
    {
        self.enable_tor = enable_tor;
        self.proxy_url = proxy_url;
    }

    pub fn is_tor_enabled(&self) -> (enabled: bool)
        ensures
            enabled == self@.0,
    {
        self.enable_tor
    }

    pub fn get_proxy_url(&self) -> (url: String)
        ensures
            url@ == self@.1,
    {
        self.proxy_url.clone()
    }

    /// Both settings as they stand together.
    pub fn snapshot(&self) -> (settings: NetworkSettings)
        ensures
            settings.tor_enabled == self@.0,
            settings.proxy_url@ == self@.1,
    {
        NetworkSettings { tor_enabled: self.enable_tor, proxy_url: self.proxy_url.clone() }
    }

    /// The configuration of the HTTP client: redirects are never followed,
    /// and every request goes through the proxy exactly when Tor is on.
    pub fn http_client_plan(&self) -> (plan: HttpClientPlan)
        ensures
            !plan.follow_redirects,
            opt_text(plan.proxy) == (if self@.0 {
                Some(self@.1)
            } else {
                None
            }),
    {
        HttpClientPlan {
            follow_redirects: false,
            proxy: if self.enable_tor {
                Some(self.proxy_url.clone())
            } else {
                None
            },
        }
    }

    /// How the WebSocket to `relay` is opened under the current settings.
    pub fn websocket_route(&self, relay: &ParsedUrl) -> (r: Result<WebSocketRoute, NetError>)
        ensures
            route_view(r) == websocket_route_spec(self@.0, url_parse_result(self@.1), relay@),
    {
        if self.enable_tor && same_text(relay.scheme.as_str(), "wss") {
            let proxy = parse_url(self.proxy_url.as_str());
            match plan_socks_route(&proxy, relay) {
                Ok(route) => Ok(WebSocketRoute::Socks5Tls(route)),
                Err(e) => Err(e),
            }
        } else {
            Ok(WebSocketRoute::Direct)
        }
    }
}

/// A proxy URL that names no port is dialled on port 9050.
pub proof fn lemma_proxy_port_defaults(proxy: ParsedUrlView, relay: ParsedUrlView)
    requires
        proxy.port is None,
    ensures
        socks_route_spec(Ok(proxy), relay) matches Ok(route) ==> route.proxy_port == 9050,
{
}

/// Without Tor every relay is dialled directly, whatever the proxy URL holds.
pub proof fn lemma_direct_without_tor(proxy: Result<ParsedUrlView, Seq<char>>, relay: ParsedUrlView)
    ensures
        websocket_route_spec(false, proxy, relay) == Ok::<WebSocketRouteView, NetErrorView>(
            WebSocketRouteView::Direct,
        ),
{
}

} // verus!
