//! The relay commands: what each does to the pool, which frames it puts on
//! the relay's writer and which status it reports.
//!
//! Nothing here touches a socket. A command returns what is to be sent and
//! reported; opening the socket, the writer queue and the reader task are
//! the caller's, which hands back what happened.

use vstd::prelude::*;
use crate::json::{canonical_json, json_canonical, json_string_literal, quote_json};
use crate::net::{
    parse_url, relay_key_spec, url_parse_result, websocket_route_spec, NativeNetworkRuntime,
    NetError, ParsedUrl, ParsedUrlView, WebSocketRoute, WebSocketRouteView,
};
use crate::pool::{
    relay_of, subscription_views, with_relay, RelayPool, RelayView, SubscriptionView,
};
use crate::text::{concat2, texts};

verus! {

/// How often a relay is dialled through Tor before the connect fails.
pub const TOR_CONNECT_ATTEMPTS: u32 = 30;

/// The pause between two attempts through Tor, in milliseconds.
pub const TOR_RETRY_DELAY_MS: u64 = 1000;

/// The bound of a relay's queue of outgoing frames.
pub const WRITER_QUEUE_CAPACITY: usize = 32;

/// The name of the event that carries a relay's message.
pub const RELAY_EVENT: &'static str = "relay-event";

/// The name of the event that carries a relay's status.
pub const RELAY_STATUS_EVENT: &'static str = "relay-status";

/// The text of a `REQ` frame.
pub open spec fn req_frame_text(sub_id: Seq<char>, filter: Seq<char>) -> Seq<char> {
    "[\"REQ\","@ + json_string_literal(sub_id) + ","@ + filter + "]"@
}

/// The text of an `EVENT` frame.
pub open spec fn event_frame_text(event: Seq<char>) -> Seq<char> {
    "[\"EVENT\","@ + event + "]"@
}

/// The text of a `CLOSE` frame.
pub open spec fn close_frame_text(sub_id: Seq<char>) -> Seq<char> {
    "[\"CLOSE\","@ + json_string_literal(sub_id) + "]"@
}

/// The `REQ` frames that replay `subs`, one for each, in order.
pub open spec fn replay_frames(subs: Seq<SubscriptionView>) -> Seq<Seq<char>> {
    Seq::new(subs.len(), |i: int| req_frame_text(subs[i].sub_id, subs[i].filter))
}

/// Builds the `REQ` frame for a subscription whose filter is compact JSON.
pub fn req_frame(sub_id: &str, filter: &str) -> (frame: String)
    ensures
        frame@ == req_frame_text(sub_id@, filter@),
{
    let quoted = quote_json(sub_id);
    let mut frame = "[\"REQ\",".to_string();
    frame.append(quoted.as_str());
    frame.append(",");
    frame.append(filter);
    frame.append("]");
    frame
}

/// Builds the `EVENT` frame for an event given as compact JSON.
pub fn event_frame(event: &str) -> (frame: String)
    ensures
        frame@ == event_frame_text(event@),
{
    let mut frame = "[\"EVENT\",".to_string();
    frame.append(event);
    frame.append("]");
    frame
}

/// Builds the `CLOSE` frame for a subscription.
pub fn close_frame(sub_id: &str) -> (frame: String)
    ensures
        frame@ == close_frame_text(sub_id@),
{
    let quoted = quote_json(sub_id);
    let mut frame = "[\"CLOSE\",".to_string();
    frame.append(quoted.as_str());
    frame.append("]");
    frame
}

/// What a relay's status event says.
#[derive(Debug)]
pub enum RelayStatus {
    Starting,
    Connected,
    Disconnected,
    Error(String),
}

pub enum RelayStatusView {
    Starting,
    Connected,
    Disconnected,
    Error(Seq<char>),
}

impl View for RelayStatus {
    type V = RelayStatusView;

    open spec fn view(&self) -> RelayStatusView {
        match self {
            RelayStatus::Starting => RelayStatusView::Starting,
            RelayStatus::Connected => RelayStatusView::Connected,
            RelayStatus::Disconnected => RelayStatusView::Disconnected,
            RelayStatus::Error(message) => RelayStatusView::Error(message@),
        }
    }
}

/// The views of a list of statuses.
pub open spec fn status_views(statuses: Seq<RelayStatus>) -> Seq<RelayStatusView> {
    Seq::new(statuses.len(), |i: int| statuses[i]@)
}

/// The view of an optional status.
pub open spec fn opt_status(status: Option<RelayStatus>) -> Option<RelayStatusView> {
    match status {
        Some(s) => Some(s@),
        None => None,
    }
}

impl RelayStatus {
    /// The word that the status event carries.
    pub open spec fn label_text(self) -> Seq<char> {
        match self {
            RelayStatus::Starting => "starting"@,
            RelayStatus::Connected => "connected"@,
            RelayStatus::Disconnected => "disconnected"@,
            RelayStatus::Error(_) => "error"@,
        }
    }

    /// The word that the status event carries.
    pub fn label(&self) -> (s: &'static str)
        ensures
            s@ == self.label_text(),
    {
        match self {
            RelayStatus::Starting => "starting",
            RelayStatus::Connected => "connected",
            RelayStatus::Disconnected => "disconnected",
            RelayStatus::Error(_) => "error",
        }
    }

    /// The error text that the status event carries, if it reports an error.
    pub fn error_text(&self) -> (text: Option<&str>)
        ensures
            match text {
                Some(t) => self@ == RelayStatusView::Error(t@),
                None => !(self is Error),
            },
    {
        match self {
            RelayStatus::Error(message) => Some(message.as_str()),
            _ => None,
        }
    }
}

/// Why a relay command fails.
#[derive(Debug)]
pub enum RelayError {
    /// The relay URL does not parse; the message is the parser's.
    InvalidUrl(String),
    /// A payload is not one JSON value.
    InvalidJson,
    NotConnected,
}

impl RelayError {
    /// The text shown for the error.
    pub open spec fn message_text(self) -> Seq<char> {
        match self {
            RelayError::InvalidUrl(m) => m@,
            RelayError::InvalidJson => "Invalid JSON payload"@,
            RelayError::NotConnected => "Not connected"@,
        }
    }

    /// The text shown for the error.
    pub fn message(&self) -> (s: String)
        ensures
            s@ == self.message_text(),
    {
        match self {
            RelayError::InvalidUrl(m) => m.clone(),
            RelayError::InvalidJson => "Invalid JSON payload".to_string(),
            RelayError::NotConnected => "Not connected".to_string(),
        }
    }
}

/// How a relay is to be dialled.
#[derive(Debug)]
pub struct DialPlan {
    /// The relay URL in canonical form.
    pub url: String,
    pub route: WebSocketRoute,
    /// Whether the dial goes out under Tor, where a failed attempt is tried
    /// again.
    pub via_tor: bool,
    /// How many attempts are made before the connect fails.
    pub max_attempts: u32,
    /// The pause between two attempts, in milliseconds.
    pub retry_delay_ms: u64,
    /// The status to report before the first attempt: `starting` under Tor,
    /// none otherwise.
    pub announce: Option<RelayStatus>,
}

/// A connect that has failed.
#[derive(Debug)]
pub struct ConnectFailure {
    /// The error that the command returns.
    pub message: String,
    /// The statuses to report, in order.
    pub statuses: Vec<RelayStatus>,
}

/// What `connect_relay` decides.
#[derive(Debug)]
pub enum ConnectDecision {
    /// A connection entry exists: nothing is dialled and nothing reported.
    AlreadyConnected,
    /// The relay URL does not parse; the message is the parser's. Nothing is
    /// reported.
    InvalidUrl(String),
    /// The relay cannot be reached through the proxy as it is configured.
    Unroutable(ConnectFailure),
    Dial(DialPlan),
}

/// The kind of a connect decision.
pub enum ConnectKind {
    AlreadyConnected,
    InvalidUrl,
    Unroutable,
    Dial,
}

impl ConnectDecision {
    pub open spec fn kind(self) -> ConnectKind {
        match self {
            ConnectDecision::AlreadyConnected => ConnectKind::AlreadyConnected,
            ConnectDecision::InvalidUrl(_) => ConnectKind::InvalidUrl,
            ConnectDecision::Unroutable(_) => ConnectKind::Unroutable,
            ConnectDecision::Dial(_) => ConnectKind::Dial,
        }
    }
}

/// The kind of decision that a connect comes to: a connected relay is never
/// dialled again; otherwise the URL has to parse and a route has to exist.
pub open spec fn connect_kind_spec(
    connected: bool,
    tor_enabled: bool,
    relay: Result<ParsedUrlView, Seq<char>>,
    proxy: Result<ParsedUrlView, Seq<char>>,
) -> ConnectKind {
    if connected {
        ConnectKind::AlreadyConnected
    } else {
        match relay {
            Err(_) => ConnectKind::InvalidUrl,
            Ok(url) => match websocket_route_spec(tor_enabled, proxy, url) {
                Ok(_) => ConnectKind::Dial,
                Err(_) => ConnectKind::Unroutable,
            },
        }
    }
}

/// The words before the reason of a connect that failed under Tor.
pub open spec fn tor_failure_text(reason: Seq<char>) -> Seq<char> {
    "Tor proxy connect failed: "@ + reason
}

/// The attempts that a dial gets.
pub open spec fn attempts_allowed(tor_enabled: bool) -> u32 {
    if tor_enabled {
        TOR_CONNECT_ATTEMPTS
    } else {
        1
    }
}

/// The status before the first attempt of a dial.
pub open spec fn announced(tor_enabled: bool) -> Option<RelayStatusView> {
    if tor_enabled {
        Some(RelayStatusView::Starting)
    } else {
        None
    }
}

/// `failure` is a connect that failed without a route for the reason
/// `reason`: `starting` and then the error are reported.
pub open spec fn is_unroutable(failure: ConnectFailure, reason: Seq<char>) -> bool {
    &&& failure.message@ == tor_failure_text(reason)
    &&& status_views(failure.statuses@) == seq![
        RelayStatusView::Starting,
        RelayStatusView::Error(tor_failure_text(reason)),
    ]
}

/// `plan` dials the relay whose URL parsed as `parsed` by the route `route`.
pub open spec fn is_dial(
    plan: DialPlan,
    parsed: ParsedUrlView,
    route: WebSocketRouteView,
    tor_enabled: bool,
) -> bool {
    &&& plan.url@ == parsed.text
    &&& plan.route@ == route
    &&& plan.via_tor == tor_enabled
    &&& plan.max_attempts == attempts_allowed(tor_enabled)
    &&& plan.retry_delay_ms == TOR_RETRY_DELAY_MS
    &&& opt_status(plan.announce) == announced(tor_enabled)
}

/// Decides a connect from the pool's entry, the settings, and the parsed
/// relay URL together with the route that the settings give it.
pub fn decide_connect(
    connected: bool,
    tor_enabled: bool,
    relay: Result<(ParsedUrl, Result<WebSocketRoute, NetError>), String>,
) -> (decision: ConnectDecision)
    ensures
        connected ==> decision is AlreadyConnected,
        !connected ==> match relay {
            Err(message) => decision matches ConnectDecision::InvalidUrl(m) && m@ == message@,
            Ok((url, route)) => match route {
                Err(e) => decision matches ConnectDecision::Unroutable(failure) && is_unroutable(
                    failure,
                    e@.message(),
                ),
                Ok(way) => decision matches ConnectDecision::Dial(plan) && is_dial(
                    plan,
                    url@,
                    way@,
                    tor_enabled,
                ),
            },
        },
{
    if connected {
        return ConnectDecision::AlreadyConnected;
    }
    match relay {
        Err(message) => ConnectDecision::InvalidUrl(message),
        Ok((url, route)) => match route {
            Err(e) => {
                let reason = e.message();
                let message = concat2("Tor proxy connect failed: ", reason.as_str());
                let mut statuses: Vec<RelayStatus> = Vec::new();
                statuses.push(RelayStatus::Starting);
                statuses.push(RelayStatus::Error(message.clone()));
                assert(status_views(statuses@) =~= seq![
                    RelayStatusView::Starting,
                    RelayStatusView::Error(tor_failure_text(e@.message())),
                ]);
                ConnectDecision::Unroutable(ConnectFailure { message, statuses })
            },
            Ok(way) => ConnectDecision::Dial(
                DialPlan {
                    url: url.text,
                    route: way,
                    via_tor: tor_enabled,
                    max_attempts: if tor_enabled {
                        TOR_CONNECT_ATTEMPTS
                    } else {
                        1
                    },
                    retry_delay_ms: TOR_RETRY_DELAY_MS,
                    announce: if tor_enabled {
                        Some(RelayStatus::Starting)
                    } else {
                        None
                    },
                },
            ),
        },
    }
}

/// What a connect comes to for a relay in the given state, in full.
pub open spec fn decision_fits(
    decision: ConnectDecision,
    connected: bool,
    tor_enabled: bool,
    relay: Result<ParsedUrlView, Seq<char>>,
    proxy: Result<ParsedUrlView, Seq<char>>,
) -> bool {
    &&& decision.kind() == connect_kind_spec(connected, tor_enabled, relay, proxy)
    &&& match decision {
        ConnectDecision::AlreadyConnected => true,
        ConnectDecision::InvalidUrl(m) => relay == Err::<ParsedUrlView, Seq<char>>(m@),
        ConnectDecision::Unroutable(failure) => relay matches Ok(parsed) && websocket_route_spec(
            tor_enabled,
            proxy,
            parsed,
        ) matches Err(e) && is_unroutable(failure, e.message()),
        ConnectDecision::Dial(plan) => relay matches Ok(parsed) && websocket_route_spec(
            tor_enabled,
            proxy,
            parsed,
        ) matches Ok(route) && is_dial(plan, parsed, route, tor_enabled),
    }
}

/// How a relay that has no connection entry is dialled under the current
/// settings, if it can be dialled at all.
pub fn plan_dial(net: &NativeNetworkRuntime, url: &str) -> (decision: ConnectDecision)
    ensures
        decision_fits(decision, false, net@.0, url_parse_result(url@), url_parse_result(net@.1)),
{
    let tor_enabled = net.is_tor_enabled();
    let relay = match parse_url(url) {
        Ok(parsed) => {
            let route = net.websocket_route(&parsed);
            Ok((parsed, route))
        },
        Err(message) => Err(message),
    };
    decide_connect(false, tor_enabled, relay)
}

/// The first step of a connect: the relay is wanted from now on, and the
/// decision says whether and how it is dialled and what is reported.
pub fn connect_relay(pool: &mut RelayPool, net: &NativeNetworkRuntime, url: &str) -> (decision:
    ConnectDecision)
    requires
        old(pool).wf(),
    ensures
        final(pool).wf(),
        final(pool)@ == with_relay(old(pool)@, url@, relay_of(old(pool)@, url@).wanted()),
        decision_fits(
            decision,
            relay_of(old(pool)@, url@).connected,
            net@.0,
            url_parse_result(url@),
            url_parse_result(net@.1),
        ),
{
    pool.want(url);
    if pool.is_connected(url) {
        ConnectDecision::AlreadyConnected
    } else {
        plan_dial(net, url)
    }
}

/// What follows a failed attempt to dial.
#[derive(Debug)]
pub enum AttemptFollowUp {
    /// Dial again after so many milliseconds.
    RetryAfter(u64),
    /// The connect has failed.
    GiveUp(ConnectFailure),
}

/// The text with which a connect fails for good.
pub open spec fn connect_failure_text(via_tor: bool, reason: Seq<char>) -> Seq<char> {
    if via_tor {
        tor_failure_text(reason)
    } else {
        reason
    }
}

/// Decides what follows the failure of attempt number `attempts_made`
/// (counted from one) with the reason `reason`. A connect that fails for
/// good returns its text as the error and reports it as an `error` status.
pub fn connect_attempt_failed(plan: &DialPlan, attempts_made: u32, reason: &str) -> (next:
    AttemptFollowUp)
    ensures
        attempts_made < plan.max_attempts ==> next == AttemptFollowUp::RetryAfter(
            plan.retry_delay_ms,
        ),
        attempts_made >= plan.max_attempts ==> (next matches AttemptFollowUp::GiveUp(failure)
            && failure.message@ == connect_failure_text(plan.via_tor, reason@) && status_views(
            failure.statuses@,
        ) == seq![RelayStatusView::Error(connect_failure_text(plan.via_tor, reason@))]),
{
    if attempts_made < plan.max_attempts {
        return AttemptFollowUp::RetryAfter(plan.retry_delay_ms);
    }
    let message = if plan.via_tor {
        concat2("Tor proxy connect failed: ", reason)
    } else {
        reason.to_string()
    };
    let mut statuses: Vec<RelayStatus> = Vec::new();
    statuses.push(RelayStatus::Error(message.clone()));
    assert(status_views(statuses@) =~= seq![
        RelayStatusView::Error(connect_failure_text(plan.via_tor, reason@)),
    ]);
    AttemptFollowUp::GiveUp(ConnectFailure { message, statuses })
}

/// What the last step of a connect hands out.
#[derive(Debug)]
pub struct Established {
    /// The frames for the relay's writer, in order.
    pub frames: Vec<String>,
    /// The status to report after the frames are queued.
    pub status: RelayStatus,
}

/// The last step of a connect, when the socket is open and its writer and
/// reader run: the connection entry is installed, the reconnect state drops
/// to zero, and every persistent subscription of the relay is replayed as one
/// `REQ` frame, oldest first. The status `connected` follows the frames.
pub fn connection_established(pool: &mut RelayPool, url: &str) -> (done: Established)
    requires
        old(pool).wf(),
    ensures
        final(pool).wf(),
        final(pool)@ == with_relay(old(pool)@, url@, relay_of(old(pool)@, url@).established()),
        texts(done.frames@) == replay_frames(relay_of(old(pool)@, url@).subscriptions),
        done.frames@.len() == relay_of(old(pool)@, url@).subscriptions.len(),
        done.status@ == RelayStatusView::Connected,
{
    let subs = pool.subscriptions(url);
    pool.install_connection(url);
    let mut frames: Vec<String> = Vec::new();
    let mut i: usize = 0;
    while i < subs.len()
        invariant
            i <= subs.len(),
            frames@.len() == i,
            forall|j: int|
                0 <= j < i ==> (#[trigger] frames@[j])@ == req_frame_text(
                    subs@[j].sub_id@,
                    subs@[j].filter@,
                ),
        decreases subs.len() - i,
    {
        frames.push(req_frame(subs[i].sub_id.as_str(), subs[i].filter.as_str()));
        i = i + 1;
    }
    proof {
        let views = subscription_views(subs@);
        assert forall|j: int| 0 <= j < frames@.len() implies texts(frames@)[j] == replay_frames(
            views,
        )[j] by {
            assert(views[j] == subs@[j]@);
        }
        assert(texts(frames@) =~= replay_frames(views));
    }
    Established { frames, status: RelayStatus::Connected }
}

/// Disconnects a relay: it is no longer wanted, no reconnect is pending, and
/// the connection entry goes. The subscriptions stay. With a connection the
/// writer gets a Close frame and the status `disconnected` is to be
/// reported; without one the command fails as not connected and nothing is
/// reported.
pub fn disconnect_relay(pool: &mut RelayPool, url: &str) -> (r: Result<RelayStatus, RelayError>)
    requires
        old(pool).wf(),
    ensures
        final(pool).wf(),
        final(pool)@ == with_relay(old(pool)@, url@, relay_of(old(pool)@, url@).released()),
        relay_of(old(pool)@, url@).connected ==> (r matches Ok(status) && status@
            == RelayStatusView::Disconnected),
        !relay_of(old(pool)@, url@).connected ==> r == Err::<RelayStatus, RelayError>(
            RelayError::NotConnected,
        ),
{
    if pool.release(url) {
        Ok(RelayStatus::Disconnected)
    } else {
        Err(RelayError::NotConnected)
    }
}

/// What `publish_event` returns for a relay in the state `relay`.
pub open spec fn publish_spec(relay: RelayView, event: Seq<char>) -> Result<Seq<char>, RelayError> {
    if !relay.connected {
        Err(RelayError::NotConnected)
    } else {
        match json_canonical(event) {
            Some(compact) => Ok(event_frame_text(compact)),
            None => Err(RelayError::InvalidJson),
        }
    }
}

/// The view of a frame or an error.
pub open spec fn frame_view(r: Result<String, RelayError>) -> Result<Seq<char>, RelayError> {
    match r {
        Ok(frame) => Ok(frame@),
        Err(e) => Err(e),
    }
}

/// Publishes an event: the `EVENT` frame for the writer of a connected relay.
/// Nothing is kept for a relay that is not connected.
pub fn publish_event(pool: &RelayPool, url: &str, event_json: &str) -> (r: Result<
    String,
    RelayError,
>)
    requires
        pool.wf(),
    ensures
        frame_view(r) == publish_spec(relay_of(pool@, url@), event_json@),
{
    if !pool.is_connected(url) {
        return Err(RelayError::NotConnected);
    }
    match canonical_json(event_json) {
        Some(compact) => Ok(event_frame(compact.as_str())),
        None => Err(RelayError::InvalidJson),
    }
}

/// What a subscribe or an unsubscribe did.
#[derive(Debug)]
pub enum SubscriptionOutcome {
    /// The relay is connected: the frame goes to its writer.
    Active(String),
    /// The relay is not connected: only the persistent state changed.
    Offline,
}

/// Subscribes: the filter is stored under `sub_id` for the relay, connected
/// or not, and a connected relay gets the `REQ` frame. A filter that is not
/// one JSON value is refused and changes nothing.
pub fn subscribe_relay(pool: &mut RelayPool, url: &str, sub_id: &str, filter: &str) -> (r: Result<
    SubscriptionOutcome,
    RelayError,
>)
    requires
        old(pool).wf(),
    ensures
        final(pool).wf(),
        match json_canonical(filter@) {
            None => r == Err::<SubscriptionOutcome, RelayError>(RelayError::InvalidJson)
                && final(pool)@ == old(pool)@,
            Some(compact) => final(pool)@ == with_relay(
                old(pool)@,
                url@,
                relay_of(old(pool)@, url@).subscribed(sub_id@, compact),
            ) && (if relay_of(old(pool)@, url@).connected {
                r matches Ok(SubscriptionOutcome::Active(frame)) && frame@ == req_frame_text(
                    sub_id@,
                    compact,
                )
            } else {
                r == Ok::<SubscriptionOutcome, RelayError>(SubscriptionOutcome::Offline)
            }),
        },
{
    match canonical_json(filter) {
        None => Err(RelayError::InvalidJson),
        Some(compact) => {
            let connected = pool.is_connected(url);
            let frame = if connected {
                Some(req_frame(sub_id, compact.as_str()))
            } else {
                None
            };
            pool.put_subscription(url, sub_id.to_string(), compact);
            match frame {
                Some(frame) => Ok(SubscriptionOutcome::Active(frame)),
                None => Ok(SubscriptionOutcome::Offline),
            }
        },
    }
}

/// Unsubscribes: the subscription leaves the relay's persistent state, and a
/// connected relay gets the `CLOSE` frame.
pub fn unsubscribe_relay(pool: &mut RelayPool, url: &str, sub_id: &str) -> (outcome:
    SubscriptionOutcome)
    requires
        old(pool).wf(),
    ensures
        final(pool).wf(),
        final(pool)@ == with_relay(
            old(pool)@,
            url@,
            relay_of(old(pool)@, url@).unsubscribed(sub_id@),
        ),
        if relay_of(old(pool)@, url@).connected {
            outcome matches SubscriptionOutcome::Active(frame) && frame@ == close_frame_text(sub_id@)
        } else {
            outcome == SubscriptionOutcome::Offline
        },
{
    let connected = pool.is_connected(url);
    pool.remove_subscription(url, sub_id);
    if connected {
        SubscriptionOutcome::Active(close_frame(sub_id))
    } else {
        SubscriptionOutcome::Offline
    }
}

/// Sends a text frame as it is, if the relay is connected.
pub fn send_relay_message(pool: &RelayPool, url: &str, message: String) -> (r: Result<
    String,
    RelayError,
>)
    requires
        pool.wf(),
    ensures
        frame_view(r) == (if relay_of(pool@, url@).connected {
            Ok::<Seq<char>, RelayError>(message@)
        } else {
            Err::<Seq<char>, RelayError>(RelayError::NotConnected)
        }),
{
    if pool.is_connected(url) {
        Ok(message)
    } else {
        Err(RelayError::NotConnected)
    }
}

/// What a relay's socket yielded.
#[derive(Debug)]
pub enum Incoming {
    Text(String),
    /// A binary, ping or pong frame.
    Other,
    Close,
    /// The read failed.
    Failed,
}

/// A message of a relay on its way to the user interface.
#[derive(Debug)]
pub struct RelayMessage {
    pub relay_url: String,
    /// The relay's message as compact JSON.
    pub payload: String,
}

/// What the reader does with what the socket yielded.
#[derive(Debug)]
pub enum ReaderStep {
    /// Emit a relay event and read on.
    Emit(RelayMessage),
    /// Drop the frame and read on.
    Ignore,
    /// Stop reading: the connection is lost.
    Stop,
}

/// The reader's rule: a text frame that is one JSON value becomes a relay
/// event, a Close frame and a failed read end the reader, everything else is
/// dropped.
pub fn relay_frame_received(url: &str, frame: Incoming) -> (step: ReaderStep)
    ensures
        match frame {
            Incoming::Text(text) => match json_canonical(text@) {
                Some(compact) => step matches ReaderStep::Emit(message) && message.relay_url@
                    == url@ && message.payload@ == compact,
                None => step is Ignore,
            },
            Incoming::Other => step is Ignore,
            Incoming::Close => step is Stop,
            Incoming::Failed => step is Stop,
        },
{
    match frame {
        Incoming::Text(text) => match canonical_json(text.as_str()) {
            Some(compact) => ReaderStep::Emit(
                RelayMessage { relay_url: url.to_string(), payload: compact },
            ),
            None => ReaderStep::Ignore,
        },
        Incoming::Other => ReaderStep::Ignore,
        Incoming::Close => ReaderStep::Stop,
        Incoming::Failed => ReaderStep::Stop,
    }
}

/// The delay of the reconnect that the scheduler schedules for a relay in
/// the state `relay`, if it schedules one.
pub open spec fn reconnect_delay(relay: RelayView) -> Option<u64> {
    if relay.can_schedule() {
        Some(crate::backoff::backoff_delay_ms(relay.backoff_exp) as u64)
    } else {
        None
    }
}

/// What the end of a reader hands out.
#[derive(Debug)]
pub struct ConnectionLost {
    /// The status to report: `disconnected` if the relay still had its
    /// connection entry, none if a disconnect had taken it already.
    pub status: Option<RelayStatus>,
    /// The delay, in milliseconds, after which a reconnect is due.
    pub reconnect_after_ms: Option<u64>,
}

/// The reader of `url` has ended: the connection entry goes and the
/// reconnect scheduler runs. The status `disconnected` is owed only while
/// the entry was there.
pub fn connection_lost(pool: &mut RelayPool, url: &str) -> (lost: ConnectionLost)
    requires
        old(pool).wf(),
    ensures
        final(pool).wf(),
        final(pool)@ == with_relay(
            old(pool)@,
            url@,
            relay_of(old(pool)@, url@).dropped().scheduled(),
        ),
        lost.reconnect_after_ms == reconnect_delay(relay_of(old(pool)@, url@)),
        opt_status(lost.status) == (if relay_of(old(pool)@, url@).connected {
            Some(RelayStatusView::Disconnected)
        } else {
            None
        }),
{
    let was_connected = pool.is_connected(url);
    pool.drop_connection(url);
    let delay = pool.schedule(url);
    proof {
        let before = old(pool)@;
        let key = relay_key_spec(url@);
        assert(before.insert(key, before[key].dropped()).insert(
            key,
            before[key].dropped().scheduled(),
        ) =~= before.insert(key, before[key].dropped().scheduled()));
    }
    ConnectionLost {
        status: if was_connected {
            Some(RelayStatus::Disconnected)
        } else {
            None
        },
        reconnect_after_ms: delay,
    }
}

/// The reconnect scheduler: at most one reconnect is pending for a relay, and
/// only a wanted relay gets one. The result is the delay in milliseconds.
pub fn schedule_reconnect(pool: &mut RelayPool, url: &str) -> (delay_ms: Option<u64>)
    requires
        old(pool).wf(),
    ensures
        final(pool).wf(),
        final(pool)@ == with_relay(old(pool)@, url@, relay_of(old(pool)@, url@).scheduled()),
        delay_ms == reconnect_delay(relay_of(old(pool)@, url@)),
{
    pool.schedule(url)
}

/// The delay of a scheduled reconnect has passed. The reconnect goes ahead
/// only if it is still pending and the relay is still wanted; otherwise it is
/// given up silently and the in-flight flag is cleared.
pub fn reconnect_due(pool: &mut RelayPool, url: &str) -> (go_ahead: bool)
    requires
        old(pool).wf(),
    ensures
        final(pool).wf(),
        go_ahead == (relay_of(old(pool)@, url@).desired && relay_of(
            old(pool)@,
            url@,
        ).reconnect_in_flight),
        final(pool)@ == (if go_ahead {
            old(pool)@
        } else {
            with_relay(old(pool)@, url@, relay_of(old(pool)@, url@).settled())
        }),
{
    if pool.is_desired(url) && pool.is_reconnect_in_flight(url) {
        true
    } else {
        pool.settle(url);
        false
    }
}

/// A reconnect attempt has ended. The in-flight flag is cleared; after a
/// failure the scheduler runs again, so that a wanted relay is tried again
/// after the next, longer delay.
pub fn reconnect_finished(pool: &mut RelayPool, url: &str, connected: bool) -> (retry_after_ms:
    Option<u64>)
    requires
        old(pool).wf(),
    ensures
        final(pool).wf(),
        final(pool)@ == with_relay(
            old(pool)@,
            url@,
            if connected {
                relay_of(old(pool)@, url@).settled()
            } else {
                relay_of(old(pool)@, url@).settled().scheduled()
            },
        ),
        retry_after_ms == (if connected {
            None
        } else {
            reconnect_delay(relay_of(old(pool)@, url@).settled())
        }),
{
    pool.settle(url);
    if connected {
        None
    } else {
        let delay = pool.schedule(url);
        proof {
            let before = old(pool)@;
            let key = relay_key_spec(url@);
            assert(before.insert(key, before[key].settled()).insert(
                key,
                before[key].settled().scheduled(),
            ) =~= before.insert(key, before[key].settled().scheduled()));
        }
        delay
    }
}

/// The replay after a connect holds one `REQ` frame for every persistent
/// subscription of the relay, in their order, and none besides: as no two
/// subscriptions share an id, each id is sent exactly once.
pub proof fn lemma_replay_sends_each_once(subs: Seq<SubscriptionView>)
    requires
        crate::pool::distinct_ids(subs),
    ensures
        replay_frames(subs).len() == subs.len(),
        forall|i: int|
            0 <= i < subs.len() ==> #[trigger] replay_frames(subs)[i] == req_frame_text(
                subs[i].sub_id,
                subs[i].filter,
            ),
        forall|i: int, j: int|
            0 <= i < subs.len() && 0 <= j < subs.len() && i != j ==> (#[trigger] subs[i]).sub_id
                != (#[trigger] subs[j]).sub_id,
{
}

/// A connect that follows a successful connect of the same relay finds the
/// connection entry and dials nothing, whatever the URL and the settings are.
pub proof fn lemma_second_connect_dials_nothing(
    relay: RelayView,
    tor_enabled: bool,
    parsed: Result<ParsedUrlView, Seq<char>>,
    proxy: Result<ParsedUrlView, Seq<char>>,
)
    ensures
        connect_kind_spec(
            relay.wanted().established().wanted().connected,
            tor_enabled,
            parsed,
            proxy,
        ) == ConnectKind::AlreadyConnected,
{
}

/// The reader ends once for every connection. After a disconnect it finds no
/// entry: no second `disconnected` is owed and no reconnect is scheduled.
pub proof fn lemma_reader_end_after_disconnect_is_silent(relay: RelayView)
    ensures
        !relay.released().connected,
        reconnect_delay(relay.released()) is None,
        relay.released().dropped().scheduled() == relay.released(),
{
}

} // verus!
