//! The supervisor of the local proxy: whether the child process runs, what
//! each line of its output means, and the persisted settings.
//!
//! Spawning and killing the child and reading and writing the settings file
//! are the caller's.

use vstd::prelude::*;
use crate::net::NativeNetworkRuntime;
use crate::text::{concat2, contains, decimal_i32, signed_decimal, text_contains};

verus! {

/// The name of the settings file under the application's data directory.
pub const TOR_SETTINGS_FILE: &'static str = "tor_settings.json";

/// The settings of the proxy.
#[derive(Debug)]
pub struct TorSettings {
    pub enable_tor: bool,
    pub proxy_url: String,
}

impl TorSettings {
    /// The settings of a fresh installation: Tor off, the proxy on the local
    /// host at port 9050.
    pub fn initial() -> (settings: TorSettings)
        ensures
            !settings.enable_tor,
            settings.proxy_url@ == "socks5://127.0.0.1:9050"@,
    {
        TorSettings { enable_tor: false, proxy_url: "socks5://127.0.0.1:9050".to_string() }
    }

    /// A copy of the settings.
    pub fn duplicate(&self) -> (copy: TorSettings)
        ensures
            copy.enable_tor == self.enable_tor,
            copy.proxy_url@ == self.proxy_url@,
    {
        TorSettings { enable_tor: self.enable_tor, proxy_url: self.proxy_url.clone() }
    }
}

/// The settings to start with: those that were stored, or the initial ones
/// where nothing usable was stored.
pub fn load_tor_settings(stored: Option<TorSettings>) -> (settings: TorSettings)
    ensures
        match stored {
            Some(found) => settings == found,
            None => !settings.enable_tor && settings.proxy_url@ == "socks5://127.0.0.1:9050"@,
        },
{
    match stored {
        Some(found) => found,
        None => TorSettings::initial(),
    }
}

/// What the supervisor knows: whether it holds a child process, and the
/// settings.
pub struct TorState {
    running: bool,
    settings: TorSettings,
}

pub struct TorStateView {
    pub running: bool,
    pub enable_tor: bool,
    pub proxy_url: Seq<char>,
}

impl View for TorState {
    type V = TorStateView;

    closed spec fn view(&self) -> TorStateView {
        TorStateView {
            running: self.running,
            enable_tor: self.settings.enable_tor,
            proxy_url: self.settings.proxy_url@,
        }
    }
}

/// What `start_tor` decides.
#[derive(Debug, PartialEq, Eq, Structural)]
pub enum TorStart {
    /// A child is held already: nothing is spawned.
    AlreadyRunning,
    /// The proxy's binary is to be spawned.
    Spawn,
}

/// What `stop_tor` decides.
#[derive(Debug, PartialEq, Eq, Structural)]
pub enum TorStop {
    /// The child is to be killed; the supervisor holds it no longer.
    Kill,
    NotRunning,
}

/// The event on which the supervisor reports.
#[derive(Debug, PartialEq, Eq, Structural)]
pub enum TorChannel {
    /// `tor-log`: a line of the child's standard output.
    Log,
    /// `tor-error`: a line of the child's standard error.
    Error,
    /// `tor-status`: the state of the proxy.
    Status,
}

impl TorChannel {
    /// The name under which the event is emitted.
    pub open spec fn event_name_text(self) -> Seq<char> {
        match self {
            TorChannel::Log => "tor-log"@,
            TorChannel::Error => "tor-error"@,
            TorChannel::Status => "tor-status"@,
        }
    }

    /// The name under which the event is emitted.
    pub fn event_name(&self) -> (name: &'static str)
        ensures
            name@ == self.event_name_text(),
    {
        match self {
            TorChannel::Log => "tor-log",
            TorChannel::Error => "tor-error",
            TorChannel::Status => "tor-status",
        }
    }
}

/// One event for the user interface.
#[derive(Debug)]
pub struct TorEmit {
    pub channel: TorChannel,
    pub payload: String,
}

/// What the child process did.
#[derive(Debug)]
pub enum TorProcessEvent {
    /// A line on standard output.
    Stdout(String),
    /// A line on standard error.
    Stderr(String),
    /// The child ended, with this exit code if it has one.
    Terminated(Option<i32>),
    /// Anything else.
    Other,
}

/// The words in the child's output that say that the proxy is ready.
pub open spec fn bootstrap_banner() -> Seq<char> {
    "Bootstrapped 100%"@
}

/// The status text for a child that ended.
pub open spec fn terminated_text(code: Option<i32>) -> Seq<char> {
    "terminated: "@ + signed_decimal(
        match code {
            Some(c) => c as int,
            None => -1,
        },
    )
}

/// The events that follow from what the child did, in order.
pub open spec fn tor_emits_spec(event: TorProcessEvent) -> Seq<(TorChannel, Seq<char>)> {
    match event {
        TorProcessEvent::Stdout(line) => if text_contains(line@, bootstrap_banner()) {
            seq![(TorChannel::Log, line@), (TorChannel::Status, "connected"@)]
        } else {
            seq![(TorChannel::Log, line@)]
        },
        TorProcessEvent::Stderr(line) => seq![(TorChannel::Error, line@)],
        TorProcessEvent::Terminated(code) => seq![(TorChannel::Status, terminated_text(code))],
        TorProcessEvent::Other => Seq::empty(),
    }
}

/// The channels and payloads of a list of events.
pub open spec fn emits_view(emits: Seq<TorEmit>) -> Seq<(TorChannel, Seq<char>)> {
    Seq::new(emits.len(), |i: int| (emits[i].channel, emits[i].payload@))
}

/// What the supervisor reports for something the child did: every line of
/// standard output is logged, and the line with the bootstrap banner reports
/// the proxy as connected; every line of standard error is an error; the end
/// of the child is reported with its exit code, or -1 without one.
pub fn tor_process_event(event: TorProcessEvent) -> (emits: Vec<TorEmit>)
    ensures
        emits_view(emits@) == tor_emits_spec(event),
        emits@.len() == tor_emits_spec(event).len(),
{
    let mut emits: Vec<TorEmit> = Vec::new();
    match event {
        TorProcessEvent::Stdout(line) => {
            let ready = contains(line.as_str(), "Bootstrapped 100%");
            emits.push(TorEmit { channel: TorChannel::Log, payload: line });
            if ready {
                emits.push(TorEmit { channel: TorChannel::Status, payload: "connected".to_string() });
            }
        },
        TorProcessEvent::Stderr(line) => {
            emits.push(TorEmit { channel: TorChannel::Error, payload: line });
        },
        TorProcessEvent::Terminated(code) => {
            let shown: i32 = match code {
                Some(c) => c,
                None => -1,
            };
            let digits = decimal_i32(shown);
            emits.push(
                TorEmit {
                    channel: TorChannel::Status,
                    payload: concat2("terminated: ", digits.as_str()),
                },
            );
        },
        TorProcessEvent::Other => {},
    }
    assert(emits_view(emits@) =~= tor_emits_spec(event));
    emits
}

impl TorState {
    /// A supervisor without a child.
    pub fn new(settings: TorSettings) -> (state: TorState)
        ensures
            state@ == (TorStateView {
                running: false,
                enable_tor: settings.enable_tor,
                proxy_url: settings.proxy_url@,
            }),
    {
        TorState { running: false, settings }
    }

    /// The settings as they stand.
    pub fn settings(&self) -> (settings: TorSettings)
        ensures
            settings.enable_tor == self@.enable_tor,
            settings.proxy_url@ == self@.proxy_url,
    {
        self.settings.duplicate()
    }

    /// Whether the proxy is to be started with the application.
    pub fn starts_with_app(&self) -> (b: bool)
        ensures
            b == self@.enable_tor,
    {
        self.settings.enable_tor
    }
}

/// Decides a start: the binary is spawned only if no child is held.
pub fn start_tor(state: &TorState) -> (decision: TorStart)
    ensures
        decision == (if state@.running {
            TorStart::AlreadyRunning
        } else {
            TorStart::Spawn
        }),
{
    if state.running {
        TorStart::AlreadyRunning
    } else {
        TorStart::Spawn
    }
}

/// Takes the outcome of the spawn. After a spawn that succeeded the
/// supervisor holds the child, and the status `starting` is reported; a spawn
/// that failed is returned as the error and changes nothing.
pub fn tor_spawned(state: &mut TorState, spawned: Result<(), String>) -> (r: Result<TorEmit, String>)
    ensures
        match spawned {
            Ok(_) => r matches Ok(emit) && emit.channel == TorChannel::Status && emit.payload@
                == "starting"@ && final(state)@ == (TorStateView { running: true, ..old(state)@ }),
            Err(reason) => r matches Err(e) && e@ == reason@ && final(state)@ == old(state)@,
        },
{
    match spawned {
        Ok(_) => {
            state.running = true;
            Ok(TorEmit { channel: TorChannel::Status, payload: "starting".to_string() })
        },
        Err(reason) => Err(reason),
    }
}

/// Decides a stop: a held child is to be killed, and the supervisor holds it
/// no longer whatever the kill brings. The outcome of the kill goes to
/// [`tor_killed`]; without a child nothing is killed and nothing reported.
pub fn stop_tor(state: &mut TorState) -> (decision: TorStop)
    ensures
        final(state)@ == (TorStateView { running: false, ..old(state)@ }),
        decision == (if old(state)@.running {
            TorStop::Kill
        } else {
            TorStop::NotRunning
        }),
{
    if state.running {
        state.running = false;
        TorStop::Kill
    } else {
        TorStop::NotRunning
    }
}

/// Takes the outcome of the kill: after a kill that succeeded the status
/// `stopped` is reported, once; a kill that failed is returned as the error
/// and nothing is reported.
pub fn tor_killed(killed: Result<(), String>) -> (r: Result<TorEmit, String>)
    ensures
        match killed {
            Ok(_) => r matches Ok(emit) && emit.channel == TorChannel::Status && emit.payload@
                == "stopped"@,
            Err(reason) => r matches Err(e) && e@ == reason@,
        },
{
    match killed {
        Ok(_) => Ok(TorEmit { channel: TorChannel::Status, payload: "stopped".to_string() }),
        Err(reason) => Err(reason),
    }
}

/// Whether the supervisor holds a child.
pub fn get_tor_status(state: &TorState) -> (running: bool)
    ensures
        running == state@.running,
{
    state.running
}

/// Takes new settings: the supervisor and the network runtime hold them from
/// now on, both parts together. The result is what the caller writes to the
/// settings file.
pub fn save_tor_settings(
    state: &mut TorState,
    net: &mut NativeNetworkRuntime,
    enable_tor: bool,
    proxy_url: String,
) -> (persisted: TorSettings)
    ensures
        final(state)@ == (TorStateView {
            running: old(state)@.running,
            enable_tor,
            proxy_url: proxy_url@,
        }),
        final(net)@ == (enable_tor, proxy_url@),
        persisted.enable_tor == enable_tor,
        persisted.proxy_url@ == proxy_url@,
{
    state.settings.enable_tor = enable_tor;
    state.settings.proxy_url = proxy_url.clone();
    net.set(enable_tor, proxy_url.clone());
    TorSettings { enable_tor, proxy_url }
}

} // verus!
