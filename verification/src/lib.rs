//! Verified core of a desktop Nostr client's native backend.
//!
//! The crate holds the decisions of the backend as plain state machines:
//! every function takes plain values, returns the next state together with
//! what the caller has to send, report or wait for, and states in its
//! contract what it returns. Sockets, timers, child processes and the
//! credential store live with the caller.
//!
//! - [`pool`] and [`relay`]: the relay pool with its persistent
//!   subscriptions, the relay commands, the reader's rule and the reconnect
//!   scheduler; [`backoff`] holds the reconnect delays.
//! - [`net`]: the network runtime's settings and the route to a relay, direct
//!   or through a SOCKS5 proxy; [`probe`]: the relay probe.
//! - [`keys`], [`session`] and [`wallet`]: key material, the in-memory
//!   session, signing, NIP-04 and the coupling with the secret store.
//! - [`upload`]: the signed authorisation of an upload, the field-name
//!   fallback and the reading of the server's answer.
//! - [`tor`]: the supervisor of the local proxy.
//! - [`json`] and [`text`]: JSON trees and the helpers on text.

pub mod backoff;
pub mod text;
pub mod json;
pub mod net;
pub mod pool;
pub mod relay;
pub mod keys;
pub mod session;
pub mod wallet;
pub mod upload;
pub mod probe;
pub mod tor;
