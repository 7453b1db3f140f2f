//! The in-memory session: the active key pair, if there is one.

use vstd::prelude::*;
use crate::keys::{
    keys_from_hex, keys_parse, keys_parse_result, secret_hex_result, KeyMaterial, KeyMaterialView,
};
use crate::text::{concat2, starts_with};

verus! {

/// The keys that `set_keys` derives from `input`: a text that begins with
/// `nsec` is read as a bech32 secret key, every other text as 64 hexadecimal
/// characters. An error names the form that was tried.
pub open spec fn set_keys_spec(input: Seq<char>) -> Result<KeyMaterialView, Seq<char>> {
    if "nsec"@.is_prefix_of(input) {
        match keys_parse_result(input) {
            Ok(keys) => Ok(keys),
            Err(message) => Err("Invalid nsec: "@ + message),
        }
    } else {
        match secret_hex_result(input) {
            Ok(keys) => Ok(keys),
            Err(message) => Err("Invalid hex key: "@ + message),
        }
    }
}

/// The view of an optional key pair.
pub open spec fn opt_keys(keys: Option<KeyMaterial>) -> Option<KeyMaterialView> {
    match keys {
        Some(k) => Some(k@),
        None => None,
    }
}

/// Derives a key pair from a secret key given as `nsec1...` or as 64
/// hexadecimal characters.
pub fn derive_keys(input: &str) -> (r: Result<KeyMaterial, String>)
    ensures
        crate::keys::keys_view(r) == set_keys_spec(input@),
{
    if starts_with(input, "nsec") {
        match keys_parse(input) {
            Ok(keys) => Ok(keys),
            Err(message) => Err(concat2("Invalid nsec: ", message.as_str())),
        }
    } else {
        match keys_from_hex(input) {
            Ok(keys) => Ok(keys),
            Err(message) => Err(concat2("Invalid hex key: ", message.as_str())),
        }
    }
}

/// The session of the active user.
pub struct SessionState {
    keys: Option<KeyMaterial>,
}

impl View for SessionState {
    type V = Option<KeyMaterialView>;

    closed spec fn view(&self) -> Option<KeyMaterialView> {
        opt_keys(self.keys)
    }
}

impl SessionState {
    /// A session without keys.
    pub fn new() -> (session: Self)
        ensures
            session@ is None,
    {
        SessionState { keys: None }
    }

    /// Makes the keys derived from `key_str` the session's keys and returns
    /// the public key in hexadecimal. A text that gives no keys leaves the
    /// session as it is.
    pub fn set_keys(&mut self, key_str: &str) -> (r: Result<String, String>)
        ensures
            match set_keys_spec(key_str@) {
                Ok(keys) => r matches Ok(public_key) && public_key@ == keys.public_hex
                    && final(self)@ == Some(keys),
                Err(message) => r matches Err(e) && e@ == message && final(self)@ == old(self)@,
            },
    {
        match derive_keys(key_str) {
            Ok(keys) => {
                let public_key = keys.public_hex.clone();
                self.keys = Some(keys);
                Ok(public_key)
            },
            Err(message) => Err(message),
        }
    }

    /// Replaces the session's keys.
    pub fn install(&mut self, keys: KeyMaterial)
        ensures
            final(self)@ == Some(keys@),
    {
        self.keys = Some(keys);
    }

    /// Drops the session's keys. The secret key is overwritten in memory.
    pub fn clear(&mut self)
        ensures
            final(self)@ is None,
    {
        self.keys = None;
    }

    /// A copy of the session's keys.
    pub fn get_keys(&self) -> (keys: Option<KeyMaterial>)
        ensures
            opt_keys(keys) == self@,
    {
        match &self.keys {
            Some(k) => Some(k.duplicate()),
            None => None,
        }
    }

    /// Whether the session holds keys.
    pub fn is_active(&self) -> (active: bool)
        ensures
            active == (self@ is Some),
    {
        self.keys.is_some()
    }
}

/// What a session command answers.
#[derive(Debug)]
pub struct SessionResponse {
    pub success: bool,
    pub npub: Option<String>,
    pub message: Option<String>,
}

/// Starts a session from a secret key: on success the answer carries the
/// public key in bech32 form, on failure the reason.
pub fn init_native_session(session: &mut SessionState, nsec: &str) -> (response: SessionResponse)
    ensures
        match set_keys_spec(nsec@) {
            Ok(keys) => final(session)@ == Some(keys) && response.success
                && crate::net::opt_text(response.npub) == Some(keys.npub)
                && response.message is None,
            Err(message) => final(session)@ == old(session)@ && !response.success
                && response.npub is None && crate::net::opt_text(response.message) == Some(
                message,
            ),
        },
{
    match derive_keys(nsec) {
        Ok(keys) => {
            let npub = keys.npub.clone();
            session.install(keys);
            SessionResponse { success: true, npub: Some(npub), message: None }
        },
        Err(message) => SessionResponse { success: false, npub: None, message: Some(message) },
    }
}

/// Ends the session.
pub fn clear_native_session(session: &mut SessionState)
    ensures
        final(session)@ is None,
{
    session.clear();
}

} // verus!
