//! Key material and the cryptography that the `nostr` crate does for the
//! backend: deriving keys, signing, NIP-04, hashing and Base64.
//!
//! Everything here is a thin contract around one outside call. The rules of
//! the backend that use these calls live in the session, wallet and upload
//! modules.

use vstd::prelude::*;

verus! {

/// Secret text in a `zeroize::Zeroizing<String>`: the memory is overwritten
/// when the value is dropped. Verus sees nothing of the container but the
/// characters that [`secret_chars`] names.
#[verifier::external_body]
pub struct SecretText {
    inner: zeroize::Zeroizing<String>,
}

/// The characters that a [`SecretText`] holds.
pub uninterp spec fn secret_chars(secret: SecretText) -> Seq<char>;

impl View for SecretText {
    type V = Seq<char>;

    open spec fn view(&self) -> Seq<char> {
        secret_chars(*self)
    }
}

/// Moves `text` into a `zeroize::Zeroizing` with `Zeroizing::new`, which keeps
/// the value as it is.
#[verifier::external_body]
fn secret_new(text: String) -> (secret: SecretText)
    ensures
        secret_chars(secret) == text@,
{
    SecretText { inner: zeroize::Zeroizing::new(text) }
}

/// Reads the text through `Zeroizing`'s `Deref`.
#[verifier::external_body]
fn secret_read(secret: &SecretText) -> (text: &str)
    ensures
        text@ == secret_chars(*secret),
{
    secret.inner.as_str()
}

/// Copies the container with `Zeroizing`'s `Clone`, which clones the value
/// into a new zeroizing container.
#[verifier::external_body]
fn secret_copy(secret: &SecretText) -> (copy: SecretText)
    ensures
        secret_chars(copy) == secret_chars(*secret),
{
    SecretText { inner: secret.inner.clone() }
}

impl SecretText {
    /// Wraps `text`.
    pub fn new(text: String) -> (secret: SecretText)
        ensures
            secret@ == text@,
    {
        secret_new(text)
    }

    /// The secret text itself.
    pub fn expose(&self) -> (text: &str)
        ensures
            text@ == self@,
    {
        secret_read(self)
    }

    /// A second zeroizing container with the same text.
    pub fn duplicate(&self) -> (copy: SecretText)
        ensures
            copy@ == self@,
    {
        secret_copy(self)
    }
}

/// A key pair in the forms that the backend hands out.
pub struct KeyMaterial {
    /// The secret key as 64 hexadecimal characters.
    pub secret_hex: SecretText,
    /// The public key as 64 hexadecimal characters.
    pub public_hex: String,
    /// The public key in bech32 form (`npub1...`).
    pub npub: String,
}

pub struct KeyMaterialView {
    pub secret_hex: Seq<char>,
    pub public_hex: Seq<char>,
    pub npub: Seq<char>,
}

impl View for KeyMaterial {
    type V = KeyMaterialView;

    open spec fn view(&self) -> KeyMaterialView {
        KeyMaterialView {
            secret_hex: self.secret_hex@,
            public_hex: self.public_hex@,
            npub: self.npub@,
        }
    }
}

impl KeyMaterial {
    /// A second copy of the key pair.
    pub fn duplicate(&self) -> (copy: KeyMaterial)
        ensures
            copy@ == self@,
    {
        KeyMaterial {
            secret_hex: self.secret_hex.duplicate(),
            public_hex: self.public_hex.clone(),
            npub: self.npub.clone(),
        }
    }
}

/// The view of a key derivation's outcome.
pub open spec fn keys_view(r: Result<KeyMaterial, String>) -> Result<KeyMaterialView, Seq<char>> {
    match r {
        Ok(keys) => Ok(keys@),
        Err(message) => Err(message@),
    }
}

/// What `nostr::Keys::parse` makes of `text`, a secret key in hexadecimal or
/// bech32 form: the key pair that it derives, or the message of its error.
pub uninterp spec fn keys_parse_result(text: Seq<char>) -> Result<KeyMaterialView, Seq<char>>;

/// What `nostr::SecretKey::from_hex` makes of `text`, with the key pair that
/// `nostr::Keys::new` derives from the secret key, or the message of the
/// error.
pub uninterp spec fn secret_hex_result(text: Seq<char>) -> Result<KeyMaterialView, Seq<char>>;

/// The text of a NIP-04 envelope as `nostr::nips::nip04::decrypt` recovers it
/// with the secret key `secret_hex` and the peer's public key `peer`, or the
/// message of the error; a `peer` that `nostr::PublicKey::parse` refuses
/// gives that error's message.
pub uninterp spec fn nip04_decrypt_result(
    secret_hex: Seq<char>,
    peer: Seq<char>,
    ciphertext: Seq<char>,
) -> Result<Seq<char>, Seq<char>>;

/// The SHA-256 hash of `bytes` as `bitcoin_hashes` prints it: 64 lower-case
/// hexadecimal characters.
pub uninterp spec fn sha256_hex_of(bytes: Seq<u8>) -> Seq<char>;

/// The standard Base64 encoding of `bytes`, with padding.
pub uninterp spec fn base64_standard(bytes: Seq<u8>) -> Seq<char>;

/// Calls `nostr::Keys::parse` on `text`. An `Ok` holds the secret key from
/// `to_secret_hex` and the public key from `to_hex` and `to_bech32`; an `Err`
/// holds the message of the error. The contract only names the outcome.
#[verifier::external_body]
pub(crate) fn keys_parse(text: &str) -> (r: Result<KeyMaterial, String>)
    ensures
        keys_view(r) == keys_parse_result(text@),
{
    match nostr::Keys::parse(text) {
        Ok(keys) => Ok(
            KeyMaterial {
                secret_hex: SecretText {
                    inner: zeroize::Zeroizing::new(keys.secret_key().to_secret_hex()),
                },
                public_hex: keys.public_key().to_hex(),
                npub: nostr::ToBech32::to_bech32(&keys.public_key()).unwrap(),
            },
        ),
        Err(error) => Err(error.to_string()),
    }
}

/// Calls `nostr::SecretKey::from_hex` on `text` and derives the key pair with
/// `nostr::Keys::new`. The outcome is laid out as in `keys_parse`. The
/// contract only names the outcome.
#[verifier::external_body]
pub(crate) fn keys_from_hex(text: &str) -> (r: Result<KeyMaterial, String>)
    ensures
        keys_view(r) == secret_hex_result(text@),
{
    match nostr::SecretKey::from_hex(text).map(nostr::Keys::new) {
        Ok(keys) => Ok(
            KeyMaterial {
                secret_hex: SecretText {
                    inner: zeroize::Zeroizing::new(keys.secret_key().to_secret_hex()),
                },
                public_hex: keys.public_key().to_hex(),
                npub: nostr::ToBech32::to_bech32(&keys.public_key()).unwrap(),
            },
        ),
        Err(error) => Err(error.to_string()),
    }
}

/// A key pair as it comes from the generator, with its secret key in the
/// form that goes to the secret store.
pub struct FreshKeys {
    pub keys: KeyMaterial,
    /// The secret key in bech32 form (`nsec1...`).
    pub nsec: SecretText,
}

/// Calls `nostr::Keys::generate`, which draws a secret key from the operating
/// system's random source. The result holds the secret key from
/// `to_secret_hex` and `to_bech32` and the public key from `to_hex` and
/// `to_bech32`. Nothing is promised of which key it is. What the contract
/// claims holds of every key: the bech32 form of a secret key begins with
/// its prefix `nsec`, and `nostr::Keys::parse` reads the key pair back from
/// it.
#[verifier::external_body]
pub(crate) fn generate_keys() -> (fresh: FreshKeys)
    ensures
        "nsec"@.is_prefix_of(fresh.nsec@),
        keys_parse_result(fresh.nsec@) == Ok::<KeyMaterialView, Seq<char>>(fresh.keys@),
{
    let keys = nostr::Keys::generate();
    let secret = keys.secret_key();
    FreshKeys {
        nsec: SecretText {
            inner: zeroize::Zeroizing::new(nostr::ToBech32::to_bech32(secret).unwrap()),
        },
        keys: KeyMaterial {
            secret_hex: SecretText { inner: zeroize::Zeroizing::new(secret.to_secret_hex()) },
            public_hex: keys.public_key().to_hex(),
            npub: nostr::ToBech32::to_bech32(&keys.public_key()).unwrap(),
        },
    }
}

/// Builds an event with `nostr::EventBuilder` (`new`, `tags`,
/// `allow_self_tagging`, `custom_created_at`) and signs it with `sign_with_keys` under the key
/// pair that `nostr::Keys::parse` derives from `secret`. The result is the
/// signed event as `as_json` prints it, or the message of the error. The
/// signature uses fresh randomness, so nothing is promised of the result: the
/// callers read the event back and check it.
///
/// `nostr::Tag::parse` refuses an empty tag, and no tag name can be taken
/// from one: the tags have to be non-empty.
#[verifier::external_body]
pub(crate) fn sign_event_json(
    secret: &str,
    kind: u16,
    content: &str,
    tags: &Vec<Vec<String>>,
    created_at: u64,
) -> (r: Result<String, String>)
    requires
        forall|i: int| 0 <= i < tags@.len() ==> (#[trigger] tags@[i])@.len() > 0,
{
    let keys = nostr::Keys::parse(secret).map_err(|e| e.to_string())?;
    let tags = tags.iter().map(|t| nostr::Tag::parse(t.clone()).unwrap());
    nostr::EventBuilder::new(nostr::Kind::from(kind), content)
        .tags(tags)
        .allow_self_tagging()
        .custom_created_at(nostr::Timestamp::from(created_at))
        .sign_with_keys(&keys)
        .map(|event| nostr::JsonUtil::as_json(&event))
        .map_err(|e| e.to_string())
}

/// Calls `nostr::nips::nip04::encrypt` with the secret key that
/// `nostr::SecretKey::parse` reads from `secret` and the public key that
/// `nostr::PublicKey::parse` reads from `peer`. An `Err` holds the message of
/// whichever call failed. The envelope holds a random initialisation vector,
/// so nothing is promised of the result.
#[verifier::external_body]
pub(crate) fn nip04_encrypt(secret: &str, peer: &str, content: &str) -> (r: Result<String, String>) {
    let peer = nostr::PublicKey::parse(peer).map_err(|e| e.to_string())?;
    let secret = nostr::SecretKey::parse(secret).map_err(|e| e.to_string())?;
    nostr::nips::nip04::encrypt(&secret, &peer, content).map_err(|e| e.to_string())
}

/// Calls `nostr::nips::nip04::decrypt` with the keys read as in
/// `nip04_encrypt`. The contract only names the outcome.
#[verifier::external_body]
pub(crate) fn nip04_decrypt(secret: &str, peer: &str, ciphertext: &str) -> (r: Result<
    String,
    String,
>)
    ensures
        match r {
            Ok(text) => nip04_decrypt_result(secret@, peer@, ciphertext@) == Ok::<
                Seq<char>,
                Seq<char>,
            >(text@),
            Err(message) => nip04_decrypt_result(secret@, peer@, ciphertext@) == Err::<
                Seq<char>,
                Seq<char>,
            >(message@),
        },
{
    let peer = nostr::PublicKey::parse(peer).map_err(|e| e.to_string())?;
    let secret = nostr::SecretKey::parse(secret).map_err(|e| e.to_string())?;
    nostr::nips::nip04::decrypt(&secret, &peer, ciphertext).map_err(|e| e.to_string())
}

/// Hashes `bytes` with `nostr::hashes::sha256::Hash::hash` and prints the hash
/// with its `Display`. The contract only names the result.
#[verifier::external_body]
pub(crate) fn sha256_hex(bytes: &[u8]) -> (hex: String)
    ensures
        hex@ == sha256_hex_of(bytes@),
{
    <nostr::hashes::sha256::Hash as nostr::hashes::Hash>::hash(bytes).to_string()
}

/// Encodes `bytes` with `base64::engine::general_purpose::STANDARD`. The
/// contract only names the result.
#[verifier::external_body]
pub(crate) fn base64_encode(bytes: &[u8]) -> (text: String)
    ensures
        text@ == base64_standard(bytes@),
{
    base64::Engine::encode(&base64::engine::general_purpose::STANDARD, bytes)
}

} // verus!
