use nostr::{JsonUtil, ToBech32};
use obscur_native::keys::{FreshKeys, SecretText};
use obscur_native::session::{clear_native_session, init_native_session, SessionState};
use obscur_native::wallet::{
    accept_envelope, accept_signed_event, adopt_generated_keys, decrypt_nip04, encrypt_nip04,
    ensure_session, event_id,
    generate_native_nsec, get_native_npub, get_session_nsec, hydrate_session, import_native_nsec,
    logout_native, logout_store_result, read_signed_event, sign_event_native, NativeSignRequest,
    NativeSignResponse, SecretStoreDelete, SecretStoreRead, APP_SERVICE, KEY_NAME,
};
use obscur_native::json::Json;

const SECRET_ONE: &str = "0000000000000000000000000000000000000000000000000000000000000001";
const PUBLIC_ONE: &str = "79be667ef9dcbbac55a06295ce870b07029bfcdb2dce28d959f2815b16f81798";
const SECRET_TWO: &str = "0000000000000000000000000000000000000000000000000000000000000002";
const PUBLIC_TWO: &str = "c6047f9441ed7d6d3045406e95c07cd85c778e4b8cef3ca7abac09b95c709ee5";

fn nsec_of(secret_hex: &str) -> String {
    nostr::SecretKey::from_hex(secret_hex).unwrap().to_bech32().unwrap()
}

fn npub_of(public_hex: &str) -> String {
    nostr::PublicKey::from_hex(public_hex).unwrap().to_bech32().unwrap()
}

fn session_of(secret: &str) -> SessionState {
    let mut session = SessionState::new();
    session.set_keys(secret).unwrap();
    session
}

fn strings(tags: &[&[&str]]) -> Vec<Vec<String>> {
    tags.iter().map(|t| t.iter().map(|s| s.to_string()).collect()).collect()
}

fn event_json(signed: &NativeSignResponse) -> String {
    let mut map = serde_json::Map::new();
    map.insert("id".to_string(), serde_json::Value::from(signed.id.clone()));
    map.insert("pubkey".to_string(), serde_json::Value::from(signed.pubkey.clone()));
    map.insert("created_at".to_string(), serde_json::Value::from(signed.created_at));
    map.insert("kind".to_string(), serde_json::Value::from(signed.kind));
    map.insert("tags".to_string(), serde_json::Value::from(signed.tags.clone()));
    map.insert("content".to_string(), serde_json::Value::from(signed.content.clone()));
    map.insert("sig".to_string(), serde_json::Value::from(signed.sig.clone()));
    serde_json::Value::Object(map).to_string()
}

#[test]
fn store_entry_names() {
    assert_eq!(APP_SERVICE, "app.obscur.desktop");
    assert_eq!(KEY_NAME, "nsec");
}

#[test]
fn set_keys_accepts_hex_and_nsec() {
    let mut session = SessionState::new();
    assert!(!session.is_active());
    assert_eq!(session.set_keys(SECRET_ONE).unwrap(), PUBLIC_ONE);
    assert!(session.is_active());
    assert_eq!(session.set_keys(&nsec_of(SECRET_TWO)).unwrap(), PUBLIC_TWO);
    let keys = session.get_keys().unwrap();
    assert_eq!(keys.public_hex, PUBLIC_TWO);
    assert_eq!(keys.npub, npub_of(PUBLIC_TWO));
    assert_eq!(keys.secret_hex.expose(), SECRET_TWO);
}

#[test]
fn set_keys_refuses_bad_input_and_keeps_the_session() {
    let mut session = session_of(SECRET_ONE);
    let e = session.set_keys("nsec1notakey").unwrap_err();
    assert!(e.starts_with("Invalid nsec: "), "{}", e);
    let e = session.set_keys("zz").unwrap_err();
    assert!(e.starts_with("Invalid hex key: "), "{}", e);
    let e = session.set_keys("").unwrap_err();
    assert!(e.starts_with("Invalid hex key: "), "{}", e);
    assert_eq!(session.get_keys().unwrap().public_hex, PUBLIC_ONE);
    session.clear();
    assert!(session.get_keys().is_none());
}

#[test]
fn init_session_answers_with_npub() {
    let mut session = SessionState::new();
    let response = init_native_session(&mut session, &nsec_of(SECRET_ONE));
    assert!(response.success);
    assert_eq!(response.npub, Some(npub_of(PUBLIC_ONE)));
    assert_eq!(response.message, None);
    let response = init_native_session(&mut session, "garbage");
    assert!(!response.success);
    assert_eq!(response.npub, None);
    assert!(response.message.unwrap().starts_with("Invalid hex key: "));
    assert!(session.is_active());
    clear_native_session(&mut session);
    assert!(!session.is_active());
}

#[test]
fn import_then_public_key_then_logout() {
    let mut session = SessionState::new();
    let nsec = nsec_of(SECRET_ONE);
    assert_eq!(import_native_nsec(&mut session, &nsec).unwrap(), PUBLIC_ONE);
    let keys = ensure_session(&session).expect("the session is populated");
    assert_eq!(get_native_npub(Ok(keys)), Some(PUBLIC_ONE.to_string()));

    logout_native(&mut session);
    assert!(logout_store_result(SecretStoreDelete::Deleted).is_ok());
    assert!(ensure_session(&session).is_none());
    let outcome = hydrate_session(&mut session, SecretStoreRead::NoEntry);
    assert_eq!(
        outcome.as_ref().err().map(|m| m.as_str()),
        Some("No active native session and no key in keychain")
    );
    assert_eq!(get_native_npub(outcome), None);
}

#[test]
fn import_refuses_what_is_no_key() {
    let mut session = SessionState::new();
    assert!(import_native_nsec(&mut session, "hello").is_err());
    assert!(!session.is_active());
    assert_eq!(import_native_nsec(&mut session, SECRET_TWO).unwrap(), PUBLIC_TWO);
}

#[test]
fn logout_tolerates_a_missing_entry() {
    assert!(logout_store_result(SecretStoreDelete::NoEntry).is_ok());
    assert_eq!(
        logout_store_result(SecretStoreDelete::Failed("locked".to_string())).unwrap_err(),
        "locked"
    );
}

#[test]
fn cold_start_hydrates_the_session_once() {
    let mut session = SessionState::new();
    assert!(ensure_session(&session).is_none());
    let keys = hydrate_session(&mut session, SecretStoreRead::Found(nsec_of(SECRET_ONE)));
    assert_eq!(get_native_npub(keys), Some(PUBLIC_ONE.to_string()));
    let keys = ensure_session(&session).expect("no second read of the store");
    let request = NativeSignRequest {
        kind: 1,
        content: "hello".to_string(),
        tags: Vec::new(),
        created_at: 1_700_000_000,
    };
    assert_eq!(sign_event_native(&keys, &request).unwrap().pubkey, PUBLIC_ONE);
}

#[test]
fn hydration_keeps_a_populated_session_and_reports_store_failures() {
    let mut session = session_of(SECRET_ONE);
    let keys = hydrate_session(&mut session, SecretStoreRead::Found(nsec_of(SECRET_TWO))).unwrap();
    assert_eq!(keys.public_hex, PUBLIC_ONE);

    let mut session = SessionState::new();
    let e = hydrate_session(&mut session, SecretStoreRead::Failed("locked".to_string()));
    assert_eq!(e.err().map(|m| m), Some("locked".to_string()));
    let e = hydrate_session(&mut session, SecretStoreRead::Found("junk".to_string()));
    assert!(e.err().unwrap().starts_with("Failed to hydrate session from keychain: Invalid hex key: "));
    assert!(!session.is_active());
}

#[test]
fn generate_fills_the_session() {
    let mut session = SessionState::new();
    let generated = generate_native_nsec(&mut session).unwrap();
    assert!(generated.nsec.expose().starts_with("nsec1"));
    assert!(generated.npub.starts_with("npub1"));
    let keys = session.get_keys().unwrap();
    assert_eq!(keys.npub, generated.npub);
    let derived = nostr::Keys::parse(generated.nsec.expose()).unwrap();
    assert_eq!(derived.public_key().to_hex(), keys.public_hex);
    let mut other = SessionState::new();
    let second = generate_native_nsec(&mut other).unwrap();
    assert_ne!(second.npub, generated.npub);
}

#[test]
fn adopting_a_generated_key() {
    let mut session = session_of(SECRET_ONE);
    let fresh = FreshKeys {
        keys: session_of(SECRET_TWO).get_keys().unwrap(),
        nsec: SecretText::new(nsec_of(SECRET_TWO)),
    };
    let generated = adopt_generated_keys(&mut session, fresh);
    assert_eq!(generated.npub, npub_of(PUBLIC_TWO));
    assert_eq!(generated.nsec.expose(), nsec_of(SECRET_TWO));
    let keys = session.get_keys().unwrap();
    assert_eq!(keys.public_hex, PUBLIC_TWO);
    assert_eq!(keys.secret_hex.expose(), SECRET_TWO);
}

#[test]
fn generate_replaces_the_session_and_stored_secret_gives_the_same_keys() {
    let mut session = session_of(SECRET_ONE);
    let generated = generate_native_nsec(&mut session).unwrap();
    let keys = session.get_keys().unwrap();
    assert_ne!(keys.public_hex, PUBLIC_ONE);
    assert_eq!(keys.npub, generated.npub);
    let mut cold = SessionState::new();
    let hydrated = hydrate_session(
        &mut cold,
        SecretStoreRead::Found(generated.nsec.expose().to_string()),
    )
    .unwrap();
    assert_eq!(hydrated.public_hex, keys.public_hex);
    assert_eq!(hydrated.secret_hex.expose(), keys.secret_hex.expose());
    assert_eq!(hydrated.npub, generated.npub);
}

#[test]
fn session_secret_in_hex() {
    let keys = session_of(&nsec_of(SECRET_TWO)).get_keys().unwrap();
    assert_eq!(get_session_nsec(&keys).expose(), SECRET_TWO);
    assert_eq!(keys.duplicate().secret_hex.duplicate().expose(), SECRET_TWO);
}

#[test]
fn signed_event_verifies_and_echoes_the_request() {
    let keys = session_of(SECRET_ONE).get_keys().unwrap();
    let request = NativeSignRequest {
        kind: 1,
        content: "hello \"nostr\"\n".to_string(),
        tags: strings(&[&["e", "abc"], &["t", "x", "y"], &["custom"]]),
        created_at: 1_700_000_001,
    };
    let signed = sign_event_native(&keys, &request).unwrap();
    assert_eq!(signed.pubkey, PUBLIC_ONE);
    assert_eq!(signed.created_at, 1_700_000_001);
    assert_eq!(signed.kind, 1);
    assert_eq!(signed.content, "hello \"nostr\"\n");
    assert_eq!(signed.tags, request.tags);
    assert_eq!(signed.id.len(), 64);
    assert_eq!(signed.sig.len(), 128);
    let event = nostr::Event::from_json(event_json(&signed)).unwrap();
    assert!(event.verify().is_ok());
}

#[test]
fn kind_has_to_fit_sixteen_bits() {
    let keys = session_of(SECRET_ONE).get_keys().unwrap();
    let request = |kind: u64| NativeSignRequest {
        kind,
        content: String::new(),
        tags: Vec::new(),
        created_at: 0,
    };
    assert_eq!(sign_event_native(&keys, &request(65535)).unwrap().kind, 65535);
    assert_eq!(sign_event_native(&keys, &request(0)).unwrap().kind, 0);
    assert_eq!(
        sign_event_native(&keys, &request(65536)).unwrap_err(),
        "Event kind out of range"
    );
    assert_eq!(
        sign_event_native(&keys, &request(65536 + 27235)).unwrap_err(),
        "Event kind out of range"
    );
}

#[test]
fn empty_tag_is_refused_without_a_crash() {
    let keys = session_of(SECRET_ONE).get_keys().unwrap();
    let request = NativeSignRequest {
        kind: 1,
        content: "x".to_string(),
        tags: vec![vec!["t".to_string()], Vec::new()],
        created_at: 5,
    };
    assert_eq!(sign_event_native(&keys, &request).unwrap_err(), "Event tag without a name");
    let request = NativeSignRequest {
        kind: 70000,
        content: "x".to_string(),
        tags: vec![Vec::new()],
        created_at: 5,
    };
    assert_eq!(sign_event_native(&keys, &request).unwrap_err(), "Event kind out of range");
}

#[test]
fn own_p_tags_are_kept() {
    let keys = session_of(SECRET_ONE).get_keys().unwrap();
    let tags = strings(&[
        &["p", PUBLIC_ONE],
        &["p", PUBLIC_TWO],
        &["P", PUBLIC_ONE],
        &["p"],
        &["p", PUBLIC_ONE],
    ]);
    let request =
        NativeSignRequest { kind: 1, content: String::new(), tags: tags.clone(), created_at: 5 };
    let signed = sign_event_native(&keys, &request).unwrap();
    assert_eq!(signed.tags, tags);
    let event = nostr::Event::from_json(event_json(&signed)).unwrap();
    assert!(event.verify().is_ok());
    let only_self = NativeSignRequest {
        kind: 1,
        content: String::new(),
        tags: strings(&[&["p", PUBLIC_ONE]]),
        created_at: 5,
    };
    assert_eq!(sign_event_native(&keys, &only_self).unwrap().tags, strings(&[&["p", PUBLIC_ONE]]));
}

#[test]
fn reading_back_refuses_an_event_that_differs() {
    let tags = strings(&[&["t", "x"]]);
    let id = event_id("pk", 7, 1, &tags, "c");
    let text = format!(
        r#"{{"id":"{}","pubkey":"pk","created_at":7,"kind":1,"tags":[["t","x"]],"content":"c","sig":"s"}}"#,
        id
    );
    let event = Json::parse(&text).unwrap();
    let ok = read_signed_event(&event, "pk", 1, "c", strings(&[&["t", "x"]]), 7).unwrap();
    assert_eq!((ok.id.as_str(), ok.sig.as_str()), (id.as_str(), "s"));
    assert!(read_signed_event(&event, "other", 1, "c", strings(&[&["t", "x"]]), 7).is_none());
    assert!(read_signed_event(&event, "pk", 2, "c", strings(&[&["t", "x"]]), 7).is_none());
    assert!(read_signed_event(&event, "pk", 1, "d", strings(&[&["t", "x"]]), 7).is_none());
    assert!(read_signed_event(&event, "pk", 1, "c", strings(&[&["t"]]), 7).is_none());
    assert!(read_signed_event(&event, "pk", 1, "c", strings(&[&["t", "x"], &["u"]]), 7).is_none());
    assert!(read_signed_event(&event, "pk", 1, "c", strings(&[&["t", "x"]]), 8).is_none());
    let no_sig = text.replace(r#","sig":"s""#, "");
    let no_sig = Json::parse(&no_sig).unwrap();
    assert!(read_signed_event(&no_sig, "pk", 1, "c", strings(&[&["t", "x"]]), 7).is_none());
    let wrong_id = text.replace(&id, "00");
    let wrong_id = Json::parse(&wrong_id).unwrap();
    assert!(read_signed_event(&wrong_id, "pk", 1, "c", strings(&[&["t", "x"]]), 7).is_none());
}

#[test]
fn event_id_is_the_canonical_hash() {
    let tags = strings(&[&["e", "ab"], &["t", "quo\"te\n"], &["solo"]]);
    let content = "line one\nline \"two\" \u{1} é";
    let ours = event_id(PUBLIC_ONE, 1_700_000_000, 30023, &tags, content);
    let theirs = nostr::EventId::new(
        &nostr::PublicKey::from_hex(PUBLIC_ONE).unwrap(),
        &nostr::Timestamp::from(1_700_000_000),
        &nostr::Kind::from(30023),
        &nostr::Tags::from_list(
            tags.iter().map(|t| nostr::Tag::parse(t.clone()).unwrap()).collect(),
        ),
        content,
    );
    assert_eq!(ours, theirs.to_hex());
    // sha256 of `[0,"",0,0,[],""]`
    assert_eq!(
        event_id("", 0, 0, &Vec::new(), ""),
        "ae5164a4ff06ca0f58560c4d355248de1491f6cb1815ed12840167d0005b3ca5"
    );
}

#[test]
fn nip04_round_trip_between_two_peers() {
    let alice = session_of(SECRET_ONE).get_keys().unwrap();
    let bob = session_of(SECRET_TWO).get_keys().unwrap();
    let message = "meet at noon — bring the keys";
    let envelope = encrypt_nip04(&alice, PUBLIC_TWO, message).unwrap();
    assert_ne!(envelope, message);
    assert!(envelope.contains("?iv="));
    assert_eq!(decrypt_nip04(&bob, PUBLIC_ONE, &envelope).unwrap(), message);
    assert_eq!(decrypt_nip04(&alice, PUBLIC_TWO, &envelope).unwrap(), message);
    let again = encrypt_nip04(&alice, &npub_of(PUBLIC_TWO), message).unwrap();
    assert_ne!(again, envelope);
    assert_eq!(decrypt_nip04(&bob, &npub_of(PUBLIC_ONE), &again).unwrap(), message);
}

#[test]
fn envelope_is_accepted_only_if_it_opens_to_the_input() {
    let alice = session_of(SECRET_ONE).get_keys().unwrap();
    let envelope = encrypt_nip04(&alice, PUBLIC_TWO, "m").unwrap();
    let ok = accept_envelope(Ok(envelope.clone()), &alice, PUBLIC_TWO, "m");
    assert_eq!(ok, Ok(envelope.clone()));
    let other = accept_envelope(Ok(envelope.clone()), &alice, PUBLIC_TWO, "x");
    assert_eq!(other, Err("Encrypted content does not decrypt to the input".to_string()));
    let failed = accept_envelope(Err("no entropy".to_string()), &alice, PUBLIC_TWO, "m");
    assert_eq!(failed, Err("no entropy".to_string()));
    let unreadable = accept_envelope(Ok("no separator".to_string()), &alice, PUBLIC_TWO, "m");
    assert!(unreadable.is_err());
    assert_ne!(unreadable, Ok("no separator".to_string()));
}

#[test]
fn signing_outcome_is_read_back() {
    let tags = strings(&[&["t", "x"]]);
    let id = event_id("pk", 7, 1, &tags, "c");
    let text = format!(
        r#"{{"id":"{}","pubkey":"pk","created_at":7,"kind":1,"tags":[["t","x"]],"content":"c","sig":"s"}}"#,
        id
    );
    let answer = accept_signed_event(Ok(text.clone()), "pk", 1, "c", tags.clone(), 7).unwrap();
    assert_eq!(answer.id, id);
    assert_eq!(answer.sig, "s");
    assert_eq!(answer.pubkey, "pk");
    assert_eq!(answer.kind, 1);
    assert_eq!(answer.created_at, 7);
    assert_eq!(answer.content, "c");
    assert_eq!(answer.tags, tags);

    let e = accept_signed_event(Err("no key".to_string()), "pk", 1, "c", tags.clone(), 7);
    assert_eq!(e.unwrap_err(), "no key");
    let e = accept_signed_event(Ok("{".to_string()), "pk", 1, "c", tags.clone(), 7);
    assert_eq!(e.unwrap_err(), "EOF while parsing an object at line 1 column 1");
    let e = accept_signed_event(Ok(text), "pk", 1, "other", tags, 7);
    assert_eq!(e.unwrap_err(), "Signed event does not match the request");
}

#[test]
fn nip04_refuses_bad_input() {
    let alice = session_of(SECRET_ONE).get_keys().unwrap();
    assert!(encrypt_nip04(&alice, "not a key", "x").is_err());
    assert!(decrypt_nip04(&alice, "not a key", "x?iv=y").is_err());
    assert!(decrypt_nip04(&alice, PUBLIC_TWO, "no separator").is_err());
}
