use base64::Engine;
use nostr::JsonUtil;
use obscur_native::json::Json;
use obscur_native::session::SessionState;
use obscur_native::upload::{
    accept_authorization, extract_url_from_response, generate_nip98_auth, judge_upload_reply, nip96_upload,
    nip96_upload_v2, nip98_header, nip98_tags, upload_field_name, upload_reply_received,
    HttpReply, HttpResponse, NativeError, UploadNext, UploadRequest, UploadResponse, UploadStart,
};

const SECRET_ONE: &str = "0000000000000000000000000000000000000000000000000000000000000001";
const PUBLIC_ONE: &str = "79be667ef9dcbbac55a06295ce870b07029bfcdb2dce28d959f2815b16f81798";
const SHA256_ABC: &str = "ba7816bf8f01cfea414140de5dae2223b00361a396177a9cb410ff61f20015ad";
const API: &str = "https://media.example/api/v2/nip96/upload";

fn session() -> SessionState {
    let mut session = SessionState::new();
    session.set_keys(SECRET_ONE).unwrap();
    session
}

fn request(attempt: usize, field_name: &str) -> UploadRequest {
    UploadRequest {
        attempt,
        field_name: field_name.to_string(),
        authorization: "Nostr abc".to_string(),
    }
}

fn response(status: u16, status_line: &str, location: Option<&str>, body: &str) -> HttpReply {
    HttpReply::Response(HttpResponse {
        status,
        status_line: status_line.to_string(),
        location: location.map(|l| l.to_string()),
        body: body.to_string(),
    })
}

fn done(next: UploadNext) -> UploadResponse {
    match next {
        UploadNext::Done(response) => response,
        other => panic!("expected the end, got {:?}", other),
    }
}

fn extract(text: &str) -> Option<String> {
    extract_url_from_response(&Json::parse(text).unwrap())
}

#[test]
fn zero_bytes_are_refused_without_a_request() {
    for session in [SessionState::new(), session()] {
        match nip96_upload_v2(&session, API, &[], 1_700_000_000) {
            UploadStart::Done(response) => {
                assert_eq!(response.status, "error");
                assert_eq!(response.url, None);
                assert_eq!(response.message, Some("Empty file bytes".to_string()));
                assert!(response.nip94_event.is_none());
            }
            other => panic!("unexpected {:?}", other),
        }
    }
}

#[test]
fn upload_needs_a_session() {
    match nip96_upload_v2(&SessionState::new(), API, b"abc", 1_700_000_000) {
        UploadStart::Failed(NativeError { code, message }) => {
            assert_eq!(code, "NO_SESSION");
            assert_eq!(message, "Native session is not initialized. Please unlock the app.");
        }
        other => panic!("unexpected {:?}", other),
    }
}

#[test]
fn upload_is_authorized_by_a_signed_event() {
    let now: u64 = 1_700_000_000;
    let request = match nip96_upload_v2(&session(), API, b"abc", now) {
        UploadStart::Send(request) => request,
        other => panic!("unexpected {:?}", other),
    };
    assert_eq!(request.attempt, 0);
    assert_eq!(request.field_name, "file");
    let encoded = request.authorization.strip_prefix("Nostr ").expect("the scheme comes first");
    let bytes = base64::engine::general_purpose::STANDARD.decode(encoded).unwrap();
    let json = String::from_utf8(bytes).unwrap();
    let event = nostr::Event::from_json(&json).unwrap();
    assert!(event.verify().is_ok());
    assert_eq!(event.kind.as_u16(), 27235);
    assert_eq!(event.content, "");
    assert_eq!(event.pubkey.to_hex(), PUBLIC_ONE);
    assert_eq!(event.created_at.as_u64(), now);
    let tags: Vec<Vec<String>> = event.tags.iter().map(|t| t.clone().to_vec()).collect();
    assert_eq!(
        tags,
        vec![
            vec!["u".to_string(), API.to_string()],
            vec!["method".to_string(), "POST".to_string()],
            vec!["payload".to_string(), SHA256_ABC.to_string()],
            vec!["expiration".to_string(), "1700000120".to_string()],
        ]
    );
}

#[test]
fn authorization_header_and_tags() {
    assert_eq!(nip98_header("{}"), "Nostr e30=");
    assert_eq!(nip98_header("abc"), "Nostr YWJj");
    assert_eq!(
        nip98_tags("https://x/u", "00ff", 125),
        vec![
            vec!["u".to_string(), "https://x/u".to_string()],
            vec!["method".to_string(), "POST".to_string()],
            vec!["payload".to_string(), "00ff".to_string()],
            vec!["expiration".to_string(), "125".to_string()],
        ]
    );
}

#[test]
fn authorization_is_given_for_a_fitting_event_only() {
    let tags = nip98_tags(API, SHA256_ABC, 1_700_000_120);
    let id = obscur_native::wallet::event_id(PUBLIC_ONE, 1_700_000_000, 27235, &tags, "");
    let text = format!(
        r#"{{"id":"{}","pubkey":"{}","created_at":1700000000,"kind":27235,"tags":[["u","{}"],["method","POST"],["payload","{}"],["expiration","1700000120"]],"content":"","sig":"ff"}}"#,
        id, PUBLIC_ONE, API, SHA256_ABC
    );
    let header =
        accept_authorization(Ok(text.clone()), PUBLIC_ONE, tags.clone(), 1_700_000_000).unwrap();
    assert_eq!(
        header,
        format!("Nostr {}", base64::engine::general_purpose::STANDARD.encode(text.as_bytes()))
    );
    assert_eq!(accept_authorization(Ok(text.clone()), PUBLIC_ONE, tags.clone(), 1), None);
    assert_eq!(
        accept_authorization(Ok(text.clone()), "someone else", tags.clone(), 1_700_000_000),
        None
    );
    assert_eq!(
        accept_authorization(Ok(text), PUBLIC_ONE, nip98_tags(API, "00", 1_700_000_120), 1_700_000_000),
        None
    );
    assert_eq!(
        accept_authorization(Ok("junk".to_string()), PUBLIC_ONE, tags.clone(), 1_700_000_000),
        None
    );
    assert_eq!(
        accept_authorization(Err("no key".to_string()), PUBLIC_ONE, tags, 1_700_000_000),
        None
    );
}

#[test]
fn authorization_fails_at_the_end_of_time() {
    let keys = session().get_keys().unwrap();
    assert_eq!(generate_nip98_auth(API, b"abc", &keys, u64::MAX - 119), None);
    assert!(generate_nip98_auth(API, b"abc", &keys, 1_700_000_000).is_some());
}

#[test]
fn field_names_in_order() {
    assert_eq!(upload_field_name(0), Some("file"));
    assert_eq!(upload_field_name(1), Some("files[]"));
    assert_eq!(upload_field_name(2), Some("files"));
    assert_eq!(upload_field_name(3), None);
    assert_eq!(upload_field_name(usize::MAX), None);
}

#[test]
fn no_files_answer_walks_through_field_names() {
    let reply = || response(400, "400 Bad Request", None, "No files provided");
    let second = match upload_reply_received(&request(0, "file"), reply()) {
        UploadNext::Retry(again) => again,
        other => panic!("unexpected {:?}", other),
    };
    assert_eq!(second.attempt, 1);
    assert_eq!(second.field_name, "files[]");
    assert_eq!(second.authorization, "Nostr abc");
    let third = match upload_reply_received(&second, reply()) {
        UploadNext::Retry(again) => again,
        other => panic!("unexpected {:?}", other),
    };
    assert_eq!(third.attempt, 2);
    assert_eq!(third.field_name, "files");
    let last = done(upload_reply_received(&third, reply()));
    assert_eq!(last.status, "error");
    assert_eq!(
        last.message,
        Some("All attempts failed. Last error: HTTP 400 Bad Request: No files provided".to_string())
    );
}

#[test]
fn other_failures_end_the_upload_at_once() {
    let r = done(upload_reply_received(
        &request(0, "file"),
        response(400, "400 Bad Request", None, "bad signature"),
    ));
    assert_eq!(
        r.message,
        Some("All attempts failed. Last error: HTTP 400 Bad Request: bad signature".to_string())
    );
    let r = done(upload_reply_received(
        &request(0, "file"),
        response(500, "500 Internal Server Error", None, "no files"),
    ));
    assert_eq!(
        r.message,
        Some("All attempts failed. Last error: HTTP 500 Internal Server Error: no files".to_string())
    );
    let r = done(upload_reply_received(
        &request(1, "files[]"),
        HttpReply::Failed("connection reset".to_string()),
    ));
    assert_eq!(r.status, "error");
    assert_eq!(
        r.message,
        Some("All attempts failed. Last error: Network Error: connection reset".to_string())
    );
}

#[test]
fn redirect_is_an_error_that_names_the_location() {
    let r = done(upload_reply_received(
        &request(0, "file"),
        response(302, "302 Found", Some("https://other.example/upload"), "No files"),
    ));
    assert_eq!(r.status, "error");
    assert_eq!(r.url, None);
    assert_eq!(
        r.message,
        Some(
            "All attempts failed. Last error: HTTP 302 Found: redirect to \
             https://other.example/upload was not followed"
                .to_string()
        )
    );
    let r = done(upload_reply_received(
        &request(0, "file"),
        response(307, "307 Temporary Redirect", None, ""),
    ));
    assert_eq!(
        r.message,
        Some(
            "All attempts failed. Last error: HTTP 307 Temporary Redirect: redirect without \
             Location was not followed"
                .to_string()
        )
    );
}

#[test]
fn successful_upload_returns_the_tagged_url() {
    let body = r#"{"status":"success","nip94_event":{"tags":[["url","https://cdn.example/x.jpg"],["m","image/jpeg"]],"content":""}}"#;
    let r = done(upload_reply_received(&request(0, "file"), response(200, "200 OK", None, body)));
    assert_eq!(r.status, "success");
    assert_eq!(r.url, Some("https://cdn.example/x.jpg".to_string()));
    assert_eq!(r.message, None);
    let event = r.nip94_event.expect("the event is handed on");
    assert_eq!(event.get_str("content"), Some(""));
    assert_eq!(event.get("tags").unwrap().as_array().unwrap().len(), 2);
}

#[test]
fn successful_upload_without_url() {
    let r = done(upload_reply_received(
        &request(0, "file"),
        response(201, "201 Created", None, r#"{"ok":true}"#),
    ));
    assert_eq!(r.status, "success");
    assert_eq!(r.url, None);
    assert_eq!(r.message, Some("No URL in response".to_string()));
    assert!(r.nip94_event.is_none());
}

#[test]
fn server_error_inside_a_successful_answer() {
    let r = done(upload_reply_received(
        &request(0, "file"),
        response(200, "200 OK", None, r#"{"status":"error","message":"quota exceeded"}"#),
    ));
    assert_eq!(r.status, "error");
    assert_eq!(
        r.message,
        Some("All attempts failed. Last error: API Error: quota exceeded".to_string())
    );
    let r = done(upload_reply_received(
        &request(0, "file"),
        response(200, "200 OK", None, r#"{"status":"error","url":"https://x"}"#),
    ));
    assert_eq!(
        r.message,
        Some("All attempts failed. Last error: API Error: Unknown API error".to_string())
    );
}

#[test]
fn unreadable_answer() {
    let r = done(upload_reply_received(
        &request(0, "file"),
        response(200, "200 OK", None, "<html>"),
    ));
    assert_eq!(r.status, "error");
    assert_eq!(
        r.message,
        Some(
            "All attempts failed. Last error: JSON Parse Error: expected value at line 1 column 1"
                .to_string()
        )
    );
}

#[test]
fn judge_takes_the_parse_as_given() {
    let parsed = Ok(Json::Object(vec![("url".to_string(), Json::Text("https://x/y".to_string()))]));
    let r = done(judge_upload_reply(
        &request(0, "file"),
        response(200, "200 OK", None, "ignored"),
        parsed,
    ));
    assert_eq!(r.url, Some("https://x/y".to_string()));
    let r = done(judge_upload_reply(
        &request(2, "files"),
        response(200, "200 OK", None, "ignored"),
        Err("boom".to_string()),
    ));
    assert_eq!(
        r.message,
        Some("All attempts failed. Last error: JSON Parse Error: boom".to_string())
    );
}

#[test]
fn url_is_taken_from_the_first_place_that_has_it() {
    assert_eq!(
        extract(r#"{"nip94_event":{"tags":[["m","x"],["url","https://a"],["url","https://b"]]},"url":"https://c"}"#),
        Some("https://a".to_string())
    );
    assert_eq!(extract(r#"{"url":"https://c","data":{"url":"https://d"}}"#), Some("https://c".to_string()));
    assert_eq!(extract(r#"{"data":{"url":"https://d"}}"#), Some("https://d".to_string()));
    assert_eq!(
        extract(r#"{"data":[{"url":"https://e"},{"url":"https://f"}]}"#),
        Some("https://e".to_string())
    );
    assert_eq!(extract(r#"{"data":[]}"#), None);
    assert_eq!(extract(r#"{"data":"https://g"}"#), None);
    assert_eq!(extract(r#"{}"#), None);
    assert_eq!(extract(r#"[{"url":"https://h"}]"#), None);
}

#[test]
fn url_tag_decides_even_without_a_string() {
    assert_eq!(extract(r#"{"nip94_event":{"tags":[["url",5]]},"url":"https://c"}"#), None);
    assert_eq!(
        extract(r#"{"nip94_event":{"tags":[["url"],"url",["URL","x"]]},"url":"https://c"}"#),
        Some("https://c".to_string())
    );
    assert_eq!(
        extract(r#"{"nip94_event":{"tags":{"url":"x"}},"url":"https://c"}"#),
        Some("https://c".to_string())
    );
}

#[test]
fn defaults_of_an_upload_from_disk() {
    assert_eq!(
        nip96_upload(None, None),
        ("file".to_string(), "application/octet-stream".to_string())
    );
    assert_eq!(
        nip96_upload(Some("a.png".to_string()), Some("image/png".to_string())),
        ("a.png".to_string(), "image/png".to_string())
    );
}

#[test]
fn native_error_codes() {
    assert_eq!(NativeError::network("x".to_string()).code, "NETWORK_ERROR");
    assert_eq!(NativeError::io("x".to_string()).code, "IO_ERROR");
    assert_eq!(NativeError::mime("x".to_string()).code, "MIME_ERROR");
    assert_eq!(NativeError::no_session().code, "NO_SESSION");
    let auth = NativeError::auth();
    assert_eq!(auth.code, "AUTH_ERROR");
    assert_eq!(auth.message, "Failed to generate NIP-98 authorization header.");
}
