//! The uploader: the signed authorisation of an upload, the order of the
//! multipart field names, and what is made of the server's answer.
//!
//! The HTTP request itself is the caller's. It is made with a client that
//! follows no redirect, one field name at a time, and every answer comes back
//! here as a plain value.

use vstd::prelude::*;
use vstd::utf8::encode_utf8;
use crate::json::{json_parse_result, parse_json, Json};
use crate::keys::{
    base64_encode, base64_standard, sha256_hex, sha256_hex_of, sign_event_json, KeyMaterial,
};
use crate::net::opt_text;
use crate::session::SessionState;
use crate::text::{
    concat2, concat3, contains_ignore_ascii_case, decimal, decimal_u64, same_text,
    text_contains_ignore_case,
};
use crate::wallet::{event_matches, read_signed_event, tag_view, tags_view};

verus! {

/// The kind of the event that authorises an HTTP request.
pub const HTTP_AUTH_KIND: u16 = 27235;

/// How long an authorisation is valid, in seconds.
pub const AUTH_LIFETIME_SECS: u64 = 120;

/// What an upload answers to the user interface.
#[derive(Debug)]
pub struct UploadResponse {
    /// `success` or `error`.
    pub status: String,
    /// The URL of the uploaded file.
    pub url: Option<String>,
    pub message: Option<String>,
    /// The file-metadata event of the server's answer, as it came.
    pub nip94_event: Option<Json>,
}

/// An error of the native side, with its code.
#[derive(Debug)]
pub struct NativeError {
    pub code: String,
    pub message: String,
}

impl NativeError {
    /// A failure of the network: code `NETWORK_ERROR`.
    pub fn network(message: String) -> (e: NativeError)
        ensures
            e.code@ == "NETWORK_ERROR"@,
            e.message@ == message@,
    {
        NativeError { code: "NETWORK_ERROR".to_string(), message }
    }

    /// A failure to read a file: code `IO_ERROR`.
    pub fn io(message: String) -> (e: NativeError)
        ensures
            e.code@ == "IO_ERROR"@,
            e.message@ == message@,
    {
        NativeError { code: "IO_ERROR".to_string(), message }
    }

    /// A content type that is no media type: code `MIME_ERROR`.
    pub fn mime(message: String) -> (e: NativeError)
        ensures
            e.code@ == "MIME_ERROR"@,
            e.message@ == message@,
    {
        NativeError { code: "MIME_ERROR".to_string(), message }
    }

    /// No session: code `NO_SESSION`.
    pub fn no_session() -> (e: NativeError)
        ensures
            e.code@ == "NO_SESSION"@,
            e.message@ == "Native session is not initialized. Please unlock the app."@,
    {
        NativeError {
            code: "NO_SESSION".to_string(),
            message: "Native session is not initialized. Please unlock the app.".to_string(),
        }
    }

    /// No authorisation could be signed: code `AUTH_ERROR`.
    pub fn auth() -> (e: NativeError)
        ensures
            e.code@ == "AUTH_ERROR"@,
            e.message@ == "Failed to generate NIP-98 authorization header."@,
    {
        NativeError {
            code: "AUTH_ERROR".to_string(),
            message: "Failed to generate NIP-98 authorization header.".to_string(),
        }
    }
}

/// A tag of a file-metadata event that gives the file's URL: an array of at
/// least two items whose first is the string `url`.
pub open spec fn is_url_tag(tag: Json) -> bool {
    tag.items() matches Some(cells) && cells.len() >= 2 && cells[0].text() == Some("url"@)
}

/// What the first URL tag of `tags` gives: its second item if that is a
/// string, nothing otherwise. `None` where no tag is a URL tag.
pub open spec fn url_from_tags(tags: Seq<Json>) -> Option<Option<Seq<char>>>
    decreases tags.len(),
{
    if tags.len() == 0 {
        None
    } else if is_url_tag(tags[0]) {
        Some(tags[0].items()->0[1].text())
    } else {
        url_from_tags(tags.drop_first())
    }
}

/// The tags of the answer's file-metadata event.
pub open spec fn event_tags(json: Json) -> Option<Seq<Json>> {
    match json.field("nip94_event"@) {
        Some(event) => match event.field("tags"@) {
            Some(tags) => tags.items(),
            None => None,
        },
        None => None,
    }
}

/// The URL under the answer's `data` member: that of its first item if it is
/// an array, its own if it is an object.
pub open spec fn url_from_data(json: Json) -> Option<Seq<char>> {
    match json.field("data"@) {
        Some(Json::Array(items)) => if items@.len() > 0 {
            items@[0].text_field("url"@)
        } else {
            None
        },
        Some(data) => data.text_field("url"@),
        None => None,
    }
}

/// The URL of the uploaded file in the server's answer. The first URL tag of
/// the file-metadata event decides if there is one; then comes the answer's
/// own `url` member, then its `data` member.
pub open spec fn extract_url_spec(json: Json) -> Option<Seq<char>> {
    let tagged = match event_tags(json) {
        Some(tags) => url_from_tags(tags),
        None => None,
    };
    match tagged {
        Some(found) => found,
        None => match json.text_field("url"@) {
            Some(url) => Some(url),
            None => url_from_data(json),
        },
    }
}

fn is_url_tag_exec(tag: &Json) -> (r: Option<Option<&str>>)
    ensures
        match r {
            Some(second) => is_url_tag(*tag) && (match second {
                Some(s) => tag.items()->0[1].text() == Some(s@),
                None => tag.items()->0[1].text() is None,
            }),
            None => !is_url_tag(*tag),
        },
{
    proof {
        reveal_strlit("url");
    }
    match tag.as_array() {
        None => None,
        Some(cells) => {
            if cells.len() < 2 {
                return None;
            }
            match cells[0].as_str() {
                Some(name) => {
                    if same_text(name, "url") {
                        Some(cells[1].as_str())
                    } else {
                        None
                    }
                },
                None => None,
            }
        },
    }
}

fn url_from_tags_exec(tags: &Vec<Json>) -> (r: Option<Option<String>>)
    ensures
        match r {
            Some(found) => url_from_tags(tags@) == Some(opt_text(found)),
            None => url_from_tags(tags@) is None,
        },
{
    let mut i: usize = 0;
    assert(tags@.subrange(0, tags@.len() as int) =~= tags@);
    while i < tags.len()
        invariant
            i <= tags.len(),
            url_from_tags(tags@) == url_from_tags(tags@.subrange(i as int, tags@.len() as int)),
        decreases tags.len() - i,
    {
        let ghost rest = tags@.subrange(i as int, tags@.len() as int);
        assert(rest[0] == tags@[i as int]);
        match is_url_tag_exec(&tags[i]) {
            Some(second) => {
                return Some(
                    match second {
                        Some(s) => Some(s.to_string()),
                        None => None,
                    },
                );
            },
            None => {},
        }
        assert(rest.drop_first() =~= tags@.subrange(i as int + 1, tags@.len() as int));
        i = i + 1;
    }
    None
}

fn url_from_data_exec(json: &Json) -> (r: Option<String>)
    ensures
        opt_text(r) == url_from_data(*json),
{
    match json.get("data") {
        Some(Json::Array(items)) => {
            if items.len() > 0 {
                match items[0].get_str("url") {
                    Some(url) => Some(url.to_string()),
                    None => None,
                }
            } else {
                None
            }
        },
        Some(data) => match data.get_str("url") {
            Some(url) => Some(url.to_string()),
            None => None,
        },
        None => None,
    }
}

/// The URL of the uploaded file in the server's answer.
pub fn extract_url_from_response(json: &Json) -> (url: Option<String>)
    ensures
        opt_text(url) == extract_url_spec(*json),
{
    let tagged = match json.get("nip94_event") {
        Some(event) => match event.get("tags") {
            Some(tags) => match tags.as_array() {
                Some(list) => url_from_tags_exec(list),
                None => None,
            },
            None => None,
        },
        None => None,
    };
    match tagged {
        Some(found) => found,
        None => match json.get_str("url") {
            Some(url) => Some(url.to_string()),
            None => url_from_data_exec(json),
        },
    }
}

/// The tags of the event that authorises a `POST` of a payload to `api_url`.
pub open spec fn nip98_tags_spec(api_url: Seq<char>, payload_hash: Seq<char>, expiration: nat) -> Seq<
    Seq<Seq<char>>,
> {
    seq![
        seq!["u"@, api_url],
        seq!["method"@, "POST"@],
        seq!["payload"@, payload_hash],
        seq!["expiration"@, decimal(expiration)],
    ]
}

fn pair(name: &str, value: &str) -> (tag: Vec<String>)
    ensures
        tag_view(tag) == seq![name@, value@],
{
    let mut tag: Vec<String> = Vec::new();
    tag.push(name.to_string());
    tag.push(value.to_string());
    assert(tag_view(tag) =~= seq![name@, value@]);
    tag
}

/// The tags of the event that authorises a `POST` of a payload to `api_url`.
pub fn nip98_tags(api_url: &str, payload_hash: &str, expiration: u64) -> (tags: Vec<Vec<String>>)
    ensures
        tags_view(tags@) == nip98_tags_spec(api_url@, payload_hash@, expiration as nat),
        forall|i: int| 0 <= i < tags@.len() ==> (#[trigger] tags@[i])@.len() > 0,
{
    let expires = decimal_u64(expiration);
    let mut tags: Vec<Vec<String>> = Vec::new();
    tags.push(pair("u", api_url));
    tags.push(pair("method", "POST"));
    tags.push(pair("payload", payload_hash));
    tags.push(pair("expiration", expires.as_str()));
    proof {
        assert forall|i: int| 0 <= i < tags@.len() implies (#[trigger] tags@[i])@.len() > 0 by {
            assert(tag_view(tags@[i]).len() == 2);
        }
        assert(tags_view(tags@) =~= nip98_tags_spec(
            api_url@,
            payload_hash@,
            expiration as nat,
        ));
    }
    tags
}

/// The `Authorization` header for a signed event given as JSON text: the word
/// `Nostr`, a space, and the Base64 form of the text's UTF-8 bytes.
pub open spec fn nip98_header_text(event_json: Seq<char>) -> Seq<char> {
    "Nostr "@ + base64_standard(encode_utf8(event_json))
}

/// The `Authorization` header for a signed event given as JSON text.
pub fn nip98_header(event_json: &str) -> (header: String)
    ensures
        header@ == nip98_header_text(event_json@),
{
    let encoded = base64_encode(event_json.as_bytes());
    concat2("Nostr ", encoded.as_str())
}

/// `event_json` is a signed event by `author` that authorises, until two
/// minutes after `now`, a `POST` of `file_bytes` to `api_url`.
pub open spec fn authorizes_upload(
    event_json: Seq<char>,
    author: Seq<char>,
    api_url: Seq<char>,
    file_bytes: Seq<u8>,
    now: u64,
) -> bool {
    json_parse_result(event_json) matches Ok(event) && event_matches(
        event,
        author,
        HTTP_AUTH_KIND,
        ""@,
        nip98_tags_spec(api_url, sha256_hex_of(file_bytes), (now + AUTH_LIFETIME_SECS) as nat),
        now,
    )
}

/// Takes the outcome of the signing of an authorisation, the signed event as
/// JSON text or a failure, and gives the `Authorization` header for it. There
/// is a header exactly if the text is the JSON of an event by `author` of the
/// authorising kind, with empty content, the tags `tags` and the time `now`,
/// under its canonical id.
pub fn accept_authorization(
    signed: Result<String, String>,
    author: &str,
    tags: Vec<Vec<String>>,
    now: u64,
) -> (r: Option<String>)
    ensures
        match signed {
            Err(_) => r is None,
            Ok(text) => if json_parse_result(text@) matches Ok(event) && event_matches(
                event,
                author@,
                HTTP_AUTH_KIND,
                ""@,
                tags_view(tags@),
                now,
            ) {
                r matches Some(header) && header@ == nip98_header_text(text@)
            } else {
                r is None
            },
        },
{
    let text = match signed {
        Ok(text) => text,
        Err(_) => {
            return None;
        },
    };
    let event = match parse_json(text.as_str()) {
        Ok(event) => event,
        Err(_) => {
            return None;
        },
    };
    match read_signed_event(&event, author, HTTP_AUTH_KIND, "", tags, now) {
        Some(_) => Some(nip98_header(text.as_str())),
        None => None,
    }
}

/// Signs the authorisation of an upload of `file_bytes` to `api_url` at the
/// time `now` (seconds since the epoch) and returns the `Authorization`
/// header. The signed event is read back and held against what was asked for;
/// without a fitting event there is no header, and there is none where the
/// end of the authorisation's lifetime is no `u64`.
pub fn generate_nip98_auth(api_url: &str, file_bytes: &[u8], keys: &KeyMaterial, now: u64) -> (r:
    Option<String>)
    ensures
        now + AUTH_LIFETIME_SECS > u64::MAX ==> r is None,
        r matches Some(header) ==> exists|event_json: Seq<char>|
            header@ == #[trigger] nip98_header_text(event_json) && authorizes_upload(
                event_json,
                keys@.public_hex,
                api_url@,
                file_bytes@,
                now,
            ),
{
    let expiration: u64 = match now.checked_add(AUTH_LIFETIME_SECS) {
        Some(t) => t,
        None => {
            return None;
        },
    };
    let payload_hash = sha256_hex(file_bytes);
    let tags = nip98_tags(api_url, payload_hash.as_str(), expiration);
    let signed = sign_event_json(keys.secret_hex.expose(), HTTP_AUTH_KIND, "", &tags, now);
    let header = accept_authorization(signed, keys.public_hex.as_str(), tags, now);
    proof {
        if header is Some {
            assert(authorizes_upload(
                signed->Ok_0@,
                keys@.public_hex,
                api_url@,
                file_bytes@,
                now,
            ));
        }
    }
    header
}

/// The multipart field name of attempt number `attempt`, counted from zero:
/// `file`, then `files[]`, then `files`.
pub open spec fn field_name_spec(attempt: nat) -> Option<Seq<char>> {
    if attempt == 0 {
        Some("file"@)
    } else if attempt == 1 {
        Some("files[]"@)
    } else if attempt == 2 {
        Some("files"@)
    } else {
        None
    }
}

/// The multipart field name of attempt number `attempt`, counted from zero.
pub fn upload_field_name(attempt: usize) -> (name: Option<&'static str>)
    ensures
        match name {
            Some(n) => field_name_spec(attempt as nat) == Some(n@),
            None => field_name_spec(attempt as nat) is None,
        },
{
    if attempt == 0 {
        Some("file")
    } else if attempt == 1 {
        Some("files[]")
    } else if attempt == 2 {
        Some("files")
    } else {
        None
    }
}

/// One multipart request of an upload.
#[derive(Debug)]
pub struct UploadRequest {
    /// The number of the attempt, counted from zero.
    pub attempt: usize,
    /// The name of the multipart field that carries the file.
    pub field_name: String,
    /// The value of the `Authorization` header.
    pub authorization: String,
}

/// How an upload begins.
#[derive(Debug)]
pub enum UploadStart {
    /// The upload is over before any request: the answer is final.
    Done(UploadResponse),
    Failed(NativeError),
    /// The first request is to be sent.
    Send(UploadRequest),
}

/// An answer that reports an error.
pub open spec fn is_error_response(response: UploadResponse, message: Seq<char>) -> bool {
    &&& response.status@ == "error"@
    &&& response.url is None
    &&& opt_text(response.message) == Some(message)
    &&& response.nip94_event is None
}

fn error_response(message: String) -> (response: UploadResponse)
    ensures
        is_error_response(response, message@),
{
    UploadResponse {
        status: "error".to_string(),
        url: None,
        message: Some(message),
        nip94_event: None,
    }
}

/// Begins an upload at the time `now`. An empty file ends it at once with an
/// error answer and without any request. Then the session has to hold keys,
/// and the authorisation has to be signed; the first request carries the
/// field name `file`.
pub fn nip96_upload_v2(session: &SessionState, api_url: &str, file_bytes: &[u8], now: u64) -> (start:
    UploadStart)
    ensures
        file_bytes@.len() == 0 ==> (start matches UploadStart::Done(response) && is_error_response(
            response,
            "Empty file bytes"@,
        )),
        file_bytes@.len() > 0 && session@ is None ==> (start matches UploadStart::Failed(e)
            && e.code@ == "NO_SESSION"@),
        file_bytes@.len() > 0 && session@ is Some ==> match start {
            UploadStart::Done(_) => false,
            UploadStart::Failed(e) => e.code@ == "AUTH_ERROR"@,
            UploadStart::Send(request) => request.attempt == 0 && request.field_name@ == "file"@
                && exists|event_json: Seq<char>|
                request.authorization@ == #[trigger] nip98_header_text(event_json)
                    && authorizes_upload(
                    event_json,
                    session@->0.public_hex,
                    api_url@,
                    file_bytes@,
                    now,
                ),
        },
{
    if file_bytes.len() == 0 {
        return UploadStart::Done(error_response("Empty file bytes".to_string()));
    }
    let keys = match session.get_keys() {
        Some(keys) => keys,
        None => {
            return UploadStart::Failed(NativeError::no_session());
        },
    };
    match generate_nip98_auth(api_url, file_bytes, &keys, now) {
        Some(authorization) => UploadStart::Send(
            UploadRequest { attempt: 0, field_name: "file".to_string(), authorization },
        ),
        None => UploadStart::Failed(NativeError::auth()),
    }
}

/// What came back for one multipart request.
#[derive(Debug)]
pub enum HttpReply {
    /// The server answered.
    Response(HttpResponse),
    /// The request failed; the text says how.
    Failed(String),
}

/// A server's answer.
#[derive(Debug)]
pub struct HttpResponse {
    /// The status code.
    pub status: u16,
    /// The status as it is shown: the code and its reason.
    pub status_line: String,
    /// The `Location` header, if the answer has one.
    pub location: Option<String>,
    pub body: String,
}

/// What an answer means for the upload.
pub enum ReplyVerdict {
    /// The upload is done; the file's URL and the file-metadata event are
    /// what the answer holds of them.
    Success { url: Option<Seq<char>>, nip94_event: Option<Json> },
    /// The server saw no file under this field name: the next one is tried.
    WrongFieldName { last_error: Seq<char> },
    /// The upload has failed.
    Failure { last_error: Seq<char> },
}

/// The text for a redirect, which is never followed.
pub open spec fn redirect_text(status_line: Seq<char>, location: Option<Seq<char>>) -> Seq<char> {
    match location {
        Some(target) => "HTTP "@ + status_line + ": redirect to "@ + target + " was not followed"@,
        None => "HTTP "@ + status_line + ": redirect without Location was not followed"@,
    }
}

/// The text for an answer whose status reports an error.
pub open spec fn http_error_text(status_line: Seq<char>, body: Seq<char>) -> Seq<char> {
    "HTTP "@ + status_line + ": "@ + body
}

/// The text for an error that the server reports inside a successful answer.
pub open spec fn api_error_text(json: Json) -> Seq<char> {
    "API Error: "@ + (match json.text_field("message"@) {
        Some(message) => message,
        None => "Unknown API error"@,
    })
}

/// The verdict on a parsed answer with a status of success.
pub open spec fn parsed_verdict(json: Json) -> ReplyVerdict {
    if json.text_field("status"@) == Some("error"@) {
        ReplyVerdict::Failure { last_error: api_error_text(json) }
    } else {
        ReplyVerdict::Success {
            url: extract_url_spec(json),
            nip94_event: json.field("nip94_event"@),
        }
    }
}

/// The verdict on an answer, given what the parser made of its body. Only a
/// status 400 whose body speaks of "no files", in any case of the letters,
/// leads to the next field name; a redirect is an error that names its
/// target; every other failure ends the upload.
pub open spec fn reply_verdict(reply: HttpReply, parsed: Result<Json, Seq<char>>) -> ReplyVerdict {
    match reply {
        HttpReply::Failed(reason) => ReplyVerdict::Failure {
            last_error: "Network Error: "@ + reason@,
        },
        HttpReply::Response(response) => if 300 <= response.status < 400 {
            ReplyVerdict::Failure {
                last_error: redirect_text(response.status_line@, opt_text(response.location)),
            }
        } else if 200 <= response.status < 300 {
            match parsed {
                Err(message) => ReplyVerdict::Failure {
                    last_error: "JSON Parse Error: "@ + message,
                },
                Ok(json) => parsed_verdict(json),
            }
        } else if response.status == 400 && text_contains_ignore_case(
            response.body@,
            "no files"@,
        ) {
            ReplyVerdict::WrongFieldName {
                last_error: http_error_text(response.status_line@, response.body@),
            }
        } else {
            ReplyVerdict::Failure {
                last_error: http_error_text(response.status_line@, response.body@),
            }
        },
    }
}

/// The message of an upload that has failed.
pub open spec fn failure_message(last_error: Seq<char>) -> Seq<char> {
    "All attempts failed. Last error: "@ + last_error
}

/// What follows an answer.
#[derive(Debug)]
pub enum UploadNext {
    /// The next request is to be sent.
    Retry(UploadRequest),
    /// The upload is over: the answer is final.
    Done(UploadResponse),
}

/// `next` is what follows the verdict `verdict` on the answer to `request`.
pub open spec fn follows(next: UploadNext, request: UploadRequest, verdict: ReplyVerdict) -> bool {
    match verdict {
        ReplyVerdict::Success { url, nip94_event } => {
            &&& next matches UploadNext::Done(response)
            &&& response.status@ == "success"@
            &&& opt_text(response.url) == url
            &&& response.nip94_event == nip94_event
            &&& opt_text(response.message) == (if url is None {
                Some("No URL in response"@)
            } else {
                None
            })
        },
        ReplyVerdict::WrongFieldName { last_error } => match field_name_spec(
            (request.attempt + 1) as nat,
        ) {
            Some(name) => {
                &&& next matches UploadNext::Retry(again)
                &&& again.attempt == request.attempt + 1
                &&& again.field_name@ == name
                &&& again.authorization@ == request.authorization@
            },
            None => next matches UploadNext::Done(response) && is_error_response(
                response,
                failure_message(last_error),
            ),
        },
        ReplyVerdict::Failure { last_error } => next matches UploadNext::Done(response)
            && is_error_response(response, failure_message(last_error)),
    }
}

fn failed(last_error: String) -> (next: UploadNext)
    ensures
        next matches UploadNext::Done(response) && is_error_response(
            response,
            failure_message(last_error@),
        ),
{
    UploadNext::Done(
        error_response(concat2("All attempts failed. Last error: ", last_error.as_str())),
    )
}

fn judge_parsed(json: Json) -> (next: UploadNext)
    ensures
        match parsed_verdict(json) {
            ReplyVerdict::Success { url, nip94_event } => {
                &&& next matches UploadNext::Done(response)
                &&& response.status@ == "success"@
                &&& opt_text(response.url) == url
                &&& response.nip94_event == nip94_event
                &&& opt_text(response.message) == (if url is None {
                    Some("No URL in response"@)
                } else {
                    None
                })
            },
            ReplyVerdict::Failure { last_error } => next matches UploadNext::Done(response)
                && is_error_response(response, failure_message(last_error)),
            ReplyVerdict::WrongFieldName { .. } => false,
        },
{
    let reported = match json.get_str("status") {
        Some(status) => same_text(status, "error"),
        None => false,
    };
    if reported {
        let reason = match json.get_str("message") {
            Some(message) => concat2("API Error: ", message),
            None => concat2("API Error: ", "Unknown API error"),
        };
        return failed(reason);
    }
    let url = extract_url_from_response(&json);
    let message = match &url {
        Some(_) => None,
        None => Some("No URL in response".to_string()),
    };
    let nip94_event = json.into_field("nip94_event");
    UploadNext::Done(UploadResponse { status: "success".to_string(), url, message, nip94_event })
}

/// Decides what follows the answer `reply` to `request`, given what the
/// parser made of the answer's body.
pub fn judge_upload_reply(request: &UploadRequest, reply: HttpReply, parsed: Result<Json, String>) -> (next:
    UploadNext)
    ensures
        follows(
            next,
            *request,
            reply_verdict(
                reply,
                match parsed {
                    Ok(json) => Ok(json),
                    Err(message) => Err(message@),
                },
            ),
        ),
{
    match reply {
        HttpReply::Failed(reason) => failed(concat2("Network Error: ", reason.as_str())),
        HttpReply::Response(response) => {
            if 300 <= response.status && response.status < 400 {
                let text = match &response.location {
                    Some(target) => {
                        let mut text = concat3(
                            "HTTP ",
                            response.status_line.as_str(),
                            ": redirect to ",
                        );
                        text.append(target.as_str());
                        text.append(" was not followed");
                        text
                    },
                    None => concat3(
                        "HTTP ",
                        response.status_line.as_str(),
                        ": redirect without Location was not followed",
                    ),
                };
                failed(text)
            } else if 200 <= response.status && response.status < 300 {
                match parsed {
                    Err(message) => failed(concat2("JSON Parse Error: ", message.as_str())),
                    Ok(json) => judge_parsed(json),
                }
            } else {
                let mut text = concat3("HTTP ", response.status_line.as_str(), ": ");
                text.append(response.body.as_str());
                if response.status == 400 && contains_ignore_ascii_case(
                    response.body.as_str(),
                    "no files",
                ) {
                    let following = match request.attempt.checked_add(1) {
                        Some(attempt) => match upload_field_name(attempt) {
                            Some(name) => Some((attempt, name)),
                            None => None,
                        },
                        None => None,
                    };
                    match following {
                        Some((attempt, name)) => UploadNext::Retry(
                            UploadRequest {
                                attempt,
                                field_name: name.to_string(),
                                authorization: request.authorization.clone(),
                            },
                        ),
                        None => failed(text),
                    }
                } else {
                    failed(text)
                }
            }
        },
    }
}

/// The body that is parsed for an answer: that of a server's answer, and
/// nothing for a request that failed.
pub open spec fn reply_body(reply: HttpReply) -> Seq<char> {
    match reply {
        HttpReply::Response(response) => response.body@,
        HttpReply::Failed(_) => Seq::empty(),
    }
}

/// Takes the answer to one request of an upload and says what follows: the
/// final answer, or the request with the next field name.
pub fn upload_reply_received(request: &UploadRequest, reply: HttpReply) -> (next: UploadNext)
    ensures
        follows(next, *request, reply_verdict(reply, json_parse_result(reply_body(reply)))),
{
    let parsed = match &reply {
        HttpReply::Response(response) => {
            if 200 <= response.status && response.status < 300 {
                parse_json(response.body.as_str())
            } else {
                Err(String::new())
            }
        },
        HttpReply::Failed(_) => Err(String::new()),
    };
    judge_upload_reply(request, reply, parsed)
}

/// The file name and the content type of an upload that names a file on
/// disk: the last part of the path, or `file`, and the given type, or
/// `application/octet-stream`.
pub fn nip96_upload(file_name: Option<String>, content_type: Option<String>) -> (named: (
    String,
    String,
))
    ensures
        named.0@ == (match file_name {
            Some(name) => name@,
            None => "file"@,
        }),
        named.1@ == (match content_type {
            Some(kind) => kind@,
            None => "application/octet-stream"@,
        }),
{
    let name = match file_name {
        Some(name) => name,
        None => "file".to_string(),
    };
    let kind = match content_type {
        Some(kind) => kind,
        None => "application/octet-stream".to_string(),
    };
    (name, kind)
}

/// A status 400 whose body speaks of "no files" sends the upload on to the
/// next field name, whatever else the answer holds; the names are `file`,
/// `files[]` and `files`, and after the third the upload has failed.
pub proof fn lemma_no_files_walks_field_names(
    request: UploadRequest,
    response: HttpResponse,
    parsed: Result<Json, Seq<char>>,
    next: UploadNext,
)
    requires
        response.status == 400,
        text_contains_ignore_case(response.body@, "no files"@),
        follows(next, request, reply_verdict(HttpReply::Response(response), parsed)),
    ensures
        reply_verdict(HttpReply::Response(response), parsed) is WrongFieldName,
        field_name_spec(0) == Some("file"@),
        field_name_spec(1) == Some("files[]"@),
        field_name_spec(2) == Some("files"@),
        field_name_spec(3) is None,
        request.attempt == 0 ==> (next matches UploadNext::Retry(again) && again.field_name@
            == "files[]"@),
        request.attempt == 1 ==> (next matches UploadNext::Retry(again) && again.field_name@
            == "files"@),
        request.attempt >= 2 ==> next is Done,
{
}

/// A redirect ends the upload with an error that names the target of the
/// redirect, and no further request is sent.
pub proof fn lemma_redirect_is_reported(
    request: UploadRequest,
    response: HttpResponse,
    parsed: Result<Json, Seq<char>>,
    next: UploadNext,
)
    requires
        300 <= response.status < 400,
        response.location is Some,
        follows(next, request, reply_verdict(HttpReply::Response(response), parsed)),
    ensures
        next matches UploadNext::Done(answer) && answer.status@ == "error"@
            && answer.message is Some && crate::text::text_contains(
            answer.message->0@,
            response.location->0@,
        ),
{
    let target = response.location->0@;
    let last_error = redirect_text(response.status_line@, Some(target));
    let message = failure_message(last_error);
    let lead = "All attempts failed. Last error: "@ + ("HTTP "@ + response.status_line@
        + ": redirect to "@);
    let at = lead.len() as int;
    assert(message =~= lead + target + " was not followed"@);
    assert(crate::text::matches_at(message, target, at, false)) by {
        assert forall|j: int| 0 <= j < target.len() implies message[at + j] == #[trigger] target[j] by {}
    }
}

} // verus!
