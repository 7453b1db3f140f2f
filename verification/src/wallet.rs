//! The signer and the coupling of the session with the secret store.
//!
//! The store itself is the caller's: a command says when the store has to be
//! read or written, and takes what the store answered as a plain value.

use vstd::prelude::*;
use vstd::utf8::encode_utf8;
use crate::json::{json_parse_result, json_string_literal, parse_json, quote_json, Json};
use crate::keys::{
    generate_keys, keys_parse, keys_parse_result, nip04_decrypt, nip04_decrypt_result,
    nip04_encrypt, sha256_hex, sha256_hex_of, sign_event_json, FreshKeys, KeyMaterial,
    KeyMaterialView, SecretText,
};
use crate::net::opt_text;
use crate::session::{derive_keys, opt_keys, set_keys_spec, SessionState};
use crate::text::{concat2, decimal, decimal_u64, same_text, texts};

verus! {

/// The service name of the secret store's entry.
pub const APP_SERVICE: &'static str = "app.obscur.desktop";

/// The name of the secret store's entry.
pub const KEY_NAME: &'static str = "nsec";

/// A request to sign an event.
#[derive(Debug)]
pub struct NativeSignRequest {
    pub kind: u64,
    pub content: String,
    pub tags: Vec<Vec<String>>,
    pub created_at: u64,
}

/// A signed event.
#[derive(Debug)]
pub struct NativeSignResponse {
    pub id: String,
    pub pubkey: String,
    pub created_at: u64,
    pub kind: u64,
    pub tags: Vec<Vec<String>>,
    pub content: String,
    pub sig: String,
}

/// The strings of one tag.
pub open spec fn tag_view(tag: Vec<String>) -> Seq<Seq<char>> {
    Seq::new(tag@.len(), |k: int| tag@[k]@)
}

/// The strings of a list of tags.
pub open spec fn tags_view(tags: Seq<Vec<String>>) -> Seq<Seq<Seq<char>>> {
    Seq::new(tags.len(), |i: int| tag_view(tags[i]))
}

/// Some tag of the list is empty: it has not even a name.
pub open spec fn has_empty_tag(tags: Seq<Seq<Seq<char>>>) -> bool {
    exists|i: int| 0 <= i < tags.len() && (#[trigger] tags[i]).len() == 0
}

/// Why a request is refused before anything is signed: its kind is no
/// sixteen-bit number, or one of its tags is empty.
pub open spec fn sign_refusal(kind: u64, tags: Seq<Seq<Seq<char>>>) -> Option<Seq<char>> {
    if kind > u16::MAX {
        Some("Event kind out of range"@)
    } else if has_empty_tag(tags) {
        Some("Event tag without a name"@)
    } else {
        None
    }
}

/// The texts `items` with a comma between each two.
pub open spec fn joined(items: Seq<Seq<char>>) -> Seq<char>
    decreases items.len(),
{
    if items.len() == 0 {
        Seq::empty()
    } else if items.len() == 1 {
        items[0]
    } else {
        joined(items.drop_last()) + ","@ + items.last()
    }
}

/// The compact JSON array of items that are JSON texts already.
pub open spec fn json_array_text(items: Seq<Seq<char>>) -> Seq<char> {
    "["@ + joined(items) + "]"@
}

/// One tag as a compact JSON array of strings.
pub open spec fn tag_json_text(tag: Seq<Seq<char>>) -> Seq<char> {
    json_array_text(Seq::new(tag.len(), |k: int| json_string_literal(tag[k])))
}

/// A list of tags as a compact JSON array of arrays.
pub open spec fn tags_json_text(tags: Seq<Seq<Seq<char>>>) -> Seq<char> {
    json_array_text(Seq::new(tags.len(), |i: int| tag_json_text(tags[i])))
}

/// The text that an event's id commits to: the compact JSON array of zero,
/// the author's public key, the time, the kind, the tags and the content.
pub open spec fn event_commitment(
    author: Seq<char>,
    created_at: u64,
    kind: u16,
    tags: Seq<Seq<Seq<char>>>,
    content: Seq<char>,
) -> Seq<char> {
    "[0,"@ + json_string_literal(author) + ","@ + decimal(created_at as nat) + ","@ + decimal(
        kind as nat,
    ) + ","@ + tags_json_text(tags) + ","@ + json_string_literal(content) + "]"@
}

/// The canonical id of an event: the SHA-256 hash, in hexadecimal, of the
/// UTF-8 bytes of the text that the id commits to.
pub open spec fn event_id_spec(
    author: Seq<char>,
    created_at: u64,
    kind: u16,
    tags: Seq<Seq<Seq<char>>>,
    content: Seq<char>,
) -> Seq<char> {
    sha256_hex_of(encode_utf8(event_commitment(author, created_at, kind, tags, content)))
}

fn json_array_of(items: &Vec<String>) -> (text: String)
    ensures
        text@ == json_array_text(texts(items@)),
{
    let ghost all = texts(items@);
    let mut text = "[".to_string();
    let mut i: usize = 0;
    assert(all.take(0) =~= Seq::empty());
    proof {
        reveal_strlit("[");
        assert(text@ =~= "["@ + joined(all.take(0)));
    }
    while i < items.len()
        invariant
            i <= items.len(),
            all == texts(items@),
            text@ == "["@ + joined(all.take(i as int)),
        decreases items.len() - i,
    {
        proof {
            let next = all.take(i as int + 1);
            assert(next.drop_last() =~= all.take(i as int));
            assert(next.last() == items@[i as int]@);
            if i == 0 {
                assert(next[0] == items@[0]@);
                assert(joined(all.take(0)) =~= Seq::empty());
            }
        }
        if i > 0 {
            text.append(",");
        }
        text.append(items[i].as_str());
        proof {
            assert(text@ =~= "["@ + joined(all.take(i as int + 1)));
        }
        i = i + 1;
    }
    assert(all.take(items@.len() as int) =~= all);
    text.append("]");
    text
}

fn tag_json(tag: &Vec<String>) -> (text: String)
    ensures
        text@ == tag_json_text(tag_view(*tag)),
{
    let mut quoted: Vec<String> = Vec::new();
    let mut k: usize = 0;
    while k < tag.len()
        invariant
            k <= tag.len(),
            quoted@.len() == k,
            forall|j: int| 0 <= j < k ==> (#[trigger] quoted@[j])@ == json_string_literal(tag@[j]@),
        decreases tag.len() - k,
    {
        quoted.push(quote_json(tag[k].as_str()));
        k = k + 1;
    }
    assert(texts(quoted@) =~= Seq::new(
        tag_view(*tag).len(),
        |k: int| json_string_literal(tag_view(*tag)[k]),
    ));
    json_array_of(&quoted)
}

fn tags_json(tags: &Vec<Vec<String>>) -> (text: String)
    ensures
        text@ == tags_json_text(tags_view(tags@)),
{
    let mut parts: Vec<String> = Vec::new();
    let mut i: usize = 0;
    while i < tags.len()
        invariant
            i <= tags.len(),
            parts@.len() == i,
            forall|j: int| 0 <= j < i ==> (#[trigger] parts@[j])@ == tag_json_text(tag_view(tags@[j])),
        decreases tags.len() - i,
    {
        parts.push(tag_json(&tags[i]));
        i = i + 1;
    }
    assert(texts(parts@) =~= Seq::new(
        tags_view(tags@).len(),
        |i: int| tag_json_text(tags_view(tags@)[i]),
    ));
    json_array_of(&parts)
}

/// The canonical id of an event with these fields.
pub fn event_id(author: &str, created_at: u64, kind: u16, tags: &Vec<Vec<String>>, content: &str) -> (id:
    String)
    ensures
        id@ == event_id_spec(author@, created_at, kind, tags_view(tags@), content@),
{
    let mut text = "[0,".to_string();
    text.append(quote_json(author).as_str());
    text.append(",");
    text.append(decimal_u64(created_at).as_str());
    text.append(",");
    text.append(decimal_u64(kind as u64).as_str());
    text.append(",");
    text.append(tags_json(tags).as_str());
    text.append(",");
    text.append(quote_json(content).as_str());
    text.append("]");
    sha256_hex(text.as_str().as_bytes())
}

/// `json` is the array of strings `tag`.
pub open spec fn json_is_tag(json: Json, tag: Seq<Seq<char>>) -> bool {
    &&& json.items() matches Some(cells)
    &&& cells.len() == tag.len()
    &&& forall|k: int| 0 <= k < tag.len() ==> (#[trigger] cells[k]).text() == Some(tag[k])
}

/// `json` is the array of the tags `tags`.
pub open spec fn json_is_tags(json: Json, tags: Seq<Seq<Seq<char>>>) -> bool {
    &&& json.items() matches Some(items)
    &&& items.len() == tags.len()
    &&& forall|i: int| 0 <= i < tags.len() ==> json_is_tag(#[trigger] items[i], tags[i])
}

/// `json` is the number `n`.
pub open spec fn json_is_number(json: Json, n: nat) -> bool {
    json matches Json::Number(digits) && digits@ == decimal(n)
}

/// The member `key` of `event` is the number `n`.
pub open spec fn number_field_is(event: Json, key: Seq<char>, n: nat) -> bool {
    event.field(key) matches Some(member) && json_is_number(member, n)
}

/// `event` is a signed event by `author` with these fields and tags.
pub open spec fn event_matches(
    event: Json,
    author: Seq<char>,
    kind: u16,
    content: Seq<char>,
    tags: Seq<Seq<Seq<char>>>,
    created_at: u64,
) -> bool {
    &&& event.text_field("id"@) == Some(event_id_spec(author, created_at, kind, tags, content))
    &&& event.text_field("sig"@) is Some
    &&& event.text_field("pubkey"@) == Some(author)
    &&& event.text_field("content"@) == Some(content)
    &&& number_field_is(event, "created_at"@, created_at as nat)
    &&& number_field_is(event, "kind"@, kind as nat)
    &&& event.field("tags"@) matches Some(list) && json_is_tags(list, tags)
}

fn copy_tag(tag: &Vec<String>) -> (copy: Vec<String>)
    ensures
        tag_view(copy) == tag_view(*tag),
{
    let mut copy: Vec<String> = Vec::new();
    let mut k: usize = 0;
    while k < tag.len()
        invariant
            k <= tag.len(),
            copy@.len() == k,
            forall|j: int| 0 <= j < k ==> (#[trigger] copy@[j])@ == tag@[j]@,
        decreases tag.len() - k,
    {
        copy.push(tag[k].clone());
        k = k + 1;
    }
    assert(tag_view(copy) =~= tag_view(*tag));
    copy
}

fn copy_tags(tags: &Vec<Vec<String>>) -> (copy: Vec<Vec<String>>)
    ensures
        tags_view(copy@) == tags_view(tags@),
{
    let mut copy: Vec<Vec<String>> = Vec::new();
    let mut i: usize = 0;
    while i < tags.len()
        invariant
            i <= tags.len(),
            copy@.len() == i,
            forall|j: int| 0 <= j < i ==> tag_view(#[trigger] copy@[j]) == tag_view(tags@[j]),
        decreases tags.len() - i,
    {
        copy.push(copy_tag(&tags[i]));
        i = i + 1;
    }
    assert(tags_view(copy@) =~= tags_view(tags@));
    copy
}

fn has_empty_tag_exec(tags: &Vec<Vec<String>>) -> (b: bool)
    ensures
        b == has_empty_tag(tags_view(tags@)),
        !b ==> forall|i: int| 0 <= i < tags@.len() ==> (#[trigger] tags@[i])@.len() > 0,
{
    let mut i: usize = 0;
    while i < tags.len()
        invariant
            i <= tags.len(),
            forall|j: int| 0 <= j < i ==> (#[trigger] tags@[j])@.len() > 0,
        decreases tags.len() - i,
    {
        if tags[i].len() == 0 {
            assert(tags_view(tags@)[i as int].len() == 0);
            return true;
        }
        i = i + 1;
    }
    proof {
        let views = tags_view(tags@);
        assert forall|j: int| 0 <= j < views.len() implies (#[trigger] views[j]).len() != 0 by {
            assert(tags@[j]@.len() > 0);
        }
    }
    false
}

fn json_is_tag_exec(json: &Json, tag: &Vec<String>) -> (b: bool)
    ensures
        b == json_is_tag(*json, tag_view(*tag)),
{
    match json.as_array() {
        None => false,
        Some(cells) => {
            if cells.len() != tag.len() {
                return false;
            }
            let mut k: usize = 0;
            while k < tag.len()
                invariant
                    k <= tag.len(),
                    cells@.len() == tag@.len(),
                    json.items() == Some(cells@),
                    forall|j: int|
                        0 <= j < k ==> (#[trigger] cells@[j]).text() == Some(tag_view(*tag)[j]),
                decreases tag.len() - k,
            {
                assert(tag_view(*tag)[k as int] == tag@[k as int]@);
                match cells[k].as_str() {
                    Some(s) => {
                        if !same_text(s, tag[k].as_str()) {
                            return false;
                        }
                    },
                    None => {
                        return false;
                    },
                }
                k = k + 1;
            }
            true
        },
    }
}

fn json_is_tags_exec(json: &Json, tags: &Vec<Vec<String>>) -> (b: bool)
    ensures
        b == json_is_tags(*json, tags_view(tags@)),
{
    match json.as_array() {
        None => false,
        Some(items) => {
            if items.len() != tags.len() {
                return false;
            }
            let mut i: usize = 0;
            while i < tags.len()
                invariant
                    i <= tags.len(),
                    items@.len() == tags@.len(),
                    json.items() == Some(items@),
                    forall|j: int|
                        0 <= j < i ==> json_is_tag(#[trigger] items@[j], tags_view(tags@)[j]),
                decreases tags.len() - i,
            {
                assert(tags_view(tags@)[i as int] == tag_view(tags@[i as int]));
                if !json_is_tag_exec(&items[i], &tags[i]) {
                    return false;
                }
                i = i + 1;
            }
            true
        },
    }
}

fn number_field_is_exec(event: &Json, key: &str, n: u64) -> (b: bool)
    ensures
        b == number_field_is(*event, key@, n as nat),
{
    match event.get(key) {
        Some(Json::Number(digits)) => {
            let expected = decimal_u64(n);
            *digits == expected
        },
        _ => false,
    }
}

/// Reads a signed event back and holds it against what was asked for. The
/// answer is the event if it is by `author`, has the requested kind,
/// content, time and tags, and carries the canonical id of such an event;
/// nothing otherwise.
pub fn read_signed_event(
    event: &Json,
    author: &str,
    kind: u16,
    content: &str,
    tags: Vec<Vec<String>>,
    created_at: u64,
) -> (r: Option<NativeSignResponse>)
    ensures
        r is Some <==> event_matches(
            *event,
            author@,
            kind,
            content@,
            tags_view(tags@),
            created_at,
        ),
        r matches Some(signed) ==> {
            &&& signed.id@ == event_id_spec(author@, created_at, kind, tags_view(tags@), content@)
            &&& Some(signed.sig@) == event.text_field("sig"@)
            &&& signed.pubkey@ == author@
            &&& signed.created_at == created_at
            &&& signed.kind == kind
            &&& signed.content@ == content@
            &&& tags_view(signed.tags@) == tags_view(tags@)
        },
{
    let id = event_id(author, created_at, kind, &tags, content);
    match event.get_str("id") {
        Some(s) => {
            if !same_text(s, id.as_str()) {
                return None;
            }
        },
        None => {
            return None;
        },
    }
    let sig = match event.get_str("sig") {
        Some(s) => s.to_string(),
        None => {
            return None;
        },
    };
    match event.get_str("pubkey") {
        Some(s) => {
            if !same_text(s, author) {
                return None;
            }
        },
        None => {
            return None;
        },
    }
    match event.get_str("content") {
        Some(s) => {
            if !same_text(s, content) {
                return None;
            }
        },
        None => {
            return None;
        },
    }
    if !number_field_is_exec(event, "created_at", created_at) {
        return None;
    }
    if !number_field_is_exec(event, "kind", kind as u64) {
        return None;
    }
    match event.get("tags") {
        Some(list) => {
            if !json_is_tags_exec(list, &tags) {
                return None;
            }
        },
        None => {
            return None;
        },
    }
    Some(
        NativeSignResponse {
            id,
            pubkey: author.to_string(),
            created_at,
            kind: kind as u64,
            tags,
            content: content.to_string(),
            sig,
        },
    )
}

/// The text with which a signed event is refused that does not fit the
/// request.
pub open spec fn mismatch_text() -> Seq<char> {
    "Signed event does not match the request"@
}

/// Takes the outcome of a signing, the signed event as JSON text or the
/// signer's error, and reads the event back: a failure is handed on as it is,
/// a text that is no JSON fails with the parser's message, and an event is
/// returned exactly if it is by `author`, has the requested kind, content,
/// time and tags, and carries the canonical id.
pub fn accept_signed_event(
    signed: Result<String, String>,
    author: &str,
    kind: u16,
    content: &str,
    tags: Vec<Vec<String>>,
    created_at: u64,
) -> (r: Result<NativeSignResponse, String>)
    ensures
        match signed {
            Err(message) => r matches Err(e) && e@ == message@,
            Ok(text) => match json_parse_result(text@) {
                Err(message) => r matches Err(e) && e@ == message,
                Ok(event) => if event_matches(
                    event,
                    author@,
                    kind,
                    content@,
                    tags_view(tags@),
                    created_at,
                ) {
                    &&& r matches Ok(answer)
                    &&& answer.id@ == event_id_spec(
                        author@,
                        created_at,
                        kind,
                        tags_view(tags@),
                        content@,
                    )
                    &&& Some(answer.sig@) == event.text_field("sig"@)
                    &&& answer.pubkey@ == author@
                    &&& answer.created_at == created_at
                    &&& answer.kind == kind
                    &&& answer.content@ == content@
                    &&& tags_view(answer.tags@) == tags_view(tags@)
                } else {
                    r matches Err(e) && e@ == mismatch_text()
                },
            },
        },
{
    let text = match signed {
        Ok(text) => text,
        Err(message) => {
            return Err(message);
        },
    };
    let event = match parse_json(text.as_str()) {
        Ok(event) => event,
        Err(message) => {
            return Err(message);
        },
    };
    match read_signed_event(&event, author, kind, content, tags, created_at) {
        Some(answer) => Ok(answer),
        None => Err("Signed event does not match the request".to_string()),
    }
}

/// Signs an event with the session's keys. A request whose kind is no
/// sixteen-bit number or that holds an empty tag is refused before anything
/// is signed. A signed event carries the session's public key and the kind,
/// the content, the time and the tags of the request, all of them and in
/// their order, and its id is the canonical hash of these. Whatever the
/// signer hands back is read again and held against the request before it is
/// returned.
pub fn sign_event_native(keys: &KeyMaterial, req: &NativeSignRequest) -> (r: Result<
    NativeSignResponse,
    String,
>)
    ensures
        match sign_refusal(req.kind, tags_view(req.tags@)) {
            Some(reason) => r matches Err(e) && e@ == reason,
            None => r matches Ok(signed) ==> {
                &&& signed.pubkey@ == keys@.public_hex
                &&& signed.created_at == req.created_at
                &&& signed.kind == req.kind
                &&& signed.content@ == req.content@
                &&& tags_view(signed.tags@) == tags_view(req.tags@)
                &&& signed.id@ == event_id_spec(
                    keys@.public_hex,
                    req.created_at,
                    req.kind as u16,
                    tags_view(req.tags@),
                    req.content@,
                )
            },
        },
{
    if req.kind > 65535 {
        return Err("Event kind out of range".to_string());
    }
    if has_empty_tag_exec(&req.tags) {
        return Err("Event tag without a name".to_string());
    }
    let kind: u16 = req.kind as u16;
    let signed = sign_event_json(
        keys.secret_hex.expose(),
        kind,
        req.content.as_str(),
        &req.tags,
        req.created_at,
    );
    accept_signed_event(
        signed,
        keys.public_hex.as_str(),
        kind,
        req.content.as_str(),
        copy_tags(&req.tags),
        req.created_at,
    )
}

/// The text with which an envelope is refused that does not open again.
pub open spec fn unreadable_envelope_text() -> Seq<char> {
    "Encrypted content does not decrypt to the input"@
}

/// What becomes of the outcome `sealed` of an encryption of `content` for
/// `peer`: an envelope is handed on only if the keys that sealed it open it
/// to `content` again; a failure is handed on as it is.
pub open spec fn envelope_verdict(
    sealed: Result<String, String>,
    secret_hex: Seq<char>,
    peer: Seq<char>,
    content: Seq<char>,
) -> Result<Seq<char>, Seq<char>> {
    match sealed {
        Err(message) => Err(message@),
        Ok(envelope) => match nip04_decrypt_result(secret_hex, peer, envelope@) {
            Err(message) => Err(message),
            Ok(text) => if text == content {
                Ok(envelope@)
            } else {
                Err(unreadable_envelope_text())
            },
        },
    }
}

/// Takes the outcome of an encryption and holds the envelope against what
/// the same keys read out of it.
pub fn accept_envelope(
    sealed: Result<String, String>,
    keys: &KeyMaterial,
    public_key: &str,
    content: &str,
) -> (r: Result<String, String>)
    ensures
        text_result(r) == envelope_verdict(sealed, keys@.secret_hex, public_key@, content@),
{
    match sealed {
        Err(message) => Err(message),
        Ok(envelope) => {
            match nip04_decrypt(keys.secret_hex.expose(), public_key, envelope.as_str()) {
                Err(message) => Err(message),
                Ok(text) => {
                    if same_text(text.as_str(), content) {
                        Ok(envelope)
                    } else {
                        Err("Encrypted content does not decrypt to the input".to_string())
                    }
                },
            }
        },
    }
}

/// Encrypts `content` for `public_key` in the NIP-04 envelope. The envelope
/// is opened again with the same keys before it is returned, so that every
/// envelope that is handed out decrypts to `content`.
pub fn encrypt_nip04(keys: &KeyMaterial, public_key: &str, content: &str) -> (r: Result<
    String,
    String,
>)
    ensures
        r matches Ok(envelope) ==> nip04_decrypt_result(keys@.secret_hex, public_key@, envelope@)
            == Ok::<Seq<char>, Seq<char>>(content@),
{
    let sealed = nip04_encrypt(keys.secret_hex.expose(), public_key, content);
    accept_envelope(sealed, keys, public_key, content)
}

/// The view of a text or an error message.
pub open spec fn text_result(r: Result<String, String>) -> Result<Seq<char>, Seq<char>> {
    match r {
        Ok(text) => Ok(text@),
        Err(message) => Err(message@),
    }
}

/// Opens a NIP-04 envelope from `public_key`.
pub fn decrypt_nip04(keys: &KeyMaterial, public_key: &str, ciphertext: &str) -> (r: Result<
    String,
    String,
>)
    ensures
        text_result(r) == nip04_decrypt_result(keys@.secret_hex, public_key@, ciphertext@),
{
    nip04_decrypt(keys.secret_hex.expose(), public_key, ciphertext)
}

/// The session's secret key in hexadecimal.
pub fn get_session_nsec(keys: &KeyMaterial) -> (secret: SecretText)
    ensures
        secret@ == keys@.secret_hex,
{
    keys.secret_hex.duplicate()
}

/// What the secret store answered to a read.
#[derive(Debug)]
pub enum SecretStoreRead {
    /// The entry holds this secret.
    Found(String),
    NoEntry,
    /// The store failed with this message.
    Failed(String),
}

/// What the secret store answered to a deletion.
#[derive(Debug)]
pub enum SecretStoreDelete {
    Deleted,
    NoEntry,
    /// The store failed with this message.
    Failed(String),
}

/// The session's keys, if it has any. Without keys the secret store has to be
/// read and its answer handed to [`hydrate_session`].
pub fn ensure_session(session: &SessionState) -> (keys: Option<KeyMaterial>)
    ensures
        opt_keys(keys) == session@,
{
    session.get_keys()
}

/// What [`hydrate_session`] does for a session in the state `session` and the
/// store's answer `store`: a session with keys ignores the store; an empty
/// one takes the keys of a stored secret; no entry is no session.
pub open spec fn hydrate_spec(session: Option<KeyMaterialView>, store: SecretStoreRead) -> Result<
    KeyMaterialView,
    Seq<char>,
> {
    match session {
        Some(keys) => Ok(keys),
        None => match store {
            SecretStoreRead::Found(secret) => match set_keys_spec(secret@) {
                Ok(keys) => Ok(keys),
                Err(message) => Err("Failed to hydrate session from keychain: "@ + message),
            },
            SecretStoreRead::NoEntry => Err("No active native session and no key in keychain"@),
            SecretStoreRead::Failed(message) => Err(message@),
        },
    }
}

/// Fills an empty session from what the secret store answered and returns the
/// session's keys. The session holds keys afterwards exactly if the call
/// succeeds.
pub fn hydrate_session(session: &mut SessionState, store: SecretStoreRead) -> (r: Result<
    KeyMaterial,
    String,
>)
    ensures
        crate::keys::keys_view(r) == hydrate_spec(old(session)@, store),
        final(session)@ == (match hydrate_spec(old(session)@, store) {
            Ok(keys) => Some(keys),
            Err(_) => None,
        }),
{
    match session.get_keys() {
        Some(keys) => Ok(keys),
        None => match store {
            SecretStoreRead::Found(secret) => match derive_keys(secret.as_str()) {
                Ok(keys) => {
                    let copy = keys.duplicate();
                    session.install(keys);
                    Ok(copy)
                },
                Err(message) => Err(
                    concat2("Failed to hydrate session from keychain: ", message.as_str()),
                ),
            },
            SecretStoreRead::NoEntry => Err(
                "No active native session and no key in keychain".to_string(),
            ),
            SecretStoreRead::Failed(message) => Err(message),
        },
    }
}

/// The public key in hexadecimal for a session that could be had, and nothing
/// for one that could not.
pub fn get_native_npub(session: Result<KeyMaterial, String>) -> (public_key: Option<String>)
    ensures
        opt_text(public_key) == (match session {
            Ok(keys) => Some(keys@.public_hex),
            Err(_) => None,
        }),
{
    match session {
        Ok(keys) => Some(keys.public_hex),
        Err(_) => None,
    }
}

/// What an import does with the secret `nsec`: the secret has to be a secret
/// key in hexadecimal or bech32 form, and the session has to accept it.
pub open spec fn import_spec(nsec: Seq<char>) -> Result<KeyMaterialView, Seq<char>> {
    match keys_parse_result(nsec) {
        Err(message) => Err(message),
        Ok(_) => set_keys_spec(nsec),
    }
}

/// Imports a secret key: the session takes its keys, and the caller writes
/// `nsec` to the secret store. The answer is the public key in hexadecimal.
/// A refused secret changes nothing.
pub fn import_native_nsec(session: &mut SessionState, nsec: &str) -> (r: Result<String, String>)
    ensures
        match import_spec(nsec@) {
            Ok(keys) => r matches Ok(public_key) && public_key@ == keys.public_hex
                && final(session)@ == Some(keys),
            Err(message) => r matches Err(e) && e@ == message && final(session)@ == old(
                session,
            )@,
        },
{
    match keys_parse(nsec) {
        Err(message) => Err(message),
        Ok(_) => session.set_keys(nsec),
    }
}

/// A freshly generated key.
pub struct GeneratedKey {
    /// The secret key in bech32 form, for the secret store.
    pub nsec: SecretText,
    /// The public key in bech32 form.
    pub npub: String,
}

/// Makes a freshly generated key pair the session's. The caller writes the
/// secret to the secret store.
pub fn adopt_generated_keys(session: &mut SessionState, fresh: FreshKeys) -> (generated:
    GeneratedKey)
    ensures
        final(session)@ == Some(fresh.keys@),
        generated.npub@ == fresh.keys@.npub,
        generated.nsec@ == fresh.nsec@,
{
    let npub = fresh.keys.npub.clone();
    session.install(fresh.keys);
    GeneratedKey { nsec: fresh.nsec, npub }
}

/// Generates a key pair and makes it the session's, whatever the session held
/// before. The call always succeeds; the answer carries the public key of the
/// session's new keys in bech32 form and the secret for the secret store,
/// from which a later session derives the same keys.
pub fn generate_native_nsec(session: &mut SessionState) -> (r: Result<GeneratedKey, String>)
    ensures
        r matches Ok(generated) && final(session)@ matches Some(keys) && keys.npub
            == generated.npub@ && keys_parse_result(generated.nsec@) == Ok::<
            KeyMaterialView,
            Seq<char>,
        >(keys) && set_keys_spec(generated.nsec@) == Ok::<KeyMaterialView, Seq<char>>(keys),
{
    let fresh = generate_keys();
    Ok(adopt_generated_keys(session, fresh))
}

/// Ends the session. The caller deletes the secret store's entry and hands
/// the store's answer to [`logout_store_result`].
pub fn logout_native(session: &mut SessionState)
    ensures
        final(session)@ is None,
{
    session.clear();
}

/// The outcome of a logout: an entry that was not there is no error.
pub fn logout_store_result(store: SecretStoreDelete) -> (r: Result<(), String>)
    ensures
        match store {
            SecretStoreDelete::Deleted => r is Ok,
            SecretStoreDelete::NoEntry => r is Ok,
            SecretStoreDelete::Failed(message) => r matches Err(e) && e@ == message@,
        },
{
    match store {
        SecretStoreDelete::Deleted => Ok(()),
        SecretStoreDelete::NoEntry => Ok(()),
        SecretStoreDelete::Failed(message) => Err(message),
    }
}

/// The public key that `get_native_npub` answers for a session in the state
/// `session` when the secret store answers `store`.
pub open spec fn npub_spec(session: Option<KeyMaterialView>, store: SecretStoreRead) -> Option<
    Seq<char>,
> {
    match hydrate_spec(session, store) {
        Ok(keys) => Some(keys.public_hex),
        Err(_) => None,
    }
}

/// After an import the public key of the session is the one derived from the
/// imported secret, whatever the secret store holds.
pub proof fn lemma_import_then_npub(nsec: Seq<char>, store: SecretStoreRead)
    requires
        import_spec(nsec) is Ok,
    ensures
        keys_parse_result(nsec) is Ok,
        set_keys_spec(nsec) == import_spec(nsec),
        npub_spec(Some(import_spec(nsec)->Ok_0), store) == Some(import_spec(nsec)->Ok_0.public_hex),
{
}

/// A cold start after a key was generated gives the generated keys again: the
/// secret that went to the store hydrates an empty session with the keys
/// that the generating session held.
pub proof fn lemma_generated_secret_hydrates(keys: KeyMaterialView, nsec: String)
    requires
        set_keys_spec(nsec@) == Ok::<KeyMaterialView, Seq<char>>(keys),
    ensures
        hydrate_spec(None, SecretStoreRead::Found(nsec)) == Ok::<KeyMaterialView, Seq<char>>(keys),
        npub_spec(None, SecretStoreRead::Found(nsec)) == Some(keys.public_hex),
{
}

/// After a logout, which empties the session and deletes the store's entry,
/// there is no session and no public key.
pub proof fn lemma_logout_then_no_session()
    ensures
        hydrate_spec(None, SecretStoreRead::NoEntry) is Err,
        npub_spec(None, SecretStoreRead::NoEntry) is None,
{
}

} // verus!
