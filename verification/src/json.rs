//! JSON as the backend sees it: a tree of plain values for the documents it
//! reads, and compact text for the payloads it only carries.
//!
//! Parsing and printing are done by `serde_json`; what this module proves is
//! the reading of a parsed tree.

use vstd::prelude::*;

verus! {

/// A parsed JSON document.
///
/// A number is kept as the decimal text that `serde_json` prints for it. The
/// entries of an object have distinct keys, in the order of `serde_json`'s map.
#[derive(Debug)]
pub enum Json {
    Null,
    Bool(bool),
    Number(String),
    Text(String),
    Array(Vec<Json>),
    Object(Vec<(String, Json)>),
}

#[verifier::external_type_specification]
#[verifier::external_body]
pub struct ExJsonValue(serde_json::Value);

/// The tree that `serde_json::from_str::<serde_json::Value>` reads from
/// `text`, or the message of the error that it reports.
pub uninterp spec fn json_parse_result(text: Seq<char>) -> Result<Json, Seq<char>>;

/// The compact text that `serde_json` prints for the value it reads from
/// `text`, or `None` where `text` is not one JSON value.
pub uninterp spec fn json_canonical(text: Seq<char>) -> Option<Seq<char>>;

/// The lower-case hexadecimal digit of `n`.
pub open spec fn hex_digit(n: nat) -> char {
    if n < 10 {
        (('0' as u8) + (n as u8)) as char
    } else {
        (('a' as u8) + ((n - 10) as u8)) as char
    }
}

/// How one character stands inside a JSON string literal: the quote and the
/// backslash behind a backslash, the control characters below the space as
/// their short escape or as `\u00` and two hexadecimal digits, every other
/// character as it is.
pub open spec fn escape_char(c: char) -> Seq<char> {
    if c == '"' {
        seq!['\\', '"']
    } else if c == '\\' {
        seq!['\\', '\\']
    } else if c == '\u{8}' {
        seq!['\\', 'b']
    } else if c == '\t' {
        seq!['\\', 't']
    } else if c == '\n' {
        seq!['\\', 'n']
    } else if c == '\u{c}' {
        seq!['\\', 'f']
    } else if c == '\r' {
        seq!['\\', 'r']
    } else if (c as u32) < 0x20 {
        seq!['\\', 'u', '0', '0', hex_digit((c as nat) / 16), hex_digit((c as nat) % 16)]
    } else {
        seq![c]
    }
}

/// The characters of `text` as they stand inside a JSON string literal.
pub open spec fn escaped(text: Seq<char>) -> Seq<char>
    decreases text.len(),
{
    if text.len() == 0 {
        Seq::empty()
    } else {
        escaped(text.drop_last()) + escape_char(text.last())
    }
}

/// The JSON string literal for the string `text`: the escaped characters
/// between two quotes.
pub open spec fn json_string_literal(text: Seq<char>) -> Seq<char> {
    seq!['"'] + escaped(text) + seq!['"']
}

/// A character that stands in a JSON string literal as it is.
pub open spec fn is_plain(c: char) -> bool {
    c != '"' && c != '\\' && (c as u32) >= 0x20
}

/// A text without quotes, backslashes and control characters stands in its
/// literal as it is.
pub proof fn lemma_literal_of_plain_text(text: Seq<char>)
    requires
        forall|i: int| 0 <= i < text.len() ==> is_plain(#[trigger] text[i]),
    ensures
        escaped(text) == text,
        json_string_literal(text) == seq!['"'] + text + seq!['"'],
    decreases text.len(),
{
    if text.len() > 0 {
        let front = text.drop_last();
        assert forall|i: int| 0 <= i < front.len() implies is_plain(#[trigger] front[i]) by {
            assert(front[i] == text[i]);
        }
        lemma_literal_of_plain_text(front);
        assert(is_plain(text.last()));
        assert(escape_char(text.last()) =~= seq![text.last()]);
        assert(front + seq![text.last()] =~= text);
    }
}

/// Copies a `serde_json::Value` into a [`Json`], variant by variant: a number
/// through `Number`'s `Display`, array items and object entries through their
/// iterators. Nothing is claimed of the result here; `parse_json` names it.
#[verifier::external_body]
fn json_from_value(value: &serde_json::Value) -> (json: Json) {
    match value {
        serde_json::Value::Null => Json::Null,
        serde_json::Value::Bool(b) => Json::Bool(*b),
        serde_json::Value::Number(n) => Json::Number(n.to_string()),
        serde_json::Value::String(s) => Json::Text(s.clone()),
        serde_json::Value::Array(items) => Json::Array(items.iter().map(json_from_value).collect()),
        serde_json::Value::Object(map) => Json::Object(
            map.iter().map(|(k, v)| (k.clone(), json_from_value(v))).collect(),
        ),
    }
}

/// Calls `serde_json::from_str::<serde_json::Value>` on `text`. An `Ok` holds
/// the value that was read, copied into a [`Json`]; an `Err` holds the
/// message of `serde_json`'s error. The contract only names the outcome.
#[verifier::external_body]
pub(crate) fn parse_json(text: &str) -> (r: Result<Json, String>)
    ensures
        match r {
            Ok(json) => json_parse_result(text@) == Ok::<Json, Seq<char>>(json),
            Err(message) => json_parse_result(text@) == Err::<Json, Seq<char>>(message@),
        },
{
    match serde_json::from_str::<serde_json::Value>(text) {
        Ok(value) => Ok(json_from_value(&value)),
        Err(error) => Err(error.to_string()),
    }
}

/// Calls `serde_json::from_str::<serde_json::Value>` on `text` and prints the
/// value with `Value`'s `Display`, which writes compact JSON. The contract
/// only names the outcome.
#[verifier::external_body]
pub(crate) fn canonical_json(text: &str) -> (r: Option<String>)
    ensures
        match r {
            Some(compact) => json_canonical(text@) == Some(compact@),
            None => json_canonical(text@) is None,
        },
{
    match serde_json::from_str::<serde_json::Value>(text) {
        Ok(value) => Some(value.to_string()),
        Err(_) => None,
    }
}

/// Prints `serde_json::Value::String(text)` with `Value`'s `Display`, which
/// writes the string between quotes and escapes the quote, the backslash and
/// the control characters below the space. The contract states that rule.
#[verifier::external_body]
pub(crate) fn quote_json(text: &str) -> (r: String)
    ensures
        r@ == json_string_literal(text@),
{
    serde_json::Value::String(text.to_owned()).to_string()
}

/// The value under `key` in a list of object entries: that of the first entry
/// with this key.
pub open spec fn lookup(entries: Seq<(String, Json)>, key: Seq<char>) -> Option<Json>
    decreases entries.len(),
{
    if entries.len() == 0 {
        None
    } else if entries[0].0@ == key {
        Some(entries[0].1)
    } else {
        lookup(entries.drop_first(), key)
    }
}

impl Json {
    /// Reads `text` as one JSON document. The error is the parser's message.
    pub fn parse(text: &str) -> (r: Result<Json, String>)
        ensures
            match r {
                Ok(json) => json_parse_result(text@) == Ok::<Json, Seq<char>>(json),
                Err(message) => json_parse_result(text@) == Err::<Json, Seq<char>>(message@),
            },
    {
        parse_json(text)
    }

    /// The member `key` of an object; `None` for a missing key and for every
    /// value that is no object.
    pub open spec fn field(self, key: Seq<char>) -> Option<Json> {
        match self {
            Json::Object(entries) => lookup(entries@, key),
            _ => None,
        }
    }

    /// The characters of a string value.
    pub open spec fn text(self) -> Option<Seq<char>> {
        match self {
            Json::Text(s) => Some(s@),
            _ => None,
        }
    }

    /// The items of an array value.
    pub open spec fn items(self) -> Option<Seq<Json>> {
        match self {
            Json::Array(items) => Some(items@),
            _ => None,
        }
    }

    /// The characters of the string member `key`, if the value is an object
    /// that has such a member and the member is a string.
    pub open spec fn text_field(self, key: Seq<char>) -> Option<Seq<char>> {
        match self.field(key) {
            Some(member) => member.text(),
            None => None,
        }
    }

    /// The member `key` of an object.
    pub fn get(&self, key: &str) -> (r: Option<&Json>)
        ensures
            match r {
                Some(member) => self.field(key@) == Some(*member),
                None => self.field(key@) is None,
            },
    {
        match self {
            Json::Object(entries) => {
                let wanted = key.to_string();
                let mut i: usize = 0;
                assert(entries@.subrange(0, entries@.len() as int) =~= entries@);
                while i < entries.len()
                    invariant
                        i <= entries.len(),
                        wanted@ == key@,
                        self.field(key@) == lookup(entries@, key@),
                        lookup(entries@, key@) == lookup(
                            entries@.subrange(i as int, entries@.len() as int),
                            key@,
                        ),
                    decreases entries.len() - i,
                {
                    let ghost rest = entries@.subrange(i as int, entries@.len() as int);
                    assert(rest[0] == entries@[i as int]);
                    if entries[i].0 == wanted {
                        assert(lookup(rest, key@) == Some(rest[0].1));
                        return Some(&entries[i].1);
                    }
                    assert(rest.drop_first() =~= entries@.subrange(
                        i as int + 1,
                        entries@.len() as int,
                    ));
                    i = i + 1;
                }
                None
            },
            _ => None,
        }
    }

    /// The characters of a string value.
    pub fn as_str(&self) -> (r: Option<&str>)
        ensures
            match r {
                Some(s) => self.text() == Some(s@),
                None => self.text() is None,
            },
    {
        match self {
            Json::Text(s) => Some(s.as_str()),
            _ => None,
        }
    }

    /// The items of an array value.
    pub fn as_array(&self) -> (r: Option<&Vec<Json>>)
        ensures
            match r {
                Some(items) => self.items() == Some(items@),
                None => self.items() is None,
            },
    {
        match self {
            Json::Array(items) => Some(items),
            _ => None,
        }
    }

    /// The characters of the string member `key`.
    pub fn get_str(&self, key: &str) -> (r: Option<&str>)
        ensures
            match r {
                Some(s) => self.text_field(key@) == Some(s@),
                None => self.text_field(key@) is None,
            },
    {
        match self.get(key) {
            Some(member) => member.as_str(),
            None => None,
        }
    }

    /// Takes the member `key` out of an object.
    pub fn into_field(self, key: &str) -> (r: Option<Json>)
        ensures
            r == self.field(key@),
    {
        let ghost found = self.field(key@);
        match self {
            Json::Object(entries) => {
                let wanted = key.to_string();
                let mut entries = entries;
                let ghost all = entries@;
                let mut i: usize = 0;
                assert(all.subrange(0, all.len() as int) =~= all);
                while i < entries.len()
                    invariant
                        i <= entries.len(),
                        wanted@ == key@,
                        entries@ == all,
                        found == self.field(key@),
                        found == lookup(all, key@),
                        lookup(all, key@) == lookup(all.subrange(i as int, all.len() as int), key@),
                    decreases entries.len() - i,
                {
                    let ghost rest = all.subrange(i as int, all.len() as int);
                    assert(rest[0] == all[i as int]);
                    if entries[i].0 == wanted {
                        assert(lookup(rest, key@) == Some(rest[0].1));
                        let taken = entries.swap_remove(i);
                        return Some(taken.1);
                    }
                    assert(rest.drop_first() =~= all.subrange(i as int + 1, all.len() as int));
                    i = i + 1;
                }
                None
            },
            _ => None,
        }
    }
}

} // verus!
