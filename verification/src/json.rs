//! JSON values, and the JSON text that the channel exchanges with a ship.

use vstd::prelude::*;
use serde_json::Value;
use serde_json::Error as JsonError;
use crate::text::{decimal, decimal_chars, hex_char, push_chars};

verus! {

/// A JSON document as `serde_json` holds it; the library carries it through unread.
#[verifier::external_type_specification]
#[verifier::external_body]
pub struct ExValue(Value);

/// `Clone` of a JSON value (derived in `serde_json`): claims the copy equals the value it was made from.
pub assume_specification[ <Value as Clone>::clone ](v: &Value) -> (r: Value)
    ensures
        r == *v,
;

/// How JSON writes one character inside a string: `"` and `\` behind a
/// backslash, the control characters with a short escape where JSON has one and
/// as `\u00XX` (lower-case hexadecimal) otherwise, every other character as itself.
pub open spec fn json_escape(c: char) -> Seq<char> {
    if c == '"' {
        seq!['\\', '"']
    } else if c == '\\' {
        seq!['\\', '\\']
    } else if c == '\u{8}' {
        seq!['\\', 'b']
    } else if c == '\u{c}' {
        seq!['\\', 'f']
    } else if c == '\n' {
        seq!['\\', 'n']
    } else if c == '\r' {
        seq!['\\', 'r']
    } else if c == '\t' {
        seq!['\\', 't']
    } else if (c as u32) < 32 {
        seq!['\\', 'u', '0', '0', hex_char(((c as u32) / 16) as u8), hex_char(((c as u32) % 16) as u8)]
    } else {
        seq![c]
    }
}

/// The escaped characters of `s`, in order.
pub open spec fn json_escaped(s: Seq<char>) -> Seq<char>
    decreases s.len(),
{
    if s.len() == 0 {
        Seq::empty()
    } else {
        json_escaped(s.drop_last()) + json_escape(s.last())
    }
}

/// `s` as a JSON string literal.
pub open spec fn json_quoted(s: Seq<char>) -> Seq<char> {
    seq!['"'] + json_escaped(s) + seq!['"']
}

/// `serde_json::to_string` of a string: claims the JSON string literal that
/// `json_quoted` describes (serializing a string into memory does not fail).
#[verifier::external_body]
fn json_string_literal(s: &str) -> (r: String)
    ensures
        r@ == json_quoted(s@),
{
    match serde_json::to_string(s) {
        Ok(t) => t,
        Err(_) => String::new(),
    }
}

/// The JSON text that `serde_json::to_string` writes for the value `v`.
pub uninterp spec fn value_text(v: Value) -> Seq<char>;

/// `serde_json::to_string` of a JSON value: claims that it succeeds (the keys
/// of a JSON object are strings and writing into memory does not fail) and
/// gives the text that `value_text` names for `v`.
#[verifier::external_body]
fn json_value_text(v: &Value) -> (r: Result<String, JsonError>)
    ensures
        r is Ok,
        r matches Ok(t) ==> t@ == value_text(*v),
{
    serde_json::to_string(v)
}

/// The members of the JSON value `v` in the order `serde_json`'s map walks
/// them, each key with its value, when `v` is an object; `None` otherwise.
pub uninterp spec fn object_entries(v: Value) -> Option<Seq<(Seq<char>, Value)>>;

/// `Value::as_object`, with the map's members copied out in the order its
/// iterator gives them: claims the entries that `object_entries` names.
#[verifier::external_body]
fn json_object_entries(v: &Value) -> (r: Option<Vec<(String, Value)>>)
    ensures
        match r {
            Some(es) => object_entries(*v) == Some(
                es@.map_values(|e: (String, Value)| (e.0@, e.1)),
            ),
            None => object_entries(*v) is None,
        },
{
    match v.as_object() {
        Some(map) => Some(map.iter().map(|(k, x)| (k.clone(), x.clone())).collect()),
        None => None,
    }
}

/// The query of a scry with the parameters `params`: for a JSON object, each
/// member as its key and its value written as compact JSON text (as `Display`
/// of a JSON value writes it); `None` when `params` is not an object.
pub fn scry_query(params: &Value) -> (r: Option<Vec<(String, String)>>)
    ensures
        match object_entries(*params) {
            Some(es) => r matches Some(q) && q@.len() == es.len() && forall|i: int|
                0 <= i < es.len() ==> (#[trigger] q@[i]).0@ == es[i].0 && q@[i].1@ == value_text(
                    es[i].1,
                ),
            None => r is None,
        },
{
    match json_object_entries(params) {
        Some(entries) => {
            let ghost es = entries@.map_values(|e: (String, Value)| (e.0@, e.1));
            let mut q: Vec<(String, String)> = Vec::new();
            let n = entries.len();
            for i in 0..n
                invariant
                    n == entries@.len(),
                    es == entries@.map_values(|e: (String, Value)| (e.0@, e.1)),
                    q@.len() == i,
                    forall|j: int|
                        0 <= j < i ==> (#[trigger] q@[j]).0@ == es[j].0 && q@[j].1@ == value_text(
                            es[j].1,
                        ),
            {
                let key = entries[i].0.clone();
                let text = match json_value_text(&entries[i].1) {
                    Ok(t) => t,
                    Err(_) => String::new(),
                };
                q.push((key, text));
            }
            Some(q)
        },
        None => None,
    }
}

/// The fields of a channel message that decide where it goes.
#[derive(Debug)]
pub struct ChannelReply {
    /// The `"response"` member, when it is a string.
    pub response: Option<String>,
    /// The `"id"` member, when it is an unsigned integer that fits in a `u64`.
    pub id: Option<u64>,
    /// Whether there is an `"ok"` member.
    pub has_ok: bool,
    /// The `"err"` member, when it is a string.
    pub err: Option<String>,
}

pub struct ChannelReplyView {
    pub response: Option<Seq<char>>,
    pub id: Option<u64>,
    pub has_ok: bool,
    pub err: Option<Seq<char>>,
}

impl View for ChannelReply {
    type V = ChannelReplyView;

    open spec fn view(&self) -> ChannelReplyView {
        ChannelReplyView {
            response: match self.response {
                Some(t) => Some(t@),
                None => None,
            },
            id: self.id,
            has_ok: self.has_ok,
            err: match self.err {
                Some(t) => Some(t@),
                None => None,
            },
        }
    }
}

/// What `serde_json::from_str::<Value>` makes of `text`: the JSON value it
/// reads, or `None` when `text` is not a JSON document.
pub uninterp spec fn json_value_of(text: Seq<char>) -> Option<Value>;

/// Whether `text` is a JSON document.
pub open spec fn is_json(text: Seq<char>) -> bool {
    json_value_of(text) is Some
}

/// The member `key` of the JSON document `text`, when `text` is a JSON object
/// with that member and the member is a string.
pub uninterp spec fn member_str(text: Seq<char>, key: Seq<char>) -> Option<Seq<char>>;

/// The member `key` of the JSON document `text`, when `text` is a JSON object
/// with that member and the member is an integer that fits in a `u64`.
pub uninterp spec fn member_u64(text: Seq<char>, key: Seq<char>) -> Option<u64>;

/// Whether the JSON document `text` is an object with the member `key`.
pub uninterp spec fn has_member(text: Seq<char>, key: Seq<char>) -> bool;

/// `serde_json::from_str::<Value>`: claims the value that `json_value_of`
/// names for `text`, `None` where that is an error.
#[verifier::external_body]
fn parse_json(text: &str) -> (r: Option<Value>)
    ensures
        r == json_value_of(text@),
{
    match serde_json::from_str::<Value>(text) {
        Ok(v) => Some(v),
        Err(_) => None,
    }
}

/// `serde_json::from_str::<Value>(text)`, then `Value::get(key)` read with
/// `Value::as_str`: claims the string that `member_str` names.
#[verifier::external_body]
fn json_member_str(text: &str, key: &str) -> (r: Option<String>)
    ensures
        match r {
            Some(t) => member_str(text@, key@) == Some(t@),
            None => member_str(text@, key@) is None,
        },
{
    match serde_json::from_str::<Value>(text) {
        Ok(v) => match v.get(key) {
            Some(m) => match m.as_str() {
                Some(t) => Some(t.to_string()),
                None => None,
            },
            None => None,
        },
        Err(_) => None,
    }
}

/// `serde_json::from_str::<Value>(text)`, then `Value::get(key)` read with
/// `Value::as_u64`: claims the number that `member_u64` names.
#[verifier::external_body]
fn json_member_u64(text: &str, key: &str) -> (r: Option<u64>)
    ensures
        r == member_u64(text@, key@),
{
    match serde_json::from_str::<Value>(text) {
        Ok(v) => match v.get(key) {
            Some(m) => m.as_u64(),
            None => None,
        },
        Err(_) => None,
    }
}

/// `serde_json::from_str::<Value>(text)`, then whether `Value::get(key)` finds
/// a member: claims what `has_member` names.
#[verifier::external_body]
fn json_has_member(text: &str, key: &str) -> (r: bool)
    ensures
        r == has_member(text@, key@),
{
    match serde_json::from_str::<Value>(text) {
        Ok(v) => v.get(key).is_some(),
        Err(_) => false,
    }
}

/// The routing fields of the JSON document `text`, or `None` when `text` is
/// not JSON: the string member `"response"`, the integer member `"id"`,
/// whether there is a member `"ok"`, and the string member `"err"`.
pub open spec fn channel_reply_of(text: Seq<char>) -> Option<ChannelReplyView> {
    if is_json(text) {
        Some(
            ChannelReplyView {
                response: member_str(text, "response"@),
                id: member_u64(text, "id"@),
                has_ok: has_member(text, "ok"@),
                err: member_str(text, "err"@),
            },
        )
    } else {
        None
    }
}

/// Reads the channel message `text`: its JSON value and its routing fields,
/// or `None` when it is not JSON.
pub fn read_channel_reply(text: &str) -> (r: Option<(Value, ChannelReply)>)
    ensures
        match r {
            Some((v, reply)) => {
                &&& json_value_of(text@) == Some(v)
                &&& channel_reply_of(text@) == Some(reply@)
            },
            None => channel_reply_of(text@) is None,
        },
{
    match parse_json(text) {
        Some(v) => {
            let reply = ChannelReply {
                response: json_member_str(text, "response"),
                id: json_member_u64(text, "id"),
                has_ok: json_has_member(text, "ok"),
                err: json_member_str(text, "err"),
            };
            Some((v, reply))
        },
        None => None,
    }
}

/// `s` as a JSON string literal.
pub fn quote(s: &str) -> (r: String)
    ensures
        r@ == json_quoted(s@),
{
    json_string_literal(s)
}

/// The channel message that pokes `app` on `ship` with `json` (the JSON text of
/// the poke), as the one-element array the channel expects.
pub open spec fn poke_frame(
    id: u32,
    ship: Seq<char>,
    app: Seq<char>,
    mark: Seq<char>,
    json: Seq<char>,
) -> Seq<char> {
    "[{\"action\":\"poke\",\"app\":"@ + json_quoted(app) + ",\"id\":"@ + decimal(id as nat)
        + ",\"json\":"@ + json + ",\"mark\":"@ + json_quoted(mark) + ",\"ship\":"@ + json_quoted(
        ship,
    ) + "}]"@
}

/// The channel message that subscribes to `path` of `app` on `ship`.
pub open spec fn subscribe_frame(
    id: u32,
    ship: Seq<char>,
    app: Seq<char>,
    path: Seq<char>,
) -> Seq<char> {
    "[{\"action\":\"subscribe\",\"app\":"@ + json_quoted(app) + ",\"id\":"@ + decimal(id as nat)
        + ",\"path\":"@ + json_quoted(path) + ",\"ship\":"@ + json_quoted(ship) + "}]"@
}

/// The channel message that ends the subscription `subscription`.
pub open spec fn unsubscribe_frame(id: u32, subscription: u32) -> Seq<char> {
    "[{\"action\":\"unsubscribe\",\"id\":"@ + decimal(id as nat) + ",\"subscription\":"@ + decimal(
        subscription as nat,
    ) + "}]"@
}

/// The channel message that deletes the channel.
pub open spec fn delete_frame(id: u32) -> Seq<char> {
    "[{\"action\":\"delete\",\"id\":"@ + decimal(id as nat) + "}]"@
}

fn push_decimal(s: &mut String, n: u32)
    ensures
        final(s)@ == old(s)@ + decimal(n as nat),
{
    let d = decimal_chars(n as u64);
    push_chars(s, &d);
}

/// The channel message that pokes `app` on `ship` with the JSON text `json`.
pub fn poke_payload(id: u32, ship: &str, app: &str, mark: &str, json: &str) -> (r: String)
    ensures
        r@ == poke_frame(id, ship@, app@, mark@, json@),
{
    let mut s = String::new();
    s.append("[{\"action\":\"poke\",\"app\":");
    s.append(quote(app).as_str());
    s.append(",\"id\":");
    push_decimal(&mut s, id);
    s.append(",\"json\":");
    s.append(json);
    s.append(",\"mark\":");
    s.append(quote(mark).as_str());
    s.append(",\"ship\":");
    s.append(quote(ship).as_str());
    s.append("}]");
    s
}

/// The channel message that pokes `app` on `ship` with the JSON value `json`,
/// written as JSON text.
pub fn poke_value_payload(id: u32, ship: &str, app: &str, mark: &str, json: &Value) -> (r: Result<
    String,
    JsonError,
>)
    ensures
        r is Ok,
        r matches Ok(t) ==> t@ == poke_frame(id, ship@, app@, mark@, value_text(*json)),
{
    match json_value_text(json) {
        Ok(text) => Ok(poke_payload(id, ship, app, mark, text.as_str())),
        Err(e) => Err(e),
    }
}

/// The channel message that subscribes to `path` of `app` on `ship`.
pub fn subscribe_payload(id: u32, ship: &str, app: &str, path: &str) -> (r: String)
    ensures
        r@ == subscribe_frame(id, ship@, app@, path@),
{
    let mut s = String::new();
    s.append("[{\"action\":\"subscribe\",\"app\":");
    s.append(quote(app).as_str());
    s.append(",\"id\":");
    push_decimal(&mut s, id);
    s.append(",\"path\":");
    s.append(quote(path).as_str());
    s.append(",\"ship\":");
    s.append(quote(ship).as_str());
    s.append("}]");
    s
}

/// The channel message that ends the subscription `subscription`.
pub fn unsubscribe_payload(id: u32, subscription: u32) -> (r: String)
    ensures
        r@ == unsubscribe_frame(id, subscription),
{
    let mut s = String::new();
    s.append("[{\"action\":\"unsubscribe\",\"id\":");
    push_decimal(&mut s, id);
    s.append(",\"subscription\":");
    push_decimal(&mut s, subscription);
    s.append("}]");
    s
}

/// The channel message that deletes the channel.
pub fn delete_payload(id: u32) -> (r: String)
    ensures
        r@ == delete_frame(id),
{
    let mut s = String::new();
    s.append("[{\"action\":\"delete\",\"id\":");
    push_decimal(&mut s, id);
    s.append("}]");
    s
}

} // verus!
