//! JSON values as plain data, and the reading of JSON text.

use vstd::prelude::*;
use crate::text::same_text;

verus! {

/// A JSON value. A number is kept as the text of its numeral; the members of
/// an object are kept in the order in which the parsed document yields them.
pub enum Json {
    Null,
    Bool(bool),
    Number(String),
    Text(String),
    Array(Vec<Json>),
    Object(Vec<(String, Json)>),
}

/// The value of the first member named `key` among `members`.
pub open spec fn lookup(members: Seq<(String, Json)>, key: Seq<char>) -> Option<Json>
    decreases members.len(),
{
    if members.len() == 0 {
        None
    } else if members[0].0@ == key {
        Some(members[0].1)
    } else {
        lookup(members.drop_first(), key)
    }
}

/// The names of `members`, in order.
pub open spec fn names(members: Seq<(String, Json)>) -> Seq<Seq<char>> {
    Seq::new(members.len(), |i: int| members[i].0@)
}

/// Looking up among `members` with one more at the end: the new member is
/// found where no earlier one has the name.
pub proof fn lemma_lookup_push(members: Seq<(String, Json)>, last: (String, Json), key: Seq<char>)
    ensures
        lookup(members.push(last), key) == (if lookup(members, key) is Some {
            lookup(members, key)
        } else if last.0@ == key {
            Some(last.1)
        } else {
            None
        }),
    decreases members.len(),
{
    let all = members.push(last);
    if members.len() == 0 {
        assert(all.drop_first() =~= members);
    } else {
        assert(all[0] == members[0]);
        assert(all.drop_first() =~= members.drop_first().push(last));
        lemma_lookup_push(members.drop_first(), last, key);
    }
}

/// Looks up the first member named `key`.
fn find<'a>(members: &'a Vec<(String, Json)>, key: &str) -> (r: Option<&'a Json>)
    ensures
        match r {
            Some(j) => lookup(members@, key@) == Some(*j),
            None => lookup(members@, key@) is None,
        },
{
    let mut i: usize = 0;
    assert(members@.skip(0) =~= members@);
    while i < members.len()
        invariant
            i <= members.len(),
            lookup(members@, key@) == lookup(members@.skip(i as int), key@),
        decreases members.len() - i,
    {
        assert(members@.skip(i as int)[0] == members@[i as int]);
        if same_text(members[i].0.as_str(), key) {
            return Some(&members[i].1);
        }
        assert(members@.skip(i as int).drop_first() =~= members@.skip(i + 1));
        i += 1;
    }
    None
}

impl Json {
    /// The member named `key`, where this is an object that has one.
    pub open spec fn member(self, key: Seq<char>) -> Option<Json> {
        match self {
            Json::Object(members) => lookup(members@, key),
            _ => None,
        }
    }

    /// The names of the members, where this is an object.
    pub open spec fn member_names(self) -> Seq<Seq<char>> {
        match self {
            Json::Object(members) => names(members@),
            _ => Seq::empty(),
        }
    }

    /// The characters of this value, where it is a string.
    pub open spec fn text(self) -> Option<Seq<char>> {
        match self {
            Json::Text(s) => Some(s@),
            _ => None,
        }
    }

    /// The elements of this value, where it is an array.
    pub open spec fn items(self) -> Option<Seq<Json>> {
        match self {
            Json::Array(v) => Some(v@),
            _ => None,
        }
    }

    /// Looks up the member named `key`.
    pub fn get(&self, key: &str) -> (r: Option<&Json>)
        ensures
            match r {
                Some(j) => self.member(key@) == Some(*j),
                None => self.member(key@) is None,
            },
    {
        match self {
            Json::Object(members) => find(members, key),
            _ => None,
        }
    }

    /// The string that this value holds, if it is one.
    pub fn as_text(&self) -> (r: Option<&str>)
        ensures
            match r {
                Some(s) => self.text() == Some(s@),
                None => self.text() is None,
            },
    {
        match self {
            Json::Text(s) => Some(s.as_str()),
            _ => None,
        }
    }

    /// The elements that this value holds, if it is an array.
    pub fn as_array(&self) -> (r: Option<&Vec<Json>>)
        ensures
            match r {
                Some(v) => self.items() == Some(v@),
                None => self.items() is None,
            },
    {
        match self {
            Json::Array(v) => Some(v),
            _ => None,
        }
    }

    /// Whether this value is an object.
    pub fn is_object(&self) -> (r: bool)
        ensures
            r == (self is Object),
    {
        match self {
            Json::Object(_) => true,
            _ => false,
        }
    }
}

/// `serde_json::Value`, carried from the parser to `unpack`.
#[verifier::external_type_specification]
#[verifier::external_body]
pub struct ExValue(serde_json::Value);

/// `serde_json::Error`, carried from the parser to `error_text`.
#[verifier::external_type_specification]
#[verifier::external_body]
pub struct ExError(serde_json::Error);

/// The value that `serde_json` reads out of `bytes` as one JSON document;
/// `None` where it reads none: the bytes are no JSON text, or they nest
/// deeper or hold larger numbers than it accepts.
pub uninterp spec fn document(bytes: Seq<u8>) -> Option<Json>;

/// What a parsed value holds, as plain data.
pub uninterp spec fn model(value: serde_json::Value) -> Json;

/// `serde_json::from_slice` at type `serde_json::Value`: the same bytes
/// always give the same outcome, which `document` names.
#[verifier::external_body]
fn read_value(bytes: &[u8]) -> (r: Result<serde_json::Value, serde_json::Error>)
    ensures
        match r {
            Ok(v) => document(bytes@) == Some(model(v)),
            Err(_) => document(bytes@) is None,
        },
{
    serde_json::from_slice::<serde_json::Value>(bytes)
}

/// Moves the contents of a `serde_json::Value` into a `Json`, variant by
/// variant; a number becomes the text that `serde_json::Number` displays.
#[verifier::external_body]
fn unpack(value: serde_json::Value) -> (j: Json)
    ensures
        j == model(value),
{
    match value {
        serde_json::Value::Null => Json::Null,
        serde_json::Value::Bool(b) => Json::Bool(b),
        serde_json::Value::Number(n) => Json::Number(n.to_string()),
        serde_json::Value::String(s) => Json::Text(s),
        serde_json::Value::Array(a) => Json::Array(a.into_iter().map(unpack).collect()),
        serde_json::Value::Object(o) => Json::Object(o.into_iter().map(|(k, v)| (k, unpack(v))).collect()),
    }
}

/// The message that a `serde_json::Error` displays.
#[verifier::external_body]
fn error_text(error: &serde_json::Error) -> (r: String)
{
    error.to_string()
}

/// Reads a JSON document. The error is the parser's message.
pub fn parse(bytes: &[u8]) -> (r: Result<Json, String>)
    ensures
        match r {
            Ok(j) => document(bytes@) == Some(j),
            Err(_) => document(bytes@) is None,
        },
{
    match read_value(bytes) {
        Ok(v) => Ok(unpack(v)),
        Err(e) => Err(error_text(&e)),
    }
}

} // verus!
