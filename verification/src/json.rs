//! A JSON document as a tree of plain values.

use crate::error::Error;
use vstd::prelude::*;

verus! {

/// One JSON value.
///
/// A number that is not an integer in the range of `i64` keeps only its
/// source text: no field of the service's responses reads such a number.
#[derive(Debug)]
pub enum Json {
    Null,
    Bool(bool),
    Int(i64),
    Number(String),
    Text(String),
    Array(Vec<Json>),
    Object(Vec<(String, Json)>),
}

#[verifier::external_type_specification]
#[verifier::external_body]
pub struct ExValue(serde_json::Value);

/// The value of the first member of `members` named `key`.
pub open spec fn member(members: Seq<(String, Json)>, key: Seq<char>) -> Option<Json>
    decreases members.len(),
{
    if members.len() == 0 {
        None
    } else if members[0].0@ == key {
        Some(members[0].1)
    } else {
        member(members.drop_first(), key)
    }
}

/// The text of `value`, where it is a string.
pub open spec fn text_of(value: Option<Json>) -> Option<Seq<char>> {
    match value {
        Some(Json::Text(s)) => Some(s@),
        _ => None,
    }
}

/// The integer `value`, where it is one.
pub open spec fn int_of(value: Option<Json>) -> Option<i64> {
    match value {
        Some(Json::Int(i)) => Some(i),
        _ => None,
    }
}

/// The items of `value`, where it is an array.
pub open spec fn items_of(value: Option<Json>) -> Option<Seq<Json>> {
    match value {
        Some(Json::Array(items)) => Some(items@),
        _ => None,
    }
}

/// The items of a member that may be left out: none when it is not given,
/// and `None` when it is given and is no array.
pub open spec fn optional_items_of(value: Option<Json>) -> Option<Seq<Json>> {
    if not_given(value) {
        Some(Seq::empty())
    } else {
        items_of(value)
    }
}

/// A member that is missing or `null` counts as not given.
pub open spec fn not_given(value: Option<Json>) -> bool {
    value is None || value == Some(Json::Null)
}

/// The text of a member that may be left out: `Some(None)` when it is not
/// given, `None` when it is given and is no string.
pub open spec fn optional_text_of(value: Option<Json>) -> Option<Option<Seq<char>>> {
    if not_given(value) {
        Some(None)
    } else {
        match text_of(value) {
            Some(t) => Some(Some(t)),
            None => None,
        }
    }
}

/// The integer of a member that may be left out: `Some(None)` when it is not
/// given, `None` when it is given and is no integer.
pub open spec fn optional_int_of(value: Option<Json>) -> Option<Option<i64>> {
    if not_given(value) {
        Some(None)
    } else {
        match int_of(value) {
            Some(i) => Some(Some(i)),
            None => None,
        }
    }
}

/// A member's value is a proper part of the members that hold it.
pub proof fn lemma_member_is_part(members: Seq<(String, Json)>, key: Seq<char>)
    ensures
        member(members, key) matches Some(value) ==> decreases_to!(members => value),
    decreases members.len(),
{
    if members.len() > 0 {
        if members[0].0@ == key {
            assert(decreases_to!(members => members[0]));
            assert(decreases_to!(members[0] => members[0].1));
        } else {
            lemma_member_is_part(members.drop_first(), key);
            assert(decreases_to!(members => members.drop_first()));
        }
    }
}

/// A member's value is a proper part of the object that holds it.
pub proof fn lemma_field_is_part(json: Json, key: Seq<char>)
    ensures
        json.field(key) matches Some(value) ==> decreases_to!(json => value),
{
    match json {
        Json::Object(members) => {
            lemma_member_is_part(members@, key);
            assert(decreases_to!(json => members));
            assert(decreases_to!(members => members@));
        },
        _ => {},
    }
}

/// What `serde_json` reads from `text`: `None` when the reader refuses the
/// text. It refuses text that is not one well-formed JSON document, and
/// also well-formed text that it will not take, such as one nested deeper
/// than its limit.
pub uninterp spec fn parsed(text: Seq<char>) -> Option<Json>;

impl Json {
    /// The value of the first member named `key`, where `self` is an object
    /// that has one.
    pub open spec fn field(self, key: Seq<char>) -> Option<Json> {
        match self {
            Json::Object(members) => member(members@, key),
            _ => None,
        }
    }

    /// Looks up the first member named `key`.
    pub fn get<'a>(&'a self, key: &str) -> (found: Option<&'a Json>)
        ensures
            found matches Some(value) ==> self.field(key@) == Some(*value),
            found is None ==> self.field(key@) is None,
    {
        match self {
            Json::Object(members) => find(members, key),
            _ => None,
        }
    }
}

impl Json {
    /// Reads the string member `key`.
    pub fn text(&self, key: &str) -> (found: Option<String>)
        ensures
            found.deep_view() == text_of(self.field(key@)),
    {
        match self.get(key) {
            Some(Json::Text(s)) => Some(s.clone()),
            _ => None,
        }
    }

    /// Reads the integer member `key`.
    pub fn integer(&self, key: &str) -> (found: Option<i64>)
        ensures
            found == int_of(self.field(key@)),
    {
        match self.get(key) {
            Some(Json::Int(i)) => Some(*i),
            _ => None,
        }
    }

    /// Reads the string member `key`, which may be left out.
    pub fn optional_text(&self, key: &str) -> (found: Option<Option<String>>)
        ensures
            found.deep_view() == optional_text_of(self.field(key@)),
    {
        match self.get(key) {
            None => Some(None),
            Some(Json::Null) => Some(None),
            Some(Json::Text(s)) => Some(Some(s.clone())),
            Some(_) => None,
        }
    }

    /// Reads the integer member `key`, which may be left out.
    pub fn optional_integer(&self, key: &str) -> (found: Option<Option<i64>>)
        ensures
            found == optional_int_of(self.field(key@)),
    {
        match self.get(key) {
            None => Some(None),
            Some(Json::Null) => Some(None),
            Some(Json::Int(i)) => Some(Some(*i)),
            Some(_) => None,
        }
    }
}

/// Looks up the first of `members` named `key`.
fn find<'a>(members: &'a Vec<(String, Json)>, key: &str) -> (found: Option<&'a Json>)
    ensures
        found matches Some(value) ==> member(members@, key@) == Some(*value),
        found is None ==> member(members@, key@) is None,
{
    let mut i: usize = 0;
    assert(members@.skip(0) =~= members@);
    while i < members.len()
        invariant
            i <= members.len(),
            member(members@, key@) == member(members@.skip(i as int), key@),
        decreases members.len() - i,
    {
        proof {
            let rest = members@.skip(i as int);
            assert(rest.len() > 0);
            assert(rest[0] == members@[i as int]);
            assert(rest.drop_first() =~= members@.skip(i + 1));
        }
        if crate::text::same_text(members[i].0.as_str(), key) {
            return Some(&members[i].1);
        }
        i += 1;
    }
    None
}

/// Moves a `serde_json::Value` into a `Json`, variant by variant. A number
/// becomes `Int` where `Number::as_i64` gives one and `Number` otherwise.
#[verifier::external_body]
fn lift(value: serde_json::Value) -> Json {
    match value {
        serde_json::Value::Null => Json::Null,
        serde_json::Value::Bool(b) => Json::Bool(b),
        serde_json::Value::Number(n) => match n.as_i64() {
            Some(i) => Json::Int(i),
            None => Json::Number(n.to_string()),
        },
        serde_json::Value::String(s) => Json::Text(s),
        serde_json::Value::Array(items) => Json::Array(items.into_iter().map(lift).collect()),
        serde_json::Value::Object(map) => Json::Object(
            map.into_iter().map(|(k, v)| (k, lift(v))).collect(),
        ),
    }
}

/// Calls `serde_json::from_str` for a `serde_json::Value` and moves the
/// value into a `Json`.
///
/// Trusted: the outcome is exactly `parsed(text)`. When the reader refuses
/// the text, the call hands out the reader's own description, of which
/// nothing is claimed.
#[verifier::external_body]
fn read(text: &str) -> (doc: Result<Json, String>)
    ensures
        doc is Ok <==> parsed(text@) is Some,
        doc matches Ok(json) ==> parsed(text@) == Some(json),
{
    serde_json::from_str::<serde_json::Value>(text).map(lift).map_err(|fault| fault.to_string())
}

/// Reads one JSON document from `text`.
///
/// Succeeds exactly when the reader takes the text; when the reader
/// refuses the text, that is a decode failure.
pub fn parse(text: &str) -> (doc: Result<Json, Error>)
    ensures
        doc matches Ok(json) ==> parsed(text@) == Some(json),
        doc matches Err(e) ==> parsed(text@) is None && e is StdIo,
{
    match read(text) {
        Ok(json) => Ok(json),
        Err(fault) => Err(Error::StdIo(fault)),
    }
}

} // verus!
