//! JSON documents as plain data, and the reading of them.

use vstd::prelude::*;
use crate::text::{find_named, first_index, names_of, opt_view, parse_signed, signed_value};

verus! {

/// A JSON value. A number keeps the text that it is written as.
#[derive(Debug)]
pub enum Json {
    Null,
    Bool(bool),
    Number(String),
    Text(String),
    Array(Vec<Json>),
    Object(Vec<(String, Json)>),
}

/// `serde_json::Value`, a JSON value as `serde_json` holds it. Nothing of
/// its inside is known here.
#[verifier::external_type_specification]
#[verifier::external_body]
pub struct ExJsonValue(serde_json::Value);

/// What `serde_json` reads a text as, as plain data: nothing where the text
/// is no JSON.
pub uninterp spec fn json_document(text: Seq<char>) -> Option<Json>;

/// What a `serde_json::Value` holds, as plain data.
pub uninterp spec fn json_tree(value: serde_json::Value) -> Json;

/// `serde_json::from_str` to a `serde_json::Value`: the value that the text
/// spells, nothing where it spells none.
#[verifier::external_body]
fn read_value(text: &str) -> (value: Option<serde_json::Value>)
    ensures
        match value {
            Some(v) => json_document(text@) == Some(json_tree(v)),
            None => json_document(text@) is None,
        },
{
    serde_json::from_str::<serde_json::Value>(text).ok()
}

/// What a `serde_json::Value` holds: each variant as the variant of the
/// same kind, a number as the text that `serde_json` prints it as, the
/// items of an array in order, the members of an object in the order in
/// which `serde_json` walks them.
#[verifier::external_body]
fn tree_of(value: &serde_json::Value) -> (tree: Json)
    ensures
        tree == json_tree(*value),
{
    match value {
        serde_json::Value::Null => Json::Null,
        serde_json::Value::Bool(b) => Json::Bool(*b),
        serde_json::Value::Number(n) => Json::Number(n.to_string()),
        serde_json::Value::String(s) => Json::Text(s.clone()),
        serde_json::Value::Array(a) => Json::Array(a.iter().map(tree_of).collect()),
        serde_json::Value::Object(o) => Json::Object(
            o.iter().map(|(k, v)| (k.clone(), tree_of(v))).collect(),
        ),
    }
}

/// The JSON document that `text` holds, where it holds one.
pub fn parse_json(text: &str) -> (doc: Option<Json>)
    ensures
        doc == json_document(text@),
{
    match read_value(text) {
        Some(value) => Some(tree_of(&value)),
        None => None,
    }
}

impl Json {
    /// The member named `key` of an object: the first of that name.
    pub open spec fn member(&self, key: Seq<char>) -> Option<Json> {
        match self {
            Json::Object(members) => match first_index(names_of(members@), key) {
                Some(i) => Some(members@[i].1),
                None => None,
            },
            _ => None,
        }
    }

    /// The text of a string value.
    pub open spec fn text(&self) -> Option<Seq<char>> {
        match self {
            Json::Text(s) => Some(s@),
            _ => None,
        }
    }

    /// The number of an integer value that fits 64 bits.
    pub open spec fn integer(&self) -> Option<i64> {
        match self {
            Json::Number(digits) => signed_value(digits@),
            _ => None,
        }
    }

    /// The text of the member named `key`, where there is such a member and
    /// it is a string.
    pub open spec fn text_member(&self, key: Seq<char>) -> Option<Seq<char>> {
        match self.member(key) {
            Some(value) => value.text(),
            None => None,
        }
    }

    /// The integer of the member named `key`, where there is such a member
    /// and it is an integer that fits 64 bits.
    pub open spec fn integer_member(&self, key: Seq<char>) -> Option<i64> {
        match self.member(key) {
            Some(value) => value.integer(),
            None => None,
        }
    }

    /// The member named `key` of an object; nothing for any other value.
    pub fn get(&self, key: &str) -> (found: Option<&Json>)
        ensures
            match found {
                Some(value) => self.member(key@) == Some(*value),
                None => self.member(key@) is None,
            },
    {
        match self {
            Json::Object(members) => match find_named(members, key) {
                Some(i) => {
                    proof {
                        crate::text::lemma_first_index(names_of(members@), key@);
                    }
                    Some(&members[i].1)
                },
                None => None,
            },
            _ => None,
        }
    }

    /// The text of a string value; nothing for any other value.
    pub fn as_text(&self) -> (found: Option<String>)
        ensures
            opt_view(found) == self.text(),
    {
        match self {
            Json::Text(s) => Some(s.clone()),
            _ => None,
        }
    }

    /// The number of an integer value that fits 64 bits; nothing for any
    /// other value.
    pub fn as_integer(&self) -> (found: Option<i64>)
        ensures
            found == self.integer(),
    {
        match self {
            Json::Number(digits) => parse_signed(digits.as_str()),
            _ => None,
        }
    }

    /// The text of the member named `key`.
    pub fn get_text(&self, key: &str) -> (found: Option<String>)
        ensures
            opt_view(found) == self.text_member(key@),
    {
        match self.get(key) {
            Some(value) => value.as_text(),
            None => None,
        }
    }

    /// The integer of the member named `key`.
    pub fn get_integer(&self, key: &str) -> (found: Option<i64>)
        ensures
            found == self.integer_member(key@),
    {
        match self.get(key) {
            Some(value) => value.as_integer(),
            None => None,
        }
    }
}

} // verus!
