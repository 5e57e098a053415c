//! JSON documents that the repository stores and inspects.

use std::collections::BTreeMap;

use serde_json::from_str;
use serde_json::to_string;
use serde_json::value::RawValue;
use vstd::prelude::*;
use vstd::utf8::*;

use crate::text::text_eq;

verus! {

/// A JSON number.
#[derive(Debug)]
pub enum Number {
    /// A whole number that is not negative.
    NonNegative(u64),
    /// A negative whole number.
    Negative(i64),
    /// Any other number, in its own notation.
    Decimal(String),
}

/// A member of a JSON object.
#[derive(Debug)]
pub struct Member {
    pub key: String,
    pub value: Json,
}

/// A JSON document. The keys of an object are distinct.
#[derive(Debug)]
pub enum Json {
    Null,
    Bool(bool),
    Number(Number),
    Text(String),
    Array(Vec<Json>),
    Object(Vec<Member>),
}

/// What `serde_json::to_string` writes for a document, where it writes it at all.
pub uninterp spec fn written(document: Json) -> Option<Seq<char>>;

/// Calls `serde_json::to_string` on each part of a document, the parts inside it first. The claim
/// is that the text, and whether there is one, depends on the document alone.
#[verifier::external_body]
fn write(document: &Json) -> (r: Option<String>)
    requires
        well_numbered(*document),
    ensures
        crate::text::optional_text(r) == written(*document),
{
    let raw = |part| RawValue::from_string(write(part)?).ok();
    match document {
        Json::Null => to_string(&()),
        Json::Bool(flag) => to_string(flag),
        Json::Number(Number::NonNegative(number)) => to_string(number),
        Json::Number(Number::Negative(number)) => to_string(number),
        Json::Number(Number::Decimal(n)) => to_string(&from_str::<serde_json::Number>(n).ok()),
        Json::Text(text) => to_string(text),
        Json::Array(items) => to_string(&Vec::from_iter(items.iter().map(raw))),
        Json::Object(members) => to_string(
            &BTreeMap::from_iter(members.iter().map(|m| (&m.key, raw(&m.value)))),
        ),
    }.ok()
}

/// Whether `serde_json` reads a text as a number.
pub uninterp spec fn numeric(text: Seq<char>) -> bool;

/// Calls `serde_json::from_str` for a number. The claim is that whether it reads one depends on
/// the text alone.
#[verifier::external_body]
fn reads_number(text: &str) -> (r: bool)
    ensures
        r == numeric(text@),
{
    from_str::<serde_json::Number>(text).is_ok()
}

/// Whether every decimal of a document is a number in JSON's notation.
pub open spec fn well_numbered(document: Json) -> bool
    decreases document,
{
    match document {
        Json::Number(Number::Decimal(text)) => numeric(text@),
        Json::Array(items) => forall|i: int|
            0 <= i < items@.len() ==> well_numbered(#[trigger] items@[i]),
        Json::Object(members) => forall|i: int|
            0 <= i < members@.len() ==> well_numbered((#[trigger] members@[i]).value),
        _ => true,
    }
}

/// Whether every decimal of a document is a number in JSON's notation.
fn has_numbers(document: &Json) -> (r: bool)
    ensures
        r == well_numbered(*document),
    decreases document,
{
    match document {
        Json::Number(Number::Decimal(text)) => reads_number(text.as_str()),
        Json::Array(items) => {
            let mut at: usize = 0;
            while at < items.len()
                invariant
                    at <= items@.len(),
                    *document == Json::Array(*items),
                    forall|i: int| 0 <= i < at ==> well_numbered(#[trigger] items@[i]),
                decreases items@.len() - at,
            {
                assert(decreases_to!(*document => document->Array_0));
                if !has_numbers(&items[at]) {
                    return false;
                }
                at = at + 1;
            }
            true
        },
        Json::Object(members) => {
            let mut at: usize = 0;
            while at < members.len()
                invariant
                    at <= members@.len(),
                    *document == Json::Object(*members),
                    forall|i: int| 0 <= i < at ==> well_numbered((#[trigger] members@[i]).value),
                decreases members@.len() - at,
            {
                assert(decreases_to!(*document => document->Object_0));
                if !has_numbers(&members[at].value) {
                    return false;
                }
                at = at + 1;
            }
            true
        },
        _ => true,
    }
}

/// The length of a document's written form in bytes. There is none where a decimal is not a number
/// in JSON's notation.
pub open spec fn written_length(document: Json) -> Option<nat> {
    match written(document) {
        Some(text) => if well_numbered(document) {
            Some(encode_utf8(text).len())
        } else {
            None
        },
        None => None,
    }
}

/// A length, as contracts speak of it.
pub open spec fn length_view(length: Option<usize>) -> Option<nat> {
    match length {
        Some(length) => Some(length as nat),
        None => None,
    }
}

/// The length of a document's written form in bytes, where it has one.
pub fn encoded_length(document: &Json) -> (r: Option<usize>)
    ensures
        length_view(r) == written_length(*document),
{
    if !has_numbers(document) {
        return None;
    }
    match write(document) {
        Some(text) => Some(text.as_str().as_bytes().len()),
        None => None,
    }
}

/// The position of the first member with this key.
pub open spec fn member_at(members: Seq<Member>, key: Seq<char>) -> Option<int>
    decreases members.len(),
{
    if members.len() == 0 {
        None
    } else {
        match member_at(members.drop_last(), key) {
            Some(i) => Some(i),
            None => if members.last().key@ == key {
                Some(members.len() - 1)
            } else {
                None
            },
        }
    }
}

proof fn lemma_member_at(members: Seq<Member>, key: Seq<char>)
    ensures
        match member_at(members, key) {
            Some(i) => 0 <= i < members.len() && members[i].key@ == key && forall|j: int|
                0 <= j < i ==> (#[trigger] members[j]).key@ != key,
            None => forall|j: int| 0 <= j < members.len() ==> (#[trigger] members[j]).key@ != key,
        },
    decreases members.len(),
{
    if members.len() > 0 {
        lemma_member_at(members.drop_last(), key);
        assert forall|j: int| 0 <= j < members.len() - 1 implies members.drop_last()[j]
            == members[j] by {}
    }
}

impl Json {
    /// Whether the document is an object.
    pub fn is_object(&self) -> (r: bool)
        ensures
            r == (*self is Object),
    {
        matches!(self, Json::Object(_))
    }

    /// The value under a key, where the document is an object that has it.
    pub open spec fn get_spec(self, key: Seq<char>) -> Option<Json> {
        match self {
            Json::Object(members) => match member_at(members@, key) {
                Some(i) => Some(members@[i].value),
                None => None,
            },
            _ => None,
        }
    }

    /// The value under a key, where the document is an object that has it.
    pub fn get(&self, key: &str) -> (r: Option<&Json>)
        ensures
            r == (match self.get_spec(key@) {
                Some(value) => Some(&value),
                None => None,
            }),
    {
        match self {
            Json::Object(members) => {
                let mut at: usize = 0;
                while at < members.len()
                    invariant
                        at <= members@.len(),
                        forall|j: int| 0 <= j < at ==> (#[trigger] members@[j]).key@ != key@,
                        *self == Json::Object(*members),
                    decreases members@.len() - at,
                {
                    if text_eq(members[at].key.as_str(), key) {
                        proof {
                            lemma_member_at(members@, key@);
                        }
                        return Some(&members[at].value);
                    }
                    at = at + 1;
                }
                proof {
                    lemma_member_at(members@, key@);
                }
                None
            },
            _ => None,
        }
    }

    /// The whole number that the document is, where it fits 64 bits with a sign.
    pub open spec fn as_i64_spec(self) -> Option<i64> {
        match self {
            Json::Number(Number::NonNegative(n)) => if n <= i64::MAX {
                Some(n as i64)
            } else {
                None
            },
            Json::Number(Number::Negative(n)) => Some(n),
            _ => None,
        }
    }

    pub fn as_i64(&self) -> (r: Option<i64>)
        ensures
            r == self.as_i64_spec(),
    {
        match self {
            Json::Number(Number::NonNegative(n)) => if *n <= i64::MAX as u64 {
                Some(*n as i64)
            } else {
                None
            },
            Json::Number(Number::Negative(n)) => Some(*n),
            _ => None,
        }
    }

    /// The whole number that the document is, where it is not negative.
    pub open spec fn as_u64_spec(self) -> Option<u64> {
        match self {
            Json::Number(Number::NonNegative(n)) => Some(n),
            _ => None,
        }
    }

    pub fn as_u64(&self) -> (r: Option<u64>)
        ensures
            r == self.as_u64_spec(),
    {
        match self {
            Json::Number(Number::NonNegative(n)) => Some(*n),
            _ => None,
        }
    }

    /// The text that the document is.
    pub open spec fn as_text_spec(self) -> Option<String> {
        match self {
            Json::Text(text) => Some(text),
            _ => None,
        }
    }

    pub fn as_text(&self) -> (r: Option<&String>)
        ensures
            r == (match self.as_text_spec() {
                Some(text) => Some(&text),
                None => None,
            }),
    {
        match self {
            Json::Text(text) => Some(text),
            _ => None,
        }
    }

    /// The list that the document is.
    pub open spec fn as_array_spec(self) -> Option<Vec<Json>> {
        match self {
            Json::Array(items) => Some(items),
            _ => None,
        }
    }

    pub fn as_array(&self) -> (r: Option<&Vec<Json>>)
        ensures
            r == (match self.as_array_spec() {
                Some(items) => Some(&items),
                None => None,
            }),
    {
        match self {
            Json::Array(items) => Some(items),
            _ => None,
        }
    }

    /// The value under one key and then another.
    pub open spec fn path_spec(self, first: Seq<char>, second: Seq<char>) -> Option<Json> {
        match self.get_spec(first) {
            Some(value) => value.get_spec(second),
            None => None,
        }
    }

    /// The value under one key and then another.
    pub fn path(&self, first: &str, second: &str) -> (r: Option<&Json>)
        ensures
            r == (match self.path_spec(first@, second@) {
                Some(value) => Some(&value),
                None => None,
            }),
    {
        match self.get(first) {
            Some(value) => value.get(second),
            None => None,
        }
    }

    /// The flag that the document is.
    pub open spec fn as_bool_spec(self) -> Option<bool> {
        match self {
            Json::Bool(b) => Some(b),
            _ => None,
        }
    }

    pub fn as_bool(&self) -> (r: Option<bool>)
        ensures
            r == self.as_bool_spec(),
    {
        match self {
            Json::Bool(b) => Some(*b),
            _ => None,
        }
    }
}

} // verus!
