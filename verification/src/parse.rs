//! Turning JSON text into a [`Json`] tree. The grammar is `serde_json`'s:
//! this module calls it and takes over what it built.

use vstd::prelude::*;
use crate::json::{
    Json, JsonModel, Member, lemma_array_view, lemma_object_view, member_models, models,
};

verus! {

/// `serde_json::Value`, carried from the parser to the conversion.
#[verifier::external_type_specification]
#[verifier::external_body]
pub struct ExValue(serde_json::Value);

/// `serde_json::Error`, the parser's complaint.
#[verifier::external_type_specification]
#[verifier::external_body]
pub struct ExSyntaxError(serde_json::Error);

/// The tree that `serde_json` reads from a text, or nothing where the text
/// is no JSON document. Nothing more is said of it here.
pub uninterp spec fn parsed(text: Seq<char>) -> Option<JsonModel>;

/// The tree that a `serde_json::Value` holds.
pub uninterp spec fn value_model(value: serde_json::Value) -> JsonModel;

/// How deep a `serde_json::Value` nests arrays and objects.
pub uninterp spec fn value_depth(value: serde_json::Value) -> nat;

/// Calls `serde_json::from_str` for a `serde_json::Value`. Trusted: the
/// outcome depends on the text alone, and is the one that [`parsed`] names.
#[verifier::external_body]
fn parse_value(text: &str) -> (r: Result<serde_json::Value, serde_json::Error>)
    ensures
        match r {
            Ok(value) => parsed(text@) == Some(value_model(value)),
            Err(_) => parsed(text@) is None,
        },
{
    serde_json::from_str::<serde_json::Value>(text)
}

/// The top of a `serde_json::Value`: which variant it is and what that
/// holds, a number as its `Display` text, the members of an object in the
/// order in which the map hands them out.
pub enum ValueParts<'a> {
    Null,
    Bool(bool),
    Number(String),
    Text(&'a String),
    Array(&'a Vec<serde_json::Value>),
    Object(Vec<(&'a String, &'a serde_json::Value)>),
}

/// The values directly below the top of a value.
pub open spec fn children(parts: ValueParts) -> Seq<serde_json::Value> {
    match parts {
        ValueParts::Array(items) => items@,
        ValueParts::Object(members) => Seq::new(members@.len(), |i: int| *members@[i].1),
        _ => Seq::empty(),
    }
}

/// The tree with the given top, over the trees of the values below it.
pub open spec fn parts_model(parts: ValueParts) -> JsonModel {
    match parts {
        ValueParts::Null => JsonModel::Null,
        ValueParts::Bool(b) => JsonModel::Bool(b),
        ValueParts::Number(n) => JsonModel::Number(n@),
        ValueParts::Text(s) => JsonModel::Text(s@),
        ValueParts::Array(items) => JsonModel::Array(
            Seq::new(items@.len(), |i: int| value_model(items@[i])),
        ),
        ValueParts::Object(members) => JsonModel::Object(
            Seq::new(members@.len(), |i: int| (members@[i].0@, value_model(*members@[i].1))),
        ),
    }
}

/// Tells the variants of a `serde_json::Value` apart and hands out what the
/// variant holds. Trusted: the tree of the value is the one with this top
/// over the trees of the values below, and each of those nests less deep.
#[verifier::external_body]
fn value_parts<'a>(value: &'a serde_json::Value) -> (parts: ValueParts<'a>)
    ensures
        value_model(*value) == parts_model(parts),
        forall|i: int|
            0 <= i < children(parts).len() ==> value_depth(#[trigger] children(parts)[i])
                < value_depth(*value),
{
    match value {
        serde_json::Value::Null => ValueParts::Null,
        serde_json::Value::Bool(b) => ValueParts::Bool(*b),
        serde_json::Value::Number(n) => ValueParts::Number(n.to_string()),
        serde_json::Value::String(s) => ValueParts::Text(s),
        serde_json::Value::Array(items) => ValueParts::Array(items),
        serde_json::Value::Object(map) => ValueParts::Object(map.iter().collect()),
    }
}

/// Copies a `serde_json::Value` into a [`Json`] tree, level by level.
fn json_from_value(value: &serde_json::Value) -> (json: Json)
    ensures
        json@ == value_model(*value),
    decreases value_depth(*value),
{
    let parts = value_parts(value);
    match parts {
        ValueParts::Null => Json::Null,
        ValueParts::Bool(b) => Json::Bool(b),
        ValueParts::Number(n) => Json::Number(n),
        ValueParts::Text(s) => Json::Text(s.clone()),
        ValueParts::Array(items) => {
            let mut out: Vec<Json> = Vec::new();
            let mut i: usize = 0;
            proof {
                assert forall|j: int| 0 <= j < items@.len() implies value_depth(
                    #[trigger] items@[j],
                ) < value_depth(*value) by {
                    assert(children(parts)[j] == items@[j]);
                }
            }
            while i < items.len()
                invariant
                    i <= items.len(),
                    out@.len() == i,
                    forall|j: int|
                        0 <= j < items@.len() ==> value_depth(#[trigger] items@[j]) < value_depth(
                            *value,
                        ),
                    forall|j: int| 0 <= j < i ==> (#[trigger] out@[j])@ == value_model(items@[j]),
                decreases items.len() - i,
            {
                out.push(json_from_value(&items[i]));
                i += 1;
            }
            proof {
                lemma_array_view(out);
                assert(models(out@) =~= parts_model(parts)->Array_0);
            }
            Json::Array(out)
        },
        ValueParts::Object(members) => {
            let mut out: Vec<Member> = Vec::new();
            let mut i: usize = 0;
            proof {
                assert forall|j: int| 0 <= j < members@.len() implies value_depth(
                    *(#[trigger] members@[j]).1,
                ) < value_depth(*value) by {
                    assert(children(parts)[j] == *members@[j].1);
                }
            }
            while i < members.len()
                invariant
                    i <= members.len(),
                    out@.len() == i,
                    forall|j: int|
                        0 <= j < members@.len() ==> value_depth(*(#[trigger] members@[j]).1)
                            < value_depth(*value),
                    forall|j: int|
                        0 <= j < i ==> (#[trigger] out@[j]).key@ == members@[j].0@ && out@[j].value@
                            == value_model(*members@[j].1),
                decreases members.len() - i,
            {
                let key = members[i].0.clone();
                let below = json_from_value(members[i].1);
                out.push(Member { key, value: below });
                i += 1;
            }
            proof {
                lemma_object_view(out);
                assert(member_models(out@) =~= parts_model(parts)->Object_0);
            }
            Json::Object(out)
        },
    }
}

/// A text that is no JSON document.
#[derive(Clone, Copy, Debug, PartialEq, Eq, Structural)]
pub struct JsonSyntaxError;

impl Json {
    /// Reads a JSON document from `text`: the tree that [`parsed`] names, or
    /// an error where it names none.
    pub fn parse(text: &str) -> (r: Result<Json, JsonSyntaxError>)
        ensures
            match r {
                Ok(doc) => parsed(text@) == Some(doc@),
                Err(_) => parsed(text@) is None,
            },
    {
        match parse_value(text) {
            Ok(value) => Ok(json_from_value(&value)),
            Err(_) => Err(JsonSyntaxError),
        }
    }
}

} // verus!
