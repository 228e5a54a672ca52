//! JSON documents as plain values.

use vstd::prelude::*;
use crate::keyed::Entries;

verus! {

/// A JSON number by the readings it offers. A number that was parsed
/// offers its integer readings where it is an integer in range, and its
/// binary64 reading always. A number that this library writes offers the
/// readings of the value it was written from: the integer readings for an
/// integer, the binary64 reading for a binary64.
#[derive(Clone, Copy, Debug, PartialEq, Eq, Structural)]
pub struct JsonNumber {
    /// The value as an integer of 64 signed bits.
    pub signed: Option<i64>,
    /// The value as an integer of 64 unsigned bits.
    pub unsigned: Option<u64>,
    /// The bit pattern of the value as a binary64 number.
    pub binary64: Option<u64>,
}

/// A JSON value. An object keeps its members as a list; where a name
/// occurs more than once, the last member of that name counts.
#[derive(Debug, PartialEq, Eq)]
pub enum Json {
    Null,
    Bool(bool),
    Number(JsonNumber),
    Text(String),
    Array(Vec<Json>),
    Object(Vec<(String, Json)>),
}

/// A JSON value with its texts as character sequences.
pub enum JsonModel {
    Null,
    Bool(bool),
    Number(JsonNumber),
    Text(Seq<char>),
    Array(Seq<JsonModel>),
    Object(Seq<(Seq<char>, JsonModel)>),
}

/// The document that a value holds.
pub open spec fn model_of(json: Json) -> JsonModel
    decreases json,
{
    match json {
        Json::Null => JsonModel::Null,
        Json::Bool(b) => JsonModel::Bool(b),
        Json::Number(n) => JsonModel::Number(n),
        Json::Text(s) => JsonModel::Text(s@),
        Json::Array(items) => JsonModel::Array(
            Seq::new(
                items@.len(),
                |i: int|
                    if 0 <= i < items@.len() {
                        model_of(items@[i])
                    } else {
                        JsonModel::Null
                    },
            ),
        ),
        Json::Object(members) => JsonModel::Object(
            Seq::new(
                members@.len(),
                |i: int|
                    if 0 <= i < members@.len() {
                        (members@[i].0@, model_of(members@[i].1))
                    } else {
                        (Seq::empty(), JsonModel::Null)
                    },
            ),
        ),
    }
}

impl View for Json {
    type V = JsonModel;

    open spec fn view(&self) -> JsonModel {
        model_of(*self)
    }
}

impl DeepView for Json {
    type V = JsonModel;

    open spec fn deep_view(&self) -> JsonModel {
        self@
    }
}

/// The documents that a list of values holds.
pub open spec fn items_view(items: Seq<Json>) -> Seq<JsonModel> {
    Seq::new(items.len(), |i: int| items[i]@)
}

/// The named documents that a list of members holds.
pub open spec fn members_view(members: Seq<(String, Json)>) -> Entries<JsonModel> {
    Seq::new(members.len(), |i: int| (members[i].0@, members[i].1@))
}

/// An array holds the documents of its items.
pub proof fn lemma_array_view(items: Vec<Json>)
    ensures
        Json::Array(items)@ == JsonModel::Array(items_view(items@)),
{
    assert(Json::Array(items)@->Array_0 =~= items_view(items@));
}

/// An object holds the documents of its members under their names.
pub proof fn lemma_object_view(members: Vec<(String, Json)>)
    ensures
        Json::Object(members)@ == JsonModel::Object(members_view(members@)),
{
    assert(Json::Object(members)@->Object_0 =~= members_view(members@));
}

/// `serde_json::Value`, the document tree that the parser builds.
#[verifier::external_type_specification]
#[verifier::external_body]
pub struct ExValue(serde_json::Value);

/// `serde_json::Error`, the parser's complaint about a text.
#[verifier::external_type_specification]
#[verifier::external_body]
pub struct ExError(serde_json::Error);

/// What `serde_json::from_str` makes of a text when asked for a
/// `serde_json::Value`: the document, or the complaint's wording.
pub uninterp spec fn parsed_json(text: Seq<char>) -> Result<JsonModel, Seq<char>>;

/// The document that a `serde_json::Value` holds.
pub uninterp spec fn value_content(value: serde_json::Value) -> JsonModel;

/// The wording of a `serde_json::Error`, as its `Display` gives it.
pub uninterp spec fn error_wording(error: serde_json::Error) -> Seq<char>;

/// Calls `serde_json::from_str` for a `serde_json::Value`. The contract
/// only names the outcome as a function of the text.
#[verifier::external_body]
fn value_from_text(text: &str) -> (r: Result<serde_json::Value, serde_json::Error>)
    ensures
        match r {
            Ok(value) => parsed_json(text@) == Ok::<JsonModel, Seq<char>>(value_content(value)),
            Err(error) => parsed_json(text@) == Err::<JsonModel, Seq<char>>(error_wording(error)),
        },
{
    serde_json::from_str::<serde_json::Value>(text)
}

/// One level of a `serde_json::Value`: its variant, with the values
/// below it still unread.
enum ValueParts<'a> {
    Null,
    Bool(bool),
    Number(JsonNumber),
    Text(&'a String),
    Array(&'a Vec<serde_json::Value>),
    Object(Vec<(&'a String, &'a serde_json::Value)>),
}

/// Whether `content` is the document whose top level is `parts`: the
/// same scalar, or the array or object of the documents that the values
/// below hold, in the same order and under the same names.
spec fn parts_of(parts: ValueParts, content: JsonModel) -> bool {
    match parts {
        ValueParts::Null => content == JsonModel::Null,
        ValueParts::Bool(b) => content == JsonModel::Bool(b),
        ValueParts::Number(n) => content == JsonModel::Number(n),
        ValueParts::Text(s) => content == JsonModel::Text(s@),
        ValueParts::Array(items) => content == JsonModel::Array(
            Seq::new(items@.len(), |i: int| value_content(items@[i])),
        ),
        ValueParts::Object(members) => content == JsonModel::Object(
            Seq::new(members@.len(), |i: int| (members@[i].0@, value_content(*members@[i].1))),
        ),
    }
}

/// Tells the variants of a `serde_json::Value` apart and hands out what
/// the variant holds: a number by `Number::as_i64`, `Number::as_u64` and
/// the bits of `Number::as_f64`, an object's members in the order in
/// which `serde_json::Map::iter` yields them. The contract claims that the
/// value holds exactly these parts.
#[verifier::external_body]
fn value_parts<'a>(value: &'a serde_json::Value) -> (parts: ValueParts<'a>)
    ensures
        parts_of(parts, value_content(*value)),
{
    match value {
        serde_json::Value::Null => ValueParts::Null,
        serde_json::Value::Bool(b) => ValueParts::Bool(*b),
        serde_json::Value::Number(n) => {
            let binary64 = n.as_f64().map(|x| x.to_bits());
            ValueParts::Number(JsonNumber { signed: n.as_i64(), unsigned: n.as_u64(), binary64 })
        },
        serde_json::Value::String(s) => ValueParts::Text(s),
        serde_json::Value::Array(items) => ValueParts::Array(items),
        serde_json::Value::Object(members) => ValueParts::Object(members.iter().collect()),
    }
}

/// Copies a document out of a `serde_json::Value`.
fn json_from_value(value: &serde_json::Value) -> (json: Json)
    ensures
        json@ == value_content(*value),
    decreases value_content(*value),
{
    match value_parts(value) {
        ValueParts::Null => Json::Null,
        ValueParts::Bool(b) => Json::Bool(b),
        ValueParts::Number(n) => Json::Number(n),
        ValueParts::Text(s) => Json::Text(s.clone()),
        ValueParts::Array(items) => {
            let mut copies: Vec<Json> = Vec::new();
            let mut i: usize = 0;
            while i < items.len()
                invariant
                    i <= items.len(),
                    copies@.len() == i,
                    forall|k: int| 0 <= k < i ==> copies@[k]@ == value_content(items@[k]),
                    value_content(*value) == JsonModel::Array(
                        Seq::new(items@.len(), |k: int| value_content(items@[k])),
                    ),
                decreases items.len() - i,
            {
                proof {
                    let below = value_content(*value)->Array_0;
                    assert(below[i as int] == value_content(items@[i as int]));
                    vstd::seq::axiom_seq_index_decreases(below, i as int);
                }
                let copy = json_from_value(&items[i]);
                copies.push(copy);
                i += 1;
            }
            let json = Json::Array(copies);
            assert(json@->Array_0 =~= Seq::new(
                items@.len(),
                |k: int| value_content(items@[k]),
            ));
            json
        },
        ValueParts::Object(members) => {
            let mut copies: Vec<(String, Json)> = Vec::new();
            let mut i: usize = 0;
            while i < members.len()
                invariant
                    i <= members.len(),
                    copies@.len() == i,
                    forall|k: int|
                        0 <= k < i ==> copies@[k].0@ == members@[k].0@ && copies@[k].1@
                            == value_content(*members@[k].1),
                    value_content(*value) == JsonModel::Object(
                        Seq::new(
                            members@.len(),
                            |k: int| (members@[k].0@, value_content(*members@[k].1)),
                        ),
                    ),
                decreases members.len() - i,
            {
                proof {
                    let below = value_content(*value)->Object_0;
                    assert(below[i as int].1 == value_content(*members@[i as int].1));
                    vstd::seq::axiom_seq_index_decreases(below, i as int);
                }
                let name = members[i].0.clone();
                let copy = json_from_value(members[i].1);
                copies.push((name, copy));
                i += 1;
            }
            let json = Json::Object(copies);
            assert(json@->Object_0 =~= Seq::new(
                members@.len(),
                |k: int| (members@[k].0@, value_content(*members@[k].1)),
            ));
            json
        },
    }
}

/// Calls `to_string` on a `serde_json::Error`. The contract only names
/// the result.
#[verifier::external_body]
fn wording_of(error: &serde_json::Error) -> (text: String)
    ensures
        text@ == error_wording(*error),
{
    error.to_string()
}

/// Whether `r` is the outcome `s`, seen through its views.
pub open spec fn outcome_is<T: DeepView>(r: Result<T, String>, s: Result<T::V, Seq<char>>) -> bool {
    match r {
        Ok(value) => s == Ok::<T::V, Seq<char>>(value.deep_view()),
        Err(message) => s == Err::<T::V, Seq<char>>(message@),
    }
}

impl Json {
    /// Reads a JSON document from its text. Fails with the parser's
    /// wording when the text is not one well-formed document.
    pub fn parse(text: &str) -> (r: Result<Json, String>)
        ensures
            outcome_is(r, parsed_json(text@)),
    {
        match value_from_text(text) {
            Ok(value) => Ok(json_from_value(&value)),
            Err(error) => Err(wording_of(&error)),
        }
    }
}

} // verus!
