//! Reading the members of a JSON object as typed fields.
//!
//! A field is looked up by its name; where the name occurs more than once
//! the last member counts. A required field must be present and of the
//! right type. An optional field may be absent or `null`, and must be of
//! the right type otherwise. Every complaint names the field it is about.

use vstd::prelude::*;
use vstd::string::StringExecFns;
use crate::binary64::{finite_bits, Binary64};
use crate::json::{members_view, outcome_is, Json, JsonModel};
use crate::keyed::{find, lemma_position, lemma_position_at, position, Entries};

verus! {

/// The complaint `fault`, said of the field `name`.
pub open spec fn in_field(name: Seq<char>, fault: Seq<char>) -> Seq<char> {
    "field `"@ + name + "`: "@ + fault
}

/// The outcome `read`, with its complaint said of the field `name`.
pub open spec fn named<T>(name: Seq<char>, read: Result<T, Seq<char>>) -> Result<T, Seq<char>> {
    match read {
        Ok(value) => Ok(value),
        Err(fault) => Err(in_field(name, fault)),
    }
}

/// As `named`, for a field that may be absent: a value read is present.
pub open spec fn named_some<T>(name: Seq<char>, read: Result<T, Seq<char>>) -> Result<
    Option<T>,
    Seq<char>,
> {
    match read {
        Ok(value) => Ok(Some(value)),
        Err(fault) => Err(in_field(name, fault)),
    }
}

/// The complaint about a required field that is absent.
pub open spec fn missing<T>(name: Seq<char>) -> Result<T, Seq<char>> {
    Err(in_field(name, "missing"@))
}

/// The member under `name` that has something to say: `null` counts as
/// absent.
pub open spec fn supplied(members: Entries<JsonModel>, name: Seq<char>) -> Option<JsonModel> {
    match find(members, name) {
        Some(JsonModel::Null) => None,
        other => other,
    }
}

/// A string.
pub open spec fn read_text(json: JsonModel) -> Result<Seq<char>, Seq<char>> {
    match json {
        JsonModel::Text(s) => Ok(s),
        _ => Err("expected a string"@),
    }
}

/// `true` or `false`.
pub open spec fn read_flag(json: JsonModel) -> Result<bool, Seq<char>> {
    match json {
        JsonModel::Bool(b) => Ok(b),
        _ => Err("expected a boolean"@),
    }
}

/// Any number, as the nearest binary64. A reading that is not finite is
/// no JSON number.
pub open spec fn read_binary64(json: JsonModel) -> Result<Binary64, Seq<char>> {
    match json {
        JsonModel::Number(n) => match n.binary64 {
            Some(bits) => if finite_bits(bits) {
                Ok(Binary64 { bits })
            } else {
                Err("expected a number"@)
            },
            None => Err("expected a number"@),
        },
        _ => Err("expected a number"@),
    }
}

/// An integer that fits 32 signed bits.
pub open spec fn read_int32(json: JsonModel) -> Result<i32, Seq<char>> {
    match json {
        JsonModel::Number(n) => match n.signed {
            Some(i) => if i32::MIN <= i <= i32::MAX {
                Ok(i as i32)
            } else {
                Err("expected a 32-bit integer"@)
            },
            None => Err("expected a 32-bit integer"@),
        },
        _ => Err("expected a 32-bit integer"@),
    }
}

/// An array of exactly two integers that fit 32 signed bits.
pub open spec fn read_int32_pair(json: JsonModel) -> Result<(i32, i32), Seq<char>> {
    match json {
        JsonModel::Array(items) => if items.len() == 2 && read_int32(items[0]) is Ok && read_int32(
            items[1],
        ) is Ok {
            Ok((read_int32(items[0])->Ok_0, read_int32(items[1])->Ok_0))
        } else {
            Err("expected a pair of 32-bit integers"@)
        },
        _ => Err("expected a pair of 32-bit integers"@),
    }
}

/// The required string under `name`.
pub open spec fn required_text_of(members: Entries<JsonModel>, name: Seq<char>) -> Result<
    Seq<char>,
    Seq<char>,
> {
    match find(members, name) {
        Some(json) => named(name, read_text(json)),
        None => missing(name),
    }
}

/// The optional string under `name`.
pub open spec fn optional_text_of(members: Entries<JsonModel>, name: Seq<char>) -> Result<
    Option<Seq<char>>,
    Seq<char>,
> {
    match supplied(members, name) {
        Some(json) => named_some(name, read_text(json)),
        None => Ok(None),
    }
}

/// The required boolean under `name`.
pub open spec fn required_flag_of(members: Entries<JsonModel>, name: Seq<char>) -> Result<
    bool,
    Seq<char>,
> {
    match find(members, name) {
        Some(json) => named(name, read_flag(json)),
        None => missing(name),
    }
}

/// The required number under `name`.
pub open spec fn required_binary64_of(members: Entries<JsonModel>, name: Seq<char>) -> Result<
    Binary64,
    Seq<char>,
> {
    match find(members, name) {
        Some(json) => named(name, read_binary64(json)),
        None => missing(name),
    }
}

/// The optional number under `name`.
pub open spec fn optional_binary64_of(members: Entries<JsonModel>, name: Seq<char>) -> Result<
    Option<Binary64>,
    Seq<char>,
> {
    match supplied(members, name) {
        Some(json) => named_some(name, read_binary64(json)),
        None => Ok(None),
    }
}

/// The required 32-bit integer under `name`.
pub open spec fn required_int32_of(members: Entries<JsonModel>, name: Seq<char>) -> Result<
    i32,
    Seq<char>,
> {
    match find(members, name) {
        Some(json) => named(name, read_int32(json)),
        None => missing(name),
    }
}

/// The optional 32-bit integer under `name`.
pub open spec fn optional_int32_of(members: Entries<JsonModel>, name: Seq<char>) -> Result<
    Option<i32>,
    Seq<char>,
> {
    match supplied(members, name) {
        Some(json) => named_some(name, read_int32(json)),
        None => Ok(None),
    }
}

/// The optional pair of 32-bit integers under `name`.
pub open spec fn optional_int32_pair_of(members: Entries<JsonModel>, name: Seq<char>) -> Result<
    Option<(i32, i32)>,
    Seq<char>,
> {
    match supplied(members, name) {
        Some(json) => named_some(name, read_int32_pair(json)),
        None => Ok(None),
    }
}

/// Says `fault` of the field `name`.
pub fn in_field_text(name: &str, fault: &str) -> (text: String)
    ensures
        text@ == in_field(name@, fault@),
{
    String::from_str("field `").concat(name).concat("`: ").concat(fault)
}

/// Looks a field up among the members of an object.
pub fn member<'a>(members: &'a Vec<(String, Json)>, name: &str) -> (r: Option<&'a Json>)
    ensures
        match r {
            Some(json) => find(members_view(members@), name@) == Some(json@),
            None => find(members_view(members@), name@) is None,
        },
{
    let key = String::from_str(name);
    let ghost entries = members_view(members@);
    let mut i: usize = members.len();
    while i > 0
        invariant
            i <= members@.len(),
            key@ == name@,
            entries == members_view(members@),
            forall|k: int| i <= k < members@.len() ==> (#[trigger] entries[k]).0 != name@,
        decreases i,
    {
        i -= 1;
        if members[i].0 == key {
            proof {
                assert(entries[i as int].0 == name@);
                lemma_position_at(entries, name@, i as int);
            }
            return Some(&members[i].1);
        }
    }
    proof {
        lemma_position(entries, name@);
        if position(entries, name@) is Some {
            assert(entries[position(entries, name@).unwrap()].0 == name@);
        }
    }
    None
}

/// Looks up a field that may be absent; `null` counts as absent.
pub fn supplied_member<'a>(members: &'a Vec<(String, Json)>, name: &str) -> (r: Option<&'a Json>)
    ensures
        match r {
            Some(json) => supplied(members_view(members@), name@) == Some(json@),
            None => supplied(members_view(members@), name@) is None,
        },
{
    match member(members, name) {
        Some(Json::Null) => None,
        other => other,
    }
}

/// Reads a string.
pub fn text_of(json: &Json) -> (r: Result<String, String>)
    ensures
        outcome_is(r, read_text(json@)),
{
    match json {
        Json::Text(s) => Ok(s.clone()),
        _ => Err(String::from_str("expected a string")),
    }
}

/// Reads a boolean.
pub fn flag_of(json: &Json) -> (r: Result<bool, String>)
    ensures
        outcome_is(r, read_flag(json@)),
{
    match json {
        Json::Bool(b) => Ok(*b),
        _ => Err(String::from_str("expected a boolean")),
    }
}

/// Reads a number as a binary64.
pub fn binary64_of(json: &Json) -> (r: Result<Binary64, String>)
    ensures
        outcome_is(r, read_binary64(json@)),
{
    match json {
        Json::Number(n) => match n.binary64 {
            Some(bits) => {
                let number = Binary64 { bits };
                if number.is_finite() {
                    Ok(number)
                } else {
                    Err(String::from_str("expected a number"))
                }
            },
            None => Err(String::from_str("expected a number")),
        },
        _ => Err(String::from_str("expected a number")),
    }
}

/// Reads an integer that fits 32 signed bits.
pub fn int32_of(json: &Json) -> (r: Result<i32, String>)
    ensures
        outcome_is(r, read_int32(json@)),
{
    match json {
        Json::Number(n) => match n.signed {
            Some(i) => if -2147483648 <= i && i <= 2147483647 {
                Ok(i as i32)
            } else {
                Err(String::from_str("expected a 32-bit integer"))
            },
            None => Err(String::from_str("expected a 32-bit integer")),
        },
        _ => Err(String::from_str("expected a 32-bit integer")),
    }
}

/// Reads an array of exactly two integers that fit 32 signed bits.
pub fn int32_pair_of(json: &Json) -> (r: Result<(i32, i32), String>)
    ensures
        outcome_is(r, read_int32_pair(json@)),
{
    match json {
        Json::Array(items) => {
            proof {
                crate::json::lemma_array_view(*items);
            }
            if items.len() == 2 {
                match (int32_of(&items[0]), int32_of(&items[1])) {
                    (Ok(first), Ok(second)) => Ok((first, second)),
                    _ => Err(String::from_str("expected a pair of 32-bit integers")),
                }
            } else {
                Err(String::from_str("expected a pair of 32-bit integers"))
            }
        },
        _ => Err(String::from_str("expected a pair of 32-bit integers")),
    }
}

/// Says of the field `name` what reading it gave.
pub fn named_text<T: DeepView>(name: &str, read: Result<T, String>) -> (r: Result<T, String>)
    ensures
        match read {
            Ok(value) => r == Ok::<T, String>(value),
            Err(fault) => r is Err && r->Err_0@ == in_field(name@, fault@),
        },
{
    match read {
        Ok(value) => Ok(value),
        Err(fault) => Err(in_field_text(name, fault.as_str())),
    }
}

/// The required string under `name`.
pub fn required_text(members: &Vec<(String, Json)>, name: &str) -> (r: Result<String, String>)
    ensures
        outcome_is(r, required_text_of(members_view(members@), name@)),
{
    match member(members, name) {
        Some(json) => named_text(name, text_of(json)),
        None => Err(in_field_text(name, "missing")),
    }
}

/// The optional string under `name`.
pub fn optional_text(members: &Vec<(String, Json)>, name: &str) -> (r: Result<
    Option<String>,
    String,
>)
    ensures
        outcome_is(r, optional_text_of(members_view(members@), name@)),
{
    match supplied_member(members, name) {
        Some(json) => match named_text(name, text_of(json)) {
            Ok(value) => Ok(Some(value)),
            Err(fault) => Err(fault),
        },
        None => Ok(None),
    }
}

/// The required boolean under `name`.
pub fn required_flag(members: &Vec<(String, Json)>, name: &str) -> (r: Result<bool, String>)
    ensures
        outcome_is(r, required_flag_of(members_view(members@), name@)),
{
    match member(members, name) {
        Some(json) => named_text(name, flag_of(json)),
        None => Err(in_field_text(name, "missing")),
    }
}

/// The required number under `name`.
pub fn required_binary64(members: &Vec<(String, Json)>, name: &str) -> (r: Result<
    Binary64,
    String,
>)
    ensures
        outcome_is(r, required_binary64_of(members_view(members@), name@)),
{
    match member(members, name) {
        Some(json) => named_text(name, binary64_of(json)),
        None => Err(in_field_text(name, "missing")),
    }
}

/// The optional number under `name`.
pub fn optional_binary64(members: &Vec<(String, Json)>, name: &str) -> (r: Result<
    Option<Binary64>,
    String,
>)
    ensures
        outcome_is(r, optional_binary64_of(members_view(members@), name@)),
{
    match supplied_member(members, name) {
        Some(json) => match named_text(name, binary64_of(json)) {
            Ok(value) => Ok(Some(value)),
            Err(fault) => Err(fault),
        },
        None => Ok(None),
    }
}

/// The required 32-bit integer under `name`.
pub fn required_int32(members: &Vec<(String, Json)>, name: &str) -> (r: Result<i32, String>)
    ensures
        outcome_is(r, required_int32_of(members_view(members@), name@)),
{
    match member(members, name) {
        Some(json) => named_text(name, int32_of(json)),
        None => Err(in_field_text(name, "missing")),
    }
}

/// The optional 32-bit integer under `name`.
pub fn optional_int32(members: &Vec<(String, Json)>, name: &str) -> (r: Result<
    Option<i32>,
    String,
>)
    ensures
        outcome_is(r, optional_int32_of(members_view(members@), name@)),
{
    match supplied_member(members, name) {
        Some(json) => match named_text(name, int32_of(json)) {
            Ok(value) => Ok(Some(value)),
            Err(fault) => Err(fault),
        },
        None => Ok(None),
    }
}

/// The optional pair of 32-bit integers under `name`.
pub fn optional_int32_pair(members: &Vec<(String, Json)>, name: &str) -> (r: Result<
    Option<(i32, i32)>,
    String,
>)
    ensures
        outcome_is(r, optional_int32_pair_of(members_view(members@), name@)),
{
    match supplied_member(members, name) {
        Some(json) => match named_text(name, int32_pair_of(json)) {
            Ok(value) => Ok(Some(value)),
            Err(fault) => Err(fault),
        },
        None => Ok(None),
    }
}

} // verus!
