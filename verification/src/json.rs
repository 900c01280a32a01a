//! JSON values, as `serde_json` builds and writes them.

use vstd::prelude::*;

verus! {

/// `serde_json::Value`: a JSON value, with the values inside it.
#[verifier::external_type_specification]
#[verifier::external_body]
pub struct ExJsonValue(serde_json::Value);

/// What a JSON value holds, as the characters of its shortest text.
pub uninterp spec fn json_text(value: serde_json::Value) -> Seq<char>;

/// Whether JSON writes `s` in quotes as it is.
pub open spec fn needs_no_escape(s: Seq<char>) -> bool {
    forall|i: int|
        0 <= i < s.len() ==> ' ' <= #[trigger] s[i] && s[i] != '"' && s[i] != '\\'
}

/// `s` in quotes.
pub open spec fn quoted(s: Seq<char>) -> Seq<char> {
    seq!['"'] + s + seq!['"']
}

/// The parts with commas between them.
pub open spec fn comma_separated(parts: Seq<Seq<char>>) -> Seq<char>
    decreases parts.len(),
{
    if parts.len() == 0 {
        Seq::empty()
    } else if parts.len() == 1 {
        parts[0]
    } else {
        comma_separated(parts.drop_last()) + seq![','] + parts.last()
    }
}

/// A member of a JSON object.
pub open spec fn member_text(member: (String, serde_json::Value)) -> Seq<char> {
    quoted(member.0@) + seq![':'] + json_text(member.1)
}

/// Whether the members of an object are given in the order of their keys, which
/// the first characters of the keys decide.
pub open spec fn in_key_order(members: Seq<(String, serde_json::Value)>) -> bool {
    &&& forall|i: int|
        0 <= i < members.len() ==> (#[trigger] members[i]).0@.len() > 0 && needs_no_escape(
            members[i].0@,
        )
    &&& forall|i: int, j: int|
        0 <= i < j < members.len() ==> (#[trigger] members[i]).0@[0] < (
        #[trigger] members[j]).0@[0]
}

/// `Value::from` on a string: a JSON string.
#[verifier::external_body]
pub(crate) fn json_string(s: &str) -> (value: serde_json::Value)
    ensures
        needs_no_escape(s@) ==> json_text(value) == quoted(s@),
{
    serde_json::Value::from(s)
}

/// `Value::from` on values: a JSON array of them.
#[verifier::external_body]
pub(crate) fn json_array(values: Vec<serde_json::Value>) -> (value: serde_json::Value)
    ensures
        json_text(value) == seq!['['] + comma_separated(
            values@.map_values(|v: serde_json::Value| json_text(v)),
        ) + seq![']'],
{
    serde_json::Value::from(values)
}

/// `Map::from_iter` on keys and values: a JSON object of them. Where the members
/// are given in the order of their keys, they are written in that order.
#[verifier::external_body]
pub(crate) fn json_object(members: Vec<(String, serde_json::Value)>) -> (value: serde_json::Value)
    ensures
        in_key_order(members@) ==> json_text(value) == seq!['{'] + comma_separated(
            members@.map_values(|m: (String, serde_json::Value)| member_text(m)),
        ) + seq!['}'],
{
    serde_json::Value::Object(serde_json::Map::from_iter(members))
}

/// `serde_json::to_string` on a JSON value: its text, without spaces. Every JSON
/// value can be written.
#[verifier::external_body]
pub(crate) fn json_to_string(value: &serde_json::Value) -> (text: String)
    ensures
        text@ == json_text(*value),
{
    serde_json::to_string(value).expect("serialization")
}

} // verus!
