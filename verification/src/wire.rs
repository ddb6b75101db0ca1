//! The boundary between the verified JSON model and the unverified world:
//! text parsing and emission through `serde_json`, identifier syntax checks
//! through `ruma_identifiers`, and character-wise string comparison.
//!
//! Every function here is trusted: its contract is believed, not proved.

use vstd::prelude::*;

use crate::json::JsonValue;
use serde_json::Value;

verus! {

/// `serde_json`'s JSON tree, carried opaquely between the trusted helpers
/// below.
#[verifier::external_type_specification]
#[verifier::external_body]
pub struct ExValue(serde_json::Value);

/// Relies on `str`'s `==`: true exactly when the two strings hold the same
/// characters.
#[verifier::external_body]
pub(crate) fn str_eq(a: &str, b: &str) -> (r: bool)
    ensures
        r == (a@ == b@),
{
    a == b
}

/// The JSON tree that `parse_json` yields for a given text, or `None` where
/// the text is rejected; parsing is a function of the text alone.
pub uninterp spec fn parsed_json(s: Seq<char>) -> Option<JsonValue>;

/// Relies on `serde_json::from_str` to parse text into a JSON tree, then
/// translates that tree arm by arm. Texts that are not valid JSON, and the
/// rare numbers outside the `u64`/`i64` domain, are rejected with the parser's
/// message.
#[verifier::external_body]
pub(crate) fn parse_json(s: &str) -> (r: Result<JsonValue, String>)
    ensures
        r is Ok <==> parsed_json(s@) is Some,
        r matches Ok(v) ==> parsed_json(s@) == Some(v) && v.wf(),
{
    match serde_json::from_str::<Value>(s) {
        Ok(v) => lower_value(&v).ok_or_else(|| "number out of range".to_string()),
        Err(e) => Err(e.to_string()),
    }
}

/// Relies on `serde_json::Value`'s accessors to read a parsed tree, one arm
/// per variant; object keys keep their order and are unique.
#[verifier::external_body]
fn lower_value(v: &Value) -> (r: Option<JsonValue>) {
    Some(match v {
        Value::Null => JsonValue::Null,
        Value::Bool(b) => JsonValue::Bool(*b),
        Value::Number(n) => match (n.as_u64(), n.as_i64()) {
            (Some(u), _) => JsonValue::UInt(u),
            (None, i) => JsonValue::Int(i?),
        },
        Value::String(s) => JsonValue::Str(s.clone()),
        Value::Array(a) => JsonValue::Arr(a.iter().map(lower_value).collect::<Option<_>>()?),
        Value::Object(m) => JsonValue::Obj(m.iter().map(|(k, w)| Some((k.clone(), lower_value(w)?))).collect::<Option<_>>()?),
    })
}

/// The text that `emit_json` writes for a given JSON tree; emission is a
/// function of the tree alone.
pub uninterp spec fn emitted(v: JsonValue) -> Seq<char>;

/// Relies on `serde_json::Value::to_string` to emit a JSON tree as text,
/// after raising the tree arm by arm.
#[verifier::external_body]
pub(crate) fn emit_json(v: &JsonValue) -> (r: String)
    ensures
        r@ == emitted(*v),
{
    raise_value(v).to_string()
}

/// Relies on `serde_json::Value`'s constructors to build a tree, one arm per
/// variant; object keys keep their order.
#[verifier::external_body]
fn raise_value(v: &JsonValue) -> Value {
    match v {
        JsonValue::Null => Value::Null,
        JsonValue::Bool(b) => Value::Bool(*b),
        JsonValue::UInt(u) => Value::from(*u),
        JsonValue::Int(i) => Value::from(*i),
        JsonValue::Str(s) => Value::String(s.clone()),
        JsonValue::Arr(a) => Value::Array(a.iter().map(raise_value).collect()),
        JsonValue::Obj(es) => Value::Object(es.iter().map(|(k, w)| (k.clone(), raise_value(w))).collect()),
    }
}

/// Whether `ruma_identifiers` accepts the string as a user identifier; the
/// outcome depends on the string alone.
pub uninterp spec fn user_id_valid(s: Seq<char>) -> bool;

/// Relies on `ruma_identifiers::UserId::parse` for user identifier syntax.
#[verifier::external_body]
pub(crate) fn check_user_id(s: &str) -> (r: bool)
    ensures
        r == user_id_valid(s@),
{
    ruma_identifiers::UserId::parse(s).is_ok()
}

/// Whether `ruma_identifiers` accepts the string as an event identifier; the
/// outcome depends on the string alone.
pub uninterp spec fn event_id_valid(s: Seq<char>) -> bool;

/// Relies on `ruma_identifiers::EventId::parse` for event identifier syntax.
#[verifier::external_body]
pub(crate) fn check_event_id(s: &str) -> (r: bool)
    ensures
        r == event_id_valid(s@),
{
    ruma_identifiers::EventId::parse(s).is_ok()
}

/// Whether `ruma_identifiers` accepts the string as a room identifier; the
/// outcome depends on the string alone.
pub uninterp spec fn room_id_valid(s: Seq<char>) -> bool;

/// Relies on `ruma_identifiers::RoomId::parse` for room identifier syntax.
#[verifier::external_body]
pub(crate) fn check_room_id(s: &str) -> (r: bool)
    ensures
        r == room_id_valid(s@),
{
    ruma_identifiers::RoomId::parse(s).is_ok()
}

} // verus!
