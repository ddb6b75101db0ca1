//! Shared field readers for the structural decode phase: each pulls one
//! wire field out of an event object, checks its type and syntax, and says
//! exactly when it succeeds. Optional fields treat `null` like absence.

use vstd::prelude::*;

use crate::ids::{EventId, RoomId, UserId};
use crate::json::JsonValue;
use crate::wire::{event_id_valid, room_id_valid, user_id_valid};
use crate::{InnerInvalidEvent, InvalidEvent, MAX_SAFE_UINT};

verus! {

/// Whether an optional field is in the "not present" state: absent or null.
pub open spec fn absent(v: JsonValue, key: Seq<char>) -> bool {
    v.spec_get(key) is None || v.spec_get(key) == Some(JsonValue::Null)
}

/// Reads a required event-identifier field.
pub(crate) fn field_event_id(v: &JsonValue, key: &str) -> (r: Result<EventId, ()>)
    ensures
        r is Ok <==> (v.spec_get(key@) matches Some(w) && w is Str && event_id_valid(w->Str_0@)),
        r matches Ok(id) ==> id.wf() && id.spec_str() == v.spec_get(key@)->Some_0->Str_0@,
{
    match v.get(key) {
        Some(JsonValue::Str(s)) => match EventId::try_from(s.as_str()) {
            Ok(id) => Ok(id),
            Err(_) => Err(()),
        },
        _ => Err(()),
    }
}

/// Reads a required user-identifier field.
pub(crate) fn field_user_id(v: &JsonValue, key: &str) -> (r: Result<UserId, ()>)
    ensures
        r is Ok <==> (v.spec_get(key@) matches Some(w) && w is Str && user_id_valid(w->Str_0@)),
        r matches Ok(id) ==> id.wf() && id.spec_str() == v.spec_get(key@)->Some_0->Str_0@,
{
    match v.get(key) {
        Some(JsonValue::Str(s)) => match UserId::try_from(s.as_str()) {
            Ok(id) => Ok(id),
            Err(_) => Err(()),
        },
        _ => Err(()),
    }
}

/// Reads an optional room-identifier field; absent or null means none.
pub(crate) fn field_opt_room_id(v: &JsonValue, key: &str) -> (r: Result<Option<RoomId>, ()>)
    ensures
        r is Ok <==> (absent(*v, key@) || (v.spec_get(key@) matches Some(w) && w is Str
            && room_id_valid(w->Str_0@))),
        r matches Ok(o) ==> match o {
            None => absent(*v, key@),
            Some(id) => !absent(*v, key@) && id.wf() && id.spec_str() == v.spec_get(
                key@,
            )->Some_0->Str_0@,
        },
{
    match v.get(key) {
        None => Ok(None),
        Some(JsonValue::Null) => Ok(None),
        Some(JsonValue::Str(s)) => match RoomId::try_from(s.as_str()) {
            Ok(id) => Ok(Some(id)),
            Err(_) => Err(()),
        },
        _ => Err(()),
    }
}

/// Reads a required timestamp field: a non-negative integer within the
/// protocol's safe-integer domain.
pub(crate) fn field_timestamp(v: &JsonValue, key: &str) -> (r: Result<u64, ()>)
    ensures
        r is Ok <==> (v.spec_get(key@) matches Some(w) && w is UInt && w->UInt_0
            <= MAX_SAFE_UINT),
        r matches Ok(ts) ==> v.spec_get(key@) == Some(JsonValue::UInt(ts)) && ts
            <= MAX_SAFE_UINT,
{
    match v.get(key) {
        Some(JsonValue::UInt(u)) => {
            if *u <= MAX_SAFE_UINT {
                Ok(*u)
            } else {
                Err(())
            }
        },
        _ => Err(()),
    }
}

/// Reads a required string field.
pub(crate) fn field_string(v: &JsonValue, key: &str) -> (r: Result<String, ()>)
    ensures
        r is Ok <==> (v.spec_get(key@) matches Some(w) && w is Str),
        r matches Ok(s) ==> s@ == v.spec_get(key@)->Some_0->Str_0@,
{
    match v.get(key) {
        Some(JsonValue::Str(s)) => Ok(s.clone()),
        _ => Err(()),
    }
}

/// Reads an optional free-form field; absent or null means none, anything
/// else is kept as it came.
pub(crate) fn field_opt_value(v: &JsonValue, key: &str) -> (r: Option<JsonValue>)
    ensures
        match r {
            None => absent(*v, key@),
            Some(u) => !absent(*v, key@) && (v.spec_get(key@) matches Some(w)
                && crate::json::equiv(u, w)),
        },
{
    match v.get(key) {
        None => None,
        Some(JsonValue::Null) => None,
        Some(w) => Some(w.clone()),
    }
}

/// A structural-phase diagnostic: the shape did not match the schema. The
/// parsed value is retained.
pub(crate) fn schema_error(v: &JsonValue, message: &str) -> (d: InvalidEvent)
    ensures
        !d.is_validation(),
        d.spec_json() matches Some(j) && crate::json::equiv(j, *v),
        d.spec_message() == message@,
{
    InvalidEvent(
        InnerInvalidEvent::Deserialization { json: Some(v.clone()), message: message.to_owned() },
    )
}

/// A semantic-phase diagnostic: the shape matched but validation failed.
/// The parsed value is retained.
pub(crate) fn validation_error(v: &JsonValue, message: &str) -> (d: InvalidEvent)
    ensures
        d.is_validation(),
        d.spec_json() matches Some(j) && crate::json::equiv(j, *v),
        d.spec_message() == message@,
{
    InvalidEvent(
        InnerInvalidEvent::Validation { json: v.clone(), message: message.to_owned() },
    )
}

/// The diagnostic for text that was not valid JSON: nothing to retain but
/// the parser's message.
pub(crate) fn parse_error(message: String) -> (d: InvalidEvent)
    ensures
        !d.is_validation(),
        d.spec_json() is None,
        d.spec_message() == message@,
{
    InvalidEvent(InnerInvalidEvent::Deserialization { json: None, message })
}


/// The wire keys of the event envelope are pairwise distinct.
pub(crate) proof fn lemma_event_keys_distinct()
    ensures
        "content"@ != "event_id"@,
        "content"@ != "origin_server_ts"@,
        "content"@ != "sender"@,
        "content"@ != "state_key"@,
        "content"@ != "type"@,
        "content"@ != "prev_content"@,
        "content"@ != "room_id"@,
        "content"@ != "unsigned"@,
        "event_id"@ != "origin_server_ts"@,
        "event_id"@ != "sender"@,
        "event_id"@ != "state_key"@,
        "event_id"@ != "type"@,
        "event_id"@ != "prev_content"@,
        "event_id"@ != "room_id"@,
        "event_id"@ != "unsigned"@,
        "origin_server_ts"@ != "sender"@,
        "origin_server_ts"@ != "state_key"@,
        "origin_server_ts"@ != "type"@,
        "origin_server_ts"@ != "prev_content"@,
        "origin_server_ts"@ != "room_id"@,
        "origin_server_ts"@ != "unsigned"@,
        "sender"@ != "state_key"@,
        "sender"@ != "type"@,
        "sender"@ != "prev_content"@,
        "sender"@ != "room_id"@,
        "sender"@ != "unsigned"@,
        "state_key"@ != "type"@,
        "state_key"@ != "prev_content"@,
        "state_key"@ != "room_id"@,
        "state_key"@ != "unsigned"@,
        "type"@ != "prev_content"@,
        "type"@ != "room_id"@,
        "type"@ != "unsigned"@,
        "prev_content"@ != "room_id"@,
        "prev_content"@ != "unsigned"@,
        "room_id"@ != "unsigned"@,
{
    reveal_strlit("content");
    reveal_strlit("event_id");
    reveal_strlit("origin_server_ts");
    reveal_strlit("sender");
    reveal_strlit("state_key");
    reveal_strlit("type");
    reveal_strlit("prev_content");
    reveal_strlit("room_id");
    reveal_strlit("unsigned");
    assert(("content"@).len() == 7);
    assert(("event_id"@).len() == 8);
    assert(("origin_server_ts"@).len() == 16);
    assert(("sender"@).len() == 6);
    assert(("state_key"@).len() == 9);
    assert(("type"@).len() == 4);
    assert(("prev_content"@).len() == 12);
    assert(("room_id"@).len() == 7);
    assert(("unsigned"@).len() == 8);
    assert(("content"@)[0] != ("room_id"@)[0]);
    assert(("event_id"@)[0] != ("unsigned"@)[0]);
}

} // verus!
