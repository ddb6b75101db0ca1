//! Catch-all events for types outside the specification.
//!
//! Decoding never fails merely because a discriminant is unknown: the JSON
//! lands in one of these records, its content kept as raw JSON and its
//! `type` string preserved verbatim.

use vstd::prelude::*;

use crate::fields::{absent, field_event_id, field_opt_room_id, field_opt_value, field_string,
    field_timestamp, field_user_id, parse_error, schema_error};
use crate::ids::{EventId, RoomId, UserId};
use crate::json::{entries_get, equiv, obj_push, JsonValue};
use crate::wire::{emit_json, emitted, event_id_valid, parse_json, parsed_json, room_id_valid,
    user_id_valid};
use crate::{EventType, InvalidEvent, MAX_SAFE_UINT};

verus! {

/// A custom basic event not covered by the specification.
#[derive(Clone, Debug, PartialEq)]
pub struct CustomEvent {
    /// The event's content: arbitrary JSON.
    pub content: JsonValue,
    /// The event's type string, preserved verbatim.
    pub event_type: String,
}

impl CustomEvent {
    /// The shape the structural phase accepts: `content` and a string
    /// `type`.
    pub open spec fn json_shape(v: JsonValue) -> bool {
        &&& v.spec_get("content"@) is Some
        &&& (v.spec_get("type"@) matches Some(t) && t is Str)
    }

    /// The decoded event keeps the content and the type string verbatim.
    pub open spec fn matches_json(self, v: JsonValue) -> bool {
        &&& (v.spec_get("content"@) matches Some(c) && equiv(self.content, c))
        &&& self.event_type@ == v.spec_get("type"@)->Some_0->Str_0@
    }

    /// Decodes from a parsed JSON value; accepted exactly on `json_shape`,
    /// and every rejection is a structural failure retaining the value.
    pub fn from_json(v: &JsonValue) -> (r: Result<CustomEvent, InvalidEvent>)
        ensures
            r is Ok <==> Self::json_shape(*v),
            r matches Ok(e) ==> e.matches_json(*v),
            r matches Err(d) ==> !d.is_validation() && (d.spec_json() matches Some(j) && equiv(
                j,
                *v,
            )),
    {
        let content = match v.get("content") {
            Some(c) => c.clone(),
            None => {
                return Err(schema_error(v, "missing field `content`"));
            },
        };
        let event_type = match field_string(v, "type") {
            Ok(s) => s,
            Err(_) => {
                return Err(schema_error(v, "invalid field `type`"));
            },
        };
        Ok(CustomEvent { content, event_type })
    }

    /// Decodes from JSON text.
    pub fn from_json_str(s: &str) -> (r: Result<CustomEvent, InvalidEvent>)
        ensures
            match parsed_json(s@) {
                None => r matches Err(d) && !d.is_validation() && d.spec_json() is None,
                Some(v) => {
                    &&& (r is Ok <==> Self::json_shape(v))
                    &&& (r matches Ok(e) ==> e.matches_json(v))
                    &&& (r matches Err(d) ==> !d.is_validation() && (d.spec_json() matches Some(j)
                        && equiv(j, v)))
                },
            },
    {
        match parse_json(s) {
            Ok(v) => Self::from_json(&v),
            Err(m) => Err(parse_error(m)),
        }
    }

    /// The type of this event: its preserved string.
    pub fn event_type(&self) -> (t: EventType)
        ensures
            t == EventType::Custom(self.event_type),
    {
        EventType::Custom(self.event_type.clone())
    }

    /// The exact object shape this event encodes to: `content`, then
    /// `type` holding the preserved string.
    pub open spec fn encodes(self, out: JsonValue) -> bool {
        &&& out is Obj
        &&& out->Obj_0@.len() == 2
        &&& out->Obj_0@[0].0@ == "content"@
        &&& equiv(out->Obj_0@[0].1, self.content)
        &&& out->Obj_0@[1].0@ == "type"@
        &&& out->Obj_0@[1].1 is Str && out->Obj_0@[1].1->Str_0@ == self.event_type@
    }

    /// Encodes into the wire object shape.
    pub fn to_json(&self) -> (out: JsonValue)
        ensures
            self.encodes(out),
    {
        let mut entries: Vec<(String, JsonValue)> = Vec::new();
        entries.push(("content".to_owned(), self.content.clone()));
        entries.push(("type".to_owned(), JsonValue::Str(self.event_type.clone())));
        JsonValue::Obj(entries)
    }

    /// The JSON text of the encoded event.
    pub fn to_json_string(&self) -> (r: String)
        ensures
            exists|t: JsonValue| #[trigger] self.encodes(t) && r@ == emitted(t),
    {
        let t = self.to_json();
        emit_json(&t)
    }
}

impl core::str::FromStr for CustomEvent {
    type Err = InvalidEvent;

    /// Attempts to create `Self` from parsing a string of JSON data.
    fn from_str(s: &str) -> Result<Self, InvalidEvent> {
        CustomEvent::from_json_str(s)
    }
}

impl crate::Event for CustomEvent {
    type Content = JsonValue;

    fn content(&self) -> &JsonValue {
        &self.content
    }

    fn event_type(&self) -> EventType {
        EventType::Custom(self.event_type.clone())
    }
}

/// A custom room event not covered by the specification.
#[derive(Clone, Debug, PartialEq)]
pub struct CustomRoomEvent {
    /// The event's content: arbitrary JSON.
    pub content: JsonValue,
    /// The unique identifier for the event.
    pub event_id: EventId,
    /// The event's type string, preserved verbatim.
    pub event_type: String,
    /// Timestamp (milliseconds since the UNIX epoch) on the originating
    /// homeserver when this event was sent.
    pub origin_server_ts: u64,
    /// The unique identifier for the room associated with this event.
    pub room_id: Option<RoomId>,
    /// The unique identifier for the user who sent this event.
    pub sender: UserId,
    /// Additional key-value pairs not signed by the homeserver.
    pub unsigned: Option<JsonValue>,
}

impl CustomRoomEvent {
    /// The identifiers a constructed event holds all passed their checks,
    /// and the timestamp lies in the unsigned-integer domain.
    pub open spec fn wf(self) -> bool {
        &&& self.event_id.wf()
        &&& self.sender.wf()
        &&& (self.room_id matches Some(id) ==> id.wf())
        &&& self.origin_server_ts <= MAX_SAFE_UINT
    }

    /// The shape the structural phase accepts.
    pub open spec fn json_shape(v: JsonValue) -> bool {
        &&& v.spec_get("content"@) is Some
        &&& (v.spec_get("type"@) matches Some(t) && t is Str)
        &&& (v.spec_get("event_id"@) matches Some(w) && w is Str && event_id_valid(w->Str_0@))
        &&& (v.spec_get("origin_server_ts"@) matches Some(w) && w is UInt && w->UInt_0
            <= MAX_SAFE_UINT)
        &&& (absent(v, "room_id"@) || (v.spec_get("room_id"@) matches Some(w) && w is Str
            && room_id_valid(w->Str_0@)))
        &&& (v.spec_get("sender"@) matches Some(w) && w is Str && user_id_valid(w->Str_0@))
    }

    /// How a decoded event relates to the value it was decoded from.
    pub open spec fn matches_json(self, v: JsonValue) -> bool {
        &&& (v.spec_get("content"@) matches Some(c) && equiv(self.content, c))
        &&& self.event_type@ == v.spec_get("type"@)->Some_0->Str_0@
        &&& self.event_id.spec_str() == v.spec_get("event_id"@)->Some_0->Str_0@
        &&& v.spec_get("origin_server_ts"@) == Some(JsonValue::UInt(self.origin_server_ts))
        &&& match self.room_id {
            None => absent(v, "room_id"@),
            Some(id) => !absent(v, "room_id"@) && id.spec_str() == v.spec_get(
                "room_id"@,
            )->Some_0->Str_0@,
        }
        &&& self.sender.spec_str() == v.spec_get("sender"@)->Some_0->Str_0@
        &&& match self.unsigned {
            None => absent(v, "unsigned"@),
            Some(u) => !absent(v, "unsigned"@) && (v.spec_get("unsigned"@) matches Some(w)
                && equiv(u, w)),
        }
    }

    /// Decodes from a parsed JSON value; accepted exactly on `json_shape`,
    /// and every rejection is a structural failure retaining the value.
    pub fn from_json(v: &JsonValue) -> (r: Result<CustomRoomEvent, InvalidEvent>)
        ensures
            r is Ok <==> Self::json_shape(*v),
            r matches Ok(e) ==> e.matches_json(*v) && e.wf(),
            r matches Err(d) ==> !d.is_validation() && (d.spec_json() matches Some(j) && equiv(
                j,
                *v,
            )),
    {
        let content = match v.get("content") {
            Some(c) => c.clone(),
            None => {
                return Err(schema_error(v, "missing field `content`"));
            },
        };
        let event_type = match field_string(v, "type") {
            Ok(s) => s,
            Err(_) => {
                return Err(schema_error(v, "invalid field `type`"));
            },
        };
        let event_id = match field_event_id(v, "event_id") {
            Ok(id) => id,
            Err(_) => {
                return Err(schema_error(v, "invalid field `event_id`"));
            },
        };
        let origin_server_ts = match field_timestamp(v, "origin_server_ts") {
            Ok(ts) => ts,
            Err(_) => {
                return Err(schema_error(v, "invalid field `origin_server_ts`"));
            },
        };
        let room_id = match field_opt_room_id(v, "room_id") {
            Ok(id) => id,
            Err(_) => {
                return Err(schema_error(v, "invalid field `room_id`"));
            },
        };
        let sender = match field_user_id(v, "sender") {
            Ok(id) => id,
            Err(_) => {
                return Err(schema_error(v, "invalid field `sender`"));
            },
        };
        let unsigned = field_opt_value(v, "unsigned");
        Ok(
            CustomRoomEvent {
                content,
                event_id,
                event_type,
                origin_server_ts,
                room_id,
                sender,
                unsigned,
            },
        )
    }

    /// Decodes from JSON text.
    pub fn from_json_str(s: &str) -> (r: Result<CustomRoomEvent, InvalidEvent>)
        ensures
            match parsed_json(s@) {
                None => r matches Err(d) && !d.is_validation() && d.spec_json() is None,
                Some(v) => {
                    &&& (r is Ok <==> Self::json_shape(v))
                    &&& (r matches Ok(e) ==> e.matches_json(v) && e.wf())
                    &&& (r matches Err(d) ==> !d.is_validation() && (d.spec_json() matches Some(j)
                        && equiv(j, v)))
                },
            },
    {
        match parse_json(s) {
            Ok(v) => Self::from_json(&v),
            Err(m) => Err(parse_error(m)),
        }
    }

    /// The type of this event: its preserved string.
    pub fn event_type(&self) -> (t: EventType)
        ensures
            t == EventType::Custom(self.event_type),
    {
        EventType::Custom(self.event_type.clone())
    }

    /// The exact object shape this event encodes to.
    pub open spec fn encodes(self, out: JsonValue) -> bool {
        &&& out is Obj
        &&& crate::json::distinct_keys(out->Obj_0@)
        &&& out->Obj_0@.len() == 5 + (if self.room_id is Some {
            1int
        } else {
            0int
        }) + (if self.unsigned is Some {
            1int
        } else {
            0int
        })
        &&& (out.spec_get("content"@) matches Some(c) && equiv(c, self.content))
        &&& (out.spec_get("event_id"@) matches Some(w) && w is Str && w->Str_0@
            == self.event_id.spec_str())
        &&& out.spec_get("origin_server_ts"@) == Some(JsonValue::UInt(self.origin_server_ts))
        &&& (out.spec_get("sender"@) matches Some(w) && w is Str && w->Str_0@
            == self.sender.spec_str())
        &&& (out.spec_get("type"@) matches Some(w) && w is Str && w->Str_0@ == self.event_type@)
        &&& match self.room_id {
            None => out.spec_get("room_id"@) is None,
            Some(id) => out.spec_get("room_id"@) matches Some(w) && w is Str && w->Str_0@
                == id.spec_str(),
        }
        &&& match self.unsigned {
            None => out.spec_get("unsigned"@) is None,
            Some(u) => out.spec_get("unsigned"@) matches Some(w) && equiv(w, u),
        }
        &&& forall|k: Seq<char>|
            #[trigger] entries_get(out->Obj_0@, k) is Some ==> k == "content"@ || k == "event_id"@
                || k == "origin_server_ts"@ || k == "sender"@ || k == "type"@ || k == "room_id"@
                || k == "unsigned"@
    }

    /// Encodes into the wire object shape.
    pub fn to_json(&self) -> (out: JsonValue)
        ensures
            self.encodes(out),
    {
        proof {
            crate::fields::lemma_event_keys_distinct();
        }
        let mut entries: Vec<(String, JsonValue)> = Vec::new();
        assert(entries@ =~= Seq::<(String, JsonValue)>::empty());
        obj_push(&mut entries, "content", self.content.clone());
        obj_push(&mut entries, "event_id", JsonValue::Str(self.event_id.as_str().to_owned()));
        obj_push(&mut entries, "origin_server_ts", JsonValue::UInt(self.origin_server_ts));
        obj_push(&mut entries, "sender", JsonValue::Str(self.sender.as_str().to_owned()));
        obj_push(&mut entries, "type", JsonValue::Str(self.event_type.clone()));
        match &self.room_id {
            Some(id) => obj_push(&mut entries, "room_id", JsonValue::Str(id.as_str().to_owned())),
            None => {},
        }
        match &self.unsigned {
            Some(u) => obj_push(&mut entries, "unsigned", u.clone()),
            None => {},
        }
        proof {
            assert forall|k: Seq<char>| #[trigger] entries_get(entries@, k) is Some implies k
                == "content"@ || k == "event_id"@ || k == "origin_server_ts"@ || k == "sender"@
                || k == "type"@ || k == "room_id"@ || k == "unsigned"@ by {}
        }
        JsonValue::Obj(entries)
    }

    /// The JSON text of the encoded event.
    pub fn to_json_string(&self) -> (r: String)
        ensures
            exists|t: JsonValue| #[trigger] self.encodes(t) && r@ == emitted(t),
    {
        let t = self.to_json();
        emit_json(&t)
    }
}

impl core::str::FromStr for CustomRoomEvent {
    type Err = InvalidEvent;

    /// Attempts to create `Self` from parsing a string of JSON data.
    fn from_str(s: &str) -> Result<Self, InvalidEvent> {
        CustomRoomEvent::from_json_str(s)
    }
}

impl crate::Event for CustomRoomEvent {
    type Content = JsonValue;

    fn content(&self) -> &JsonValue {
        &self.content
    }

    fn event_type(&self) -> EventType {
        EventType::Custom(self.event_type.clone())
    }
}

impl crate::RoomEvent for CustomRoomEvent {
    fn event_id(&self) -> &EventId {
        &self.event_id
    }

    fn origin_server_ts(&self) -> u64 {
        self.origin_server_ts
    }

    fn room_id(&self) -> Option<&RoomId> {
        self.room_id.as_ref()
    }

    fn sender(&self) -> &UserId {
        &self.sender
    }

    fn unsigned(&self) -> Option<&JsonValue> {
        self.unsigned.as_ref()
    }
}

/// A custom state event not covered by the specification.
#[derive(Clone, Debug, PartialEq)]
pub struct CustomStateEvent {
    /// The event's content: arbitrary JSON.
    pub content: JsonValue,
    /// The unique identifier for the event.
    pub event_id: EventId,
    /// The event's type string, preserved verbatim.
    pub event_type: String,
    /// Timestamp (milliseconds since the UNIX epoch) on the originating
    /// homeserver when this event was sent.
    pub origin_server_ts: u64,
    /// The previous content for this state key, if any: arbitrary JSON.
    pub prev_content: Option<JsonValue>,
    /// The unique identifier for the room associated with this event.
    pub room_id: Option<RoomId>,
    /// The unique identifier for the user who sent this event.
    pub sender: UserId,
    /// A key that determines which piece of room state the event represents.
    pub state_key: String,
    /// Additional key-value pairs not signed by the homeserver.
    pub unsigned: Option<JsonValue>,
}

impl CustomStateEvent {
    /// The identifiers a constructed event holds all passed their checks,
    /// and the timestamp lies in the unsigned-integer domain.
    pub open spec fn wf(self) -> bool {
        &&& self.event_id.wf()
        &&& self.sender.wf()
        &&& (self.room_id matches Some(id) ==> id.wf())
        &&& self.origin_server_ts <= MAX_SAFE_UINT
    }

    /// The shape the structural phase accepts.
    pub open spec fn json_shape(v: JsonValue) -> bool {
        &&& v.spec_get("content"@) is Some
        &&& (v.spec_get("type"@) matches Some(t) && t is Str)
        &&& (v.spec_get("event_id"@) matches Some(w) && w is Str && event_id_valid(w->Str_0@))
        &&& (v.spec_get("origin_server_ts"@) matches Some(w) && w is UInt && w->UInt_0
            <= MAX_SAFE_UINT)
        &&& (absent(v, "room_id"@) || (v.spec_get("room_id"@) matches Some(w) && w is Str
            && room_id_valid(w->Str_0@)))
        &&& (v.spec_get("sender"@) matches Some(w) && w is Str && user_id_valid(w->Str_0@))
        &&& (v.spec_get("state_key"@) matches Some(w) && w is Str)
    }

    /// How a decoded event relates to the value it was decoded from.
    pub open spec fn matches_json(self, v: JsonValue) -> bool {
        &&& (v.spec_get("content"@) matches Some(c) && equiv(self.content, c))
        &&& self.event_type@ == v.spec_get("type"@)->Some_0->Str_0@
        &&& self.event_id.spec_str() == v.spec_get("event_id"@)->Some_0->Str_0@
        &&& v.spec_get("origin_server_ts"@) == Some(JsonValue::UInt(self.origin_server_ts))
        &&& match self.prev_content {
            None => absent(v, "prev_content"@),
            Some(c) => !absent(v, "prev_content"@) && (v.spec_get("prev_content"@) matches Some(w)
                && equiv(c, w)),
        }
        &&& match self.room_id {
            None => absent(v, "room_id"@),
            Some(id) => !absent(v, "room_id"@) && id.spec_str() == v.spec_get(
                "room_id"@,
            )->Some_0->Str_0@,
        }
        &&& self.sender.spec_str() == v.spec_get("sender"@)->Some_0->Str_0@
        &&& self.state_key@ == v.spec_get("state_key"@)->Some_0->Str_0@
        &&& match self.unsigned {
            None => absent(v, "unsigned"@),
            Some(u) => !absent(v, "unsigned"@) && (v.spec_get("unsigned"@) matches Some(w)
                && equiv(u, w)),
        }
    }

    /// Decodes from a parsed JSON value; accepted exactly on `json_shape`,
    /// and every rejection is a structural failure retaining the value.
    pub fn from_json(v: &JsonValue) -> (r: Result<CustomStateEvent, InvalidEvent>)
        ensures
            r is Ok <==> Self::json_shape(*v),
            r matches Ok(e) ==> e.matches_json(*v) && e.wf(),
            r matches Err(d) ==> !d.is_validation() && (d.spec_json() matches Some(j) && equiv(
                j,
                *v,
            )),
    {
        let content = match v.get("content") {
            Some(c) => c.clone(),
            None => {
                return Err(schema_error(v, "missing field `content`"));
            },
        };
        let event_type = match field_string(v, "type") {
            Ok(s) => s,
            Err(_) => {
                return Err(schema_error(v, "invalid field `type`"));
            },
        };
        let event_id = match field_event_id(v, "event_id") {
            Ok(id) => id,
            Err(_) => {
                return Err(schema_error(v, "invalid field `event_id`"));
            },
        };
        let origin_server_ts = match field_timestamp(v, "origin_server_ts") {
            Ok(ts) => ts,
            Err(_) => {
                return Err(schema_error(v, "invalid field `origin_server_ts`"));
            },
        };
        let prev_content = field_opt_value(v, "prev_content");
        let room_id = match field_opt_room_id(v, "room_id") {
            Ok(id) => id,
            Err(_) => {
                return Err(schema_error(v, "invalid field `room_id`"));
            },
        };
        let sender = match field_user_id(v, "sender") {
            Ok(id) => id,
            Err(_) => {
                return Err(schema_error(v, "invalid field `sender`"));
            },
        };
        let state_key = match field_string(v, "state_key") {
            Ok(s) => s,
            Err(_) => {
                return Err(schema_error(v, "invalid field `state_key`"));
            },
        };
        let unsigned = field_opt_value(v, "unsigned");
        Ok(
            CustomStateEvent {
                content,
                event_id,
                event_type,
                origin_server_ts,
                prev_content,
                room_id,
                sender,
                state_key,
                unsigned,
            },
        )
    }

    /// Decodes from JSON text.
    pub fn from_json_str(s: &str) -> (r: Result<CustomStateEvent, InvalidEvent>)
        ensures
            match parsed_json(s@) {
                None => r matches Err(d) && !d.is_validation() && d.spec_json() is None,
                Some(v) => {
                    &&& (r is Ok <==> Self::json_shape(v))
                    &&& (r matches Ok(e) ==> e.matches_json(v) && e.wf())
                    &&& (r matches Err(d) ==> !d.is_validation() && (d.spec_json() matches Some(j)
                        && equiv(j, v)))
                },
            },
    {
        match parse_json(s) {
            Ok(v) => Self::from_json(&v),
            Err(m) => Err(parse_error(m)),
        }
    }

    /// The type of this event: its preserved string.
    pub fn event_type(&self) -> (t: EventType)
        ensures
            t == EventType::Custom(self.event_type),
    {
        EventType::Custom(self.event_type.clone())
    }

    /// The exact object shape this event encodes to.
    pub open spec fn encodes(self, out: JsonValue) -> bool {
        &&& out is Obj
        &&& crate::json::distinct_keys(out->Obj_0@)
        &&& out->Obj_0@.len() == 6 + (if self.prev_content is Some {
            1int
        } else {
            0int
        }) + (if self.room_id is Some {
            1int
        } else {
            0int
        }) + (if self.unsigned is Some {
            1int
        } else {
            0int
        })
        &&& (out.spec_get("content"@) matches Some(c) && equiv(c, self.content))
        &&& (out.spec_get("event_id"@) matches Some(w) && w is Str && w->Str_0@
            == self.event_id.spec_str())
        &&& out.spec_get("origin_server_ts"@) == Some(JsonValue::UInt(self.origin_server_ts))
        &&& (out.spec_get("sender"@) matches Some(w) && w is Str && w->Str_0@
            == self.sender.spec_str())
        &&& (out.spec_get("state_key"@) matches Some(w) && w is Str && w->Str_0@
            == self.state_key@)
        &&& (out.spec_get("type"@) matches Some(w) && w is Str && w->Str_0@ == self.event_type@)
        &&& match self.prev_content {
            None => out.spec_get("prev_content"@) is None,
            Some(c) => out.spec_get("prev_content"@) matches Some(w) && equiv(w, c),
        }
        &&& match self.room_id {
            None => out.spec_get("room_id"@) is None,
            Some(id) => out.spec_get("room_id"@) matches Some(w) && w is Str && w->Str_0@
                == id.spec_str(),
        }
        &&& match self.unsigned {
            None => out.spec_get("unsigned"@) is None,
            Some(u) => out.spec_get("unsigned"@) matches Some(w) && equiv(w, u),
        }
        &&& forall|k: Seq<char>|
            #[trigger] entries_get(out->Obj_0@, k) is Some ==> k == "content"@ || k == "event_id"@
                || k == "origin_server_ts"@ || k == "sender"@ || k == "state_key"@ || k == "type"@
                || k == "prev_content"@ || k == "room_id"@ || k == "unsigned"@
    }

    /// Encodes into the wire object shape.
    pub fn to_json(&self) -> (out: JsonValue)
        ensures
            self.encodes(out),
    {
        proof {
            crate::fields::lemma_event_keys_distinct();
        }
        let mut entries: Vec<(String, JsonValue)> = Vec::new();
        assert(entries@ =~= Seq::<(String, JsonValue)>::empty());
        obj_push(&mut entries, "content", self.content.clone());
        obj_push(&mut entries, "event_id", JsonValue::Str(self.event_id.as_str().to_owned()));
        obj_push(&mut entries, "origin_server_ts", JsonValue::UInt(self.origin_server_ts));
        obj_push(&mut entries, "sender", JsonValue::Str(self.sender.as_str().to_owned()));
        obj_push(&mut entries, "state_key", JsonValue::Str(self.state_key.clone()));
        obj_push(&mut entries, "type", JsonValue::Str(self.event_type.clone()));
        match &self.prev_content {
            Some(c) => obj_push(&mut entries, "prev_content", c.clone()),
            None => {},
        }
        match &self.room_id {
            Some(id) => obj_push(&mut entries, "room_id", JsonValue::Str(id.as_str().to_owned())),
            None => {},
        }
        match &self.unsigned {
            Some(u) => obj_push(&mut entries, "unsigned", u.clone()),
            None => {},
        }
        proof {
            assert forall|k: Seq<char>| #[trigger] entries_get(entries@, k) is Some implies k
                == "content"@ || k == "event_id"@ || k == "origin_server_ts"@ || k == "sender"@
                || k == "state_key"@ || k == "type"@ || k == "prev_content"@ || k == "room_id"@
                || k == "unsigned"@ by {}
        }
        JsonValue::Obj(entries)
    }

    /// The JSON text of the encoded event.
    pub fn to_json_string(&self) -> (r: String)
        ensures
            exists|t: JsonValue| #[trigger] self.encodes(t) && r@ == emitted(t),
    {
        let t = self.to_json();
        emit_json(&t)
    }
}

impl core::str::FromStr for CustomStateEvent {
    type Err = InvalidEvent;

    /// Attempts to create `Self` from parsing a string of JSON data.
    fn from_str(s: &str) -> Result<Self, InvalidEvent> {
        CustomStateEvent::from_json_str(s)
    }
}

impl crate::Event for CustomStateEvent {
    type Content = JsonValue;

    fn content(&self) -> &JsonValue {
        &self.content
    }

    fn event_type(&self) -> EventType {
        EventType::Custom(self.event_type.clone())
    }
}

impl crate::RoomEvent for CustomStateEvent {
    fn event_id(&self) -> &EventId {
        &self.event_id
    }

    fn origin_server_ts(&self) -> u64 {
        self.origin_server_ts
    }

    fn room_id(&self) -> Option<&RoomId> {
        self.room_id.as_ref()
    }

    fn sender(&self) -> &UserId {
        &self.sender
    }

    fn unsigned(&self) -> Option<&JsonValue> {
        self.unsigned.as_ref()
    }
}

impl crate::StateEvent for CustomStateEvent {
    fn prev_content(&self) -> Option<&JsonValue> {
        self.prev_content.as_ref()
    }

    fn state_key(&self) -> &str {
        self.state_key.as_str()
    }
}

} // verus!
