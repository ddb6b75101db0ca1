//! Enums for heterogeneous collections of events, inclusive for every event
//! type of this crate that reaches the enum's kind.
//!
//! Decoding resolves the `type` discriminant through the registry and
//! dispatches to the named record's own two-phase decoder. A known
//! discriminant below the collection's kind is rejected outright — never
//! coerced into a catch-all — while an unknown discriminant is routed to
//! the catch-all record its field shape calls for. The unions expose the
//! shared fields directly; a type-erased content accessor is deliberately
//! not part of the union interface, since the concrete content types
//! disagree.

use vstd::prelude::*;

use crate::custom::{CustomEvent, CustomRoomEvent, CustomStateEvent};
use crate::dummy::DummyEvent;
use crate::fields::validation_error;
use crate::ids::{EventId, RoomId, UserId};
use crate::ignored_user_list::IgnoredUserListEvent;
use crate::json::{equiv, JsonValue};
use crate::room::encrypted::{EncryptedEvent, EncryptedEventContent};
use crate::room::join_rules::JoinRulesEvent;
use crate::room::server_acl::ServerAclEvent;
use crate::fields::parse_error;
use crate::wire::{emit_json, emitted, parse_json, parsed_json};
use crate::{is_known_event_type, lemma_event_type_unique, EventKind, EventType, InvalidEvent};

verus! {

/// The `type` string of an event object, where the field is a string.
pub open spec fn spec_type_str(v: JsonValue) -> Option<Seq<char>> {
    match v.spec_get("type"@) {
        Some(JsonValue::Str(s)) => Some(s@),
        _ => None,
    }
}

/// Whether the object carries the room-event marker fields, present in any
/// form, that route an unknown discriminant to the room-scoped catch-all.
pub open spec fn has_room_markers(v: JsonValue) -> bool {
    &&& v.spec_get("event_id"@) is Some
    &&& v.spec_get("room_id"@) is Some
    &&& v.spec_get("sender"@) is Some
}

/// A basic event, room event, or state event.
#[derive(Clone, Debug, PartialEq)]
pub enum Event {
    /// m.dummy
    Dummy(DummyEvent),
    /// m.ignored_user_list
    IgnoredUserList(IgnoredUserListEvent),
    /// m.room.encrypted
    RoomEncrypted(EncryptedEvent),
    /// m.room.join_rules
    RoomJoinRules(JoinRulesEvent),
    /// m.room.server_acl
    RoomServerAcl(ServerAclEvent),
    /// Any basic event that is not part of the specification.
    Custom(CustomEvent),
    /// Any room event that is not part of the specification.
    CustomRoom(CustomRoomEvent),
    /// Any state event that is not part of the specification.
    CustomState(CustomStateEvent),
}

impl Event {
    /// Where an unknown discriminant routes at this level: the state-scoped
    /// catch-all on a `state_key`, the room-scoped catch-all on the room
    /// marker fields, the basic catch-all otherwise.
    pub open spec fn custom_route_shape(v: JsonValue) -> bool {
        if v.spec_get("state_key"@) is Some {
            CustomStateEvent::json_shape(v)
        } else if has_room_markers(v) {
            CustomRoomEvent::json_shape(v)
        } else {
            CustomEvent::json_shape(v)
        }
    }

    /// What a discriminant demands of the object at this level: known
    /// discriminants of this crate demand their record's shape, other known
    /// discriminants have no decoder here, and extension discriminants
    /// demand the routed catch-all's shape.
    pub open spec fn type_accepts(t: EventType, v: JsonValue) -> bool {
        match t {
            EventType::Dummy => DummyEvent::json_shape(v),
            EventType::IgnoredUserList => IgnoredUserListEvent::json_shape(v),
            EventType::RoomEncrypted => EncryptedEvent::json_shape(v)
                && EncryptedEventContent::json_ok(v.spec_get("content"@)->Some_0),
            EventType::RoomJoinRules => JoinRulesEvent::json_shape(v),
            EventType::RoomServerAcl => ServerAclEvent::json_shape(v),
            EventType::Custom(_) => Self::custom_route_shape(v),
            _ => false,
        }
    }

    /// The inputs this collection decodes: a string discriminant whose
    /// demanded shape holds.
    pub open spec fn accepts(v: JsonValue) -> bool {
        spec_type_str(v) matches Some(s) && (exists|t: EventType|
            (#[trigger] t.is_for(s)) && Self::type_accepts(t, v))
    }

    /// How a decoded union value relates to the value it was decoded from.
    pub open spec fn matches_json(self, v: JsonValue) -> bool {
        match self {
            Event::Dummy(_) => spec_type_str(v) == Some("m.dummy"@) && DummyEvent::json_shape(v),
            Event::IgnoredUserList(e) => spec_type_str(v) == Some("m.ignored_user_list"@)
                && e.matches_json(v),
            Event::RoomEncrypted(e) => spec_type_str(v) == Some("m.room.encrypted"@)
                && e.matches_json(v) && e.wf(),
            Event::RoomJoinRules(e) => spec_type_str(v) == Some("m.room.join_rules"@)
                && e.matches_json(v) && e.wf(),
            Event::RoomServerAcl(e) => spec_type_str(v) == Some("m.room.server_acl"@)
                && e.matches_json(v) && e.wf(),
            Event::Custom(e) => (spec_type_str(v) matches Some(s) && !is_known_event_type(s))
                && v.spec_get("state_key"@) is None && !has_room_markers(v) && e.matches_json(v),
            Event::CustomRoom(e) => (spec_type_str(v) matches Some(s) && !is_known_event_type(s))
                && v.spec_get("state_key"@) is None && has_room_markers(v) && e.matches_json(v)
                && e.wf(),
            Event::CustomState(e) => (spec_type_str(v) matches Some(s) && !is_known_event_type(s))
                && v.spec_get("state_key"@) is Some && e.matches_json(v) && e.wf(),
        }
    }

    /// Decodes from a parsed JSON value by its discriminant. A missing or
    /// non-string `type` is a validation failure naming the field; every
    /// failure retains the value.
    pub fn from_json(v: &JsonValue) -> (r: Result<Event, InvalidEvent>)
        ensures
            r is Ok <==> Self::accepts(*v),
            r matches Ok(ev) ==> ev.matches_json(*v),
            r matches Err(d) ==> d.spec_json() matches Some(j) && equiv(j, *v),
            v.spec_get("type"@) is None ==> (r matches Err(d) && d.is_validation()
                && d.spec_message() == "missing field `type`"@),
            (v.spec_get("type"@) matches Some(t) && !(t is Str)) ==> (r matches Err(d)
                && d.is_validation()),
    {
        let type_value = match v.get("type") {
            Some(t) => t,
            None => {
                return Err(validation_error(v, "missing field `type`"));
            },
        };
        let s = match type_value {
            JsonValue::Str(s) => s,
            _ => {
                return Err(validation_error(v, "invalid field `type`"));
            },
        };
        let event_type = EventType::from_str(s.as_str());
        let ghost et = event_type;
        proof {
            assert(spec_type_str(*v) == Some(s@));
            assert(et.is_for(spec_type_str(*v)->Some_0));
            assert forall|t: EventType| #[trigger] t.is_for(spec_type_str(*v)->Some_0) implies t
                == et || (t is Custom && et is Custom) by {
                lemma_event_type_unique(spec_type_str(*v)->Some_0, et, t);
            }
        }
        match event_type {
            EventType::Dummy => match DummyEvent::from_json(v) {
                Ok(e) => Ok(Event::Dummy(e)),
                Err(d) => Err(d),
            },
            EventType::IgnoredUserList => match IgnoredUserListEvent::from_json(v) {
                Ok(e) => Ok(Event::IgnoredUserList(e)),
                Err(d) => Err(d),
            },
            EventType::RoomEncrypted => match EncryptedEvent::from_json(v) {
                Ok(e) => Ok(Event::RoomEncrypted(e)),
                Err(d) => Err(d),
            },
            EventType::RoomJoinRules => match JoinRulesEvent::from_json(v) {
                Ok(e) => Ok(Event::RoomJoinRules(e)),
                Err(d) => Err(d),
            },
            EventType::RoomServerAcl => match ServerAclEvent::from_json(v) {
                Ok(e) => Ok(Event::RoomServerAcl(e)),
                Err(d) => Err(d),
            },
            EventType::Custom(_) => {
                if v.get("state_key").is_some() {
                    match CustomStateEvent::from_json(v) {
                        Ok(e) => Ok(Event::CustomState(e)),
                        Err(d) => Err(d),
                    }
                } else if v.get("event_id").is_some() && v.get("room_id").is_some() && v.get(
                    "sender",
                ).is_some() {
                    match CustomRoomEvent::from_json(v) {
                        Ok(e) => Ok(Event::CustomRoom(e)),
                        Err(d) => Err(d),
                    }
                } else {
                    match CustomEvent::from_json(v) {
                        Ok(e) => Ok(Event::Custom(e)),
                        Err(d) => Err(d),
                    }
                }
            },
            _ => Err(validation_error(v, "unsupported event type")),
        }
    }

    /// Decodes from JSON text: text that is not valid JSON is a structural
    /// failure with nothing retained; otherwise as [`Self::from_json`].
    pub fn from_json_str(s: &str) -> (r: Result<Event, InvalidEvent>)
        ensures
            match parsed_json(s@) {
                None => r matches Err(d) && !d.is_validation() && d.spec_json() is None,
                Some(v) => {
                    &&& (r is Ok <==> Self::accepts(v))
                    &&& (r matches Ok(ev) ==> ev.matches_json(v))
                    &&& (r matches Err(d) ==> d.spec_json() matches Some(j) && equiv(j, v))
                    &&& (v.spec_get("type"@) is None ==> (r matches Err(d) && d.is_validation()
                        && d.spec_message() == "missing field `type`"@))
                },
            },
    {
        match parse_json(s) {
            Ok(v) => Self::from_json(&v),
            Err(m) => Err(parse_error(m)),
        }
    }

    /// The exact object shape a union value encodes to: its record's own.
    pub open spec fn encodes(self, out: JsonValue) -> bool {
        match self {
            Event::Dummy(e) => e.encodes(out),
            Event::IgnoredUserList(e) => e.encodes(out),
            Event::RoomEncrypted(e) => e.encodes(out),
            Event::RoomJoinRules(e) => e.encodes(out),
            Event::RoomServerAcl(e) => e.encodes(out),
            Event::Custom(e) => e.encodes(out),
            Event::CustomRoom(e) => e.encodes(out),
            Event::CustomState(e) => e.encodes(out),
        }
    }

    /// Encodes by dispatching to the wrapped record's own encoder; the
    /// union carries no field layout of its own.
    pub fn to_json(&self) -> (out: JsonValue)
        ensures
            self.encodes(out),
    {
        match self {
            Event::Dummy(e) => e.to_json(),
            Event::IgnoredUserList(e) => e.to_json(),
            Event::RoomEncrypted(e) => e.to_json(),
            Event::RoomJoinRules(e) => e.to_json(),
            Event::RoomServerAcl(e) => e.to_json(),
            Event::Custom(e) => e.to_json(),
            Event::CustomRoom(e) => e.to_json(),
            Event::CustomState(e) => e.to_json(),
        }
    }

    /// The JSON text of the encoded event.
    pub fn to_json_string(&self) -> (r: String)
        ensures
            exists|t: JsonValue| #[trigger] self.encodes(t) && r@ == emitted(t),
    {
        let t = self.to_json();
        emit_json(&t)
    }

    /// The type of the wrapped event.
    pub open spec fn spec_event_type(self) -> EventType {
        match self {
            Event::Dummy(_) => EventType::Dummy,
            Event::IgnoredUserList(_) => EventType::IgnoredUserList,
            Event::RoomEncrypted(_) => EventType::RoomEncrypted,
            Event::RoomJoinRules(_) => EventType::RoomJoinRules,
            Event::RoomServerAcl(_) => EventType::RoomServerAcl,
            Event::Custom(e) => EventType::Custom(e.event_type),
            Event::CustomRoom(e) => EventType::Custom(e.event_type),
            Event::CustomState(e) => EventType::Custom(e.event_type),
        }
    }

    /// The type of the wrapped event.
    pub fn event_type(&self) -> (t: EventType)
        ensures
            t == self.spec_event_type(),
    {
        match self {
            Event::Dummy(e) => e.event_type(),
            Event::IgnoredUserList(e) => e.event_type(),
            Event::RoomEncrypted(e) => e.event_type(),
            Event::RoomJoinRules(e) => e.event_type(),
            Event::RoomServerAcl(e) => e.event_type(),
            Event::Custom(e) => e.event_type(),
            Event::CustomRoom(e) => e.event_type(),
            Event::CustomState(e) => e.event_type(),
        }
    }
}

impl core::str::FromStr for Event {
    type Err = InvalidEvent;

    /// Attempts to create `Self` from parsing a string of JSON data.
    fn from_str(s: &str) -> Result<Self, InvalidEvent> {
        Event::from_json_str(s)
    }
}

/// A room event or state event.
#[derive(Clone, Debug, PartialEq)]
pub enum RoomEvent {
    /// m.room.encrypted
    RoomEncrypted(EncryptedEvent),
    /// m.room.join_rules
    RoomJoinRules(JoinRulesEvent),
    /// m.room.server_acl
    RoomServerAcl(ServerAclEvent),
    /// Any room event that is not part of the specification.
    CustomRoom(CustomRoomEvent),
    /// Any state event that is not part of the specification.
    CustomState(CustomStateEvent),
}

impl RoomEvent {
    /// Where an unknown discriminant routes at this level: the state-scoped
    /// catch-all on a `state_key`, else the room-scoped catch-all.
    pub open spec fn custom_route_shape(v: JsonValue) -> bool {
        if v.spec_get("state_key"@) is Some {
            CustomStateEvent::json_shape(v)
        } else {
            CustomRoomEvent::json_shape(v)
        }
    }

    /// What a discriminant demands of the object at this level. A basic
    /// discriminant demands nothing: it is rejected outright.
    pub open spec fn type_accepts(t: EventType, v: JsonValue) -> bool {
        match t {
            EventType::RoomEncrypted => EncryptedEvent::json_shape(v)
                && EncryptedEventContent::json_ok(v.spec_get("content"@)->Some_0),
            EventType::RoomJoinRules => JoinRulesEvent::json_shape(v),
            EventType::RoomServerAcl => ServerAclEvent::json_shape(v),
            EventType::Custom(_) => Self::custom_route_shape(v),
            _ => false,
        }
    }

    /// The inputs this collection decodes.
    pub open spec fn accepts(v: JsonValue) -> bool {
        spec_type_str(v) matches Some(s) && (exists|t: EventType|
            (#[trigger] t.is_for(s)) && Self::type_accepts(t, v))
    }

    /// How a decoded union value relates to the value it was decoded from.
    pub open spec fn matches_json(self, v: JsonValue) -> bool {
        match self {
            RoomEvent::RoomEncrypted(e) => spec_type_str(v) == Some("m.room.encrypted"@)
                && e.matches_json(v) && e.wf(),
            RoomEvent::RoomJoinRules(e) => spec_type_str(v) == Some("m.room.join_rules"@)
                && e.matches_json(v) && e.wf(),
            RoomEvent::RoomServerAcl(e) => spec_type_str(v) == Some("m.room.server_acl"@)
                && e.matches_json(v) && e.wf(),
            RoomEvent::CustomRoom(e) => (spec_type_str(v) matches Some(s)
                && !is_known_event_type(s)) && v.spec_get("state_key"@) is None
                && e.matches_json(v) && e.wf(),
            RoomEvent::CustomState(e) => (spec_type_str(v) matches Some(s)
                && !is_known_event_type(s)) && v.spec_get("state_key"@) is Some
                && e.matches_json(v) && e.wf(),
        }
    }

    /// Decodes from a parsed JSON value by its discriminant. A known
    /// discriminant of basic kind is rejected as "not a room event" — a
    /// hard rejection, never a catch-all; every failure retains the value.
    pub fn from_json(v: &JsonValue) -> (r: Result<RoomEvent, InvalidEvent>)
        ensures
            r is Ok <==> Self::accepts(*v),
            r matches Ok(ev) ==> ev.matches_json(*v),
            r matches Err(d) ==> d.spec_json() matches Some(j) && equiv(j, *v),
            v.spec_get("type"@) is None ==> (r matches Err(d) && d.is_validation()
                && d.spec_message() == "missing field `type`"@),
            (v.spec_get("type"@) matches Some(t) && !(t is Str)) ==> (r matches Err(d)
                && d.is_validation()),
            (spec_type_str(*v) matches Some(s) && (exists|t: EventType|
                (#[trigger] t.is_for(s)) && t.spec_kind() == Some(EventKind::Basic))) ==> (
            r matches Err(d) && d.is_validation() && d.spec_message() == "not a room event"@),
    {
        let type_value = match v.get("type") {
            Some(t) => t,
            None => {
                return Err(validation_error(v, "missing field `type`"));
            },
        };
        let s = match type_value {
            JsonValue::Str(s) => s,
            _ => {
                return Err(validation_error(v, "invalid field `type`"));
            },
        };
        let event_type = EventType::from_str(s.as_str());
        let ghost et = event_type;
        proof {
            assert(spec_type_str(*v) == Some(s@));
            assert(et.is_for(spec_type_str(*v)->Some_0));
            assert forall|t: EventType| #[trigger] t.is_for(spec_type_str(*v)->Some_0) implies t
                == et || (t is Custom && et is Custom) by {
                lemma_event_type_unique(spec_type_str(*v)->Some_0, et, t);
            }
        }
        match event_type {
            EventType::RoomEncrypted => match EncryptedEvent::from_json(v) {
                Ok(e) => Ok(RoomEvent::RoomEncrypted(e)),
                Err(d) => Err(d),
            },
            EventType::RoomJoinRules => match JoinRulesEvent::from_json(v) {
                Ok(e) => Ok(RoomEvent::RoomJoinRules(e)),
                Err(d) => Err(d),
            },
            EventType::RoomServerAcl => match ServerAclEvent::from_json(v) {
                Ok(e) => Ok(RoomEvent::RoomServerAcl(e)),
                Err(d) => Err(d),
            },
            EventType::Custom(_) => {
                if v.get("state_key").is_some() {
                    match CustomStateEvent::from_json(v) {
                        Ok(e) => Ok(RoomEvent::CustomState(e)),
                        Err(d) => Err(d),
                    }
                } else {
                    match CustomRoomEvent::from_json(v) {
                        Ok(e) => Ok(RoomEvent::CustomRoom(e)),
                        Err(d) => Err(d),
                    }
                }
            },
            other => {
                let is_basic = match other.kind() {
                    Some(EventKind::Basic) => true,
                    _ => false,
                };
                if is_basic {
                    Err(validation_error(v, "not a room event"))
                } else {
                    Err(validation_error(v, "unsupported event type"))
                }
            },
        }
    }

    /// Decodes from JSON text: text that is not valid JSON is a structural
    /// failure with nothing retained; otherwise as [`Self::from_json`].
    pub fn from_json_str(s: &str) -> (r: Result<RoomEvent, InvalidEvent>)
        ensures
            match parsed_json(s@) {
                None => r matches Err(d) && !d.is_validation() && d.spec_json() is None,
                Some(v) => {
                    &&& (r is Ok <==> Self::accepts(v))
                    &&& (r matches Ok(ev) ==> ev.matches_json(v))
                    &&& (r matches Err(d) ==> d.spec_json() matches Some(j) && equiv(j, v))
                    &&& (v.spec_get("type"@) is None ==> (r matches Err(d) && d.is_validation()
                        && d.spec_message() == "missing field `type`"@))
                    &&& ((spec_type_str(v) matches Some(ts) && (exists|t: EventType|
                        (#[trigger] t.is_for(ts)) && t.spec_kind() == Some(EventKind::Basic)))
                        ==> (r matches Err(d) && d.is_validation() && d.spec_message()
                        == "not a room event"@))
                },
            },
    {
        match parse_json(s) {
            Ok(v) => Self::from_json(&v),
            Err(m) => Err(parse_error(m)),
        }
    }

    /// The exact object shape a union value encodes to: its record's own.
    pub open spec fn encodes(self, out: JsonValue) -> bool {
        match self {
            RoomEvent::RoomEncrypted(e) => e.encodes(out),
            RoomEvent::RoomJoinRules(e) => e.encodes(out),
            RoomEvent::RoomServerAcl(e) => e.encodes(out),
            RoomEvent::CustomRoom(e) => e.encodes(out),
            RoomEvent::CustomState(e) => e.encodes(out),
        }
    }

    /// Encodes by dispatching to the wrapped record's own encoder.
    pub fn to_json(&self) -> (out: JsonValue)
        ensures
            self.encodes(out),
    {
        match self {
            RoomEvent::RoomEncrypted(e) => e.to_json(),
            RoomEvent::RoomJoinRules(e) => e.to_json(),
            RoomEvent::RoomServerAcl(e) => e.to_json(),
            RoomEvent::CustomRoom(e) => e.to_json(),
            RoomEvent::CustomState(e) => e.to_json(),
        }
    }

    /// The JSON text of the encoded event.
    pub fn to_json_string(&self) -> (r: String)
        ensures
            exists|t: JsonValue| #[trigger] self.encodes(t) && r@ == emitted(t),
    {
        let t = self.to_json();
        emit_json(&t)
    }

    /// The type of the wrapped event.
    pub open spec fn spec_event_type(self) -> EventType {
        match self {
            RoomEvent::RoomEncrypted(_) => EventType::RoomEncrypted,
            RoomEvent::RoomJoinRules(_) => EventType::RoomJoinRules,
            RoomEvent::RoomServerAcl(_) => EventType::RoomServerAcl,
            RoomEvent::CustomRoom(e) => EventType::Custom(e.event_type),
            RoomEvent::CustomState(e) => EventType::Custom(e.event_type),
        }
    }

    /// The type of the wrapped event.
    pub fn event_type(&self) -> (t: EventType)
        ensures
            t == self.spec_event_type(),
    {
        match self {
            RoomEvent::RoomEncrypted(e) => e.event_type(),
            RoomEvent::RoomJoinRules(e) => e.event_type(),
            RoomEvent::RoomServerAcl(e) => e.event_type(),
            RoomEvent::CustomRoom(e) => e.event_type(),
            RoomEvent::CustomState(e) => e.event_type(),
        }
    }

    /// The wrapped event's identifier.
    pub open spec fn spec_event_id(self) -> EventId {
        match self {
            RoomEvent::RoomEncrypted(e) => e.event_id,
            RoomEvent::RoomJoinRules(e) => e.event_id,
            RoomEvent::RoomServerAcl(e) => e.event_id,
            RoomEvent::CustomRoom(e) => e.event_id,
            RoomEvent::CustomState(e) => e.event_id,
        }
    }

    /// The wrapped event's identifier.
    pub fn event_id(&self) -> (r: &EventId)
        ensures
            *r == self.spec_event_id(),
    {
        match self {
            RoomEvent::RoomEncrypted(e) => &e.event_id,
            RoomEvent::RoomJoinRules(e) => &e.event_id,
            RoomEvent::RoomServerAcl(e) => &e.event_id,
            RoomEvent::CustomRoom(e) => &e.event_id,
            RoomEvent::CustomState(e) => &e.event_id,
        }
    }

    /// The wrapped event's timestamp.
    pub open spec fn spec_origin_server_ts(self) -> u64 {
        match self {
            RoomEvent::RoomEncrypted(e) => e.origin_server_ts,
            RoomEvent::RoomJoinRules(e) => e.origin_server_ts,
            RoomEvent::RoomServerAcl(e) => e.origin_server_ts,
            RoomEvent::CustomRoom(e) => e.origin_server_ts,
            RoomEvent::CustomState(e) => e.origin_server_ts,
        }
    }

    /// The wrapped event's timestamp.
    pub fn origin_server_ts(&self) -> (r: u64)
        ensures
            r == self.spec_origin_server_ts(),
    {
        match self {
            RoomEvent::RoomEncrypted(e) => e.origin_server_ts,
            RoomEvent::RoomJoinRules(e) => e.origin_server_ts,
            RoomEvent::RoomServerAcl(e) => e.origin_server_ts,
            RoomEvent::CustomRoom(e) => e.origin_server_ts,
            RoomEvent::CustomState(e) => e.origin_server_ts,
        }
    }

    /// The wrapped event's room, where one is recorded.
    pub open spec fn spec_room_id(self) -> Option<RoomId> {
        match self {
            RoomEvent::RoomEncrypted(e) => e.room_id,
            RoomEvent::RoomJoinRules(e) => e.room_id,
            RoomEvent::RoomServerAcl(e) => e.room_id,
            RoomEvent::CustomRoom(e) => e.room_id,
            RoomEvent::CustomState(e) => e.room_id,
        }
    }

    /// The wrapped event's room, where one is recorded.
    pub fn room_id(&self) -> (r: Option<&RoomId>)
        ensures
            match r {
                None => self.spec_room_id() is None,
                Some(id) => self.spec_room_id() == Some(*id),
            },
    {
        match self {
            RoomEvent::RoomEncrypted(e) => e.room_id.as_ref(),
            RoomEvent::RoomJoinRules(e) => e.room_id.as_ref(),
            RoomEvent::RoomServerAcl(e) => e.room_id.as_ref(),
            RoomEvent::CustomRoom(e) => e.room_id.as_ref(),
            RoomEvent::CustomState(e) => e.room_id.as_ref(),
        }
    }

    /// The wrapped event's sender.
    pub open spec fn spec_sender(self) -> UserId {
        match self {
            RoomEvent::RoomEncrypted(e) => e.sender,
            RoomEvent::RoomJoinRules(e) => e.sender,
            RoomEvent::RoomServerAcl(e) => e.sender,
            RoomEvent::CustomRoom(e) => e.sender,
            RoomEvent::CustomState(e) => e.sender,
        }
    }

    /// The wrapped event's sender.
    pub fn sender(&self) -> (r: &UserId)
        ensures
            *r == self.spec_sender(),
    {
        match self {
            RoomEvent::RoomEncrypted(e) => &e.sender,
            RoomEvent::RoomJoinRules(e) => &e.sender,
            RoomEvent::RoomServerAcl(e) => &e.sender,
            RoomEvent::CustomRoom(e) => &e.sender,
            RoomEvent::CustomState(e) => &e.sender,
        }
    }

    /// The wrapped event's unsigned data, where there is any.
    pub open spec fn spec_unsigned(self) -> Option<JsonValue> {
        match self {
            RoomEvent::RoomEncrypted(e) => e.unsigned,
            RoomEvent::RoomJoinRules(e) => e.unsigned,
            RoomEvent::RoomServerAcl(e) => e.unsigned,
            RoomEvent::CustomRoom(e) => e.unsigned,
            RoomEvent::CustomState(e) => e.unsigned,
        }
    }

    /// The wrapped event's unsigned data, where there is any.
    pub fn unsigned(&self) -> (r: Option<&JsonValue>)
        ensures
            match r {
                None => self.spec_unsigned() is None,
                Some(u) => self.spec_unsigned() == Some(*u),
            },
    {
        match self {
            RoomEvent::RoomEncrypted(e) => e.unsigned.as_ref(),
            RoomEvent::RoomJoinRules(e) => e.unsigned.as_ref(),
            RoomEvent::RoomServerAcl(e) => e.unsigned.as_ref(),
            RoomEvent::CustomRoom(e) => e.unsigned.as_ref(),
            RoomEvent::CustomState(e) => e.unsigned.as_ref(),
        }
    }
}

impl core::str::FromStr for RoomEvent {
    type Err = InvalidEvent;

    /// Attempts to create `Self` from parsing a string of JSON data.
    fn from_str(s: &str) -> Result<Self, InvalidEvent> {
        RoomEvent::from_json_str(s)
    }
}

/// A state event.
#[derive(Clone, Debug, PartialEq)]
pub enum StateEvent {
    /// m.room.join_rules
    RoomJoinRules(JoinRulesEvent),
    /// m.room.server_acl
    RoomServerAcl(ServerAclEvent),
    /// Any state event that is not part of the specification.
    CustomState(CustomStateEvent),
}

impl StateEvent {
    /// What a discriminant demands of the object at this level. A known
    /// discriminant below the state kind demands nothing: it is rejected.
    pub open spec fn type_accepts(t: EventType, v: JsonValue) -> bool {
        match t {
            EventType::RoomJoinRules => JoinRulesEvent::json_shape(v),
            EventType::RoomServerAcl => ServerAclEvent::json_shape(v),
            EventType::Custom(_) => CustomStateEvent::json_shape(v),
            _ => false,
        }
    }

    /// The inputs this collection decodes.
    pub open spec fn accepts(v: JsonValue) -> bool {
        spec_type_str(v) matches Some(s) && (exists|t: EventType|
            (#[trigger] t.is_for(s)) && Self::type_accepts(t, v))
    }

    /// How a decoded union value relates to the value it was decoded from.
    pub open spec fn matches_json(self, v: JsonValue) -> bool {
        match self {
            StateEvent::RoomJoinRules(e) => spec_type_str(v) == Some("m.room.join_rules"@)
                && e.matches_json(v) && e.wf(),
            StateEvent::RoomServerAcl(e) => spec_type_str(v) == Some("m.room.server_acl"@)
                && e.matches_json(v) && e.wf(),
            StateEvent::CustomState(e) => (spec_type_str(v) matches Some(s)
                && !is_known_event_type(s)) && e.matches_json(v) && e.wf(),
        }
    }

    /// Decodes from a parsed JSON value by its discriminant. A known
    /// discriminant below the state kind is rejected as "not a state
    /// event" — a hard rejection, never a catch-all; every failure retains
    /// the value.
    pub fn from_json(v: &JsonValue) -> (r: Result<StateEvent, InvalidEvent>)
        ensures
            r is Ok <==> Self::accepts(*v),
            r matches Ok(ev) ==> ev.matches_json(*v),
            r matches Err(d) ==> d.spec_json() matches Some(j) && equiv(j, *v),
            v.spec_get("type"@) is None ==> (r matches Err(d) && d.is_validation()
                && d.spec_message() == "missing field `type`"@),
            (v.spec_get("type"@) matches Some(t) && !(t is Str)) ==> (r matches Err(d)
                && d.is_validation()),
            (spec_type_str(*v) matches Some(s) && (exists|t: EventType|
                (#[trigger] t.is_for(s)) && (t.spec_kind() == Some(EventKind::Basic)
                    || t.spec_kind() == Some(EventKind::Room)))) ==> (r matches Err(d)
                && d.is_validation() && d.spec_message() == "not a state event"@),
    {
        let type_value = match v.get("type") {
            Some(t) => t,
            None => {
                return Err(validation_error(v, "missing field `type`"));
            },
        };
        let s = match type_value {
            JsonValue::Str(s) => s,
            _ => {
                return Err(validation_error(v, "invalid field `type`"));
            },
        };
        let event_type = EventType::from_str(s.as_str());
        let ghost et = event_type;
        proof {
            assert(spec_type_str(*v) == Some(s@));
            assert(et.is_for(spec_type_str(*v)->Some_0));
            assert forall|t: EventType| #[trigger] t.is_for(spec_type_str(*v)->Some_0) implies t
                == et || (t is Custom && et is Custom) by {
                lemma_event_type_unique(spec_type_str(*v)->Some_0, et, t);
            }
        }
        match event_type {
            EventType::RoomJoinRules => match JoinRulesEvent::from_json(v) {
                Ok(e) => Ok(StateEvent::RoomJoinRules(e)),
                Err(d) => Err(d),
            },
            EventType::RoomServerAcl => match ServerAclEvent::from_json(v) {
                Ok(e) => Ok(StateEvent::RoomServerAcl(e)),
                Err(d) => Err(d),
            },
            EventType::Custom(_) => match CustomStateEvent::from_json(v) {
                Ok(e) => Ok(StateEvent::CustomState(e)),
                Err(d) => Err(d),
            },
            other => {
                let below_state = match other.kind() {
                    Some(EventKind::Basic) => true,
                    Some(EventKind::Room) => true,
                    _ => false,
                };
                if below_state {
                    Err(validation_error(v, "not a state event"))
                } else {
                    Err(validation_error(v, "unsupported event type"))
                }
            },
        }
    }

    /// Decodes from JSON text: text that is not valid JSON is a structural
    /// failure with nothing retained; otherwise as [`Self::from_json`].
    pub fn from_json_str(s: &str) -> (r: Result<StateEvent, InvalidEvent>)
        ensures
            match parsed_json(s@) {
                None => r matches Err(d) && !d.is_validation() && d.spec_json() is None,
                Some(v) => {
                    &&& (r is Ok <==> Self::accepts(v))
                    &&& (r matches Ok(ev) ==> ev.matches_json(v))
                    &&& (r matches Err(d) ==> d.spec_json() matches Some(j) && equiv(j, v))
                    &&& (v.spec_get("type"@) is None ==> (r matches Err(d) && d.is_validation()
                        && d.spec_message() == "missing field `type`"@))
                    &&& ((spec_type_str(v) matches Some(ts) && (exists|t: EventType|
                        (#[trigger] t.is_for(ts)) && (t.spec_kind() == Some(EventKind::Basic)
                            || t.spec_kind() == Some(EventKind::Room)))) ==> (r matches Err(d)
                        && d.is_validation() && d.spec_message() == "not a state event"@))
                },
            },
    {
        match parse_json(s) {
            Ok(v) => Self::from_json(&v),
            Err(m) => Err(parse_error(m)),
        }
    }

    /// The exact object shape a union value encodes to: its record's own.
    pub open spec fn encodes(self, out: JsonValue) -> bool {
        match self {
            StateEvent::RoomJoinRules(e) => e.encodes(out),
            StateEvent::RoomServerAcl(e) => e.encodes(out),
            StateEvent::CustomState(e) => e.encodes(out),
        }
    }

    /// Encodes by dispatching to the wrapped record's own encoder.
    pub fn to_json(&self) -> (out: JsonValue)
        ensures
            self.encodes(out),
    {
        match self {
            StateEvent::RoomJoinRules(e) => e.to_json(),
            StateEvent::RoomServerAcl(e) => e.to_json(),
            StateEvent::CustomState(e) => e.to_json(),
        }
    }

    /// The JSON text of the encoded event.
    pub fn to_json_string(&self) -> (r: String)
        ensures
            exists|t: JsonValue| #[trigger] self.encodes(t) && r@ == emitted(t),
    {
        let t = self.to_json();
        emit_json(&t)
    }

    /// The type of the wrapped event.
    pub open spec fn spec_event_type(self) -> EventType {
        match self {
            StateEvent::RoomJoinRules(_) => EventType::RoomJoinRules,
            StateEvent::RoomServerAcl(_) => EventType::RoomServerAcl,
            StateEvent::CustomState(e) => EventType::Custom(e.event_type),
        }
    }

    /// The type of the wrapped event.
    pub fn event_type(&self) -> (t: EventType)
        ensures
            t == self.spec_event_type(),
    {
        match self {
            StateEvent::RoomJoinRules(e) => e.event_type(),
            StateEvent::RoomServerAcl(e) => e.event_type(),
            StateEvent::CustomState(e) => e.event_type(),
        }
    }

    /// The wrapped event's identifier.
    pub open spec fn spec_event_id(self) -> EventId {
        match self {
            StateEvent::RoomJoinRules(e) => e.event_id,
            StateEvent::RoomServerAcl(e) => e.event_id,
            StateEvent::CustomState(e) => e.event_id,
        }
    }

    /// The wrapped event's identifier.
    pub fn event_id(&self) -> (r: &EventId)
        ensures
            *r == self.spec_event_id(),
    {
        match self {
            StateEvent::RoomJoinRules(e) => &e.event_id,
            StateEvent::RoomServerAcl(e) => &e.event_id,
            StateEvent::CustomState(e) => &e.event_id,
        }
    }

    /// The wrapped event's timestamp.
    pub open spec fn spec_origin_server_ts(self) -> u64 {
        match self {
            StateEvent::RoomJoinRules(e) => e.origin_server_ts,
            StateEvent::RoomServerAcl(e) => e.origin_server_ts,
            StateEvent::CustomState(e) => e.origin_server_ts,
        }
    }

    /// The wrapped event's timestamp.
    pub fn origin_server_ts(&self) -> (r: u64)
        ensures
            r == self.spec_origin_server_ts(),
    {
        match self {
            StateEvent::RoomJoinRules(e) => e.origin_server_ts,
            StateEvent::RoomServerAcl(e) => e.origin_server_ts,
            StateEvent::CustomState(e) => e.origin_server_ts,
        }
    }

    /// The wrapped event's room, where one is recorded.
    pub open spec fn spec_room_id(self) -> Option<RoomId> {
        match self {
            StateEvent::RoomJoinRules(e) => e.room_id,
            StateEvent::RoomServerAcl(e) => e.room_id,
            StateEvent::CustomState(e) => e.room_id,
        }
    }

    /// The wrapped event's room, where one is recorded.
    pub fn room_id(&self) -> (r: Option<&RoomId>)
        ensures
            match r {
                None => self.spec_room_id() is None,
                Some(id) => self.spec_room_id() == Some(*id),
            },
    {
        match self {
            StateEvent::RoomJoinRules(e) => e.room_id.as_ref(),
            StateEvent::RoomServerAcl(e) => e.room_id.as_ref(),
            StateEvent::CustomState(e) => e.room_id.as_ref(),
        }
    }

    /// The wrapped event's sender.
    pub open spec fn spec_sender(self) -> UserId {
        match self {
            StateEvent::RoomJoinRules(e) => e.sender,
            StateEvent::RoomServerAcl(e) => e.sender,
            StateEvent::CustomState(e) => e.sender,
        }
    }

    /// The wrapped event's sender.
    pub fn sender(&self) -> (r: &UserId)
        ensures
            *r == self.spec_sender(),
    {
        match self {
            StateEvent::RoomJoinRules(e) => &e.sender,
            StateEvent::RoomServerAcl(e) => &e.sender,
            StateEvent::CustomState(e) => &e.sender,
        }
    }

    /// The wrapped event's unsigned data, where there is any.
    pub open spec fn spec_unsigned(self) -> Option<JsonValue> {
        match self {
            StateEvent::RoomJoinRules(e) => e.unsigned,
            StateEvent::RoomServerAcl(e) => e.unsigned,
            StateEvent::CustomState(e) => e.unsigned,
        }
    }

    /// The wrapped event's unsigned data, where there is any.
    pub fn unsigned(&self) -> (r: Option<&JsonValue>)
        ensures
            match r {
                None => self.spec_unsigned() is None,
                Some(u) => self.spec_unsigned() == Some(*u),
            },
    {
        match self {
            StateEvent::RoomJoinRules(e) => e.unsigned.as_ref(),
            StateEvent::RoomServerAcl(e) => e.unsigned.as_ref(),
            StateEvent::CustomState(e) => e.unsigned.as_ref(),
        }
    }

    /// The wrapped event's state key.
    pub open spec fn spec_state_key(self) -> Seq<char> {
        match self {
            StateEvent::RoomJoinRules(e) => e.state_key@,
            StateEvent::RoomServerAcl(e) => e.state_key@,
            StateEvent::CustomState(e) => e.state_key@,
        }
    }

    /// The wrapped event's state key.
    pub fn state_key(&self) -> (r: &str)
        ensures
            r@ == self.spec_state_key(),
    {
        match self {
            StateEvent::RoomJoinRules(e) => e.state_key.as_str(),
            StateEvent::RoomServerAcl(e) => e.state_key.as_str(),
            StateEvent::CustomState(e) => e.state_key.as_str(),
        }
    }
}

impl core::str::FromStr for StateEvent {
    type Err = InvalidEvent;

    /// Attempts to create `Self` from parsing a string of JSON data.
    fn from_str(s: &str) -> Result<Self, InvalidEvent> {
        StateEvent::from_json_str(s)
    }
}

// Constructing a union value directly from a concrete record is a total,
// infallible conversion: one per record type per collection it reaches.

impl From<DummyEvent> for Event {
    fn from(event: DummyEvent) -> Self {
        Event::Dummy(event)
    }
}

impl vstd::std_specs::convert::FromSpecImpl<DummyEvent> for Event {
    open spec fn obeys_from_spec() -> bool {
        true
    }

    open spec fn from_spec(event: DummyEvent) -> Self {
        Event::Dummy(event)
    }
}

impl From<IgnoredUserListEvent> for Event {
    fn from(event: IgnoredUserListEvent) -> Self {
        Event::IgnoredUserList(event)
    }
}

impl vstd::std_specs::convert::FromSpecImpl<IgnoredUserListEvent> for Event {
    open spec fn obeys_from_spec() -> bool {
        true
    }

    open spec fn from_spec(event: IgnoredUserListEvent) -> Self {
        Event::IgnoredUserList(event)
    }
}

impl From<EncryptedEvent> for Event {
    fn from(event: EncryptedEvent) -> Self {
        Event::RoomEncrypted(event)
    }
}

impl vstd::std_specs::convert::FromSpecImpl<EncryptedEvent> for Event {
    open spec fn obeys_from_spec() -> bool {
        true
    }

    open spec fn from_spec(event: EncryptedEvent) -> Self {
        Event::RoomEncrypted(event)
    }
}

impl From<JoinRulesEvent> for Event {
    fn from(event: JoinRulesEvent) -> Self {
        Event::RoomJoinRules(event)
    }
}

impl vstd::std_specs::convert::FromSpecImpl<JoinRulesEvent> for Event {
    open spec fn obeys_from_spec() -> bool {
        true
    }

    open spec fn from_spec(event: JoinRulesEvent) -> Self {
        Event::RoomJoinRules(event)
    }
}

impl From<ServerAclEvent> for Event {
    fn from(event: ServerAclEvent) -> Self {
        Event::RoomServerAcl(event)
    }
}

impl vstd::std_specs::convert::FromSpecImpl<ServerAclEvent> for Event {
    open spec fn obeys_from_spec() -> bool {
        true
    }

    open spec fn from_spec(event: ServerAclEvent) -> Self {
        Event::RoomServerAcl(event)
    }
}

impl From<CustomEvent> for Event {
    fn from(event: CustomEvent) -> Self {
        Event::Custom(event)
    }
}

impl vstd::std_specs::convert::FromSpecImpl<CustomEvent> for Event {
    open spec fn obeys_from_spec() -> bool {
        true
    }

    open spec fn from_spec(event: CustomEvent) -> Self {
        Event::Custom(event)
    }
}

impl From<CustomRoomEvent> for Event {
    fn from(event: CustomRoomEvent) -> Self {
        Event::CustomRoom(event)
    }
}

impl vstd::std_specs::convert::FromSpecImpl<CustomRoomEvent> for Event {
    open spec fn obeys_from_spec() -> bool {
        true
    }

    open spec fn from_spec(event: CustomRoomEvent) -> Self {
        Event::CustomRoom(event)
    }
}

impl From<CustomStateEvent> for Event {
    fn from(event: CustomStateEvent) -> Self {
        Event::CustomState(event)
    }
}

impl vstd::std_specs::convert::FromSpecImpl<CustomStateEvent> for Event {
    open spec fn obeys_from_spec() -> bool {
        true
    }

    open spec fn from_spec(event: CustomStateEvent) -> Self {
        Event::CustomState(event)
    }
}

impl From<EncryptedEvent> for RoomEvent {
    fn from(event: EncryptedEvent) -> Self {
        RoomEvent::RoomEncrypted(event)
    }
}

impl vstd::std_specs::convert::FromSpecImpl<EncryptedEvent> for RoomEvent {
    open spec fn obeys_from_spec() -> bool {
        true
    }

    open spec fn from_spec(event: EncryptedEvent) -> Self {
        RoomEvent::RoomEncrypted(event)
    }
}

impl From<JoinRulesEvent> for RoomEvent {
    fn from(event: JoinRulesEvent) -> Self {
        RoomEvent::RoomJoinRules(event)
    }
}

impl vstd::std_specs::convert::FromSpecImpl<JoinRulesEvent> for RoomEvent {
    open spec fn obeys_from_spec() -> bool {
        true
    }

    open spec fn from_spec(event: JoinRulesEvent) -> Self {
        RoomEvent::RoomJoinRules(event)
    }
}

impl From<ServerAclEvent> for RoomEvent {
    fn from(event: ServerAclEvent) -> Self {
        RoomEvent::RoomServerAcl(event)
    }
}

impl vstd::std_specs::convert::FromSpecImpl<ServerAclEvent> for RoomEvent {
    open spec fn obeys_from_spec() -> bool {
        true
    }

    open spec fn from_spec(event: ServerAclEvent) -> Self {
        RoomEvent::RoomServerAcl(event)
    }
}

impl From<CustomRoomEvent> for RoomEvent {
    fn from(event: CustomRoomEvent) -> Self {
        RoomEvent::CustomRoom(event)
    }
}

impl vstd::std_specs::convert::FromSpecImpl<CustomRoomEvent> for RoomEvent {
    open spec fn obeys_from_spec() -> bool {
        true
    }

    open spec fn from_spec(event: CustomRoomEvent) -> Self {
        RoomEvent::CustomRoom(event)
    }
}

impl From<CustomStateEvent> for RoomEvent {
    fn from(event: CustomStateEvent) -> Self {
        RoomEvent::CustomState(event)
    }
}

impl vstd::std_specs::convert::FromSpecImpl<CustomStateEvent> for RoomEvent {
    open spec fn obeys_from_spec() -> bool {
        true
    }

    open spec fn from_spec(event: CustomStateEvent) -> Self {
        RoomEvent::CustomState(event)
    }
}

impl From<JoinRulesEvent> for StateEvent {
    fn from(event: JoinRulesEvent) -> Self {
        StateEvent::RoomJoinRules(event)
    }
}

impl vstd::std_specs::convert::FromSpecImpl<JoinRulesEvent> for StateEvent {
    open spec fn obeys_from_spec() -> bool {
        true
    }

    open spec fn from_spec(event: JoinRulesEvent) -> Self {
        StateEvent::RoomJoinRules(event)
    }
}

impl From<ServerAclEvent> for StateEvent {
    fn from(event: ServerAclEvent) -> Self {
        StateEvent::RoomServerAcl(event)
    }
}

impl vstd::std_specs::convert::FromSpecImpl<ServerAclEvent> for StateEvent {
    open spec fn obeys_from_spec() -> bool {
        true
    }

    open spec fn from_spec(event: ServerAclEvent) -> Self {
        StateEvent::RoomServerAcl(event)
    }
}

impl From<CustomStateEvent> for StateEvent {
    fn from(event: CustomStateEvent) -> Self {
        StateEvent::CustomState(event)
    }
}

impl vstd::std_specs::convert::FromSpecImpl<CustomStateEvent> for StateEvent {
    open spec fn obeys_from_spec() -> bool {
        true
    }

    open spec fn from_spec(event: CustomStateEvent) -> Self {
        StateEvent::CustomState(event)
    }
}

} // verus!
