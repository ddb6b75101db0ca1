//! Types for the *m.room.join_rules* event.

use vstd::prelude::*;

use crate::fields::{absent, field_event_id, field_opt_room_id, field_opt_value, field_string,
    field_timestamp, field_user_id, parse_error, schema_error};
use crate::ids::{EventId, RoomId, UserId};
use crate::json::{distinct_keys, entries_get, equiv, obj_push, JsonValue};
use crate::wire::{emit_json, emitted, event_id_valid, parse_json, parsed_json, room_id_valid, str_eq,
    user_id_valid};
use crate::{EventType, FromStrError, InvalidEvent, MAX_SAFE_UINT};

verus! {

/// The rule used for users wishing to join this room.
#[derive(Clone, Copy, Debug, PartialEq, Eq, Structural)]
pub enum JoinRule {
    /// A user who wishes to join the room must first receive an invite from
    /// someone already inside of the room.
    Invite,
    /// Reserved but not yet implemented by the protocol.
    Knock,
    /// Reserved but not yet implemented by the protocol.
    Private,
    /// Anyone can join the room without any prior action.
    Public,
}

impl JoinRule {
    /// The canonical wire string of this rule.
    pub open spec fn spec_str(self) -> Seq<char> {
        match self {
            JoinRule::Invite => "invite"@,
            JoinRule::Knock => "knock"@,
            JoinRule::Private => "private"@,
            JoinRule::Public => "public"@,
        }
    }

    /// Whether this value is what parsing the string `s` yields.
    pub open spec fn is_for(self, s: Seq<char>) -> bool {
        s == self.spec_str()
    }

    /// Whether the string names any rule.
    pub open spec fn spec_known(s: Seq<char>) -> bool {
        s == "invite"@ || s == "knock"@ || s == "private"@ || s == "public"@
    }

    /// Parses a wire string; strings naming no rule are rejected.
    pub fn from_str(s: &str) -> (r: Result<JoinRule, FromStrError>)
        ensures
            r is Ok <==> Self::spec_known(s@),
            r matches Ok(t) ==> t.is_for(s@),
    {
        if str_eq(s, "invite") {
            Ok(JoinRule::Invite)
        } else if str_eq(s, "knock") {
            Ok(JoinRule::Knock)
        } else if str_eq(s, "private") {
            Ok(JoinRule::Private)
        } else if str_eq(s, "public") {
            Ok(JoinRule::Public)
        } else {
            Err(FromStrError)
        }
    }

    /// The canonical wire string of this rule.
    pub fn as_str(&self) -> (r: &str)
        ensures
            r@ == self.spec_str(),
    {
        match self {
            JoinRule::Invite => "invite",
            JoinRule::Knock => "knock",
            JoinRule::Private => "private",
            JoinRule::Public => "public",
        }
    }
}

impl core::str::FromStr for JoinRule {
    type Err = FromStrError;

    /// Attempts to create `Self` from its wire string.
    fn from_str(s: &str) -> Result<Self, FromStrError> {
        JoinRule::from_str(s)
    }
}

/// The payload for `JoinRulesEvent`.
#[derive(Clone, Copy, Debug, PartialEq, Eq, Structural)]
pub struct JoinRulesEventContent {
    /// The type of rules used for users wishing to join this room.
    pub join_rule: JoinRule,
}

impl JoinRulesEventContent {
    /// The shape the structural phase accepts: a `join_rule` field naming
    /// one of the rules.
    pub open spec fn json_shape(c: JsonValue) -> bool {
        c.spec_get("join_rule"@) matches Some(w) && w is Str && JoinRule::spec_known(w->Str_0@)
    }

    /// The decoded rule is the one the wire string names.
    pub open spec fn matches_json(self, c: JsonValue) -> bool {
        self.join_rule.is_for(c.spec_get("join_rule"@)->Some_0->Str_0@)
    }

    /// Decodes the content object; accepted exactly on `json_shape`.
    pub fn from_json(c: &JsonValue) -> (r: Result<JoinRulesEventContent, ()>)
        ensures
            r is Ok <==> Self::json_shape(*c),
            r matches Ok(e) ==> e.matches_json(*c),
    {
        match c.get("join_rule") {
            Some(JsonValue::Str(s)) => match JoinRule::from_str(s.as_str()) {
                Ok(join_rule) => Ok(JoinRulesEventContent { join_rule }),
                Err(_) => Err(()),
            },
            _ => Err(()),
        }
    }

    /// The exact object shape the content encodes to: one `join_rule` key.
    pub open spec fn encodes(self, out: JsonValue) -> bool {
        &&& out is Obj
        &&& out->Obj_0@.len() == 1
        &&& out->Obj_0@[0].0@ == "join_rule"@
        &&& out->Obj_0@[0].1 is Str && out->Obj_0@[0].1->Str_0@ == self.join_rule.spec_str()
    }

    /// Encodes into the wire object shape.
    pub fn to_json(&self) -> (out: JsonValue)
        ensures
            self.encodes(out),
    {
        let mut entries: Vec<(String, JsonValue)> = Vec::new();
        entries.push(("join_rule".to_owned(), JsonValue::Str(self.join_rule.as_str().to_owned())));
        JsonValue::Obj(entries)
    }
}

/// Describes how users are allowed to join the room.
#[derive(Clone, Debug, PartialEq)]
pub struct JoinRulesEvent {
    /// The event's content.
    pub content: JoinRulesEventContent,
    /// The unique identifier for the event.
    pub event_id: EventId,
    /// Timestamp (milliseconds since the UNIX epoch) on the originating
    /// homeserver when this event was sent.
    pub origin_server_ts: u64,
    /// The previous content for this state key, if any.
    pub prev_content: Option<JoinRulesEventContent>,
    /// The unique identifier for the room associated with this event.
    pub room_id: Option<RoomId>,
    /// The unique identifier for the user who sent this event.
    pub sender: UserId,
    /// A key that determines which piece of room state the event represents.
    pub state_key: String,
    /// Additional key-value pairs not signed by the homeserver.
    pub unsigned: Option<JsonValue>,
}

impl JoinRulesEvent {
    /// The identifiers a constructed event holds all passed their checks,
    /// and the timestamp lies in the unsigned-integer domain.
    pub open spec fn wf(self) -> bool {
        &&& self.event_id.wf()
        &&& self.sender.wf()
        &&& (self.room_id matches Some(id) ==> id.wf())
        &&& self.origin_server_ts <= MAX_SAFE_UINT
    }

    /// The shape the structural phase accepts. Other fields are ignored;
    /// optional fields may be absent or null.
    pub open spec fn json_shape(v: JsonValue) -> bool {
        &&& (v.spec_get("content"@) matches Some(c) && JoinRulesEventContent::json_shape(c))
        &&& (v.spec_get("event_id"@) matches Some(w) && w is Str && event_id_valid(w->Str_0@))
        &&& (v.spec_get("origin_server_ts"@) matches Some(w) && w is UInt && w->UInt_0
            <= MAX_SAFE_UINT)
        &&& (absent(v, "prev_content"@) || (v.spec_get("prev_content"@) matches Some(c)
            && JoinRulesEventContent::json_shape(c)))
        &&& (absent(v, "room_id"@) || (v.spec_get("room_id"@) matches Some(w) && w is Str
            && room_id_valid(w->Str_0@)))
        &&& (v.spec_get("sender"@) matches Some(w) && w is Str && user_id_valid(w->Str_0@))
        &&& (v.spec_get("state_key"@) matches Some(w) && w is Str)
    }

    /// How a decoded event relates to the value it was decoded from.
    pub open spec fn matches_json(self, v: JsonValue) -> bool {
        &&& self.content.matches_json(v.spec_get("content"@)->Some_0)
        &&& self.event_id.spec_str() == v.spec_get("event_id"@)->Some_0->Str_0@
        &&& v.spec_get("origin_server_ts"@) == Some(JsonValue::UInt(self.origin_server_ts))
        &&& match self.prev_content {
            None => absent(v, "prev_content"@),
            Some(c) => !absent(v, "prev_content"@) && c.matches_json(
                v.spec_get("prev_content"@)->Some_0,
            ),
        }
        &&& match self.room_id {
            None => absent(v, "room_id"@),
            Some(id) => !absent(v, "room_id"@) && id.spec_str() == v.spec_get(
                "room_id"@,
            )->Some_0->Str_0@,
        }
        &&& self.sender.spec_str() == v.spec_get("sender"@)->Some_0->Str_0@
        &&& self.state_key@ == v.spec_get("state_key"@)->Some_0->Str_0@
        &&& match self.unsigned {
            None => absent(v, "unsigned"@),
            Some(u) => !absent(v, "unsigned"@) && (v.spec_get("unsigned"@) matches Some(w)
                && equiv(u, w)),
        }
    }

    /// Decodes from a parsed JSON value; accepted exactly on `json_shape`,
    /// and every rejection is a structural failure retaining the value.
    pub fn from_json(v: &JsonValue) -> (r: Result<JoinRulesEvent, InvalidEvent>)
        ensures
            r is Ok <==> Self::json_shape(*v),
            r matches Ok(e) ==> e.matches_json(*v) && e.wf(),
            r matches Err(d) ==> !d.is_validation() && (d.spec_json() matches Some(j) && equiv(
                j,
                *v,
            )),
    {
        let content = match v.get("content") {
            Some(c) => match JoinRulesEventContent::from_json(c) {
                Ok(content) => content,
                Err(_) => {
                    return Err(schema_error(v, "invalid field `content`"));
                },
            },
            None => {
                return Err(schema_error(v, "missing field `content`"));
            },
        };
        let event_id = match field_event_id(v, "event_id") {
            Ok(id) => id,
            Err(_) => {
                return Err(schema_error(v, "invalid field `event_id`"));
            },
        };
        let origin_server_ts = match field_timestamp(v, "origin_server_ts") {
            Ok(ts) => ts,
            Err(_) => {
                return Err(schema_error(v, "invalid field `origin_server_ts`"));
            },
        };
        let prev_content = match v.get("prev_content") {
            None => None,
            Some(JsonValue::Null) => None,
            Some(c) => match JoinRulesEventContent::from_json(c) {
                Ok(content) => Some(content),
                Err(_) => {
                    return Err(schema_error(v, "invalid field `prev_content`"));
                },
            },
        };
        let room_id = match field_opt_room_id(v, "room_id") {
            Ok(id) => id,
            Err(_) => {
                return Err(schema_error(v, "invalid field `room_id`"));
            },
        };
        let sender = match field_user_id(v, "sender") {
            Ok(id) => id,
            Err(_) => {
                return Err(schema_error(v, "invalid field `sender`"));
            },
        };
        let state_key = match field_string(v, "state_key") {
            Ok(s) => s,
            Err(_) => {
                return Err(schema_error(v, "invalid field `state_key`"));
            },
        };
        let unsigned = field_opt_value(v, "unsigned");
        Ok(
            JoinRulesEvent {
                content,
                event_id,
                origin_server_ts,
                prev_content,
                room_id,
                sender,
                state_key,
                unsigned,
            },
        )
    }

    /// Decodes from JSON text: text that is not valid JSON is a structural
    /// failure with nothing retained; otherwise as [`Self::from_json`].
    pub fn from_json_str(s: &str) -> (r: Result<JoinRulesEvent, InvalidEvent>)
        ensures
            match parsed_json(s@) {
                None => r matches Err(d) && !d.is_validation() && d.spec_json() is None,
                Some(v) => {
                    &&& (r is Ok <==> Self::json_shape(v))
                    &&& (r matches Ok(e) ==> e.matches_json(v) && e.wf())
                    &&& (r matches Err(d) ==> !d.is_validation() && (d.spec_json() matches Some(j)
                        && equiv(j, v)))
                },
            },
    {
        match parse_json(s) {
            Ok(v) => Self::from_json(&v),
            Err(m) => Err(parse_error(m)),
        }
    }

    /// The type of this event.
    pub fn event_type(&self) -> (t: EventType)
        ensures
            t == EventType::RoomJoinRules,
    {
        EventType::RoomJoinRules
    }

    /// The exact object shape this event encodes to: the required fields
    /// and `type`, then each optional field that is present; absent
    /// optional fields are omitted, never written as null.
    pub open spec fn encodes(self, out: JsonValue) -> bool {
        &&& out is Obj
        &&& distinct_keys(out->Obj_0@)
        &&& out->Obj_0@.len() == 6 + (if self.prev_content is Some {
            1int
        } else {
            0int
        }) + (if self.room_id is Some {
            1int
        } else {
            0int
        }) + (if self.unsigned is Some {
            1int
        } else {
            0int
        })
        &&& (out.spec_get("content"@) matches Some(c) && self.content.encodes(c))
        &&& (out.spec_get("event_id"@) matches Some(w) && w is Str && w->Str_0@
            == self.event_id.spec_str())
        &&& out.spec_get("origin_server_ts"@) == Some(JsonValue::UInt(self.origin_server_ts))
        &&& (out.spec_get("sender"@) matches Some(w) && w is Str && w->Str_0@
            == self.sender.spec_str())
        &&& (out.spec_get("state_key"@) matches Some(w) && w is Str && w->Str_0@
            == self.state_key@)
        &&& (out.spec_get("type"@) matches Some(w) && w is Str && w->Str_0@
            == "m.room.join_rules"@)
        &&& match self.prev_content {
            None => out.spec_get("prev_content"@) is None,
            Some(c) => out.spec_get("prev_content"@) matches Some(w) && c.encodes(w),
        }
        &&& match self.room_id {
            None => out.spec_get("room_id"@) is None,
            Some(id) => out.spec_get("room_id"@) matches Some(w) && w is Str && w->Str_0@
                == id.spec_str(),
        }
        &&& match self.unsigned {
            None => out.spec_get("unsigned"@) is None,
            Some(u) => out.spec_get("unsigned"@) matches Some(w) && equiv(w, u),
        }
        &&& forall|k: Seq<char>|
            #[trigger] entries_get(out->Obj_0@, k) is Some ==> k == "content"@ || k == "event_id"@
                || k == "origin_server_ts"@ || k == "sender"@ || k == "state_key"@ || k == "type"@
                || k == "prev_content"@ || k == "room_id"@ || k == "unsigned"@
    }

    /// Encodes into the wire object shape.
    pub fn to_json(&self) -> (out: JsonValue)
        ensures
            self.encodes(out),
    {
        proof {
            crate::fields::lemma_event_keys_distinct();
        }
        let mut entries: Vec<(String, JsonValue)> = Vec::new();
        assert(entries@ =~= Seq::<(String, JsonValue)>::empty());
        obj_push(&mut entries, "content", self.content.to_json());
        obj_push(&mut entries, "event_id", JsonValue::Str(self.event_id.as_str().to_owned()));
        obj_push(&mut entries, "origin_server_ts", JsonValue::UInt(self.origin_server_ts));
        obj_push(&mut entries, "sender", JsonValue::Str(self.sender.as_str().to_owned()));
        obj_push(&mut entries, "state_key", JsonValue::Str(self.state_key.clone()));
        obj_push(&mut entries, "type", self.event_type().to_json());
        match &self.prev_content {
            Some(c) => obj_push(&mut entries, "prev_content", c.to_json()),
            None => {},
        }
        match &self.room_id {
            Some(id) => obj_push(&mut entries, "room_id", JsonValue::Str(id.as_str().to_owned())),
            None => {},
        }
        match &self.unsigned {
            Some(u) => obj_push(&mut entries, "unsigned", u.clone()),
            None => {},
        }
        proof {
            assert forall|k: Seq<char>| #[trigger] entries_get(entries@, k) is Some implies k
                == "content"@ || k == "event_id"@ || k == "origin_server_ts"@ || k == "sender"@
                || k == "state_key"@ || k == "type"@ || k == "prev_content"@ || k == "room_id"@
                || k == "unsigned"@ by {}
        }
        JsonValue::Obj(entries)
    }

    /// The JSON text of the encoded event.
    pub fn to_json_string(&self) -> (r: String)
        ensures
            exists|t: JsonValue| #[trigger] self.encodes(t) && r@ == emitted(t),
    {
        let t = self.to_json();
        emit_json(&t)
    }
}

impl core::str::FromStr for JoinRulesEvent {
    type Err = InvalidEvent;

    /// Attempts to create `Self` from parsing a string of JSON data.
    fn from_str(s: &str) -> Result<Self, InvalidEvent> {
        JoinRulesEvent::from_json_str(s)
    }
}

impl crate::Event for JoinRulesEvent {
    type Content = JoinRulesEventContent;

    fn content(&self) -> &JoinRulesEventContent {
        &self.content
    }

    fn event_type(&self) -> EventType {
        EventType::RoomJoinRules
    }
}

impl crate::RoomEvent for JoinRulesEvent {
    fn event_id(&self) -> &EventId {
        &self.event_id
    }

    fn origin_server_ts(&self) -> u64 {
        self.origin_server_ts
    }

    fn room_id(&self) -> Option<&RoomId> {
        self.room_id.as_ref()
    }

    fn sender(&self) -> &UserId {
        &self.sender
    }

    fn unsigned(&self) -> Option<&JsonValue> {
        self.unsigned.as_ref()
    }
}

impl crate::StateEvent for JoinRulesEvent {
    fn prev_content(&self) -> Option<&JoinRulesEventContent> {
        self.prev_content.as_ref()
    }

    fn state_key(&self) -> &str {
        self.state_key.as_str()
    }
}

/// The canonical wire form of the content: exactly the `join_rule` key.
pub open spec fn canonical_join_rules_content(c: JsonValue) -> bool {
    &&& c is Obj
    &&& distinct_keys(c->Obj_0@)
    &&& c->Obj_0@.len() == 1
    &&& JoinRulesEventContent::json_shape(c)
}

/// Round trip of the content: a canonical content object decodes, and
/// re-encoding the decoded value yields an equivalent object.
pub proof fn lemma_join_rules_content_round_trip(
    c: JsonValue,
    cc: JoinRulesEventContent,
    c_o: JsonValue,
)
    requires
        canonical_join_rules_content(c),
        cc.matches_json(c),
        cc.encodes(c_o),
    ensures
        equiv(c_o, c),
{
    crate::json::lemma_entries_get_all(c_o->Obj_0@);
    crate::json::lemma_entries_get_all(c->Obj_0@);
    assert(entries_get(c->Obj_0@, "join_rule"@) is Some);
    assert forall|i: int| 0 <= i < c_o->Obj_0@.len() implies entries_get(
        c->Obj_0@,
        (#[trigger] c_o->Obj_0@[i]).0@,
    ) is Some by {
        assert(c_o->Obj_0@[i].0@ == "join_rule"@);
    }
    crate::json::lemma_obj_equiv_of_lookups(c_o->Obj_0@, c->Obj_0@);
    assert forall|k: Seq<char>| #[trigger] entries_get(c_o->Obj_0@, k) is Some implies equiv(
        entries_get(c_o->Obj_0@, k)->Some_0,
        entries_get(c->Obj_0@, k)->Some_0,
    ) by {
        let i = crate::json::lemma_entries_get_index(c_o->Obj_0@, k);
        assert(k == "join_rule"@);
    }
    assert(equiv(c_o, c));
}

impl JoinRulesEvent {
    /// The canonical wire form: exactly the encoder's keys at each level,
    /// in any order, with no optional field written as null.
    pub open spec fn canonical(v: JsonValue) -> bool {
        &&& v is Obj
        &&& distinct_keys(v->Obj_0@)
        &&& Self::json_shape(v)
        &&& (v.spec_get("type"@) matches Some(t) && t is Str && t->Str_0@
            == "m.room.join_rules"@)
        &&& canonical_join_rules_content(v.spec_get("content"@)->Some_0)
        &&& (v.spec_get("prev_content"@) is None || (v.spec_get("prev_content"@) matches Some(c)
            && canonical_join_rules_content(c)))
        &&& v.spec_get("room_id"@) != Some(JsonValue::Null)
        &&& v.spec_get("unsigned"@) != Some(JsonValue::Null)
        &&& v->Obj_0@.len() == 6 + (if v.spec_get("prev_content"@) is Some {
            1int
        } else {
            0int
        }) + (if v.spec_get("room_id"@) is Some {
            1int
        } else {
            0int
        }) + (if v.spec_get("unsigned"@) is Some {
            1int
        } else {
            0int
        })
    }
}

/// Round trip: a canonical *m.room.join_rules* object decodes, and
/// re-encoding the decoded event yields an equivalent object, whatever
/// order its keys came in.
pub proof fn lemma_join_rules_round_trip(v: JsonValue, e: JoinRulesEvent, out: JsonValue)
    requires
        JoinRulesEvent::canonical(v),
        e.matches_json(v),
        e.encodes(out),
    ensures
        JoinRulesEvent::json_shape(v),
        equiv(out, v),
{
    crate::fields::lemma_event_keys_distinct();
    let es_o = out->Obj_0@;
    let es_v = v->Obj_0@;
    crate::json::lemma_entries_get_all(es_o);
    crate::json::lemma_entries_get_all(es_v);
    assert(es_o.len() == es_v.len());
    assert forall|i: int| 0 <= i < es_o.len() implies entries_get(
        es_v,
        (#[trigger] es_o[i]).0@,
    ) is Some by {
        let k = es_o[i].0@;
        assert(entries_get(es_o, k) is Some);
    }
    crate::json::lemma_obj_equiv_of_lookups(es_o, es_v);
    assert forall|k: Seq<char>| #[trigger] entries_get(es_o, k) is Some implies equiv(
        entries_get(es_o, k)->Some_0,
        entries_get(es_v, k)->Some_0,
    ) by {
        let i = crate::json::lemma_entries_get_index(es_o, k);
        let w_o = entries_get(es_o, k)->Some_0;
        let w_v = entries_get(es_v, k)->Some_0;
        if k == "content"@ {
            lemma_join_rules_content_round_trip(w_v, e.content, w_o);
        } else if k == "prev_content"@ {
            lemma_join_rules_content_round_trip(w_v, e.prev_content->Some_0, w_o);
        } else if k == "unsigned"@ {
            crate::json::lemma_equiv_trans(w_o, e.unsigned->Some_0, w_v);
        } else {
            assert(equiv(w_o, w_v));
        }
    }
    assert(equiv(out, v));
}

} // verus!
