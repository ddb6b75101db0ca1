//! Types for the *m.room.server_acl* event.

use vstd::prelude::*;

use crate::fields::{absent, field_event_id, field_opt_room_id, field_opt_value, field_string,
    field_timestamp, field_user_id, parse_error, schema_error};
use crate::ids::{EventId, RoomId, UserId};
use crate::json::{entries_get, equiv, obj_push, str_items_match, strings_from_json,
    strings_to_json, JsonValue};
use crate::wire::{emit_json, emitted, event_id_valid, parse_json, parsed_json, room_id_valid,
    user_id_valid};
use crate::{default_true, EventType, InvalidEvent, MAX_SAFE_UINT};

verus! {

/// The payload for `ServerAclEvent`.
#[derive(Clone, Debug, PartialEq)]
pub struct ServerAclEventContent {
    /// True to allow server names that are IP address literals. Defaults to
    /// true when the wire field is missing.
    pub allow_ip_literals: bool,
    /// The server names to allow in the room. Defaults to an empty list,
    /// which disallows every server.
    pub allow: Vec<String>,
    /// The server names to disallow in the room. Defaults to an empty list.
    pub deny: Vec<String>,
}

impl ServerAclEventContent {
    /// The shape the structural phase accepts: an object whose fields, when
    /// present, have the right types; every field may be missing.
    pub open spec fn json_shape(c: JsonValue) -> bool {
        &&& c is Obj
        &&& (c.spec_get("allow_ip_literals"@) is None || (c.spec_get("allow_ip_literals"@)
            matches Some(w) && w is Bool))
        &&& (c.spec_get("allow"@) is None || (c.spec_get("allow"@) matches Some(w) && w is Arr
            && forall|i: int| 0 <= i < w->Arr_0@.len() ==> (#[trigger] w->Arr_0@[i]) is Str))
        &&& (c.spec_get("deny"@) is None || (c.spec_get("deny"@) matches Some(w) && w is Arr
            && forall|i: int| 0 <= i < w->Arr_0@.len() ==> (#[trigger] w->Arr_0@[i]) is Str))
    }

    /// The decoded content applies the documented defaults to absent
    /// fields and mirrors present ones.
    pub open spec fn matches_json(self, c: JsonValue) -> bool {
        &&& match c.spec_get("allow_ip_literals"@) {
            None => self.allow_ip_literals == true,
            Some(w) => self.allow_ip_literals == w->Bool_0,
        }
        &&& match c.spec_get("allow"@) {
            None => self.allow@.len() == 0,
            Some(w) => str_items_match(self.allow@, w->Arr_0@),
        }
        &&& match c.spec_get("deny"@) {
            None => self.deny@.len() == 0,
            Some(w) => str_items_match(self.deny@, w->Arr_0@),
        }
    }

    /// Decodes the content object; accepted exactly on `json_shape`.
    pub fn from_json(c: &JsonValue) -> (r: Result<ServerAclEventContent, ()>)
        ensures
            r is Ok <==> Self::json_shape(*c),
            r matches Ok(e) ==> e.matches_json(*c),
    {
        match c {
            JsonValue::Obj(_) => {},
            _ => {
                return Err(());
            },
        }
        let allow_ip_literals = match c.get("allow_ip_literals") {
            None => default_true(),
            Some(JsonValue::Bool(b)) => *b,
            Some(_) => {
                return Err(());
            },
        };
        let allow = match c.get("allow") {
            None => Vec::new(),
            Some(w) => match strings_from_json(w) {
                Ok(ss) => ss,
                Err(_) => {
                    return Err(());
                },
            },
        };
        let deny = match c.get("deny") {
            None => Vec::new(),
            Some(w) => match strings_from_json(w) {
                Ok(ss) => ss,
                Err(_) => {
                    return Err(());
                },
            },
        };
        Ok(ServerAclEventContent { allow_ip_literals, allow, deny })
    }

    /// The exact object shape the content encodes to: every field written,
    /// defaults included.
    pub open spec fn encodes(self, out: JsonValue) -> bool {
        &&& out is Obj
        &&& out->Obj_0@.len() == 3
        &&& out->Obj_0@[0].0@ == "allow_ip_literals"@ && out->Obj_0@[0].1 == JsonValue::Bool(
            self.allow_ip_literals,
        )
        &&& out->Obj_0@[1].0@ == "allow"@ && out->Obj_0@[1].1 is Arr && str_items_match(
            self.allow@,
            out->Obj_0@[1].1->Arr_0@,
        )
        &&& out->Obj_0@[2].0@ == "deny"@ && out->Obj_0@[2].1 is Arr && str_items_match(
            self.deny@,
            out->Obj_0@[2].1->Arr_0@,
        )
    }

    /// Encodes into the wire object shape.
    pub fn to_json(&self) -> (out: JsonValue)
        ensures
            self.encodes(out),
    {
        let mut entries: Vec<(String, JsonValue)> = Vec::new();
        entries.push(("allow_ip_literals".to_owned(), JsonValue::Bool(self.allow_ip_literals)));
        entries.push(("allow".to_owned(), strings_to_json(&self.allow)));
        entries.push(("deny".to_owned(), strings_to_json(&self.deny)));
        JsonValue::Obj(entries)
    }

    /// The JSON text of the encoded content.
    pub fn to_json_string(&self) -> (r: String)
        ensures
            exists|t: JsonValue| #[trigger] self.encodes(t) && r@ == emitted(t),
    {
        let t = self.to_json();
        emit_json(&t)
    }
}

/// An event to indicate which servers are permitted to participate in the
/// room.
#[derive(Clone, Debug, PartialEq)]
pub struct ServerAclEvent {
    /// The event's content.
    pub content: ServerAclEventContent,
    /// The unique identifier for the event.
    pub event_id: EventId,
    /// Timestamp (milliseconds since the UNIX epoch) on the originating
    /// homeserver when this event was sent.
    pub origin_server_ts: u64,
    /// The previous content for this state key, if any.
    pub prev_content: Option<ServerAclEventContent>,
    /// The unique identifier for the room associated with this event.
    pub room_id: Option<RoomId>,
    /// The unique identifier for the user who sent this event.
    pub sender: UserId,
    /// A key that determines which piece of room state the event represents.
    pub state_key: String,
    /// Additional key-value pairs not signed by the homeserver.
    pub unsigned: Option<JsonValue>,
}

impl ServerAclEvent {
    /// The identifiers a constructed event holds all passed their checks,
    /// and the timestamp lies in the unsigned-integer domain.
    pub open spec fn wf(self) -> bool {
        &&& self.event_id.wf()
        &&& self.sender.wf()
        &&& (self.room_id matches Some(id) ==> id.wf())
        &&& self.origin_server_ts <= MAX_SAFE_UINT
    }

    /// The shape the structural phase accepts. Other fields are ignored;
    /// optional fields may be absent or null.
    pub open spec fn json_shape(v: JsonValue) -> bool {
        &&& (v.spec_get("content"@) matches Some(c) && ServerAclEventContent::json_shape(c))
        &&& (v.spec_get("event_id"@) matches Some(w) && w is Str && event_id_valid(w->Str_0@))
        &&& (v.spec_get("origin_server_ts"@) matches Some(w) && w is UInt && w->UInt_0
            <= MAX_SAFE_UINT)
        &&& (absent(v, "prev_content"@) || (v.spec_get("prev_content"@) matches Some(c)
            && ServerAclEventContent::json_shape(c)))
        &&& (absent(v, "room_id"@) || (v.spec_get("room_id"@) matches Some(w) && w is Str
            && room_id_valid(w->Str_0@)))
        &&& (v.spec_get("sender"@) matches Some(w) && w is Str && user_id_valid(w->Str_0@))
        &&& (v.spec_get("state_key"@) matches Some(w) && w is Str)
    }

    /// How a decoded event relates to the value it was decoded from.
    pub open spec fn matches_json(self, v: JsonValue) -> bool {
        &&& self.content.matches_json(v.spec_get("content"@)->Some_0)
        &&& self.event_id.spec_str() == v.spec_get("event_id"@)->Some_0->Str_0@
        &&& v.spec_get("origin_server_ts"@) == Some(JsonValue::UInt(self.origin_server_ts))
        &&& match self.prev_content {
            None => absent(v, "prev_content"@),
            Some(c) => !absent(v, "prev_content"@) && c.matches_json(
                v.spec_get("prev_content"@)->Some_0,
            ),
        }
        &&& match self.room_id {
            None => absent(v, "room_id"@),
            Some(id) => !absent(v, "room_id"@) && id.spec_str() == v.spec_get(
                "room_id"@,
            )->Some_0->Str_0@,
        }
        &&& self.sender.spec_str() == v.spec_get("sender"@)->Some_0->Str_0@
        &&& self.state_key@ == v.spec_get("state_key"@)->Some_0->Str_0@
        &&& match self.unsigned {
            None => absent(v, "unsigned"@),
            Some(u) => !absent(v, "unsigned"@) && (v.spec_get("unsigned"@) matches Some(w)
                && equiv(u, w)),
        }
    }

    /// Decodes from a parsed JSON value; accepted exactly on `json_shape`,
    /// and every rejection is a structural failure retaining the value.
    pub fn from_json(v: &JsonValue) -> (r: Result<ServerAclEvent, InvalidEvent>)
        ensures
            r is Ok <==> Self::json_shape(*v),
            r matches Ok(e) ==> e.matches_json(*v) && e.wf(),
            r matches Err(d) ==> !d.is_validation() && (d.spec_json() matches Some(j) && equiv(
                j,
                *v,
            )),
    {
        let content = match v.get("content") {
            Some(c) => match ServerAclEventContent::from_json(c) {
                Ok(content) => content,
                Err(_) => {
                    return Err(schema_error(v, "invalid field `content`"));
                },
            },
            None => {
                return Err(schema_error(v, "missing field `content`"));
            },
        };
        let event_id = match field_event_id(v, "event_id") {
            Ok(id) => id,
            Err(_) => {
                return Err(schema_error(v, "invalid field `event_id`"));
            },
        };
        let origin_server_ts = match field_timestamp(v, "origin_server_ts") {
            Ok(ts) => ts,
            Err(_) => {
                return Err(schema_error(v, "invalid field `origin_server_ts`"));
            },
        };
        let prev_content = match v.get("prev_content") {
            None => None,
            Some(JsonValue::Null) => None,
            Some(c) => match ServerAclEventContent::from_json(c) {
                Ok(content) => Some(content),
                Err(_) => {
                    return Err(schema_error(v, "invalid field `prev_content`"));
                },
            },
        };
        let room_id = match field_opt_room_id(v, "room_id") {
            Ok(id) => id,
            Err(_) => {
                return Err(schema_error(v, "invalid field `room_id`"));
            },
        };
        let sender = match field_user_id(v, "sender") {
            Ok(id) => id,
            Err(_) => {
                return Err(schema_error(v, "invalid field `sender`"));
            },
        };
        let state_key = match field_string(v, "state_key") {
            Ok(s) => s,
            Err(_) => {
                return Err(schema_error(v, "invalid field `state_key`"));
            },
        };
        let unsigned = field_opt_value(v, "unsigned");
        Ok(
            ServerAclEvent {
                content,
                event_id,
                origin_server_ts,
                prev_content,
                room_id,
                sender,
                state_key,
                unsigned,
            },
        )
    }

    /// Decodes from JSON text: text that is not valid JSON is a structural
    /// failure with nothing retained; otherwise as [`Self::from_json`].
    pub fn from_json_str(s: &str) -> (r: Result<ServerAclEvent, InvalidEvent>)
        ensures
            match parsed_json(s@) {
                None => r matches Err(d) && !d.is_validation() && d.spec_json() is None,
                Some(v) => {
                    &&& (r is Ok <==> Self::json_shape(v))
                    &&& (r matches Ok(e) ==> e.matches_json(v) && e.wf())
                    &&& (r matches Err(d) ==> !d.is_validation() && (d.spec_json() matches Some(j)
                        && equiv(j, v)))
                },
            },
    {
        match parse_json(s) {
            Ok(v) => Self::from_json(&v),
            Err(m) => Err(parse_error(m)),
        }
    }

    /// The type of this event.
    pub fn event_type(&self) -> (t: EventType)
        ensures
            t == EventType::RoomServerAcl,
    {
        EventType::RoomServerAcl
    }

    /// The exact object shape this event encodes to: the required fields
    /// and `type`, then each optional field that is present; absent
    /// optional fields are omitted, never written as null.
    pub open spec fn encodes(self, out: JsonValue) -> bool {
        &&& out is Obj
        &&& crate::json::distinct_keys(out->Obj_0@)
        &&& out->Obj_0@.len() == 6 + (if self.prev_content is Some {
            1int
        } else {
            0int
        }) + (if self.room_id is Some {
            1int
        } else {
            0int
        }) + (if self.unsigned is Some {
            1int
        } else {
            0int
        })
        &&& (out.spec_get("content"@) matches Some(c) && self.content.encodes(c))
        &&& (out.spec_get("event_id"@) matches Some(w) && w is Str && w->Str_0@
            == self.event_id.spec_str())
        &&& out.spec_get("origin_server_ts"@) == Some(JsonValue::UInt(self.origin_server_ts))
        &&& (out.spec_get("sender"@) matches Some(w) && w is Str && w->Str_0@
            == self.sender.spec_str())
        &&& (out.spec_get("state_key"@) matches Some(w) && w is Str && w->Str_0@
            == self.state_key@)
        &&& (out.spec_get("type"@) matches Some(w) && w is Str && w->Str_0@
            == "m.room.server_acl"@)
        &&& match self.prev_content {
            None => out.spec_get("prev_content"@) is None,
            Some(c) => out.spec_get("prev_content"@) matches Some(w) && c.encodes(w),
        }
        &&& match self.room_id {
            None => out.spec_get("room_id"@) is None,
            Some(id) => out.spec_get("room_id"@) matches Some(w) && w is Str && w->Str_0@
                == id.spec_str(),
        }
        &&& match self.unsigned {
            None => out.spec_get("unsigned"@) is None,
            Some(u) => out.spec_get("unsigned"@) matches Some(w) && equiv(w, u),
        }
        &&& forall|k: Seq<char>|
            #[trigger] entries_get(out->Obj_0@, k) is Some ==> k == "content"@ || k == "event_id"@
                || k == "origin_server_ts"@ || k == "sender"@ || k == "state_key"@ || k == "type"@
                || k == "prev_content"@ || k == "room_id"@ || k == "unsigned"@
    }

    /// Encodes into the wire object shape.
    pub fn to_json(&self) -> (out: JsonValue)
        ensures
            self.encodes(out),
    {
        proof {
            crate::fields::lemma_event_keys_distinct();
        }
        let mut entries: Vec<(String, JsonValue)> = Vec::new();
        assert(entries@ =~= Seq::<(String, JsonValue)>::empty());
        obj_push(&mut entries, "content", self.content.to_json());
        obj_push(&mut entries, "event_id", JsonValue::Str(self.event_id.as_str().to_owned()));
        obj_push(&mut entries, "origin_server_ts", JsonValue::UInt(self.origin_server_ts));
        obj_push(&mut entries, "sender", JsonValue::Str(self.sender.as_str().to_owned()));
        obj_push(&mut entries, "state_key", JsonValue::Str(self.state_key.clone()));
        obj_push(&mut entries, "type", self.event_type().to_json());
        match &self.prev_content {
            Some(c) => obj_push(&mut entries, "prev_content", c.to_json()),
            None => {},
        }
        match &self.room_id {
            Some(id) => obj_push(&mut entries, "room_id", JsonValue::Str(id.as_str().to_owned())),
            None => {},
        }
        match &self.unsigned {
            Some(u) => obj_push(&mut entries, "unsigned", u.clone()),
            None => {},
        }
        proof {
            assert forall|k: Seq<char>| #[trigger] entries_get(entries@, k) is Some implies k
                == "content"@ || k == "event_id"@ || k == "origin_server_ts"@ || k == "sender"@
                || k == "state_key"@ || k == "type"@ || k == "prev_content"@ || k == "room_id"@
                || k == "unsigned"@ by {}
        }
        JsonValue::Obj(entries)
    }

    /// The JSON text of the encoded event.
    pub fn to_json_string(&self) -> (r: String)
        ensures
            exists|t: JsonValue| #[trigger] self.encodes(t) && r@ == emitted(t),
    {
        let t = self.to_json();
        emit_json(&t)
    }
}

impl core::str::FromStr for ServerAclEvent {
    type Err = InvalidEvent;

    /// Attempts to create `Self` from parsing a string of JSON data.
    fn from_str(s: &str) -> Result<Self, InvalidEvent> {
        ServerAclEvent::from_json_str(s)
    }
}

impl crate::Event for ServerAclEvent {
    type Content = ServerAclEventContent;

    fn content(&self) -> &ServerAclEventContent {
        &self.content
    }

    fn event_type(&self) -> EventType {
        EventType::RoomServerAcl
    }
}

impl crate::RoomEvent for ServerAclEvent {
    fn event_id(&self) -> &EventId {
        &self.event_id
    }

    fn origin_server_ts(&self) -> u64 {
        self.origin_server_ts
    }

    fn room_id(&self) -> Option<&RoomId> {
        self.room_id.as_ref()
    }

    fn sender(&self) -> &UserId {
        &self.sender
    }

    fn unsigned(&self) -> Option<&JsonValue> {
        self.unsigned.as_ref()
    }
}

impl crate::StateEvent for ServerAclEvent {
    fn prev_content(&self) -> Option<&ServerAclEventContent> {
        self.prev_content.as_ref()
    }

    fn state_key(&self) -> &str {
        self.state_key.as_str()
    }
}

/// The canonical wire form of the content: exactly the three keys the
/// encoder writes, defaults spelled out.
pub open spec fn canonical_server_acl_content(c: JsonValue) -> bool {
    &&& c is Obj
    &&& crate::json::distinct_keys(c->Obj_0@)
    &&& c->Obj_0@.len() == 3
    &&& ServerAclEventContent::json_shape(c)
    &&& c.spec_get("allow_ip_literals"@) is Some
    &&& c.spec_get("allow"@) is Some
    &&& c.spec_get("deny"@) is Some
}

/// Round trip of the content: a canonical content object decodes, and
/// re-encoding the decoded value yields an equivalent object.
pub proof fn lemma_server_acl_content_round_trip(
    c: JsonValue,
    cc: ServerAclEventContent,
    c_o: JsonValue,
)
    requires
        canonical_server_acl_content(c),
        cc.matches_json(c),
        cc.encodes(c_o),
    ensures
        equiv(c_o, c),
{
    proof_server_acl_content_keys();
    crate::json::lemma_entries_get_all(c_o->Obj_0@);
    crate::json::lemma_entries_get_all(c->Obj_0@);
    assert(crate::json::distinct_keys(c_o->Obj_0@));
    assert forall|i: int| 0 <= i < c_o->Obj_0@.len() implies entries_get(
        c->Obj_0@,
        (#[trigger] c_o->Obj_0@[i]).0@,
    ) is Some by {
        let k = c_o->Obj_0@[i].0@;
        assert(k == "allow_ip_literals"@ || k == "allow"@ || k == "deny"@);
    }
    crate::json::lemma_obj_equiv_of_lookups(c_o->Obj_0@, c->Obj_0@);
    assert forall|k: Seq<char>| #[trigger] entries_get(c_o->Obj_0@, k) is Some implies equiv(
        entries_get(c_o->Obj_0@, k)->Some_0,
        entries_get(c->Obj_0@, k)->Some_0,
    ) by {
        let i = crate::json::lemma_entries_get_index(c_o->Obj_0@, k);
        let w_o = entries_get(c_o->Obj_0@, k)->Some_0;
        let w_v = entries_get(c->Obj_0@, k)->Some_0;
        assert(k == "allow_ip_literals"@ || k == "allow"@ || k == "deny"@);
        if k == "allow"@ {
            assert(str_items_match(cc.allow@, w_o->Arr_0@));
            assert(str_items_match(cc.allow@, w_v->Arr_0@));
            assert forall|j: int| 0 <= j < w_o->Arr_0@.len() implies equiv(
                #[trigger] w_o->Arr_0@[j],
                w_v->Arr_0@[j],
            ) by {
                assert(w_o->Arr_0@[j] is Str && w_v->Arr_0@[j] is Str);
                assert(w_o->Arr_0@[j]->Str_0@ == cc.allow@[j]@);
                assert(w_v->Arr_0@[j]->Str_0@ == cc.allow@[j]@);
            }
            assert(equiv(w_o, w_v));
        } else if k == "deny"@ {
            assert(str_items_match(cc.deny@, w_o->Arr_0@));
            assert(str_items_match(cc.deny@, w_v->Arr_0@));
            assert forall|j: int| 0 <= j < w_o->Arr_0@.len() implies equiv(
                #[trigger] w_o->Arr_0@[j],
                w_v->Arr_0@[j],
            ) by {
                assert(w_o->Arr_0@[j] is Str && w_v->Arr_0@[j] is Str);
                assert(w_o->Arr_0@[j]->Str_0@ == cc.deny@[j]@);
                assert(w_v->Arr_0@[j]->Str_0@ == cc.deny@[j]@);
            }
            assert(equiv(w_o, w_v));
        } else {
            assert(equiv(w_o, w_v));
        }
    }
    assert(equiv(c_o, c));
}

/// The three content keys are pairwise distinct.
proof fn proof_server_acl_content_keys()
    ensures
        "allow_ip_literals"@ != "allow"@,
        "allow_ip_literals"@ != "deny"@,
        "allow"@ != "deny"@,
{
    reveal_strlit("allow_ip_literals");
    reveal_strlit("allow");
    reveal_strlit("deny");
    assert(("allow_ip_literals"@).len() == 17);
    assert(("allow"@).len() == 5);
    assert(("deny"@).len() == 4);
}

impl ServerAclEvent {
    /// The canonical wire form: exactly the encoder's keys at each level,
    /// in any order, with no optional field written as null and every
    /// content default spelled out.
    pub open spec fn canonical(v: JsonValue) -> bool {
        &&& v is Obj
        &&& crate::json::distinct_keys(v->Obj_0@)
        &&& Self::json_shape(v)
        &&& (v.spec_get("type"@) matches Some(t) && t is Str && t->Str_0@
            == "m.room.server_acl"@)
        &&& canonical_server_acl_content(v.spec_get("content"@)->Some_0)
        &&& (v.spec_get("prev_content"@) is None || (v.spec_get("prev_content"@) matches Some(c)
            && canonical_server_acl_content(c)))
        &&& v.spec_get("room_id"@) != Some(JsonValue::Null)
        &&& v.spec_get("unsigned"@) != Some(JsonValue::Null)
        &&& v->Obj_0@.len() == 6 + (if v.spec_get("prev_content"@) is Some {
            1int
        } else {
            0int
        }) + (if v.spec_get("room_id"@) is Some {
            1int
        } else {
            0int
        }) + (if v.spec_get("unsigned"@) is Some {
            1int
        } else {
            0int
        })
    }
}

/// Round trip: a canonical *m.room.server_acl* object decodes, and
/// re-encoding the decoded event yields an equivalent object, whatever
/// order its keys came in.
pub proof fn lemma_server_acl_round_trip(v: JsonValue, e: ServerAclEvent, out: JsonValue)
    requires
        ServerAclEvent::canonical(v),
        e.matches_json(v),
        e.encodes(out),
    ensures
        ServerAclEvent::json_shape(v),
        equiv(out, v),
{
    crate::fields::lemma_event_keys_distinct();
    let es_o = out->Obj_0@;
    let es_v = v->Obj_0@;
    crate::json::lemma_entries_get_all(es_o);
    crate::json::lemma_entries_get_all(es_v);
    assert(es_o.len() == es_v.len());
    assert forall|i: int| 0 <= i < es_o.len() implies entries_get(
        es_v,
        (#[trigger] es_o[i]).0@,
    ) is Some by {
        let k = es_o[i].0@;
        assert(entries_get(es_o, k) is Some);
    }
    crate::json::lemma_obj_equiv_of_lookups(es_o, es_v);
    assert forall|k: Seq<char>| #[trigger] entries_get(es_o, k) is Some implies equiv(
        entries_get(es_o, k)->Some_0,
        entries_get(es_v, k)->Some_0,
    ) by {
        let i = crate::json::lemma_entries_get_index(es_o, k);
        let w_o = entries_get(es_o, k)->Some_0;
        let w_v = entries_get(es_v, k)->Some_0;
        if k == "content"@ {
            lemma_server_acl_content_round_trip(w_v, e.content, w_o);
        } else if k == "prev_content"@ {
            lemma_server_acl_content_round_trip(w_v, e.prev_content->Some_0, w_o);
        } else if k == "unsigned"@ {
            crate::json::lemma_equiv_trans(w_o, e.unsigned->Some_0, w_v);
        } else {
            assert(equiv(w_o, w_v));
        }
    }
    assert(equiv(out, v));
}

} // verus!
