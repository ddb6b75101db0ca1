//! Types for the *m.ignored_user_list* event.
//!
//! On the wire the ignored users come as a map from user identifier to an
//! empty placeholder object; decoding lowers that map to a plain list of
//! identifiers, in wire order, and encoding raises it back.

use vstd::prelude::*;

use crate::fields::{parse_error, schema_error};
use crate::ids::UserId;
use crate::json::{distinct_keys, entries_get, equiv, lemma_entries_get_at,
    lemma_entries_get_index, lemma_equiv_empty_obj, lemma_obj_equiv_of_lookups,
    lemma_obj_equiv_pointwise, JsonValue};
use crate::wire::{emit_json, emitted, parse_json, parsed_json, user_id_valid};
use crate::{EventType, InvalidEvent};

verus! {

/// A list of users to ignore.
#[derive(Clone, Debug, PartialEq)]
pub struct IgnoredUserListEvent {
    /// The event's content.
    pub content: IgnoredUserListEventContent,
}

/// The payload for `IgnoredUserListEvent`.
#[derive(Clone, Debug, PartialEq)]
pub struct IgnoredUserListEventContent {
    /// The users to ignore, in wire order.
    pub ignored_users: Vec<UserId>,
}

impl IgnoredUserListEventContent {
    /// The shape the structural phase accepts: an `ignored_users` object
    /// mapping valid user identifiers to objects.
    pub open spec fn json_shape(c: JsonValue) -> bool {
        &&& c.spec_get("ignored_users"@) matches Some(m)
        &&& m is Obj
        &&& forall|i: int|
            0 <= i < m->Obj_0@.len() ==> user_id_valid((#[trigger] m->Obj_0@[i]).0@)
                && m->Obj_0@[i].1 is Obj
    }

    /// The lowered list holds exactly the map's keys, in wire order.
    pub open spec fn matches_json(self, c: JsonValue) -> bool {
        let m = c.spec_get("ignored_users"@)->Some_0;
        &&& self.ignored_users@.len() == m->Obj_0@.len()
        &&& forall|i: int|
            0 <= i < m->Obj_0@.len() ==> (#[trigger] self.ignored_users@[i]).spec_str()
                == m->Obj_0@[i].0@ && self.ignored_users@[i].wf()
    }

    /// Decodes the content object; accepted exactly on `json_shape`.
    #[verifier::loop_isolation(false)]
    pub fn from_json(c: &JsonValue) -> (r: Result<IgnoredUserListEventContent, ()>)
        ensures
            r is Ok <==> Self::json_shape(*c),
            r matches Ok(e) ==> e.matches_json(*c),
    {
        match c.get("ignored_users") {
            Some(JsonValue::Obj(entries)) => {
                let n = entries.len();
                let mut users: Vec<UserId> = Vec::new();
                for i in 0..n
                    invariant
                        n == entries@.len(),
                        users@.len() == i,
                        forall|j: int| 0 <= j < i ==> user_id_valid((#[trigger] entries@[j]).0@)
                            && entries@[j].1 is Obj,
                        forall|j: int| 0 <= j < i ==> (#[trigger] users@[j]).spec_str()
                            == entries@[j].0@ && users@[j].wf(),
                    decreases n - i,
                {
                    match &entries[i].1 {
                        JsonValue::Obj(_) => {},
                        _ => {
                            return Err(());
                        },
                    }
                    match UserId::try_from(entries[i].0.as_str()) {
                        Ok(u) => users.push(u),
                        Err(_) => {
                            return Err(());
                        },
                    }
                }
                Ok(IgnoredUserListEventContent { ignored_users: users })
            },
            _ => Err(()),
        }
    }

    /// Decodes from JSON text, as the event does.
    pub fn from_json_str(s: &str) -> (r: Result<IgnoredUserListEventContent, InvalidEvent>)
        ensures
            match parsed_json(s@) {
                None => r matches Err(d) && !d.is_validation() && d.spec_json() is None,
                Some(c) => {
                    &&& (r is Ok <==> Self::json_shape(c))
                    &&& (r matches Ok(e) ==> e.matches_json(c))
                    &&& (r matches Err(d) ==> !d.is_validation() && (d.spec_json() matches Some(j)
                        && equiv(j, c)))
                },
            },
    {
        match parse_json(s) {
            Ok(c) => match Self::from_json(&c) {
                Ok(e) => Ok(e),
                Err(_) => Err(schema_error(&c, "invalid field `ignored_users`")),
            },
            Err(m) => Err(parse_error(m)),
        }
    }

    /// The exact object shape the content encodes to: one `ignored_users`
    /// key holding the map from each identifier to an empty object.
    pub open spec fn encodes(self, out: JsonValue) -> bool {
        &&& out is Obj
        &&& out->Obj_0@.len() == 1
        &&& out->Obj_0@[0].0@ == "ignored_users"@
        &&& out->Obj_0@[0].1 is Obj
        &&& out->Obj_0@[0].1->Obj_0@.len() == self.ignored_users@.len()
        &&& forall|i: int|
            0 <= i < self.ignored_users@.len() ==> (#[trigger] out->Obj_0@[0].1->Obj_0@[i]).0@
                == self.ignored_users@[i].spec_str() && out->Obj_0@[0].1->Obj_0@[i].1 is Obj
                && out->Obj_0@[0].1->Obj_0@[i].1->Obj_0@.len() == 0
    }

    /// Encodes into the wire object shape.
    #[verifier::loop_isolation(false)]
    pub fn to_json(&self) -> (out: JsonValue)
        ensures
            self.encodes(out),
    {
        let n = self.ignored_users.len();
        let mut map: Vec<(String, JsonValue)> = Vec::new();
        for i in 0..n
            invariant
                n == self.ignored_users@.len(),
                map@.len() == i,
                forall|j: int| 0 <= j < i ==> (#[trigger] map@[j]).0@
                    == self.ignored_users@[j].spec_str() && map@[j].1 is Obj
                    && map@[j].1->Obj_0@.len() == 0,
            decreases n - i,
        {
            map.push((self.ignored_users[i].as_str().to_owned(), JsonValue::Obj(Vec::new())));
        }
        let mut entries: Vec<(String, JsonValue)> = Vec::new();
        entries.push(("ignored_users".to_owned(), JsonValue::Obj(map)));
        JsonValue::Obj(entries)
    }

    /// The JSON text of the encoded content.
    pub fn to_json_string(&self) -> (r: String)
        ensures
            exists|t: JsonValue| #[trigger] self.encodes(t) && r@ == emitted(t),
    {
        let t = self.to_json();
        emit_json(&t)
    }
}

impl core::str::FromStr for IgnoredUserListEventContent {
    type Err = InvalidEvent;

    /// Attempts to create `Self` from parsing a string of JSON data.
    fn from_str(s: &str) -> Result<Self, InvalidEvent> {
        IgnoredUserListEventContent::from_json_str(s)
    }
}

impl IgnoredUserListEvent {
    /// The shape the structural phase accepts: a `content` field holding a
    /// well-shaped ignored-user map. Other fields are ignored.
    pub open spec fn json_shape(v: JsonValue) -> bool {
        v.spec_get("content"@) matches Some(c) && IgnoredUserListEventContent::json_shape(c)
    }

    /// The decoded event lowers the content as the content does.
    pub open spec fn matches_json(self, v: JsonValue) -> bool {
        self.content.matches_json(v.spec_get("content"@)->Some_0)
    }

    /// Decodes from a parsed JSON value; accepted exactly on `json_shape`,
    /// and every rejection is a structural failure retaining the value.
    pub fn from_json(v: &JsonValue) -> (r: Result<IgnoredUserListEvent, InvalidEvent>)
        ensures
            r is Ok <==> Self::json_shape(*v),
            r matches Ok(e) ==> e.matches_json(*v),
            r matches Err(d) ==> !d.is_validation() && (d.spec_json() matches Some(j) && equiv(
                j,
                *v,
            )),
    {
        match v.get("content") {
            Some(c) => match IgnoredUserListEventContent::from_json(c) {
                Ok(content) => Ok(IgnoredUserListEvent { content }),
                Err(_) => Err(schema_error(v, "invalid field `content`")),
            },
            None => Err(schema_error(v, "missing field `content`")),
        }
    }

    /// Decodes from JSON text: text that is not valid JSON is a structural
    /// failure with nothing retained; otherwise as [`Self::from_json`].
    pub fn from_json_str(s: &str) -> (r: Result<IgnoredUserListEvent, InvalidEvent>)
        ensures
            match parsed_json(s@) {
                None => r matches Err(d) && !d.is_validation() && d.spec_json() is None,
                Some(v) => {
                    &&& (r is Ok <==> Self::json_shape(v))
                    &&& (r matches Ok(e) ==> e.matches_json(v))
                    &&& (r matches Err(d) ==> !d.is_validation() && (d.spec_json() matches Some(j)
                        && equiv(j, v)))
                },
            },
    {
        match parse_json(s) {
            Ok(v) => Self::from_json(&v),
            Err(m) => Err(parse_error(m)),
        }
    }

    /// The type of this event.
    pub fn event_type(&self) -> (t: EventType)
        ensures
            t == EventType::IgnoredUserList,
    {
        EventType::IgnoredUserList
    }

    /// The exact object shape this event encodes to: `content`, then `type`.
    pub open spec fn encodes(self, out: JsonValue) -> bool {
        &&& out is Obj
        &&& out->Obj_0@.len() == 2
        &&& out->Obj_0@[0].0@ == "content"@
        &&& self.content.encodes(out->Obj_0@[0].1)
        &&& out->Obj_0@[1].0@ == "type"@
        &&& out->Obj_0@[1].1 is Str && out->Obj_0@[1].1->Str_0@ == "m.ignored_user_list"@
    }

    /// Encodes into the wire object shape.
    pub fn to_json(&self) -> (out: JsonValue)
        ensures
            self.encodes(out),
    {
        let mut entries: Vec<(String, JsonValue)> = Vec::new();
        entries.push(("content".to_owned(), self.content.to_json()));
        entries.push(("type".to_owned(), self.event_type().to_json()));
        JsonValue::Obj(entries)
    }

    /// The JSON text of the encoded event.
    pub fn to_json_string(&self) -> (r: String)
        ensures
            exists|t: JsonValue| #[trigger] self.encodes(t) && r@ == emitted(t),
    {
        let t = self.to_json();
        emit_json(&t)
    }

    /// The canonical wire form: exactly the encoder's keys at each level,
    /// in any order, with every placeholder an empty object.
    pub open spec fn canonical(v: JsonValue) -> bool {
        &&& v is Obj
        &&& distinct_keys(v->Obj_0@)
        &&& v->Obj_0@.len() == 2
        &&& (v.spec_get("type"@) matches Some(t) && t is Str && t->Str_0@
            == "m.ignored_user_list"@)
        &&& (v.spec_get("content"@) matches Some(c) && {
            &&& c is Obj
            &&& distinct_keys(c->Obj_0@)
            &&& c->Obj_0@.len() == 1
            &&& (c.spec_get("ignored_users"@) matches Some(m) && m is Obj && forall|i: int|
                0 <= i < m->Obj_0@.len() ==> user_id_valid((#[trigger] m->Obj_0@[i]).0@)
                    && m->Obj_0@[i].1 is Obj && m->Obj_0@[i].1->Obj_0@.len() == 0)
        })
    }
}

impl core::str::FromStr for IgnoredUserListEvent {
    type Err = InvalidEvent;

    /// Attempts to create `Self` from parsing a string of JSON data.
    fn from_str(s: &str) -> Result<Self, InvalidEvent> {
        IgnoredUserListEvent::from_json_str(s)
    }
}

impl crate::Event for IgnoredUserListEvent {
    type Content = IgnoredUserListEventContent;

    fn content(&self) -> &IgnoredUserListEventContent {
        &self.content
    }

    fn event_type(&self) -> EventType {
        EventType::IgnoredUserList
    }
}

/// Round trip: a canonical *m.ignored_user_list* object decodes, and
/// re-encoding the decoded event yields an equivalent object, whatever
/// order its keys came in.
pub proof fn lemma_ignored_user_list_round_trip(v: JsonValue, e: IgnoredUserListEvent, out: JsonValue)
    requires
        IgnoredUserListEvent::canonical(v),
        e.matches_json(v),
        e.encodes(out),
    ensures
        IgnoredUserListEvent::json_shape(v),
        equiv(out, v),
{
    reveal_strlit("content");
    reveal_strlit("type");
    reveal_strlit("ignored_users");
    let es_o = out->Obj_0@;
    let es_v = v->Obj_0@;
    assert("content"@ != "type"@);
    assert(distinct_keys(es_o));
    let c_v = v.spec_get("content"@)->Some_0;
    let c_o = es_o[0].1;
    let m_v = c_v.spec_get("ignored_users"@)->Some_0;
    let m_o = c_o->Obj_0@[0].1;

    // The ignored-user maps agree pointwise: same keys in order, empty
    // placeholder objects on both sides.
    assert(m_o->Obj_0@.len() == m_v->Obj_0@.len());
    assert forall|j: int| 0 <= j < m_o->Obj_0@.len() implies (#[trigger] m_v->Obj_0@[j]).0@
        == m_o->Obj_0@[j].0@ && equiv(m_o->Obj_0@[j].1, m_v->Obj_0@[j].1) by {
        lemma_equiv_empty_obj(m_o->Obj_0@[j].1, m_v->Obj_0@[j].1);
    }
    lemma_obj_equiv_pointwise(m_o->Obj_0@, m_v->Obj_0@);
    assert(equiv(m_o, m_v));

    // The content objects bind the single key `ignored_users` each.
    lemma_entries_get_at(c_o->Obj_0@, 0);
    let i_m = lemma_entries_get_index(c_v->Obj_0@, "ignored_users"@);
    assert(i_m == 0);
    lemma_obj_equiv_of_lookups(c_o->Obj_0@, c_v->Obj_0@);
    assert forall|k: Seq<char>| #[trigger] entries_get(c_o->Obj_0@, k) is Some implies equiv(
        entries_get(c_o->Obj_0@, k)->Some_0,
        entries_get(c_v->Obj_0@, k)->Some_0,
    ) by {
        let i = lemma_entries_get_index(c_o->Obj_0@, k);
        assert(k == "ignored_users"@);
    }
    assert(equiv(c_o, c_v));

    // The outer objects bind `content` and `type` each.
    let i_c = lemma_entries_get_index(es_v, "content"@);
    let i_t = lemma_entries_get_index(es_v, "type"@);
    assert(i_c != i_t);
    lemma_entries_get_at(es_o, 0);
    lemma_entries_get_at(es_o, 1);
    lemma_obj_equiv_of_lookups(es_o, es_v);
    assert forall|k: Seq<char>| #[trigger] entries_get(es_o, k) is Some implies equiv(
        entries_get(es_o, k)->Some_0,
        entries_get(es_v, k)->Some_0,
    ) by {
        let i = lemma_entries_get_index(es_o, k);
        assert(k == "content"@ || k == "type"@);
    }
    assert(equiv(out, v));
}

} // verus!
