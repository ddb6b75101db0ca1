//! Types for the *m.dummy* event.

use vstd::prelude::*;

use crate::fields::{parse_error, schema_error};
use crate::json::{distinct_keys, entries_get, equiv, lemma_entries_get_at,
    lemma_entries_get_index, JsonValue};
use crate::wire::{emit_json, emitted, parse_json, parsed_json};
use crate::{Empty, EventType, InvalidEvent};

verus! {

/// This event type is used to indicate new sessions for end-to-end
/// encryption, and carries no content of its own.
#[derive(Clone, Debug, PartialEq)]
pub struct DummyEvent {
    /// The event's content.
    pub content: Empty,
}

impl DummyEvent {
    /// The shape the structural phase accepts: an object whose `content`
    /// field is an object. Other fields are ignored.
    pub open spec fn json_shape(v: JsonValue) -> bool {
        v.spec_get("content"@) matches Some(c) && c is Obj
    }

    /// The exact object shape this event encodes to: `content` (an empty
    /// object), then `type`.
    pub open spec fn encodes(self, out: JsonValue) -> bool {
        &&& out is Obj
        &&& out->Obj_0@.len() == 2
        &&& out->Obj_0@[0].0@ == "content"@
        &&& out->Obj_0@[0].1 is Obj && out->Obj_0@[0].1->Obj_0@.len() == 0
        &&& out->Obj_0@[1].0@ == "type"@
        &&& out->Obj_0@[1].1 is Str && out->Obj_0@[1].1->Str_0@ == "m.dummy"@
    }

    /// Decodes from a parsed JSON value; accepted exactly on `json_shape`,
    /// and every rejection is a structural failure retaining the value.
    pub fn from_json(v: &JsonValue) -> (r: Result<DummyEvent, InvalidEvent>)
        ensures
            r is Ok <==> Self::json_shape(*v),
            r matches Err(d) ==> !d.is_validation() && (d.spec_json() matches Some(j) && equiv(
                j,
                *v,
            )),
    {
        match v.get("content") {
            Some(c) => match Empty::from_json(c) {
                Ok(content) => Ok(DummyEvent { content }),
                Err(_) => Err(schema_error(v, "invalid field `content`")),
            },
            None => Err(schema_error(v, "missing field `content`")),
        }
    }

    /// Decodes from JSON text: text that is not valid JSON is a structural
    /// failure with nothing retained; otherwise as [`Self::from_json`].
    pub fn from_json_str(s: &str) -> (r: Result<DummyEvent, InvalidEvent>)
        ensures
            match parsed_json(s@) {
                None => r matches Err(d) && !d.is_validation() && d.spec_json() is None,
                Some(v) => {
                    &&& (r is Ok <==> Self::json_shape(v))
                    &&& (r matches Err(d) ==> !d.is_validation() && (d.spec_json() matches Some(j)
                        && equiv(j, v)))
                },
            },
    {
        match parse_json(s) {
            Ok(v) => Self::from_json(&v),
            Err(m) => Err(parse_error(m)),
        }
    }

    /// The type of this event.
    pub fn event_type(&self) -> (t: EventType)
        ensures
            t == EventType::Dummy,
    {
        EventType::Dummy
    }

    /// Encodes into the wire object shape.
    pub fn to_json(&self) -> (out: JsonValue)
        ensures
            self.encodes(out),
    {
        let mut entries: Vec<(String, JsonValue)> = Vec::new();
        entries.push(("content".to_owned(), self.content.to_json()));
        entries.push(("type".to_owned(), self.event_type().to_json()));
        JsonValue::Obj(entries)
    }

    /// The JSON text of the encoded event.
    pub fn to_json_string(&self) -> (r: String)
        ensures
            exists|t: JsonValue| #[trigger] self.encodes(t) && r@ == emitted(t),
    {
        let t = self.to_json();
        emit_json(&t)
    }

    /// The canonical wire form: exactly the two keys the encoder writes, in
    /// any order, with an empty content object.
    pub open spec fn canonical(v: JsonValue) -> bool {
        &&& v is Obj
        &&& distinct_keys(v->Obj_0@)
        &&& v->Obj_0@.len() == 2
        &&& (v.spec_get("content"@) matches Some(c) && c is Obj && c->Obj_0@.len() == 0)
        &&& (v.spec_get("type"@) matches Some(t) && t is Str && t->Str_0@ == "m.dummy"@)
    }
}

impl core::str::FromStr for DummyEvent {
    type Err = InvalidEvent;

    /// Attempts to create `Self` from parsing a string of JSON data.
    fn from_str(s: &str) -> Result<Self, InvalidEvent> {
        DummyEvent::from_json_str(s)
    }
}

impl crate::Event for DummyEvent {
    type Content = Empty;

    fn content(&self) -> &Empty {
        &self.content
    }

    fn event_type(&self) -> EventType {
        EventType::Dummy
    }
}

/// Round trip: a canonical *m.dummy* object decodes, and re-encoding the
/// result yields an equivalent object, whatever order its keys came in.
pub proof fn lemma_dummy_round_trip(v: JsonValue, e: DummyEvent, out: JsonValue)
    requires
        DummyEvent::canonical(v),
        e.encodes(out),
    ensures
        DummyEvent::json_shape(v),
        equiv(out, v),
{
    reveal_strlit("content");
    reveal_strlit("type");
    let es_o = out->Obj_0@;
    let es_v = v->Obj_0@;
    assert("content"@ != "type"@);
    assert(distinct_keys(es_o));
    let i_c = lemma_entries_get_index(es_v, "content"@);
    let i_t = lemma_entries_get_index(es_v, "type"@);
    assert(i_c != i_t);
    lemma_entries_get_at(es_o, 0);
    lemma_entries_get_at(es_o, 1);
    assert forall|k: Seq<char>|
        #[trigger] entries_get(es_o, k) is Some <==> entries_get(es_v, k) is Some by {
        if entries_get(es_o, k) is Some {
            let i = lemma_entries_get_index(es_o, k);
            assert(k == "content"@ || k == "type"@);
        }
        if entries_get(es_v, k) is Some {
            let i = lemma_entries_get_index(es_v, k);
            assert(i == i_c || i == i_t);
            assert(k == "content"@ || k == "type"@);
        }
    }
    assert forall|k: Seq<char>| #[trigger] entries_get(es_o, k) is Some implies equiv(
        entries_get(es_o, k)->Some_0,
        entries_get(es_v, k)->Some_0,
    ) by {
        let i = lemma_entries_get_index(es_o, k);
        if k == "content"@ {
            let c_o = entries_get(es_o, k)->Some_0;
            let c_v = entries_get(es_v, k)->Some_0;
            assert(c_o is Obj && c_o->Obj_0@.len() == 0);
            assert(c_v is Obj && c_v->Obj_0@.len() == 0);
            assert forall|k2: Seq<char>| true implies !(#[trigger] entries_get(
                c_o->Obj_0@,
                k2,
            ) is Some) && !(entries_get(c_v->Obj_0@, k2) is Some) by {
                crate::json::lemma_entries_get_none(c_o->Obj_0@, k2);
                crate::json::lemma_entries_get_none(c_v->Obj_0@, k2);
            }
            assert(equiv(c_o, c_v));
        } else {
            assert(k == "type"@);
            assert(equiv(entries_get(es_o, k)->Some_0, entries_get(es_v, k)->Some_0));
        }
    }
    assert(equiv(out, v));
}

} // verus!
