//! Types for the *m.room.encrypted* event.
//!
//! The content is tagged by an `algorithm` field: each reserved algorithm
//! selects its own payload shape, and the selection is semantic validation,
//! not structural parsing — a content whose `algorithm` is missing or
//! unsupported fails the validation phase with a diagnostic.

use vstd::prelude::*;

use crate::fields::{absent, field_event_id, field_opt_room_id, field_opt_value, field_string,
    field_timestamp, field_user_id, parse_error, schema_error, validation_error};
use crate::ids::{DeviceId, EventId, RoomId, UserId};
use crate::json::{entries_get, equiv, obj_push, JsonValue};
use crate::wire::{emit_json, emitted, event_id_valid, parse_json, parsed_json, room_id_valid,
    user_id_valid};
use crate::{Algorithm, EventType, InvalidEvent, MAX_SAFE_UINT};

verus! {

/// The payload for `EncryptedEvent` using the
/// *m.olm.v1.curve25519-aes-sha2* algorithm.
#[derive(Clone, Debug, PartialEq)]
pub struct OlmV1Curve25519AesSha2Content {
    /// The encryption algorithm used to encrypt this event.
    pub algorithm: Algorithm,
    /// The encrypted content of the event.
    pub ciphertext: CiphertextInfo,
    /// The Curve25519 key of the sender.
    pub sender_key: String,
}

/// Ciphertext information for messages encrypted with the
/// *m.olm.v1.curve25519-aes-sha2* algorithm.
#[derive(Clone, Debug, PartialEq)]
pub struct CiphertextInfo {
    /// The encrypted payload.
    pub body: String,
    /// The Olm message type.
    pub message_type: u64,
}

/// The payload for `EncryptedEvent` using the *m.megolm.v1.aes-sha2*
/// algorithm.
#[derive(Clone, Debug, PartialEq)]
pub struct MegolmV1AesSha2Content {
    /// The encryption algorithm used to encrypt this event.
    pub algorithm: Algorithm,
    /// The encrypted content of the event.
    pub ciphertext: String,
    /// The Curve25519 key of the sender.
    pub sender_key: String,
    /// The ID of the sending device.
    pub device_id: DeviceId,
    /// The ID of the session used to encrypt the message.
    pub session_id: String,
}

/// The payload for `EncryptedEvent`: one variant per reserved algorithm.
#[derive(Clone, Debug, PartialEq)]
pub enum EncryptedEventContent {
    /// An event encrypted with *m.olm.v1.curve25519-aes-sha2*.
    OlmV1Curve25519AesSha2(OlmV1Curve25519AesSha2Content),
    /// An event encrypted with *m.megolm.v1.aes-sha2*.
    MegolmV1AesSha2(MegolmV1AesSha2Content),
}

impl CiphertextInfo {
    /// The shape accepted: a `body` string and a `type` message number in
    /// the unsigned-integer domain.
    pub open spec fn json_shape(c: JsonValue) -> bool {
        &&& (c.spec_get("body"@) matches Some(w) && w is Str)
        &&& (c.spec_get("type"@) matches Some(w) && w is UInt && w->UInt_0 <= MAX_SAFE_UINT)
    }

    /// How a decoded value relates to its wire object.
    pub open spec fn matches_json(self, c: JsonValue) -> bool {
        &&& self.body@ == c.spec_get("body"@)->Some_0->Str_0@
        &&& c.spec_get("type"@) == Some(JsonValue::UInt(self.message_type))
    }

    /// Decodes a ciphertext-information object.
    pub fn from_json(c: &JsonValue) -> (r: Result<CiphertextInfo, ()>)
        ensures
            r is Ok <==> Self::json_shape(*c),
            r matches Ok(e) ==> e.matches_json(*c),
    {
        let body = match field_string(c, "body") {
            Ok(s) => s,
            Err(_) => {
                return Err(());
            },
        };
        let message_type = match field_timestamp(c, "type") {
            Ok(u) => u,
            Err(_) => {
                return Err(());
            },
        };
        Ok(CiphertextInfo { body, message_type })
    }

    /// The exact object shape this value encodes to: `body`, then `type`.
    pub open spec fn encodes(self, out: JsonValue) -> bool {
        &&& out is Obj
        &&& out->Obj_0@.len() == 2
        &&& out->Obj_0@[0].0@ == "body"@
        &&& out->Obj_0@[0].1 is Str && out->Obj_0@[0].1->Str_0@ == self.body@
        &&& out->Obj_0@[1].0@ == "type"@
        &&& out->Obj_0@[1].1 == JsonValue::UInt(self.message_type)
    }

    /// Encodes into the wire object shape.
    pub fn to_json(&self) -> (out: JsonValue)
        ensures
            self.encodes(out),
    {
        let mut entries: Vec<(String, JsonValue)> = Vec::new();
        entries.push(("body".to_owned(), JsonValue::Str(self.body.clone())));
        entries.push(("type".to_owned(), JsonValue::UInt(self.message_type)));
        JsonValue::Obj(entries)
    }
}

impl EncryptedEventContent {
    /// What the validation phase accepts: an `algorithm` string naming a
    /// reserved algorithm, with that algorithm's payload shape around it.
    pub open spec fn json_ok(c: JsonValue) -> bool {
        c.spec_get("algorithm"@) matches Some(a) && a is Str && {
            ||| (a->Str_0@ == "m.olm.v1.curve25519-aes-sha2"@ && Self::olm_shape(c))
            ||| (a->Str_0@ == "m.megolm.v1.aes-sha2"@ && Self::megolm_shape(c))
        }
    }

    /// The payload shape of *m.olm.v1.curve25519-aes-sha2*.
    pub open spec fn olm_shape(c: JsonValue) -> bool {
        &&& (c.spec_get("ciphertext"@) matches Some(w) && CiphertextInfo::json_shape(w))
        &&& (c.spec_get("sender_key"@) matches Some(w) && w is Str)
    }

    /// The payload shape of *m.megolm.v1.aes-sha2*.
    pub open spec fn megolm_shape(c: JsonValue) -> bool {
        &&& (c.spec_get("ciphertext"@) matches Some(w) && w is Str)
        &&& (c.spec_get("sender_key"@) matches Some(w) && w is Str)
        &&& (c.spec_get("device_id"@) matches Some(w) && w is Str)
        &&& (c.spec_get("session_id"@) matches Some(w) && w is Str)
    }

    /// How a decoded content relates to its wire object: the variant is the
    /// one the `algorithm` string names, and its fields mirror the object.
    pub open spec fn matches_json(self, c: JsonValue) -> bool {
        match self {
            EncryptedEventContent::OlmV1Curve25519AesSha2(cc) => {
                &&& c.spec_get("algorithm"@)->Some_0->Str_0@ == "m.olm.v1.curve25519-aes-sha2"@
                &&& cc.algorithm == Algorithm::OlmV1Curve25519AesSha2
                &&& cc.ciphertext.matches_json(c.spec_get("ciphertext"@)->Some_0)
                &&& cc.sender_key@ == c.spec_get("sender_key"@)->Some_0->Str_0@
            },
            EncryptedEventContent::MegolmV1AesSha2(cc) => {
                &&& c.spec_get("algorithm"@)->Some_0->Str_0@ == "m.megolm.v1.aes-sha2"@
                &&& cc.algorithm == Algorithm::MegolmV1AesSha2
                &&& cc.ciphertext@ == c.spec_get("ciphertext"@)->Some_0->Str_0@
                &&& cc.sender_key@ == c.spec_get("sender_key"@)->Some_0->Str_0@
                &&& cc.device_id@ == c.spec_get("device_id"@)->Some_0->Str_0@
                &&& cc.session_id@ == c.spec_get("session_id"@)->Some_0->Str_0@
            },
        }
    }

    /// Decodes a content object by its `algorithm` tag; accepted exactly on
    /// `json_ok`, with the message naming what failed.
    pub fn from_json(c: &JsonValue) -> (r: Result<EncryptedEventContent, &'static str>)
        ensures
            r is Ok <==> Self::json_ok(*c),
            r matches Ok(e) ==> e.matches_json(*c),
            c.spec_get("algorithm"@) is None ==> (r matches Err(m) && m@
                == "missing field `algorithm`"@),
    {
        proof {
            crate::lemma_algorithms_distinct();
        }
        let alg = match c.get("algorithm") {
            None => {
                return Err("missing field `algorithm`");
            },
            Some(JsonValue::Str(s)) => Algorithm::from_str(s.as_str()),
            Some(_) => {
                return Err("invalid field `algorithm`");
            },
        };
        match alg {
            Algorithm::OlmV1Curve25519AesSha2 => {
                let ciphertext = match c.get("ciphertext") {
                    Some(w) => match CiphertextInfo::from_json(w) {
                        Ok(info) => info,
                        Err(_) => {
                            return Err("invalid field `ciphertext`");
                        },
                    },
                    None => {
                        return Err("missing field `ciphertext`");
                    },
                };
                let sender_key = match field_string(c, "sender_key") {
                    Ok(s) => s,
                    Err(_) => {
                        return Err("invalid field `sender_key`");
                    },
                };
                Ok(
                    EncryptedEventContent::OlmV1Curve25519AesSha2(
                        OlmV1Curve25519AesSha2Content {
                            algorithm: Algorithm::OlmV1Curve25519AesSha2,
                            ciphertext,
                            sender_key,
                        },
                    ),
                )
            },
            Algorithm::MegolmV1AesSha2 => {
                let ciphertext = match field_string(c, "ciphertext") {
                    Ok(s) => s,
                    Err(_) => {
                        return Err("invalid field `ciphertext`");
                    },
                };
                let sender_key = match field_string(c, "sender_key") {
                    Ok(s) => s,
                    Err(_) => {
                        return Err("invalid field `sender_key`");
                    },
                };
                let device_id = match field_string(c, "device_id") {
                    Ok(s) => s,
                    Err(_) => {
                        return Err("invalid field `device_id`");
                    },
                };
                let session_id = match field_string(c, "session_id") {
                    Ok(s) => s,
                    Err(_) => {
                        return Err("invalid field `session_id`");
                    },
                };
                Ok(
                    EncryptedEventContent::MegolmV1AesSha2(
                        MegolmV1AesSha2Content {
                            algorithm: Algorithm::MegolmV1AesSha2,
                            ciphertext,
                            sender_key,
                            device_id,
                            session_id,
                        },
                    ),
                )
            },
            Algorithm::Custom(_) => Err(
                "Custom algorithms are not supported by `EncryptedEventContent`.",
            ),
        }
    }

    /// Decodes from JSON text: text that is not valid JSON is a structural
    /// failure, a content failing its algorithm's shape a validation
    /// failure retaining the value.
    pub fn from_json_str(s: &str) -> (r: Result<EncryptedEventContent, InvalidEvent>)
        ensures
            match parsed_json(s@) {
                None => r matches Err(d) && !d.is_validation() && d.spec_json() is None,
                Some(c) => {
                    &&& (r is Ok <==> Self::json_ok(c))
                    &&& (r matches Ok(e) ==> e.matches_json(c))
                    &&& (r matches Err(d) ==> d.is_validation() && (d.spec_json() matches Some(j)
                        && equiv(j, c)))
                },
            },
    {
        match parse_json(s) {
            Ok(c) => match Self::from_json(&c) {
                Ok(e) => Ok(e),
                Err(m) => Err(validation_error(&c, m)),
            },
            Err(m) => Err(parse_error(m)),
        }
    }

    /// The exact object shape the content encodes to: the algorithm, then
    /// its payload fields in wire order.
    pub open spec fn encodes(self, out: JsonValue) -> bool {
        match self {
            EncryptedEventContent::OlmV1Curve25519AesSha2(cc) => {
                &&& out is Obj
                &&& out->Obj_0@.len() == 3
                &&& out->Obj_0@[0].0@ == "algorithm"@
                &&& out->Obj_0@[0].1 is Str && out->Obj_0@[0].1->Str_0@ == cc.algorithm.spec_str()
                &&& out->Obj_0@[1].0@ == "ciphertext"@
                &&& cc.ciphertext.encodes(out->Obj_0@[1].1)
                &&& out->Obj_0@[2].0@ == "sender_key"@
                &&& out->Obj_0@[2].1 is Str && out->Obj_0@[2].1->Str_0@ == cc.sender_key@
            },
            EncryptedEventContent::MegolmV1AesSha2(cc) => {
                &&& out is Obj
                &&& out->Obj_0@.len() == 5
                &&& out->Obj_0@[0].0@ == "algorithm"@
                &&& out->Obj_0@[0].1 is Str && out->Obj_0@[0].1->Str_0@ == cc.algorithm.spec_str()
                &&& out->Obj_0@[1].0@ == "ciphertext"@
                &&& out->Obj_0@[1].1 is Str && out->Obj_0@[1].1->Str_0@ == cc.ciphertext@
                &&& out->Obj_0@[2].0@ == "sender_key"@
                &&& out->Obj_0@[2].1 is Str && out->Obj_0@[2].1->Str_0@ == cc.sender_key@
                &&& out->Obj_0@[3].0@ == "device_id"@
                &&& out->Obj_0@[3].1 is Str && out->Obj_0@[3].1->Str_0@ == cc.device_id@
                &&& out->Obj_0@[4].0@ == "session_id"@
                &&& out->Obj_0@[4].1 is Str && out->Obj_0@[4].1->Str_0@ == cc.session_id@
            },
        }
    }

    /// Encodes into the wire object shape.
    pub fn to_json(&self) -> (out: JsonValue)
        ensures
            self.encodes(out),
    {
        match self {
            EncryptedEventContent::OlmV1Curve25519AesSha2(cc) => {
                let mut entries: Vec<(String, JsonValue)> = Vec::new();
                entries.push(("algorithm".to_owned(), cc.algorithm.to_json()));
                entries.push(("ciphertext".to_owned(), cc.ciphertext.to_json()));
                entries.push(("sender_key".to_owned(), JsonValue::Str(cc.sender_key.clone())));
                JsonValue::Obj(entries)
            },
            EncryptedEventContent::MegolmV1AesSha2(cc) => {
                let mut entries: Vec<(String, JsonValue)> = Vec::new();
                entries.push(("algorithm".to_owned(), cc.algorithm.to_json()));
                entries.push(("ciphertext".to_owned(), JsonValue::Str(cc.ciphertext.clone())));
                entries.push(("sender_key".to_owned(), JsonValue::Str(cc.sender_key.clone())));
                entries.push(("device_id".to_owned(), JsonValue::Str(cc.device_id.clone())));
                entries.push(("session_id".to_owned(), JsonValue::Str(cc.session_id.clone())));
                JsonValue::Obj(entries)
            },
        }
    }

    /// The JSON text of the encoded content.
    pub fn to_json_string(&self) -> (r: String)
        ensures
            exists|t: JsonValue| #[trigger] self.encodes(t) && r@ == emitted(t),
    {
        let t = self.to_json();
        emit_json(&t)
    }
}

impl core::str::FromStr for EncryptedEventContent {
    type Err = InvalidEvent;

    /// Attempts to create `Self` from parsing a string of JSON data.
    fn from_str(s: &str) -> Result<Self, InvalidEvent> {
        EncryptedEventContent::from_json_str(s)
    }
}

/// This event type is used when sending encrypted events within a room.
/// For a to-device event, use `EncryptedEventContent` directly.
#[derive(Clone, Debug, PartialEq)]
pub struct EncryptedEvent {
    /// The event's content.
    pub content: EncryptedEventContent,
    /// The unique identifier for the event.
    pub event_id: EventId,
    /// Timestamp (milliseconds since the UNIX epoch) on the originating
    /// homeserver when this event was sent.
    pub origin_server_ts: u64,
    /// The unique identifier for the room associated with this event.
    pub room_id: Option<RoomId>,
    /// The unique identifier for the user who sent this event.
    pub sender: UserId,
    /// Additional key-value pairs not signed by the homeserver.
    pub unsigned: Option<JsonValue>,
}

impl EncryptedEvent {
    /// The identifiers a constructed event holds all passed their checks,
    /// and the timestamp lies in the unsigned-integer domain.
    pub open spec fn wf(self) -> bool {
        &&& self.event_id.wf()
        &&& self.sender.wf()
        &&& (self.room_id matches Some(id) ==> id.wf())
        &&& self.origin_server_ts <= MAX_SAFE_UINT
    }

    /// The envelope shape the structural phase accepts; the content's own
    /// validity is the validation phase's concern.
    pub open spec fn json_shape(v: JsonValue) -> bool {
        &&& v.spec_get("content"@) is Some
        &&& (v.spec_get("event_id"@) matches Some(w) && w is Str && event_id_valid(w->Str_0@))
        &&& (v.spec_get("origin_server_ts"@) matches Some(w) && w is UInt && w->UInt_0
            <= MAX_SAFE_UINT)
        &&& (absent(v, "room_id"@) || (v.spec_get("room_id"@) matches Some(w) && w is Str
            && room_id_valid(w->Str_0@)))
        &&& (v.spec_get("sender"@) matches Some(w) && w is Str && user_id_valid(w->Str_0@))
    }

    /// How a decoded event relates to the value it was decoded from.
    pub open spec fn matches_json(self, v: JsonValue) -> bool {
        &&& self.content.matches_json(v.spec_get("content"@)->Some_0)
        &&& self.event_id.spec_str() == v.spec_get("event_id"@)->Some_0->Str_0@
        &&& v.spec_get("origin_server_ts"@) == Some(JsonValue::UInt(self.origin_server_ts))
        &&& match self.room_id {
            None => absent(v, "room_id"@),
            Some(id) => !absent(v, "room_id"@) && id.spec_str() == v.spec_get(
                "room_id"@,
            )->Some_0->Str_0@,
        }
        &&& self.sender.spec_str() == v.spec_get("sender"@)->Some_0->Str_0@
        &&& match self.unsigned {
            None => absent(v, "unsigned"@),
            Some(u) => !absent(v, "unsigned"@) && (v.spec_get("unsigned"@) matches Some(w)
                && equiv(u, w)),
        }
    }

    /// Decodes from a parsed JSON value. An envelope that does not match
    /// `json_shape` is a structural failure; an envelope whose content
    /// fails its algorithm's rules is a validation failure. Either way the
    /// value is retained.
    pub fn from_json(v: &JsonValue) -> (r: Result<EncryptedEvent, InvalidEvent>)
        ensures
            r is Ok <==> Self::json_shape(*v) && EncryptedEventContent::json_ok(
                v.spec_get("content"@)->Some_0,
            ),
            r matches Ok(e) ==> e.matches_json(*v) && e.wf(),
            r matches Err(d) ==> {
                &&& (d.spec_json() matches Some(j) && equiv(j, *v))
                &&& (d.is_validation() <==> Self::json_shape(*v))
            },
    {
        let content_value = match v.get("content") {
            Some(c) => c,
            None => {
                return Err(schema_error(v, "missing field `content`"));
            },
        };
        let event_id = match field_event_id(v, "event_id") {
            Ok(id) => id,
            Err(_) => {
                return Err(schema_error(v, "invalid field `event_id`"));
            },
        };
        let origin_server_ts = match field_timestamp(v, "origin_server_ts") {
            Ok(ts) => ts,
            Err(_) => {
                return Err(schema_error(v, "invalid field `origin_server_ts`"));
            },
        };
        let room_id = match field_opt_room_id(v, "room_id") {
            Ok(id) => id,
            Err(_) => {
                return Err(schema_error(v, "invalid field `room_id`"));
            },
        };
        let sender = match field_user_id(v, "sender") {
            Ok(id) => id,
            Err(_) => {
                return Err(schema_error(v, "invalid field `sender`"));
            },
        };
        let unsigned = field_opt_value(v, "unsigned");
        let content = match EncryptedEventContent::from_json(content_value) {
            Ok(content) => content,
            Err(m) => {
                return Err(validation_error(v, m));
            },
        };
        Ok(EncryptedEvent { content, event_id, origin_server_ts, room_id, sender, unsigned })
    }

    /// Decodes from JSON text: text that is not valid JSON is a structural
    /// failure with nothing retained; otherwise as [`Self::from_json`].
    pub fn from_json_str(s: &str) -> (r: Result<EncryptedEvent, InvalidEvent>)
        ensures
            match parsed_json(s@) {
                None => r matches Err(d) && !d.is_validation() && d.spec_json() is None,
                Some(v) => {
                    &&& (r is Ok <==> Self::json_shape(v) && EncryptedEventContent::json_ok(
                        v.spec_get("content"@)->Some_0,
                    ))
                    &&& (r matches Ok(e) ==> e.matches_json(v) && e.wf())
                    &&& (r matches Err(d) ==> (d.spec_json() matches Some(j) && equiv(j, v))
                        && (d.is_validation() <==> Self::json_shape(v)))
                },
            },
    {
        match parse_json(s) {
            Ok(v) => Self::from_json(&v),
            Err(m) => Err(parse_error(m)),
        }
    }

    /// The type of this event.
    pub fn event_type(&self) -> (t: EventType)
        ensures
            t == EventType::RoomEncrypted,
    {
        EventType::RoomEncrypted
    }

    /// The exact object shape this event encodes to: the required fields
    /// and `type`, then each optional field that is present; absent
    /// optional fields are omitted, never written as null.
    pub open spec fn encodes(self, out: JsonValue) -> bool {
        &&& out is Obj
        &&& crate::json::distinct_keys(out->Obj_0@)
        &&& out->Obj_0@.len() == 5 + (if self.room_id is Some {
            1int
        } else {
            0int
        }) + (if self.unsigned is Some {
            1int
        } else {
            0int
        })
        &&& (out.spec_get("content"@) matches Some(c) && self.content.encodes(c))
        &&& (out.spec_get("event_id"@) matches Some(w) && w is Str && w->Str_0@
            == self.event_id.spec_str())
        &&& out.spec_get("origin_server_ts"@) == Some(JsonValue::UInt(self.origin_server_ts))
        &&& (out.spec_get("sender"@) matches Some(w) && w is Str && w->Str_0@
            == self.sender.spec_str())
        &&& (out.spec_get("type"@) matches Some(w) && w is Str && w->Str_0@
            == "m.room.encrypted"@)
        &&& match self.room_id {
            None => out.spec_get("room_id"@) is None,
            Some(id) => out.spec_get("room_id"@) matches Some(w) && w is Str && w->Str_0@
                == id.spec_str(),
        }
        &&& match self.unsigned {
            None => out.spec_get("unsigned"@) is None,
            Some(u) => out.spec_get("unsigned"@) matches Some(w) && equiv(w, u),
        }
        &&& forall|k: Seq<char>|
            #[trigger] entries_get(out->Obj_0@, k) is Some ==> k == "content"@ || k == "event_id"@
                || k == "origin_server_ts"@ || k == "sender"@ || k == "type"@ || k == "room_id"@
                || k == "unsigned"@
    }

    /// Encodes into the wire object shape.
    pub fn to_json(&self) -> (out: JsonValue)
        ensures
            self.encodes(out),
    {
        proof {
            crate::fields::lemma_event_keys_distinct();
        }
        let mut entries: Vec<(String, JsonValue)> = Vec::new();
        assert(entries@ =~= Seq::<(String, JsonValue)>::empty());
        obj_push(&mut entries, "content", self.content.to_json());
        obj_push(&mut entries, "event_id", JsonValue::Str(self.event_id.as_str().to_owned()));
        obj_push(&mut entries, "origin_server_ts", JsonValue::UInt(self.origin_server_ts));
        obj_push(&mut entries, "sender", JsonValue::Str(self.sender.as_str().to_owned()));
        obj_push(&mut entries, "type", self.event_type().to_json());
        match &self.room_id {
            Some(id) => obj_push(&mut entries, "room_id", JsonValue::Str(id.as_str().to_owned())),
            None => {},
        }
        match &self.unsigned {
            Some(u) => obj_push(&mut entries, "unsigned", u.clone()),
            None => {},
        }
        proof {
            assert forall|k: Seq<char>| #[trigger] entries_get(entries@, k) is Some implies k
                == "content"@ || k == "event_id"@ || k == "origin_server_ts"@ || k == "sender"@
                || k == "type"@ || k == "room_id"@ || k == "unsigned"@ by {}
        }
        JsonValue::Obj(entries)
    }

    /// The JSON text of the encoded event.
    pub fn to_json_string(&self) -> (r: String)
        ensures
            exists|t: JsonValue| #[trigger] self.encodes(t) && r@ == emitted(t),
    {
        let t = self.to_json();
        emit_json(&t)
    }
}

impl core::str::FromStr for EncryptedEvent {
    type Err = InvalidEvent;

    /// Attempts to create `Self` from parsing a string of JSON data.
    fn from_str(s: &str) -> Result<Self, InvalidEvent> {
        EncryptedEvent::from_json_str(s)
    }
}

impl crate::Event for EncryptedEvent {
    type Content = EncryptedEventContent;

    fn content(&self) -> &EncryptedEventContent {
        &self.content
    }

    fn event_type(&self) -> EventType {
        EventType::RoomEncrypted
    }
}

impl crate::RoomEvent for EncryptedEvent {
    fn event_id(&self) -> &EventId {
        &self.event_id
    }

    fn origin_server_ts(&self) -> u64 {
        self.origin_server_ts
    }

    fn room_id(&self) -> Option<&RoomId> {
        self.room_id.as_ref()
    }

    fn sender(&self) -> &UserId {
        &self.sender
    }

    fn unsigned(&self) -> Option<&JsonValue> {
        self.unsigned.as_ref()
    }
}

/// The content keys of the two algorithms' payloads are pairwise distinct.
proof fn proof_encrypted_content_keys()
    ensures
        "algorithm"@ != "ciphertext"@,
        "algorithm"@ != "sender_key"@,
        "algorithm"@ != "device_id"@,
        "algorithm"@ != "session_id"@,
        "ciphertext"@ != "sender_key"@,
        "ciphertext"@ != "device_id"@,
        "ciphertext"@ != "session_id"@,
        "sender_key"@ != "device_id"@,
        "sender_key"@ != "session_id"@,
        "device_id"@ != "session_id"@,
        "body"@ != "type"@,
{
    reveal_strlit("algorithm");
    reveal_strlit("ciphertext");
    reveal_strlit("sender_key");
    reveal_strlit("device_id");
    reveal_strlit("session_id");
    reveal_strlit("body");
    reveal_strlit("type");
    assert(("algorithm"@).len() == 9);
    assert(("ciphertext"@).len() == 10);
    assert(("sender_key"@).len() == 10);
    assert(("device_id"@).len() == 9);
    assert(("session_id"@).len() == 10);
    assert(("body"@).len() == 4);
    assert(("type"@).len() == 4);
    assert(("ciphertext"@)[0] != ("sender_key"@)[0]);
    assert(("ciphertext"@)[0] != ("session_id"@)[0]);
    assert(("sender_key"@)[2] != ("session_id"@)[2]);
    assert(("algorithm"@)[0] != ("device_id"@)[0]);
    assert(("body"@)[0] != ("type"@)[0]);
}

/// The canonical wire form of the content: exactly the chosen algorithm's
/// keys, its ciphertext object (for the first algorithm) holding exactly
/// `body` and `type`.
pub open spec fn canonical_encrypted_content(c: JsonValue) -> bool {
    &&& c is Obj
    &&& crate::json::distinct_keys(c->Obj_0@)
    &&& EncryptedEventContent::json_ok(c)
    &&& (c.spec_get("algorithm"@)->Some_0->Str_0@ == "m.olm.v1.curve25519-aes-sha2"@ ==> {
        &&& c->Obj_0@.len() == 3
        &&& (c.spec_get("ciphertext"@) matches Some(ct) && ct is Obj
            && crate::json::distinct_keys(ct->Obj_0@) && ct->Obj_0@.len() == 2)
    })
    &&& (c.spec_get("algorithm"@)->Some_0->Str_0@ == "m.megolm.v1.aes-sha2"@ ==> c->Obj_0@.len()
        == 5)
}

/// Round trip of the ciphertext information object.
proof fn lemma_ciphertext_info_round_trip(ct: JsonValue, info: CiphertextInfo, ct_o: JsonValue)
    requires
        ct is Obj,
        crate::json::distinct_keys(ct->Obj_0@),
        ct->Obj_0@.len() == 2,
        CiphertextInfo::json_shape(ct),
        info.matches_json(ct),
        info.encodes(ct_o),
    ensures
        equiv(ct_o, ct),
{
    proof_encrypted_content_keys();
    crate::json::lemma_entries_get_all(ct_o->Obj_0@);
    crate::json::lemma_entries_get_all(ct->Obj_0@);
    assert(crate::json::distinct_keys(ct_o->Obj_0@));
    assert forall|i: int| 0 <= i < ct_o->Obj_0@.len() implies entries_get(
        ct->Obj_0@,
        (#[trigger] ct_o->Obj_0@[i]).0@,
    ) is Some by {
        assert(ct_o->Obj_0@[i].0@ == "body"@ || ct_o->Obj_0@[i].0@ == "type"@);
    }
    crate::json::lemma_obj_equiv_of_lookups(ct_o->Obj_0@, ct->Obj_0@);
    assert forall|k: Seq<char>| #[trigger] entries_get(ct_o->Obj_0@, k) is Some implies equiv(
        entries_get(ct_o->Obj_0@, k)->Some_0,
        entries_get(ct->Obj_0@, k)->Some_0,
    ) by {
        let i = crate::json::lemma_entries_get_index(ct_o->Obj_0@, k);
        assert(k == "body"@ || k == "type"@);
    }
    assert(equiv(ct_o, ct));
}

/// Round trip of the content: a canonical content object decodes, and
/// re-encoding the decoded value yields an equivalent object.
pub proof fn lemma_encrypted_content_round_trip(
    c: JsonValue,
    cc: EncryptedEventContent,
    c_o: JsonValue,
)
    requires
        canonical_encrypted_content(c),
        cc.matches_json(c),
        cc.encodes(c_o),
    ensures
        equiv(c_o, c),
{
    proof_encrypted_content_keys();
    crate::lemma_algorithms_distinct();
    crate::json::lemma_entries_get_all(c_o->Obj_0@);
    crate::json::lemma_entries_get_all(c->Obj_0@);
    assert(crate::json::distinct_keys(c_o->Obj_0@));
    match cc {
        EncryptedEventContent::OlmV1Curve25519AesSha2(inner) => {
            assert(c_o->Obj_0@.len() == c->Obj_0@.len());
            assert forall|i: int| 0 <= i < c_o->Obj_0@.len() implies entries_get(
                c->Obj_0@,
                (#[trigger] c_o->Obj_0@[i]).0@,
            ) is Some by {
                let k = c_o->Obj_0@[i].0@;
                assert(k == "algorithm"@ || k == "ciphertext"@ || k == "sender_key"@);
            }
            crate::json::lemma_obj_equiv_of_lookups(c_o->Obj_0@, c->Obj_0@);
            assert forall|k: Seq<char>| #[trigger] entries_get(c_o->Obj_0@, k) is Some implies
                equiv(
                entries_get(c_o->Obj_0@, k)->Some_0,
                entries_get(c->Obj_0@, k)->Some_0,
            ) by {
                let i = crate::json::lemma_entries_get_index(c_o->Obj_0@, k);
                assert(k == "algorithm"@ || k == "ciphertext"@ || k == "sender_key"@);
                if k == "ciphertext"@ {
                    lemma_ciphertext_info_round_trip(
                        entries_get(c->Obj_0@, k)->Some_0,
                        inner.ciphertext,
                        entries_get(c_o->Obj_0@, k)->Some_0,
                    );
                }
            }
            assert(equiv(c_o, c));
        },
        EncryptedEventContent::MegolmV1AesSha2(inner) => {
            assert(c_o->Obj_0@.len() == c->Obj_0@.len());
            assert forall|i: int| 0 <= i < c_o->Obj_0@.len() implies entries_get(
                c->Obj_0@,
                (#[trigger] c_o->Obj_0@[i]).0@,
            ) is Some by {
                let k = c_o->Obj_0@[i].0@;
                assert(k == "algorithm"@ || k == "ciphertext"@ || k == "sender_key"@ || k
                    == "device_id"@ || k == "session_id"@);
            }
            crate::json::lemma_obj_equiv_of_lookups(c_o->Obj_0@, c->Obj_0@);
            assert forall|k: Seq<char>| #[trigger] entries_get(c_o->Obj_0@, k) is Some implies
                equiv(
                entries_get(c_o->Obj_0@, k)->Some_0,
                entries_get(c->Obj_0@, k)->Some_0,
            ) by {
                let i = crate::json::lemma_entries_get_index(c_o->Obj_0@, k);
                assert(k == "algorithm"@ || k == "ciphertext"@ || k == "sender_key"@ || k
                    == "device_id"@ || k == "session_id"@);
            }
            assert(equiv(c_o, c));
        },
    }
}

impl EncryptedEvent {
    /// The canonical wire form: exactly the encoder's keys, in any order,
    /// with no optional field written as null.
    pub open spec fn canonical(v: JsonValue) -> bool {
        &&& v is Obj
        &&& crate::json::distinct_keys(v->Obj_0@)
        &&& Self::json_shape(v)
        &&& (v.spec_get("type"@) matches Some(t) && t is Str && t->Str_0@ == "m.room.encrypted"@)
        &&& canonical_encrypted_content(v.spec_get("content"@)->Some_0)
        &&& v.spec_get("room_id"@) != Some(JsonValue::Null)
        &&& v.spec_get("unsigned"@) != Some(JsonValue::Null)
        &&& v->Obj_0@.len() == 5 + (if v.spec_get("room_id"@) is Some {
            1int
        } else {
            0int
        }) + (if v.spec_get("unsigned"@) is Some {
            1int
        } else {
            0int
        })
    }
}

/// Round trip: a canonical *m.room.encrypted* object decodes, and
/// re-encoding the decoded event yields an equivalent object, whatever
/// order its keys came in.
pub proof fn lemma_encrypted_round_trip(v: JsonValue, e: EncryptedEvent, out: JsonValue)
    requires
        EncryptedEvent::canonical(v),
        e.matches_json(v),
        e.encodes(out),
    ensures
        EncryptedEvent::json_shape(v),
        equiv(out, v),
{
    crate::fields::lemma_event_keys_distinct();
    let es_o = out->Obj_0@;
    let es_v = v->Obj_0@;
    crate::json::lemma_entries_get_all(es_o);
    crate::json::lemma_entries_get_all(es_v);
    assert(es_o.len() == es_v.len());
    assert forall|i: int| 0 <= i < es_o.len() implies entries_get(
        es_v,
        (#[trigger] es_o[i]).0@,
    ) is Some by {
        let k = es_o[i].0@;
        assert(entries_get(es_o, k) is Some);
    }
    crate::json::lemma_obj_equiv_of_lookups(es_o, es_v);
    assert forall|k: Seq<char>| #[trigger] entries_get(es_o, k) is Some implies equiv(
        entries_get(es_o, k)->Some_0,
        entries_get(es_v, k)->Some_0,
    ) by {
        let i = crate::json::lemma_entries_get_index(es_o, k);
        let w_o = entries_get(es_o, k)->Some_0;
        let w_v = entries_get(es_v, k)->Some_0;
        if k == "content"@ {
            lemma_encrypted_content_round_trip(w_v, e.content, w_o);
        } else if k == "unsigned"@ {
            crate::json::lemma_equiv_trans(w_o, e.unsigned->Some_0, w_v);
        } else {
            assert(equiv(w_o, w_v));
        }
    }
    assert(equiv(out, v));
}

} // verus!
