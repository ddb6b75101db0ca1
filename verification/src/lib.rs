//! Serializable types for the events of a federated chat protocol.
//!
//! Every record ("event") on the wire is a JSON object carrying a `type`
//! field, its discriminant. This crate models that wire JSON (`json`), maps
//! each discriminant to a concrete record type, decodes raw JSON into
//! validated records in two phases, and re-encodes records into the same
//! object shape. Decoding never loses the offending payload: failures come
//! back as an [`InvalidEvent`] carrying the parsed value.
//!
//! Three kinds of events exist, strictly nested: basic events (`content`
//! only), room events (adding identity and addressing fields), and state
//! events (adding `state_key` and `prev_content`). The traits [`Event`],
//! [`RoomEvent`] and [`StateEvent`] mirror that nesting, and the enums in
//! `collections::all` hold any event of at least the matching kind.

use vstd::prelude::*;

pub(crate) mod fields;
pub mod collections;
pub mod custom;
pub mod dummy;
pub mod ignored_user_list;
pub mod ids;
pub mod json;
pub mod room;
pub mod wire;

use crate::json::JsonValue;
use crate::wire::{emit_json, emitted, str_eq};

verus! {

/// The largest integer the protocol's unsigned-integer domain admits: every
/// timestamp fits in an IEEE double exactly.
pub const MAX_SAFE_UINT: u64 = 9007199254740991;

/// A meaningless value that decodes from any JSON object and serializes to
/// an empty JSON object.
#[derive(Clone, Debug, PartialEq)]
pub struct Empty;

impl Empty {
    /// Decodes from any JSON object, ignoring its entries.
    pub fn from_json(v: &JsonValue) -> (r: Result<Empty, ()>)
        ensures
            r is Ok <==> v is Obj,
    {
        match v {
            JsonValue::Obj(_) => Ok(Empty),
            _ => Err(()),
        }
    }

    /// Encodes as the empty JSON object.
    pub fn to_json(&self) -> (r: JsonValue)
        ensures
            r is Obj,
            r->Obj_0@.len() == 0,
    {
        JsonValue::Obj(Vec::new())
    }
}

/// An error returned when attempting to create an event with data that would
/// make it invalid.
#[derive(Clone, Debug, PartialEq)]
pub struct InvalidInput(String);

impl InvalidInput {
    /// The message describing what was wrong with the input.
    pub closed spec fn spec_message(self) -> Seq<char> {
        self.0@
    }

    /// Wraps a message.
    pub fn new(message: String) -> (r: InvalidInput)
        ensures
            r.spec_message() == message@,
    {
        InvalidInput(message)
    }

    /// The message describing what was wrong with the input.
    pub fn message(&self) -> (r: String)
        ensures
            r@ == self.spec_message(),
    {
        self.0.clone()
    }
}

/// An error when attempting to create a simple enum value from a string that
/// names none of its variants.
#[derive(Clone, Copy, Eq, Debug, Hash, PartialEq)]
pub struct FromStrError;

/// An event that is malformed or otherwise invalid: the outcome of a failed
/// decode, split into the two failure classes of the two-phase decoder.
#[derive(Clone, Debug)]
pub enum InnerInvalidEvent {
    /// The input failed the structural phase: it was not valid JSON at all,
    /// or its shape did not match the record's schema. Holds the parsed
    /// value when the text was at least valid JSON.
    Deserialization {
        /// The parsed JSON value, where the text itself was valid JSON.
        json: Option<JsonValue>,
        /// The parser's or the schema check's message.
        message: String,
    },
    /// The input parsed structurally but failed semantic validation. The
    /// parsed value is kept for inspection.
    Validation {
        /// The parsed JSON value that failed validation.
        json: JsonValue,
        /// A message describing why the event was invalid.
        message: String,
    },
}

/// An event that is malformed or otherwise invalid.
///
/// When decoding fails, this type tells the two failure classes apart and
/// retains the received JSON so the caller never loses the payload:
/// [`InvalidEvent::json`] yields the value behind a structural failure,
/// [`InvalidEvent::raw_data`] the value behind a validation failure.
#[derive(Clone, Debug)]
pub struct InvalidEvent(pub InnerInvalidEvent);

impl InvalidEvent {
    /// Whether this is a semantic (validation) failure.
    pub open spec fn is_validation(self) -> bool {
        self.0 is Validation
    }

    /// The failure message.
    pub open spec fn spec_message(self) -> Seq<char> {
        match self.0 {
            InnerInvalidEvent::Deserialization { message, .. } => message@,
            InnerInvalidEvent::Validation { message, .. } => message@,
        }
    }

    /// The JSON value the failure retains, if any.
    pub open spec fn spec_json(self) -> Option<JsonValue> {
        match self.0 {
            InnerInvalidEvent::Deserialization { json, .. } => json,
            InnerInvalidEvent::Validation { json, .. } => Some(json),
        }
    }

    /// A message describing why the event is invalid.
    pub fn message(&self) -> (r: String)
        ensures
            r@ == self.spec_message(),
    {
        match &self.0 {
            InnerInvalidEvent::Deserialization { message, .. } => message.clone(),
            InnerInvalidEvent::Validation { message, .. } => message.clone(),
        }
    }

    /// The raw event data, if structural decoding succeeded but validation
    /// failed.
    pub fn raw_data(&self) -> (r: Option<&JsonValue>)
        ensures
            match r {
                Some(v) => self.is_validation() && self.spec_json() == Some(*v),
                None => !self.is_validation(),
            },
    {
        match &self.0 {
            InnerInvalidEvent::Validation { json, .. } => Some(json),
            _ => None,
        }
    }

    /// The parsed JSON value behind a structural failure, where the text was
    /// at least valid JSON.
    pub fn json(&self) -> (r: Option<&JsonValue>)
        ensures
            match r {
                Some(v) => !self.is_validation() && self.spec_json() == Some(*v),
                None => self.is_validation() || self.spec_json() is None,
            },
    {
        match &self.0 {
            InnerInvalidEvent::Deserialization { json: Some(json), .. } => Some(json),
            _ => None,
        }
    }
}

/// The result of decoding an event: either the validated value, or an
/// [`InvalidEvent`] holding the failure and the received data.
#[derive(Clone, Debug)]
pub enum EventResult<T> {
    /// The event decoded and validated successfully.
    Valid(T),
    /// The event failed structural decoding or validation.
    Invalid(InvalidEvent),
}

impl<T> EventResult<T> {
    /// Converts into the equivalent `std::result::Result`.
    pub fn into_result(self) -> (r: Result<T, InvalidEvent>)
        ensures
            match self {
                EventResult::Valid(t) => r matches Ok(v) && v == t,
                EventResult::Invalid(e) => r matches Err(d) && d == e,
            },
    {
        match self {
            EventResult::Valid(t) => Ok(t),
            EventResult::Invalid(invalid_event) => Err(invalid_event),
        }
    }
}

/// A basic event: the minimum to be an event at all.
pub trait Event: Sized {
    /// The type of this event's `content` field.
    type Content;

    /// The event's content.
    fn content(&self) -> &Self::Content;

    /// The type of the event.
    fn event_type(&self) -> EventType;
}

/// An event within the context of a room.
pub trait RoomEvent: Event {
    /// The unique identifier for the event.
    fn event_id(&self) -> &crate::ids::EventId;

    /// Timestamp (milliseconds since the UNIX epoch) on the originating
    /// homeserver when this event was sent.
    fn origin_server_ts(&self) -> u64;

    /// The unique identifier for the room associated with this event, where
    /// the context does not already determine it.
    fn room_id(&self) -> Option<&crate::ids::RoomId>;

    /// The unique identifier for the user who sent this event.
    fn sender(&self) -> &crate::ids::UserId;

    /// Additional key-value pairs not signed by the homeserver.
    fn unsigned(&self) -> Option<&JsonValue>;
}

/// An event that describes persistent state about a room.
pub trait StateEvent: RoomEvent {
    /// The previous content for this state key, if any.
    fn prev_content(&self) -> Option<&Self::Content>;

    /// A key that determines which piece of room state the event represents.
    fn state_key(&self) -> &str;
}

/// How far up the event hierarchy a known discriminant reaches: a basic
/// event, a room event, or a state event.
#[derive(Clone, Copy, Debug, PartialEq, Eq, Structural)]
pub enum EventKind {
    /// A basic event, valid outside any room.
    Basic,
    /// A room event that is not room state.
    Room,
    /// A room state event.
    State,
}

/// Used to default `bool` fields to `true` during decoding.
pub fn default_true() -> (r: bool)
    ensures
        r,
{
    true
}

/// Treats an absent, `null`, or empty-string field as "not present", keeps a
/// non-empty string, and rejects anything else. This is the usual reading of
/// advisory string fields: a record with an absent, null, or empty field is
/// the same as one without it.
pub fn empty_string_as_none(v: Option<&JsonValue>) -> (r: Result<Option<String>, ()>)
    ensures
        match r {
            Ok(None) => v is None || (v matches Some(w) && (w is Null || (w is Str
                && w->Str_0@.len() == 0))),
            Ok(Some(s)) => (v matches Some(w) && w is Str && w->Str_0@ == s@) && s@.len() > 0,
            Err(_) => !(v is None || (v matches Some(w2) && (w2 is Null || w2 is Str))),
        },
{
    match v {
        None => Ok(None),
        Some(JsonValue::Null) => Ok(None),
        Some(JsonValue::Str(s)) => {
            if s.as_str().is_empty() {
                Ok(None)
            } else {
                Ok(Some(s.clone()))
            }
        },
        Some(_) => Err(()),
    }
}

/// The type of an event: the discriminant registry.
///
/// Every string the protocol reserves maps to one variant; any other
/// string becomes `Custom`, preserving the string verbatim. The match is
/// exact: no case folding or trimming is performed.
#[derive(Clone, Debug, Eq, Hash, PartialEq)]
pub enum EventType {
    /// m.call.answer
    CallAnswer,
    /// m.call.candidates
    CallCandidates,
    /// m.call.hangup
    CallHangup,
    /// m.call.invite
    CallInvite,
    /// m.direct
    Direct,
    /// m.dummy
    Dummy,
    /// m.forwarded_room_key
    ForwardedRoomKey,
    /// m.fully_read
    FullyRead,
    /// m.key.verification.accept
    KeyVerificationAccept,
    /// m.key.verification.cancel
    KeyVerificationCancel,
    /// m.key.verification.key
    KeyVerificationKey,
    /// m.key.verification.mac
    KeyVerificationMac,
    /// m.key.verification.request
    KeyVerificationRequest,
    /// m.key.verification.start
    KeyVerificationStart,
    /// m.ignored_user_list
    IgnoredUserList,
    /// m.presence
    Presence,
    /// m.push_rules
    PushRules,
    /// m.receipt
    Receipt,
    /// m.room.aliases
    RoomAliases,
    /// m.room.avatar
    RoomAvatar,
    /// m.room.canonical_alias
    RoomCanonicalAlias,
    /// m.room.create
    RoomCreate,
    /// m.room.encrypted
    RoomEncrypted,
    /// m.room.encryption
    RoomEncryption,
    /// m.room.guest_access
    RoomGuestAccess,
    /// m.room.history_visibility
    RoomHistoryVisibility,
    /// m.room.join_rules
    RoomJoinRules,
    /// m.room.member
    RoomMember,
    /// m.room.message
    RoomMessage,
    /// m.room.message.feedback
    RoomMessageFeedback,
    /// m.room.name
    RoomName,
    /// m.room.pinned_events
    RoomPinnedEvents,
    /// m.room.power_levels
    RoomPowerLevels,
    /// m.room.redaction
    RoomRedaction,
    /// m.room.server_acl
    RoomServerAcl,
    /// m.room.third_party_invite
    RoomThirdPartyInvite,
    /// m.room.tombstone
    RoomTombstone,
    /// m.room.topic
    RoomTopic,
    /// m.room_key
    RoomKey,
    /// m.room_key_request
    RoomKeyRequest,
    /// m.sticker
    Sticker,
    /// m.tag
    Tag,
    /// m.typing
    Typing,
    /// Any event type that is not part of the specification.
    Custom(String),
}

/// Whether the string is one of the protocol-reserved event types.
pub open spec fn is_known_event_type(s: Seq<char>) -> bool {
    ||| s == "m.call.answer"@
    ||| s == "m.call.candidates"@
    ||| s == "m.call.hangup"@
    ||| s == "m.call.invite"@
    ||| s == "m.direct"@
    ||| s == "m.dummy"@
    ||| s == "m.forwarded_room_key"@
    ||| s == "m.fully_read"@
    ||| s == "m.key.verification.accept"@
    ||| s == "m.key.verification.cancel"@
    ||| s == "m.key.verification.key"@
    ||| s == "m.key.verification.mac"@
    ||| s == "m.key.verification.request"@
    ||| s == "m.key.verification.start"@
    ||| s == "m.ignored_user_list"@
    ||| s == "m.presence"@
    ||| s == "m.push_rules"@
    ||| s == "m.receipt"@
    ||| s == "m.room.aliases"@
    ||| s == "m.room.avatar"@
    ||| s == "m.room.canonical_alias"@
    ||| s == "m.room.create"@
    ||| s == "m.room.encrypted"@
    ||| s == "m.room.encryption"@
    ||| s == "m.room.guest_access"@
    ||| s == "m.room.history_visibility"@
    ||| s == "m.room.join_rules"@
    ||| s == "m.room.member"@
    ||| s == "m.room.message"@
    ||| s == "m.room.message.feedback"@
    ||| s == "m.room.name"@
    ||| s == "m.room.pinned_events"@
    ||| s == "m.room.power_levels"@
    ||| s == "m.room.redaction"@
    ||| s == "m.room.server_acl"@
    ||| s == "m.room.third_party_invite"@
    ||| s == "m.room.tombstone"@
    ||| s == "m.room.topic"@
    ||| s == "m.room_key"@
    ||| s == "m.room_key_request"@
    ||| s == "m.sticker"@
    ||| s == "m.tag"@
    ||| s == "m.typing"@
}

impl EventType {
    /// The canonical wire string of this event type.
    pub open spec fn spec_str(self) -> Seq<char> {
        match self {
            EventType::CallAnswer => "m.call.answer"@,
            EventType::CallCandidates => "m.call.candidates"@,
            EventType::CallHangup => "m.call.hangup"@,
            EventType::CallInvite => "m.call.invite"@,
            EventType::Direct => "m.direct"@,
            EventType::Dummy => "m.dummy"@,
            EventType::ForwardedRoomKey => "m.forwarded_room_key"@,
            EventType::FullyRead => "m.fully_read"@,
            EventType::KeyVerificationAccept => "m.key.verification.accept"@,
            EventType::KeyVerificationCancel => "m.key.verification.cancel"@,
            EventType::KeyVerificationKey => "m.key.verification.key"@,
            EventType::KeyVerificationMac => "m.key.verification.mac"@,
            EventType::KeyVerificationRequest => "m.key.verification.request"@,
            EventType::KeyVerificationStart => "m.key.verification.start"@,
            EventType::IgnoredUserList => "m.ignored_user_list"@,
            EventType::Presence => "m.presence"@,
            EventType::PushRules => "m.push_rules"@,
            EventType::Receipt => "m.receipt"@,
            EventType::RoomAliases => "m.room.aliases"@,
            EventType::RoomAvatar => "m.room.avatar"@,
            EventType::RoomCanonicalAlias => "m.room.canonical_alias"@,
            EventType::RoomCreate => "m.room.create"@,
            EventType::RoomEncrypted => "m.room.encrypted"@,
            EventType::RoomEncryption => "m.room.encryption"@,
            EventType::RoomGuestAccess => "m.room.guest_access"@,
            EventType::RoomHistoryVisibility => "m.room.history_visibility"@,
            EventType::RoomJoinRules => "m.room.join_rules"@,
            EventType::RoomMember => "m.room.member"@,
            EventType::RoomMessage => "m.room.message"@,
            EventType::RoomMessageFeedback => "m.room.message.feedback"@,
            EventType::RoomName => "m.room.name"@,
            EventType::RoomPinnedEvents => "m.room.pinned_events"@,
            EventType::RoomPowerLevels => "m.room.power_levels"@,
            EventType::RoomRedaction => "m.room.redaction"@,
            EventType::RoomServerAcl => "m.room.server_acl"@,
            EventType::RoomThirdPartyInvite => "m.room.third_party_invite"@,
            EventType::RoomTombstone => "m.room.tombstone"@,
            EventType::RoomTopic => "m.room.topic"@,
            EventType::RoomKey => "m.room_key"@,
            EventType::RoomKeyRequest => "m.room_key_request"@,
            EventType::Sticker => "m.sticker"@,
            EventType::Tag => "m.tag"@,
            EventType::Typing => "m.typing"@,
            EventType::Custom(c) => c@,
        }
    }

    /// Whether this value is what parsing the string `s` yields: known
    /// strings map to their variant, anything else to `Custom` holding the
    /// string verbatim.
    pub open spec fn is_for(self, s: Seq<char>) -> bool {
        match self {
            EventType::CallAnswer => s == "m.call.answer"@,
            EventType::CallCandidates => s == "m.call.candidates"@,
            EventType::CallHangup => s == "m.call.hangup"@,
            EventType::CallInvite => s == "m.call.invite"@,
            EventType::Direct => s == "m.direct"@,
            EventType::Dummy => s == "m.dummy"@,
            EventType::ForwardedRoomKey => s == "m.forwarded_room_key"@,
            EventType::FullyRead => s == "m.fully_read"@,
            EventType::KeyVerificationAccept => s == "m.key.verification.accept"@,
            EventType::KeyVerificationCancel => s == "m.key.verification.cancel"@,
            EventType::KeyVerificationKey => s == "m.key.verification.key"@,
            EventType::KeyVerificationMac => s == "m.key.verification.mac"@,
            EventType::KeyVerificationRequest => s == "m.key.verification.request"@,
            EventType::KeyVerificationStart => s == "m.key.verification.start"@,
            EventType::IgnoredUserList => s == "m.ignored_user_list"@,
            EventType::Presence => s == "m.presence"@,
            EventType::PushRules => s == "m.push_rules"@,
            EventType::Receipt => s == "m.receipt"@,
            EventType::RoomAliases => s == "m.room.aliases"@,
            EventType::RoomAvatar => s == "m.room.avatar"@,
            EventType::RoomCanonicalAlias => s == "m.room.canonical_alias"@,
            EventType::RoomCreate => s == "m.room.create"@,
            EventType::RoomEncrypted => s == "m.room.encrypted"@,
            EventType::RoomEncryption => s == "m.room.encryption"@,
            EventType::RoomGuestAccess => s == "m.room.guest_access"@,
            EventType::RoomHistoryVisibility => s == "m.room.history_visibility"@,
            EventType::RoomJoinRules => s == "m.room.join_rules"@,
            EventType::RoomMember => s == "m.room.member"@,
            EventType::RoomMessage => s == "m.room.message"@,
            EventType::RoomMessageFeedback => s == "m.room.message.feedback"@,
            EventType::RoomName => s == "m.room.name"@,
            EventType::RoomPinnedEvents => s == "m.room.pinned_events"@,
            EventType::RoomPowerLevels => s == "m.room.power_levels"@,
            EventType::RoomRedaction => s == "m.room.redaction"@,
            EventType::RoomServerAcl => s == "m.room.server_acl"@,
            EventType::RoomThirdPartyInvite => s == "m.room.third_party_invite"@,
            EventType::RoomTombstone => s == "m.room.tombstone"@,
            EventType::RoomTopic => s == "m.room.topic"@,
            EventType::RoomKey => s == "m.room_key"@,
            EventType::RoomKeyRequest => s == "m.room_key_request"@,
            EventType::Sticker => s == "m.sticker"@,
            EventType::Tag => s == "m.tag"@,
            EventType::Typing => s == "m.typing"@,
            EventType::Custom(c) => c@ == s && !is_known_event_type(s),
        }
    }

    /// Well-formed: `Custom` never shadows a reserved string.
    pub open spec fn wf(self) -> bool {
        match self {
            EventType::Custom(c) => !is_known_event_type(c@),
            _ => true,
        }
    }

    /// The event kind a known discriminant reaches, or `None` for an
    /// extension type, whose kind is decided by the shape of its JSON.
    pub open spec fn spec_kind(self) -> Option<EventKind> {
        match self {
            EventType::CallAnswer => Some(EventKind::Room),
            EventType::CallCandidates => Some(EventKind::Room),
            EventType::CallHangup => Some(EventKind::Room),
            EventType::CallInvite => Some(EventKind::Room),
            EventType::Direct => Some(EventKind::Basic),
            EventType::Dummy => Some(EventKind::Basic),
            EventType::ForwardedRoomKey => Some(EventKind::Basic),
            EventType::FullyRead => Some(EventKind::Basic),
            EventType::KeyVerificationAccept => Some(EventKind::Basic),
            EventType::KeyVerificationCancel => Some(EventKind::Basic),
            EventType::KeyVerificationKey => Some(EventKind::Basic),
            EventType::KeyVerificationMac => Some(EventKind::Basic),
            EventType::KeyVerificationRequest => Some(EventKind::Basic),
            EventType::KeyVerificationStart => Some(EventKind::Basic),
            EventType::IgnoredUserList => Some(EventKind::Basic),
            EventType::Presence => Some(EventKind::Basic),
            EventType::PushRules => Some(EventKind::Basic),
            EventType::Receipt => Some(EventKind::Basic),
            EventType::RoomAliases => Some(EventKind::State),
            EventType::RoomAvatar => Some(EventKind::State),
            EventType::RoomCanonicalAlias => Some(EventKind::State),
            EventType::RoomCreate => Some(EventKind::State),
            EventType::RoomEncrypted => Some(EventKind::Room),
            EventType::RoomEncryption => Some(EventKind::State),
            EventType::RoomGuestAccess => Some(EventKind::State),
            EventType::RoomHistoryVisibility => Some(EventKind::State),
            EventType::RoomJoinRules => Some(EventKind::State),
            EventType::RoomMember => Some(EventKind::State),
            EventType::RoomMessage => Some(EventKind::Room),
            EventType::RoomMessageFeedback => Some(EventKind::Room),
            EventType::RoomName => Some(EventKind::State),
            EventType::RoomPinnedEvents => Some(EventKind::State),
            EventType::RoomPowerLevels => Some(EventKind::State),
            EventType::RoomRedaction => Some(EventKind::Room),
            EventType::RoomServerAcl => Some(EventKind::State),
            EventType::RoomThirdPartyInvite => Some(EventKind::State),
            EventType::RoomTombstone => Some(EventKind::State),
            EventType::RoomTopic => Some(EventKind::State),
            EventType::RoomKey => Some(EventKind::Basic),
            EventType::RoomKeyRequest => Some(EventKind::Basic),
            EventType::Sticker => Some(EventKind::Room),
            EventType::Tag => Some(EventKind::Basic),
            EventType::Typing => Some(EventKind::Basic),
            EventType::Custom(_) => None,
        }
    }

    /// Parses a wire string into its event type; unknown strings land in
    /// `Custom` verbatim.
    pub fn from_str(s: &str) -> (t: EventType)
        ensures
            t.is_for(s@),
            t.wf(),
    {
        if str_eq(s, "m.call.answer") {
            EventType::CallAnswer
        } else if str_eq(s, "m.call.candidates") {
            EventType::CallCandidates
        } else if str_eq(s, "m.call.hangup") {
            EventType::CallHangup
        } else if str_eq(s, "m.call.invite") {
            EventType::CallInvite
        } else if str_eq(s, "m.direct") {
            EventType::Direct
        } else if str_eq(s, "m.dummy") {
            EventType::Dummy
        } else if str_eq(s, "m.forwarded_room_key") {
            EventType::ForwardedRoomKey
        } else if str_eq(s, "m.fully_read") {
            EventType::FullyRead
        } else if str_eq(s, "m.key.verification.accept") {
            EventType::KeyVerificationAccept
        } else if str_eq(s, "m.key.verification.cancel") {
            EventType::KeyVerificationCancel
        } else if str_eq(s, "m.key.verification.key") {
            EventType::KeyVerificationKey
        } else if str_eq(s, "m.key.verification.mac") {
            EventType::KeyVerificationMac
        } else if str_eq(s, "m.key.verification.request") {
            EventType::KeyVerificationRequest
        } else if str_eq(s, "m.key.verification.start") {
            EventType::KeyVerificationStart
        } else if str_eq(s, "m.ignored_user_list") {
            EventType::IgnoredUserList
        } else if str_eq(s, "m.presence") {
            EventType::Presence
        } else if str_eq(s, "m.push_rules") {
            EventType::PushRules
        } else if str_eq(s, "m.receipt") {
            EventType::Receipt
        } else if str_eq(s, "m.room.aliases") {
            EventType::RoomAliases
        } else if str_eq(s, "m.room.avatar") {
            EventType::RoomAvatar
        } else if str_eq(s, "m.room.canonical_alias") {
            EventType::RoomCanonicalAlias
        } else if str_eq(s, "m.room.create") {
            EventType::RoomCreate
        } else if str_eq(s, "m.room.encrypted") {
            EventType::RoomEncrypted
        } else if str_eq(s, "m.room.encryption") {
            EventType::RoomEncryption
        } else if str_eq(s, "m.room.guest_access") {
            EventType::RoomGuestAccess
        } else if str_eq(s, "m.room.history_visibility") {
            EventType::RoomHistoryVisibility
        } else if str_eq(s, "m.room.join_rules") {
            EventType::RoomJoinRules
        } else if str_eq(s, "m.room.member") {
            EventType::RoomMember
        } else if str_eq(s, "m.room.message") {
            EventType::RoomMessage
        } else if str_eq(s, "m.room.message.feedback") {
            EventType::RoomMessageFeedback
        } else if str_eq(s, "m.room.name") {
            EventType::RoomName
        } else if str_eq(s, "m.room.pinned_events") {
            EventType::RoomPinnedEvents
        } else if str_eq(s, "m.room.power_levels") {
            EventType::RoomPowerLevels
        } else if str_eq(s, "m.room.redaction") {
            EventType::RoomRedaction
        } else if str_eq(s, "m.room.server_acl") {
            EventType::RoomServerAcl
        } else if str_eq(s, "m.room.third_party_invite") {
            EventType::RoomThirdPartyInvite
        } else if str_eq(s, "m.room.tombstone") {
            EventType::RoomTombstone
        } else if str_eq(s, "m.room.topic") {
            EventType::RoomTopic
        } else if str_eq(s, "m.room_key") {
            EventType::RoomKey
        } else if str_eq(s, "m.room_key_request") {
            EventType::RoomKeyRequest
        } else if str_eq(s, "m.sticker") {
            EventType::Sticker
        } else if str_eq(s, "m.tag") {
            EventType::Tag
        } else if str_eq(s, "m.typing") {
            EventType::Typing
        } else {
            EventType::Custom(s.to_owned())
        }
    }

    /// The canonical wire string of this event type.
    pub fn as_str(&self) -> (r: &str)
        ensures
            r@ == self.spec_str(),
    {
        match self {
            EventType::CallAnswer => "m.call.answer",
            EventType::CallCandidates => "m.call.candidates",
            EventType::CallHangup => "m.call.hangup",
            EventType::CallInvite => "m.call.invite",
            EventType::Direct => "m.direct",
            EventType::Dummy => "m.dummy",
            EventType::ForwardedRoomKey => "m.forwarded_room_key",
            EventType::FullyRead => "m.fully_read",
            EventType::KeyVerificationAccept => "m.key.verification.accept",
            EventType::KeyVerificationCancel => "m.key.verification.cancel",
            EventType::KeyVerificationKey => "m.key.verification.key",
            EventType::KeyVerificationMac => "m.key.verification.mac",
            EventType::KeyVerificationRequest => "m.key.verification.request",
            EventType::KeyVerificationStart => "m.key.verification.start",
            EventType::IgnoredUserList => "m.ignored_user_list",
            EventType::Presence => "m.presence",
            EventType::PushRules => "m.push_rules",
            EventType::Receipt => "m.receipt",
            EventType::RoomAliases => "m.room.aliases",
            EventType::RoomAvatar => "m.room.avatar",
            EventType::RoomCanonicalAlias => "m.room.canonical_alias",
            EventType::RoomCreate => "m.room.create",
            EventType::RoomEncrypted => "m.room.encrypted",
            EventType::RoomEncryption => "m.room.encryption",
            EventType::RoomGuestAccess => "m.room.guest_access",
            EventType::RoomHistoryVisibility => "m.room.history_visibility",
            EventType::RoomJoinRules => "m.room.join_rules",
            EventType::RoomMember => "m.room.member",
            EventType::RoomMessage => "m.room.message",
            EventType::RoomMessageFeedback => "m.room.message.feedback",
            EventType::RoomName => "m.room.name",
            EventType::RoomPinnedEvents => "m.room.pinned_events",
            EventType::RoomPowerLevels => "m.room.power_levels",
            EventType::RoomRedaction => "m.room.redaction",
            EventType::RoomServerAcl => "m.room.server_acl",
            EventType::RoomThirdPartyInvite => "m.room.third_party_invite",
            EventType::RoomTombstone => "m.room.tombstone",
            EventType::RoomTopic => "m.room.topic",
            EventType::RoomKey => "m.room_key",
            EventType::RoomKeyRequest => "m.room_key_request",
            EventType::Sticker => "m.sticker",
            EventType::Tag => "m.tag",
            EventType::Typing => "m.typing",
            EventType::Custom(c) => c.as_str(),
        }
    }

    /// The event kind of a known discriminant, or `None` for `Custom`.
    pub fn kind(&self) -> (r: Option<EventKind>)
        ensures
            r == self.spec_kind(),
    {
        match self {
            EventType::CallAnswer => Some(EventKind::Room),
            EventType::CallCandidates => Some(EventKind::Room),
            EventType::CallHangup => Some(EventKind::Room),
            EventType::CallInvite => Some(EventKind::Room),
            EventType::Direct => Some(EventKind::Basic),
            EventType::Dummy => Some(EventKind::Basic),
            EventType::ForwardedRoomKey => Some(EventKind::Basic),
            EventType::FullyRead => Some(EventKind::Basic),
            EventType::KeyVerificationAccept => Some(EventKind::Basic),
            EventType::KeyVerificationCancel => Some(EventKind::Basic),
            EventType::KeyVerificationKey => Some(EventKind::Basic),
            EventType::KeyVerificationMac => Some(EventKind::Basic),
            EventType::KeyVerificationRequest => Some(EventKind::Basic),
            EventType::KeyVerificationStart => Some(EventKind::Basic),
            EventType::IgnoredUserList => Some(EventKind::Basic),
            EventType::Presence => Some(EventKind::Basic),
            EventType::PushRules => Some(EventKind::Basic),
            EventType::Receipt => Some(EventKind::Basic),
            EventType::RoomAliases => Some(EventKind::State),
            EventType::RoomAvatar => Some(EventKind::State),
            EventType::RoomCanonicalAlias => Some(EventKind::State),
            EventType::RoomCreate => Some(EventKind::State),
            EventType::RoomEncrypted => Some(EventKind::Room),
            EventType::RoomEncryption => Some(EventKind::State),
            EventType::RoomGuestAccess => Some(EventKind::State),
            EventType::RoomHistoryVisibility => Some(EventKind::State),
            EventType::RoomJoinRules => Some(EventKind::State),
            EventType::RoomMember => Some(EventKind::State),
            EventType::RoomMessage => Some(EventKind::Room),
            EventType::RoomMessageFeedback => Some(EventKind::Room),
            EventType::RoomName => Some(EventKind::State),
            EventType::RoomPinnedEvents => Some(EventKind::State),
            EventType::RoomPowerLevels => Some(EventKind::State),
            EventType::RoomRedaction => Some(EventKind::Room),
            EventType::RoomServerAcl => Some(EventKind::State),
            EventType::RoomThirdPartyInvite => Some(EventKind::State),
            EventType::RoomTombstone => Some(EventKind::State),
            EventType::RoomTopic => Some(EventKind::State),
            EventType::RoomKey => Some(EventKind::Basic),
            EventType::RoomKeyRequest => Some(EventKind::Basic),
            EventType::Sticker => Some(EventKind::Room),
            EventType::Tag => Some(EventKind::Basic),
            EventType::Typing => Some(EventKind::Basic),
            EventType::Custom(_) => None,
        }
    }

    /// Encodes as a JSON string holding the canonical wire string.
    pub fn to_json(&self) -> (r: JsonValue)
        ensures
            r matches JsonValue::Str(c) && c@ == self.spec_str(),
    {
        JsonValue::Str(self.as_str().to_owned())
    }

    /// The JSON text of the encoded event type.
    pub fn to_json_string(&self) -> (r: String)
        ensures
            exists|t: JsonValue| (#[trigger] emitted(t)) == r@ && t is Str && t->Str_0@
                == self.spec_str(),
    {
        let t = self.to_json();
        emit_json(&t)
    }

    /// Decodes from a JSON string value; anything but a string is rejected.
    pub fn from_json(v: &JsonValue) -> (r: Result<EventType, ()>)
        ensures
            r is Ok <==> v is Str,
            r matches Ok(t) ==> t.is_for(v->Str_0@) && t.wf(),
    {
        match v {
            JsonValue::Str(s) => Ok(EventType::from_str(s.as_str())),
            _ => Err(()),
        }
    }

    /// Decodes from JSON text holding a string.
    pub fn from_json_str(s: &str) -> (r: Result<EventType, ()>)
        ensures
            match crate::wire::parsed_json(s@) {
                None => r is Err,
                Some(v) => (r is Ok <==> v is Str) && (r matches Ok(t) ==> t.is_for(v->Str_0@)
                    && t.wf()),
            },
    {
        match crate::wire::parse_json(s) {
            Ok(v) => EventType::from_json(&v),
            Err(_) => Err(()),
        }
    }
}

/// Parsing a wire string and printing the result gives the string back:
/// the registry loses nothing, known or unknown.
pub proof fn lemma_event_type_parse_print(t: EventType, s: Seq<char>)
    requires
        t.is_for(s),
    ensures
        t.spec_str() == s,
{
}

/// Printing a well-formed event type and parsing the result gives the value
/// back: the registry is bijective on its canonical strings.
pub proof fn lemma_event_type_print_parse(t: EventType)
    requires
        t.wf(),
    ensures
        t.is_for(t.spec_str()),
{
}

/// The two reserved algorithm strings differ.
pub proof fn lemma_algorithms_distinct()
    ensures
        "m.olm.v1.curve25519-aes-sha2"@ != "m.megolm.v1.aes-sha2"@,
{
    reveal_strlit("m.olm.v1.curve25519-aes-sha2");
    reveal_strlit("m.megolm.v1.aes-sha2");
    assert(("m.olm.v1.curve25519-aes-sha2"@).len() == 28);
    assert(("m.megolm.v1.aes-sha2"@).len() == 20);
}

/// One wire string parses to one event type: two values that both stand
/// for the same string are equal, unless both are extension types holding
/// equal strings.
pub proof fn lemma_event_type_unique(s: Seq<char>, t1: EventType, t2: EventType)
    requires
        t1.is_for(s),
        t2.is_for(s),
    ensures
        t1 == t2 || (t1 is Custom && t2 is Custom),
{
    reveal_strlit("m.call.answer");
    reveal_strlit("m.call.candidates");
    reveal_strlit("m.call.hangup");
    reveal_strlit("m.call.invite");
    reveal_strlit("m.direct");
    reveal_strlit("m.dummy");
    reveal_strlit("m.forwarded_room_key");
    reveal_strlit("m.fully_read");
    reveal_strlit("m.key.verification.accept");
    reveal_strlit("m.key.verification.cancel");
    reveal_strlit("m.key.verification.key");
    reveal_strlit("m.key.verification.mac");
    reveal_strlit("m.key.verification.request");
    reveal_strlit("m.key.verification.start");
    reveal_strlit("m.ignored_user_list");
    reveal_strlit("m.presence");
    reveal_strlit("m.push_rules");
    reveal_strlit("m.receipt");
    reveal_strlit("m.room.aliases");
    reveal_strlit("m.room.avatar");
    reveal_strlit("m.room.canonical_alias");
    reveal_strlit("m.room.create");
    reveal_strlit("m.room.encrypted");
    reveal_strlit("m.room.encryption");
    reveal_strlit("m.room.guest_access");
    reveal_strlit("m.room.history_visibility");
    reveal_strlit("m.room.join_rules");
    reveal_strlit("m.room.member");
    reveal_strlit("m.room.message");
    reveal_strlit("m.room.message.feedback");
    reveal_strlit("m.room.name");
    reveal_strlit("m.room.pinned_events");
    reveal_strlit("m.room.power_levels");
    reveal_strlit("m.room.redaction");
    reveal_strlit("m.room.server_acl");
    reveal_strlit("m.room.third_party_invite");
    reveal_strlit("m.room.tombstone");
    reveal_strlit("m.room.topic");
    reveal_strlit("m.room_key");
    reveal_strlit("m.room_key_request");
    reveal_strlit("m.sticker");
    reveal_strlit("m.tag");
    reveal_strlit("m.typing");
    assert(("m.call.answer"@).len() == 13);
    assert(("m.call.candidates"@).len() == 17);
    assert(("m.call.hangup"@).len() == 13);
    assert(("m.call.invite"@).len() == 13);
    assert(("m.direct"@).len() == 8);
    assert(("m.dummy"@).len() == 7);
    assert(("m.forwarded_room_key"@).len() == 20);
    assert(("m.fully_read"@).len() == 12);
    assert(("m.key.verification.accept"@).len() == 25);
    assert(("m.key.verification.cancel"@).len() == 25);
    assert(("m.key.verification.key"@).len() == 22);
    assert(("m.key.verification.mac"@).len() == 22);
    assert(("m.key.verification.request"@).len() == 26);
    assert(("m.key.verification.start"@).len() == 24);
    assert(("m.ignored_user_list"@).len() == 19);
    assert(("m.presence"@).len() == 10);
    assert(("m.push_rules"@).len() == 12);
    assert(("m.receipt"@).len() == 9);
    assert(("m.room.aliases"@).len() == 14);
    assert(("m.room.avatar"@).len() == 13);
    assert(("m.room.canonical_alias"@).len() == 22);
    assert(("m.room.create"@).len() == 13);
    assert(("m.room.encrypted"@).len() == 16);
    assert(("m.room.encryption"@).len() == 17);
    assert(("m.room.guest_access"@).len() == 19);
    assert(("m.room.history_visibility"@).len() == 25);
    assert(("m.room.join_rules"@).len() == 17);
    assert(("m.room.member"@).len() == 13);
    assert(("m.room.message"@).len() == 14);
    assert(("m.room.message.feedback"@).len() == 23);
    assert(("m.room.name"@).len() == 11);
    assert(("m.room.pinned_events"@).len() == 20);
    assert(("m.room.power_levels"@).len() == 19);
    assert(("m.room.redaction"@).len() == 16);
    assert(("m.room.server_acl"@).len() == 17);
    assert(("m.room.third_party_invite"@).len() == 25);
    assert(("m.room.tombstone"@).len() == 16);
    assert(("m.room.topic"@).len() == 12);
    assert(("m.room_key"@).len() == 10);
    assert(("m.room_key_request"@).len() == 18);
    assert(("m.sticker"@).len() == 9);
    assert(("m.tag"@).len() == 5);
    assert(("m.typing"@).len() == 8);
    assert(("m.call.answer"@)[7] != ("m.call.hangup"@)[7]);
    assert(("m.call.answer"@)[7] != ("m.call.invite"@)[7]);
    assert(("m.call.answer"@)[2] != ("m.room.avatar"@)[2]);
    assert(("m.call.answer"@)[2] != ("m.room.create"@)[2]);
    assert(("m.call.answer"@)[2] != ("m.room.member"@)[2]);
    assert(("m.call.candidates"@)[2] != ("m.room.encryption"@)[2]);
    assert(("m.call.candidates"@)[2] != ("m.room.join_rules"@)[2]);
    assert(("m.call.candidates"@)[2] != ("m.room.server_acl"@)[2]);
    assert(("m.call.hangup"@)[7] != ("m.call.invite"@)[7]);
    assert(("m.call.hangup"@)[2] != ("m.room.avatar"@)[2]);
    assert(("m.call.hangup"@)[2] != ("m.room.create"@)[2]);
    assert(("m.call.hangup"@)[2] != ("m.room.member"@)[2]);
    assert(("m.call.invite"@)[2] != ("m.room.avatar"@)[2]);
    assert(("m.call.invite"@)[2] != ("m.room.create"@)[2]);
    assert(("m.call.invite"@)[2] != ("m.room.member"@)[2]);
    assert(("m.direct"@)[2] != ("m.typing"@)[2]);
    assert(("m.forwarded_room_key"@)[2] != ("m.room.pinned_events"@)[2]);
    assert(("m.fully_read"@)[2] != ("m.push_rules"@)[2]);
    assert(("m.fully_read"@)[2] != ("m.room.topic"@)[2]);
    assert(("m.key.verification.accept"@)[19] != ("m.key.verification.cancel"@)[19]);
    assert(("m.key.verification.accept"@)[2] != ("m.room.history_visibility"@)[2]);
    assert(("m.key.verification.accept"@)[2] != ("m.room.third_party_invite"@)[2]);
    assert(("m.key.verification.cancel"@)[2] != ("m.room.history_visibility"@)[2]);
    assert(("m.key.verification.cancel"@)[2] != ("m.room.third_party_invite"@)[2]);
    assert(("m.key.verification.key"@)[19] != ("m.key.verification.mac"@)[19]);
    assert(("m.key.verification.key"@)[2] != ("m.room.canonical_alias"@)[2]);
    assert(("m.key.verification.mac"@)[2] != ("m.room.canonical_alias"@)[2]);
    assert(("m.ignored_user_list"@)[2] != ("m.room.guest_access"@)[2]);
    assert(("m.ignored_user_list"@)[2] != ("m.room.power_levels"@)[2]);
    assert(("m.presence"@)[2] != ("m.room_key"@)[2]);
    assert(("m.push_rules"@)[2] != ("m.room.topic"@)[2]);
    assert(("m.receipt"@)[2] != ("m.sticker"@)[2]);
    assert(("m.room.aliases"@)[7] != ("m.room.message"@)[7]);
    assert(("m.room.avatar"@)[7] != ("m.room.create"@)[7]);
    assert(("m.room.avatar"@)[7] != ("m.room.member"@)[7]);
    assert(("m.room.create"@)[7] != ("m.room.member"@)[7]);
    assert(("m.room.encrypted"@)[7] != ("m.room.redaction"@)[7]);
    assert(("m.room.encrypted"@)[7] != ("m.room.tombstone"@)[7]);
    assert(("m.room.encryption"@)[7] != ("m.room.join_rules"@)[7]);
    assert(("m.room.encryption"@)[7] != ("m.room.server_acl"@)[7]);
    assert(("m.room.guest_access"@)[7] != ("m.room.power_levels"@)[7]);
    assert(("m.room.history_visibility"@)[7] != ("m.room.third_party_invite"@)[7]);
    assert(("m.room.join_rules"@)[7] != ("m.room.server_acl"@)[7]);
    assert(("m.room.redaction"@)[7] != ("m.room.tombstone"@)[7]);
}

/// An encryption algorithm to be used to encrypt messages sent to a room.
///
/// The registry mirrors `EventType`: two reserved strings, everything else
/// preserved verbatim in `Custom`.
#[derive(Clone, Debug, PartialEq)]
pub enum Algorithm {
    /// Olm version 1 using Curve25519, AES-256, and SHA-256.
    OlmV1Curve25519AesSha2,
    /// Megolm version 1 using AES-256 and SHA-256.
    MegolmV1AesSha2,
    /// Any algorithm that is not part of the specification.
    Custom(String),
}

/// Whether the string is one of the protocol-reserved algorithms.
pub open spec fn is_known_algorithm(s: Seq<char>) -> bool {
    s == "m.olm.v1.curve25519-aes-sha2"@ || s == "m.megolm.v1.aes-sha2"@
}

impl Algorithm {
    /// The canonical wire string of this algorithm.
    pub open spec fn spec_str(self) -> Seq<char> {
        match self {
            Algorithm::OlmV1Curve25519AesSha2 => "m.olm.v1.curve25519-aes-sha2"@,
            Algorithm::MegolmV1AesSha2 => "m.megolm.v1.aes-sha2"@,
            Algorithm::Custom(c) => c@,
        }
    }

    /// Whether this value is what parsing the string `s` yields.
    pub open spec fn is_for(self, s: Seq<char>) -> bool {
        match self {
            Algorithm::OlmV1Curve25519AesSha2 => s == "m.olm.v1.curve25519-aes-sha2"@,
            Algorithm::MegolmV1AesSha2 => s == "m.megolm.v1.aes-sha2"@,
            Algorithm::Custom(c) => c@ == s && !is_known_algorithm(s),
        }
    }

    /// Well-formed: `Custom` never shadows a reserved string.
    pub open spec fn wf(self) -> bool {
        match self {
            Algorithm::Custom(c) => !is_known_algorithm(c@),
            _ => true,
        }
    }

    /// Parses a wire string into its algorithm; unknown strings land in
    /// `Custom` verbatim.
    pub fn from_str(s: &str) -> (t: Algorithm)
        ensures
            t.is_for(s@),
            t.wf(),
    {
        if str_eq(s, "m.olm.v1.curve25519-aes-sha2") {
            Algorithm::OlmV1Curve25519AesSha2
        } else if str_eq(s, "m.megolm.v1.aes-sha2") {
            Algorithm::MegolmV1AesSha2
        } else {
            Algorithm::Custom(s.to_owned())
        }
    }

    /// The canonical wire string of this algorithm.
    pub fn as_str(&self) -> (r: &str)
        ensures
            r@ == self.spec_str(),
    {
        match self {
            Algorithm::OlmV1Curve25519AesSha2 => "m.olm.v1.curve25519-aes-sha2",
            Algorithm::MegolmV1AesSha2 => "m.megolm.v1.aes-sha2",
            Algorithm::Custom(c) => c.as_str(),
        }
    }

    /// Encodes as a JSON string holding the canonical wire string.
    pub fn to_json(&self) -> (r: JsonValue)
        ensures
            r matches JsonValue::Str(c) && c@ == self.spec_str(),
    {
        JsonValue::Str(self.as_str().to_owned())
    }

    /// The JSON text of the encoded algorithm.
    pub fn to_json_string(&self) -> (r: String)
        ensures
            exists|t: JsonValue| (#[trigger] emitted(t)) == r@ && t is Str && t->Str_0@
                == self.spec_str(),
    {
        let t = self.to_json();
        emit_json(&t)
    }

    /// Decodes from a JSON string value; anything but a string is rejected.
    pub fn from_json(v: &JsonValue) -> (r: Result<Algorithm, ()>)
        ensures
            r is Ok <==> v is Str,
            r matches Ok(t) ==> t.is_for(v->Str_0@) && t.wf(),
    {
        match v {
            JsonValue::Str(s) => Ok(Algorithm::from_str(s.as_str())),
            _ => Err(()),
        }
    }

    /// Decodes from JSON text holding a string.
    pub fn from_json_str(s: &str) -> (r: Result<Algorithm, ()>)
        ensures
            match crate::wire::parsed_json(s@) {
                None => r is Err,
                Some(v) => (r is Ok <==> v is Str) && (r matches Ok(t) ==> t.is_for(v->Str_0@)
                    && t.wf()),
            },
    {
        match crate::wire::parse_json(s) {
            Ok(v) => Algorithm::from_json(&v),
            Err(_) => Err(()),
        }
    }
}


} // verus!

