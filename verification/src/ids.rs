//! Identifier value types: syntax-checked string wrappers for users, events,
//! and rooms. The syntax checks themselves live in the `ruma_identifiers`
//! crate, reached through the trusted items of `wire`; a constructed
//! identifier always holds a string that passed its check.

use vstd::prelude::*;

use crate::InvalidInput;
use crate::wire::{check_event_id, check_room_id, check_user_id, event_id_valid, room_id_valid,
    user_id_valid};

verus! {

/// A user identifier, e.g. `@carl:example.com`.
#[derive(Debug, PartialEq, Eq, Hash)]
pub struct UserId {
    id: String,
}

impl UserId {
    /// The identifier string.
    pub closed spec fn spec_str(self) -> Seq<char> {
        self.id@
    }

    /// Every constructed identifier passed the syntax check.
    pub closed spec fn wf(self) -> bool {
        user_id_valid(self.id@)
    }

    /// Wraps a string, accepting it exactly when the syntax check does.
    pub fn try_from(s: &str) -> (r: Result<UserId, InvalidInput>)
        ensures
            r is Ok <==> user_id_valid(s@),
            r matches Ok(u) ==> u.spec_str() == s@ && u.wf(),
    {
        if check_user_id(s) {
            Ok(UserId { id: s.to_owned() })
        } else {
            Err(InvalidInput::new("invalid user identifier".to_owned()))
        }
    }

    /// The identifier as a string slice.
    pub fn as_str(&self) -> (r: &str)
        ensures
            r@ == self.spec_str(),
    {
        self.id.as_str()
    }

    /// A well-formed identifier is exactly one whose string passes the
    /// syntax check: what `as_str` yields can be wrapped again.
    pub proof fn lemma_wf_is_valid(self)
        ensures
            self.wf() <==> user_id_valid(self.spec_str()),
    {
    }
}

impl Clone for UserId {
    /// A copy equal to the original.
    fn clone(&self) -> (r: Self)
        ensures
            r == *self,
    {
        UserId { id: self.id.clone() }
    }
}

/// An event identifier, e.g. `$h29iv0s8:example.com`.
#[derive(Debug, PartialEq, Eq, Hash)]
pub struct EventId {
    id: String,
}

impl EventId {
    /// The identifier string.
    pub closed spec fn spec_str(self) -> Seq<char> {
        self.id@
    }

    /// Every constructed identifier passed the syntax check.
    pub closed spec fn wf(self) -> bool {
        event_id_valid(self.id@)
    }

    /// Wraps a string, accepting it exactly when the syntax check does.
    pub fn try_from(s: &str) -> (r: Result<EventId, InvalidInput>)
        ensures
            r is Ok <==> event_id_valid(s@),
            r matches Ok(u) ==> u.spec_str() == s@ && u.wf(),
    {
        if check_event_id(s) {
            Ok(EventId { id: s.to_owned() })
        } else {
            Err(InvalidInput::new("invalid event identifier".to_owned()))
        }
    }

    /// The identifier as a string slice.
    pub fn as_str(&self) -> (r: &str)
        ensures
            r@ == self.spec_str(),
    {
        self.id.as_str()
    }

    /// A well-formed identifier is exactly one whose string passes the
    /// syntax check: what `as_str` yields can be wrapped again.
    pub proof fn lemma_wf_is_valid(self)
        ensures
            self.wf() <==> event_id_valid(self.spec_str()),
    {
    }
}

impl Clone for EventId {
    /// A copy equal to the original.
    fn clone(&self) -> (r: Self)
        ensures
            r == *self,
    {
        EventId { id: self.id.clone() }
    }
}

/// A room identifier, e.g. `!n8f893n9:example.com`.
#[derive(Debug, PartialEq, Eq, Hash)]
pub struct RoomId {
    id: String,
}

impl RoomId {
    /// The identifier string.
    pub closed spec fn spec_str(self) -> Seq<char> {
        self.id@
    }

    /// Every constructed identifier passed the syntax check.
    pub closed spec fn wf(self) -> bool {
        room_id_valid(self.id@)
    }

    /// Wraps a string, accepting it exactly when the syntax check does.
    pub fn try_from(s: &str) -> (r: Result<RoomId, InvalidInput>)
        ensures
            r is Ok <==> room_id_valid(s@),
            r matches Ok(u) ==> u.spec_str() == s@ && u.wf(),
    {
        if check_room_id(s) {
            Ok(RoomId { id: s.to_owned() })
        } else {
            Err(InvalidInput::new("invalid room identifier".to_owned()))
        }
    }

    /// The identifier as a string slice.
    pub fn as_str(&self) -> (r: &str)
        ensures
            r@ == self.spec_str(),
    {
        self.id.as_str()
    }

    /// A well-formed identifier is exactly one whose string passes the
    /// syntax check: what `as_str` yields can be wrapped again.
    pub proof fn lemma_wf_is_valid(self)
        ensures
            self.wf() <==> room_id_valid(self.spec_str()),
    {
    }
}

impl Clone for RoomId {
    /// A copy equal to the original.
    fn clone(&self) -> (r: Self)
        ensures
            r == *self,
    {
        RoomId { id: self.id.clone() }
    }
}

/// The identifier of a device, an unconstrained string chosen by the server.
pub type DeviceId = String;

} // verus!
