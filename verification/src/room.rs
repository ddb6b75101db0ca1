//! Modules for events that occur within the context of a room.

pub mod encrypted;
pub mod join_rules;
pub mod server_acl;
