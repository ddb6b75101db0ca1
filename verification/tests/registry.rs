use ruma_events::{Algorithm, EventKind, EventType};

#[test]
fn event_types_serialize_to_display_form() {
    assert_eq!(EventType::RoomCreate.to_json_string(), r#""m.room.create""#);
}

#[test]
fn custom_event_types_serialize_to_display_form() {
    assert_eq!(
        EventType::Custom("io.ruma.test".to_string()).to_json_string(),
        r#""io.ruma.test""#
    );
}

#[test]
fn event_types_deserialize_from_display_form() {
    assert_eq!(
        EventType::from_json_str(r#""m.room.create""#).unwrap(),
        EventType::RoomCreate
    );
}

#[test]
fn custom_event_types_deserialize_from_display_form() {
    assert_eq!(
        EventType::from_json_str(r#""io.ruma.test""#).unwrap(),
        EventType::Custom("io.ruma.test".to_string())
    )
}

#[test]
fn algorithms_serialize_to_display_form() {
    assert_eq!(
        Algorithm::MegolmV1AesSha2.to_json_string(),
        r#""m.megolm.v1.aes-sha2""#
    );
}

#[test]
fn custom_algorithms_serialize_to_display_form() {
    assert_eq!(
        Algorithm::Custom("io.ruma.test".to_string()).to_json_string(),
        r#""io.ruma.test""#
    );
}

#[test]
fn algorithms_deserialize_from_display_form() {
    assert_eq!(
        Algorithm::from_json_str(r#""m.megolm.v1.aes-sha2""#).unwrap(),
        Algorithm::MegolmV1AesSha2
    );
}

#[test]
fn custom_algorithms_deserialize_from_display_form() {
    assert_eq!(
        Algorithm::from_json_str(r#""io.ruma.test""#).unwrap(),
        Algorithm::Custom("io.ruma.test".to_string())
    )
}

#[test]
fn every_registry_string_parses_back_to_its_event_type() {
    let known = [
        (EventType::CallAnswer, "m.call.answer"),
        (EventType::Direct, "m.direct"),
        (EventType::Dummy, "m.dummy"),
        (EventType::IgnoredUserList, "m.ignored_user_list"),
        (EventType::RoomEncrypted, "m.room.encrypted"),
        (EventType::RoomJoinRules, "m.room.join_rules"),
        (EventType::RoomServerAcl, "m.room.server_acl"),
        (EventType::Typing, "m.typing"),
    ];
    for (event_type, wire) in known {
        assert_eq!(event_type.as_str(), wire);
        assert_eq!(EventType::from_str(wire), event_type);
    }
}

#[test]
fn registry_kinds_follow_the_event_hierarchy() {
    assert_eq!(EventType::Dummy.kind(), Some(EventKind::Basic));
    assert_eq!(EventType::Direct.kind(), Some(EventKind::Basic));
    assert_eq!(EventType::CallAnswer.kind(), Some(EventKind::Room));
    assert_eq!(EventType::RoomEncrypted.kind(), Some(EventKind::Room));
    assert_eq!(EventType::RoomJoinRules.kind(), Some(EventKind::State));
    assert_eq!(EventType::RoomServerAcl.kind(), Some(EventKind::State));
    assert_eq!(EventType::Custom("io.ruma.test".to_string()).kind(), None);
}
