use ruma_events::collections::all::{Event, RoomEvent, StateEvent};
use ruma_events::EventType;

#[test]
fn any_level_dispatches_a_known_discriminant() {
    let json = r#"{"content":{},"type":"m.dummy"}"#;

    let event: Event = json.parse().unwrap();

    assert!(matches!(event, Event::Dummy(_)));
    assert_eq!(event.to_json_string(), json);
}

#[test]
fn unknown_discriminant_lands_in_the_basic_catch_all() {
    let json = r#"{"content":{"key":"value"},"type":"io.example.custom"}"#;

    let event: Event = json.parse().unwrap();

    match &event {
        Event::Custom(custom) => assert_eq!(custom.event_type, "io.example.custom"),
        other => panic!("expected the basic catch-all, got {:?}", other),
    }
    assert_eq!(
        event.event_type(),
        EventType::Custom("io.example.custom".to_string())
    );
    // Re-encoding writes the exact discriminant back.
    assert_eq!(event.to_json_string(), json);
}

#[test]
fn unknown_discriminant_with_a_state_key_lands_in_the_state_catch_all() {
    let json = r#"{"content":{},"event_id":"$h29iv0s8:example.com","origin_server_ts":1,"sender":"@carl:example.com","state_key":"","type":"io.example.custom"}"#;

    let event: Event = json.parse().unwrap();

    assert!(matches!(event, Event::CustomState(_)));
}

#[test]
fn unknown_discriminant_with_room_markers_lands_in_the_room_catch_all() {
    let json = r#"{"content":{},"event_id":"$h29iv0s8:example.com","origin_server_ts":1,"room_id":"!n8f893n9:example.com","sender":"@carl:example.com","type":"io.example.custom"}"#;

    let event: Event = json.parse().unwrap();

    assert!(matches!(event, Event::CustomRoom(_)));
}

#[test]
fn basic_discriminant_is_rejected_at_the_room_level() {
    let json = r#"{"content":{},"type":"m.direct"}"#;

    let error = json.parse::<RoomEvent>().unwrap_err();

    assert_eq!(error.message(), "not a room event");
    // A hard rejection keeps the payload for inspection.
    assert!(error.raw_data().is_some());
}

#[test]
fn room_discriminant_is_rejected_at_the_state_level() {
    let json = r#"{"content":{},"type":"m.sticker"}"#;

    let error = json.parse::<StateEvent>().unwrap_err();

    assert_eq!(error.message(), "not a state event");
}

#[test]
fn missing_type_is_reported_at_every_level() {
    let json = r#"{"content":{}}"#;

    assert_eq!(
        json.parse::<Event>().unwrap_err().message(),
        "missing field `type`"
    );
    assert_eq!(
        json.parse::<RoomEvent>().unwrap_err().message(),
        "missing field `type`"
    );
    assert_eq!(
        json.parse::<StateEvent>().unwrap_err().message(),
        "missing field `type`"
    );
}

#[test]
fn non_string_type_is_rejected() {
    let json = r#"{"content":{},"type":5}"#;

    let error = json.parse::<Event>().unwrap_err();

    assert_eq!(error.message(), "invalid field `type`");
}

#[test]
fn state_events_decode_at_every_level() {
    let json = r#"{"content":{"join_rule":"public"},"event_id":"$h29iv0s8:example.com","origin_server_ts":1,"sender":"@carl:example.com","state_key":"","type":"m.room.join_rules"}"#;

    assert!(matches!(json.parse::<Event>().unwrap(), Event::RoomJoinRules(_)));
    assert!(matches!(
        json.parse::<RoomEvent>().unwrap(),
        RoomEvent::RoomJoinRules(_)
    ));
    let state: StateEvent = json.parse().unwrap();
    assert!(matches!(state, StateEvent::RoomJoinRules(_)));
    assert_eq!(state.state_key(), "");
    assert_eq!(state.origin_server_ts(), 1);
    assert_eq!(state.event_id().as_str(), "$h29iv0s8:example.com");
    assert_eq!(state.sender().as_str(), "@carl:example.com");
    assert_eq!(state.event_type(), EventType::RoomJoinRules);
}

#[test]
fn union_values_rise_from_concrete_records() {
    let json = r#"{"content":{},"type":"m.dummy"}"#;
    let dummy: ruma_events::dummy::DummyEvent = json.parse().unwrap();

    let event = Event::from(dummy);

    assert!(matches!(event, Event::Dummy(_)));
}

#[test]
fn known_discriminant_without_a_decoder_is_rejected() {
    // The registry knows this discriminant, but this crate ships no record
    // type for it, so the collection reports it rather than mis-routing it
    // into a catch-all.
    let json = r#"{"content":{},"type":"m.room.create"}"#;

    let error = json.parse::<Event>().unwrap_err();

    assert_eq!(error.message(), "unsupported event type");
}
