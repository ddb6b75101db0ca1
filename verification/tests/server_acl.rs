use ruma_events::room::server_acl::ServerAclEvent;

#[test]
fn default_values() {
    let server_acl_event: ServerAclEvent =
        r#"{"content":{},"event_id":"$h29iv0s8:example.com","origin_server_ts":1,"sender":"@carl:example.com","state_key":"","type":"m.room.server_acl"}"#
        .parse().unwrap();

    assert_eq!(server_acl_event.content.allow_ip_literals, true);
    assert!(server_acl_event.content.allow.is_empty());
    assert!(server_acl_event.content.deny.is_empty());
}

#[test]
fn server_acl_round_trip_reproduces_the_wire_text() {
    let json = r#"{"content":{"allow_ip_literals":false,"allow":["example.com"],"deny":["1.1.1.1"]},"event_id":"$h29iv0s8:example.com","origin_server_ts":1,"sender":"@carl:example.com","state_key":"","type":"m.room.server_acl"}"#;

    let event: ServerAclEvent = json.parse().unwrap();

    assert_eq!(event.to_json_string(), json);
}

#[test]
fn server_acl_rejects_a_non_boolean_flag() {
    let json = r#"{"content":{"allow_ip_literals":"yes"},"event_id":"$h29iv0s8:example.com","origin_server_ts":1,"sender":"@carl:example.com","state_key":"","type":"m.room.server_acl"}"#;

    let error = json.parse::<ServerAclEvent>().unwrap_err();

    assert_eq!(error.message(), "invalid field `content`");
}

#[test]
fn server_acl_rejects_a_non_string_list_entry() {
    let json = r#"{"content":{"allow":["a",5]},"event_id":"$h29iv0s8:example.com","origin_server_ts":1,"sender":"@carl:example.com","state_key":"","type":"m.room.server_acl"}"#;

    assert!(json.parse::<ServerAclEvent>().is_err());
}

#[test]
fn server_acl_treats_null_room_id_as_absent() {
    let json = r#"{"content":{},"event_id":"$h29iv0s8:example.com","origin_server_ts":1,"room_id":null,"sender":"@carl:example.com","state_key":"","type":"m.room.server_acl"}"#;

    let event: ServerAclEvent = json.parse().unwrap();

    assert!(event.room_id.is_none());
}

#[test]
fn server_acl_rejects_a_bad_event_identifier() {
    let json = r#"{"content":{},"event_id":"h29iv0s8","origin_server_ts":1,"sender":"@carl:example.com","state_key":"","type":"m.room.server_acl"}"#;

    let error = json.parse::<ServerAclEvent>().unwrap_err();

    assert_eq!(error.message(), "invalid field `event_id`");
}

#[test]
fn server_acl_rejects_a_bad_room_identifier() {
    let json = r#"{"content":{},"event_id":"$h29iv0s8:example.com","origin_server_ts":1,"room_id":"example.com","sender":"@carl:example.com","state_key":"","type":"m.room.server_acl"}"#;

    let error = json.parse::<ServerAclEvent>().unwrap_err();

    assert_eq!(error.message(), "invalid field `room_id`");
}
