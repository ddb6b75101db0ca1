use ruma_events::room::join_rules::{JoinRule, JoinRulesEvent};
use ruma_events::FromStrError;

#[test]
fn join_rules_parse_and_print() {
    assert_eq!(JoinRule::from_str("invite").unwrap(), JoinRule::Invite);
    assert_eq!(JoinRule::from_str("knock").unwrap(), JoinRule::Knock);
    assert_eq!(JoinRule::from_str("private").unwrap(), JoinRule::Private);
    assert_eq!(JoinRule::from_str("public").unwrap(), JoinRule::Public);
    assert_eq!(JoinRule::Public.as_str(), "public");
}

#[test]
fn join_rules_reject_an_unknown_rule() {
    assert_eq!(JoinRule::from_str("open").unwrap_err(), FromStrError);
}

#[test]
fn join_rules_event_round_trip_reproduces_the_wire_text() {
    let json = r#"{"content":{"join_rule":"public"},"event_id":"$h29iv0s8:example.com","origin_server_ts":1,"sender":"@carl:example.com","state_key":"","type":"m.room.join_rules"}"#;

    let event: JoinRulesEvent = json.parse().unwrap();

    assert_eq!(event.content.join_rule, JoinRule::Public);
    assert_eq!(event.to_json_string(), json);
}

#[test]
fn join_rules_event_keeps_optional_fields() {
    let json = r#"{"content":{"join_rule":"invite"},"event_id":"$h29iv0s8:example.com","origin_server_ts":1,"prev_content":{"join_rule":"public"},"room_id":"!n8f893n9:example.com","sender":"@carl:example.com","state_key":"","type":"m.room.join_rules","unsigned":{"age":100}}"#;

    let event: JoinRulesEvent = json.parse().unwrap();

    assert_eq!(event.prev_content.as_ref().unwrap().join_rule, JoinRule::Public);
    assert!(event.room_id.is_some());
    assert!(event.unsigned.is_some());
    // Re-encoding keeps every field; the encoder writes the optional ones
    // last, and field order is not significant on the wire.
    let text = event.to_json_string();
    assert!(text.contains(r#""prev_content":{"join_rule":"public"}"#));
    assert!(text.contains(r#""room_id":"!n8f893n9:example.com""#));
    assert!(text.contains(r#""unsigned":{"age":100}"#));
}
