use ruma_events::ids::UserId;
use ruma_events::ignored_user_list::{IgnoredUserListEvent, IgnoredUserListEventContent};

#[test]
fn ignored_user_list_serialization() {
    let ignored_user_list_event = IgnoredUserListEvent {
        content: IgnoredUserListEventContent {
            ignored_users: vec![UserId::try_from("@carl:example.com").unwrap()],
        },
    };

    let json = ignored_user_list_event.to_json_string();

    assert_eq!(
        json,
        r#"{"content":{"ignored_users":{"@carl:example.com":{}}},"type":"m.ignored_user_list"}"#
    );
}

#[test]
fn ignored_user_list_deserialization() {
    let json = r#"{"content":{"ignored_users":{"@carl:example.com":{}}},"type":"m.ignored_user_list"}"#;

    let actual: IgnoredUserListEvent = json.parse().unwrap();

    let expected = IgnoredUserListEvent {
        content: IgnoredUserListEventContent {
            ignored_users: vec![UserId::try_from("@carl:example.com").unwrap()],
        },
    };

    assert_eq!(actual, expected);
}

#[test]
fn ignored_user_list_round_trip_reproduces_the_wire_text() {
    let json = r#"{"content":{"ignored_users":{"@carl:example.com":{}}},"type":"m.ignored_user_list"}"#;

    let event: IgnoredUserListEvent = json.parse().unwrap();

    assert_eq!(event.to_json_string(), json);
}

#[test]
fn ignored_user_list_rejects_a_bad_identifier() {
    let json = r#"{"content":{"ignored_users":{"carl":{}}},"type":"m.ignored_user_list"}"#;

    assert!(json.parse::<IgnoredUserListEvent>().is_err());
}
