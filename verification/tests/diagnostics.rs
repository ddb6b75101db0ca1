use ruma_events::ids::UserId;
use ruma_events::json::JsonValue;
use ruma_events::{empty_string_as_none, EventResult, InvalidEvent};

#[test]
fn event_result_converts_into_a_plain_result() {
    let valid: EventResult<u32> = EventResult::Valid(7);
    assert_eq!(valid.into_result().unwrap(), 7);

    let json = r#"{"content":{}}"#;
    let error = json
        .parse::<ruma_events::collections::all::Event>()
        .unwrap_err();
    let invalid: EventResult<u32> = EventResult::Invalid(error);
    assert!(matches!(invalid.into_result(), Err(InvalidEvent(_))));
}

#[test]
fn invalid_identifiers_are_reported_as_invalid_input() {
    let error = UserId::try_from("carl").unwrap_err();

    assert_eq!(error.message(), "invalid user identifier");
}

#[test]
fn empty_advisory_strings_count_as_absent() {
    assert_eq!(empty_string_as_none(None), Ok(None));
    assert_eq!(empty_string_as_none(Some(&JsonValue::Null)), Ok(None));
    assert_eq!(
        empty_string_as_none(Some(&JsonValue::Str(String::new()))),
        Ok(None)
    );
    assert_eq!(
        empty_string_as_none(Some(&JsonValue::Str("name".to_string()))),
        Ok(Some("name".to_string()))
    );
    assert_eq!(empty_string_as_none(Some(&JsonValue::UInt(1))), Err(()));
}
