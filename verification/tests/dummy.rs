use ruma_events::dummy::DummyEvent;
use ruma_events::Empty;

#[test]
fn dummy_serialization() {
    let dummy_event = DummyEvent { content: Empty };

    let actual = dummy_event.to_json_string();
    let expected = r#"{"content":{},"type":"m.dummy"}"#;

    assert_eq!(actual, expected);
}

#[test]
fn dummy_deserialization() {
    let json = r#"{"content":{},"type":"m.dummy"}"#;

    assert!(json.parse::<DummyEvent>().is_ok());
}

#[test]
fn dummy_round_trip_reproduces_the_wire_text() {
    let json = r#"{"content":{},"type":"m.dummy"}"#;

    let event: DummyEvent = json.parse().unwrap();

    assert_eq!(event.to_json_string(), json);
}

#[test]
fn dummy_rejects_scalar_content() {
    let json = r#"{"content":5,"type":"m.dummy"}"#;

    let error = json.parse::<DummyEvent>().unwrap_err();

    assert_eq!(error.message(), "invalid field `content`");
    assert!(error.json().is_some());
    assert!(error.raw_data().is_none());
}

#[test]
fn dummy_rejects_text_that_is_not_json() {
    let error = "{".parse::<DummyEvent>().unwrap_err();

    assert!(error.json().is_none());
    assert!(error.raw_data().is_none());
}
