use ruma_events::room::encrypted::{
    EncryptedEvent, EncryptedEventContent, MegolmV1AesSha2Content,
};
use ruma_events::Algorithm;

#[test]
fn serializtion() {
    let key_verification_start_content =
        EncryptedEventContent::MegolmV1AesSha2(MegolmV1AesSha2Content {
            algorithm: Algorithm::MegolmV1AesSha2,
            ciphertext: "ciphertext".to_string(),
            sender_key: "sender_key".to_string(),
            device_id: "device_id".to_string(),
            session_id: "session_id".to_string(),
        });

    assert_eq!(
        key_verification_start_content.to_json_string(),
        r#"{"algorithm":"m.megolm.v1.aes-sha2","ciphertext":"ciphertext","sender_key":"sender_key","device_id":"device_id","session_id":"session_id"}"#
    );
}

#[test]
fn encrypted_deserialization() {
    let key_verification_start_content =
        EncryptedEventContent::MegolmV1AesSha2(MegolmV1AesSha2Content {
            algorithm: Algorithm::MegolmV1AesSha2,
            ciphertext: "ciphertext".to_string(),
            sender_key: "sender_key".to_string(),
            device_id: "device_id".to_string(),
            session_id: "session_id".to_string(),
        });

    assert_eq!(
        r#"{"algorithm":"m.megolm.v1.aes-sha2","ciphertext":"ciphertext","sender_key":"sender_key","device_id":"device_id","session_id":"session_id"}"#
            .parse::<EncryptedEventContent>()
            .unwrap(),
        key_verification_start_content
    );
}

#[test]
fn deserialization_failure() {
    assert!(r#"{"algorithm":"m.megolm.v1.aes-sha2"}"#
        .parse::<EncryptedEventContent>()
        .is_err());
}

#[test]
fn content_without_algorithm_fails_validation() {
    let json = r#"{"content":{"ciphertext":"x"},"event_id":"$h29iv0s8:example.com","origin_server_ts":1,"sender":"@carl:example.com","type":"m.room.encrypted"}"#;

    let error = json.parse::<EncryptedEvent>().unwrap_err();

    assert_eq!(error.message(), "missing field `algorithm`");
    // The validation class retains the parsed value.
    assert!(error.raw_data().is_some());
    assert!(error.json().is_none());
}

#[test]
fn custom_algorithms_are_rejected() {
    let json = r#"{"algorithm":"io.ruma.test","ciphertext":"x","sender_key":"k"}"#;

    let error = json.parse::<EncryptedEventContent>().unwrap_err();

    assert_eq!(
        error.message(),
        "Custom algorithms are not supported by `EncryptedEventContent`."
    );
}

#[test]
fn encrypted_event_round_trip_reproduces_the_wire_text() {
    let json = r#"{"content":{"algorithm":"m.megolm.v1.aes-sha2","ciphertext":"c","sender_key":"k","device_id":"d","session_id":"s"},"event_id":"$h29iv0s8:example.com","origin_server_ts":1,"sender":"@carl:example.com","type":"m.room.encrypted"}"#;

    let event: EncryptedEvent = json.parse().unwrap();

    assert_eq!(event.to_json_string(), json);
}

#[test]
fn encrypted_event_omits_absent_optional_fields() {
    let json = r#"{"content":{"algorithm":"m.megolm.v1.aes-sha2","ciphertext":"c","sender_key":"k","device_id":"d","session_id":"s"},"event_id":"$h29iv0s8:example.com","origin_server_ts":1,"sender":"@carl:example.com","type":"m.room.encrypted"}"#;

    let event: EncryptedEvent = json.parse().unwrap();
    let text = event.to_json_string();

    assert!(!text.contains("room_id"));
    assert!(!text.contains("unsigned"));
}

#[test]
fn encrypted_event_rejects_an_oversized_timestamp() {
    let json = r#"{"content":{"algorithm":"m.megolm.v1.aes-sha2","ciphertext":"c","sender_key":"k","device_id":"d","session_id":"s"},"event_id":"$h29iv0s8:example.com","origin_server_ts":9007199254740992,"sender":"@carl:example.com","type":"m.room.encrypted"}"#;

    let error = json.parse::<EncryptedEvent>().unwrap_err();

    assert_eq!(error.message(), "invalid field `origin_server_ts`");
}
