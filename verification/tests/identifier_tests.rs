use base64::Engine;

use calendar_rsvp::Error;
use calendar_rsvp::decode;
use calendar_rsvp::encode_pair;

#[test]
fn test_event_id_from_base64_event_id() {
    let expected = "1g4j1h67ndq7kddrb2bptp2cua_20210521T120000Z";

    let id = decode(expected).unwrap();

    assert_eq!(expected, id.event_id);
    assert!(id.email_hint.is_none());
}

#[test]
fn test_event_id_from_base64_eid() {
    let expected = "1g4j1h67ndq7kddrb2bptp2cua";
    let encoded = base64::engine::general_purpose::STANDARD.encode(format!(
        "{} rory.mercury@example.com",
        expected
    ));

    let id = decode(&encoded).unwrap();

    assert_eq!(expected, id.event_id);
}

#[test]
fn composite_token_carries_email_hint() {
    let encoded = base64::engine::general_purpose::STANDARD
        .encode("1g4j1h67ndq7kddrb2bptp2cua rory.mercury@example.com");

    let id = decode(&encoded).unwrap();

    assert_eq!("1g4j1h67ndq7kddrb2bptp2cua", id.event_id);
    assert_eq!(Some("rory.mercury@example.com".to_string()), id.email_hint);
}

#[test]
fn plain_token_passes_through_unchanged() {
    let token = "not base64 at all!";

    let id = decode(token).unwrap();

    assert_eq!(token, id.event_id);
    assert!(id.email_hint.is_none());
}

#[test]
fn empty_payload_is_malformed() {
    // "" is valid base64 for the empty payload.
    assert_eq!(Err(Error::MalformedIdentifier), decode("").map(|id| id.event_id));
    let encoded = base64::engine::general_purpose::STANDARD.encode("");
    assert_eq!(
        Err(Error::MalformedIdentifier),
        decode(&encoded).map(|id| id.event_id)
    );
}

#[test]
fn non_utf8_payload_is_a_decode_error() {
    let encoded = base64::engine::general_purpose::STANDARD.encode([0xffu8, 0xfe, 0x80]);

    assert_eq!(Err(Error::DecodeError), decode(&encoded).map(|id| id.event_id));
}

#[test]
fn encode_pair_round_trips() {
    let token = encode_pair("1g4j1h67ndq7kddrb2bptp2cua", "rory.mercury@example.com");

    let id = decode(&token).unwrap();

    assert_eq!("1g4j1h67ndq7kddrb2bptp2cua", id.event_id);
    assert_eq!(Some("rory.mercury@example.com".to_string()), id.email_hint);
}

#[test]
fn extra_fields_do_not_disturb_the_event_id() {
    let encoded = base64::engine::general_purpose::STANDARD.encode("the-id a@x b@y");

    let id = decode(&encoded).unwrap();

    assert_eq!("the-id", id.event_id);
    assert_eq!(Some("a@x".to_string()), id.email_hint);
}

#[test]
fn error_messages_are_stable() {
    assert_eq!(
        "identifier token decoded to an empty payload",
        Error::MalformedIdentifier.message()
    );
    assert_eq!("can't parse decoded base64 to UTF-8", Error::DecodeError.message());
}
