use iot_sdk::communication::message::{DecodeError, WebSocketMessage, WebSocketMessageType};

fn message(
    message_type: WebSocketMessageType,
    device_id: &str,
    payload: &str,
    id: Option<&str>,
    timestamp: u64,
) -> WebSocketMessage {
    WebSocketMessage {
        message_type,
        device_id: device_id.to_string(),
        payload: payload.to_string(),
        id: id.map(|s| s.to_string()),
        timestamp,
    }
}

#[test]
fn tags_are_the_documented_strings() {
    assert_eq!(WebSocketMessageType::Data.as_str(), "data");
    assert_eq!(WebSocketMessageType::Status.as_str(), "status");
    assert_eq!(WebSocketMessageType::Command.as_str(), "command");
    assert_eq!(WebSocketMessageType::Acknowledgement.as_str(), "ack");
}

#[test]
fn parse_reads_the_four_tags_and_nothing_else() {
    assert_eq!(WebSocketMessageType::parse("data"), Some(WebSocketMessageType::Data));
    assert_eq!(WebSocketMessageType::parse("status"), Some(WebSocketMessageType::Status));
    assert_eq!(WebSocketMessageType::parse("command"), Some(WebSocketMessageType::Command));
    assert_eq!(WebSocketMessageType::parse("ack"), Some(WebSocketMessageType::Acknowledgement));
    assert_eq!(WebSocketMessageType::parse("Data"), None);
    assert_eq!(WebSocketMessageType::parse("acknowledgement"), None);
    assert_eq!(WebSocketMessageType::parse(""), None);
}

#[test]
fn every_tag_is_read_back() {
    for t in [
        WebSocketMessageType::Data,
        WebSocketMessageType::Status,
        WebSocketMessageType::Command,
        WebSocketMessageType::Acknowledgement,
    ] {
        assert_eq!(WebSocketMessageType::parse(t.as_str()), Some(t));
    }
}

#[test]
fn encode_writes_the_members_in_order() {
    let m = message(WebSocketMessageType::Data, "d1", "{\"t\":21}", Some("abc"), 1000);
    assert_eq!(
        m.encode(),
        "{\"type\":\"data\",\"device_id\":\"d1\",\"payload\":{\"t\":21},\"id\":\"abc\",\"timestamp\":1000}"
    );
}

#[test]
fn encode_leaves_out_a_missing_id() {
    let m = message(WebSocketMessageType::Status, "d1", "\"ok\"", None, 5);
    assert_eq!(
        m.encode(),
        "{\"type\":\"status\",\"device_id\":\"d1\",\"payload\":\"ok\",\"timestamp\":5}"
    );
}

#[test]
fn encode_escapes_strings() {
    let m = message(
        WebSocketMessageType::Data,
        "a\"b\\c\nd\te\u{1}f\u{1f}g\u{8}h\u{c}i\rj\u{e9}",
        "null",
        Some("x/y"),
        0,
    );
    assert_eq!(
        m.encode(),
        "{\"type\":\"data\",\"device_id\":\"a\\\"b\\\\c\\nd\\te\\u0001f\\u001fg\\bh\\fi\\rj\u{e9}\",\"payload\":null,\"id\":\"x/y\",\"timestamp\":0}"
    );
}

#[test]
fn encode_agrees_with_a_json_parser() {
    let m = message(
        WebSocketMessageType::Command,
        "dev \"7\" \u{7f}\u{0}",
        "[1,{\"a\":\"b\"}]",
        Some("id-1"),
        u64::MAX,
    );
    let parsed: serde_json::Value = serde_json::from_str(&m.encode()).unwrap();
    assert_eq!(parsed.get("type").and_then(|v| v.as_str()), Some("command"));
    assert_eq!(parsed.get("device_id").and_then(|v| v.as_str()), Some("dev \"7\" \u{7f}\u{0}"));
    assert_eq!(parsed.get("id").and_then(|v| v.as_str()), Some("id-1"));
    assert_eq!(parsed.get("timestamp").and_then(|v| v.as_u64()), Some(u64::MAX));
    assert_eq!(parsed.get("payload").map(|v| v.to_string()), Some("[1,{\"a\":\"b\"}]".to_string()));
}

#[test]
fn decode_reads_a_command() {
    let frame = "{\"type\":\"command\",\"device_id\":\"d1\",\"payload\":{},\"id\":\"abc123\",\"timestamp\":1000}";
    let m = WebSocketMessage::decode(frame).unwrap();
    assert_eq!(m, message(WebSocketMessageType::Command, "d1", "{}", Some("abc123"), 1000));
}

#[test]
fn decode_is_blind_to_unknown_members_and_to_layout() {
    let frame = " { \"extra\" : [1, 2], \"timestamp\" : 7, \"payload\" : { \"b\" : 1, \"a\" : \"x y\" },\n \"device_id\" : \"d\\u0031\", \"type\" : \"data\" } ";
    let m = WebSocketMessage::decode(frame).unwrap();
    assert_eq!(m.message_type, WebSocketMessageType::Data);
    assert_eq!(m.device_id, "d1");
    assert_eq!(m.payload, "{\"a\":\"x y\",\"b\":1}");
    assert_eq!(m.id, None);
    assert_eq!(m.timestamp, 7);
}

#[test]
fn decode_takes_null_for_no_id() {
    let frame = "{\"type\":\"status\",\"device_id\":\"d1\",\"payload\":1,\"id\":null,\"timestamp\":1}";
    let m = WebSocketMessage::decode(frame).unwrap();
    assert_eq!(m.id, None);
    assert_eq!(m.payload, "1");
}

#[test]
fn decode_refuses_what_is_not_an_object() {
    assert_eq!(WebSocketMessage::decode("not json"), Err(DecodeError::NotAnObject));
    assert_eq!(WebSocketMessage::decode(""), Err(DecodeError::NotAnObject));
    assert_eq!(WebSocketMessage::decode("[1,2]"), Err(DecodeError::NotAnObject));
    assert_eq!(WebSocketMessage::decode("\"data\""), Err(DecodeError::NotAnObject));
    assert_eq!(WebSocketMessage::decode("{\"type\":\"data\""), Err(DecodeError::NotAnObject));
    assert_eq!(WebSocketMessage::decode("{} trailing"), Err(DecodeError::NotAnObject));
}

#[test]
fn decode_is_strict_on_the_type() {
    assert_eq!(
        WebSocketMessage::decode("{\"device_id\":\"d\",\"payload\":1,\"timestamp\":1}"),
        Err(DecodeError::MessageType)
    );
    assert_eq!(
        WebSocketMessage::decode("{\"type\":\"bogus\",\"device_id\":\"d\",\"payload\":1,\"timestamp\":1}"),
        Err(DecodeError::MessageType)
    );
    assert_eq!(
        WebSocketMessage::decode("{\"type\":5,\"device_id\":\"d\",\"payload\":1,\"timestamp\":1}"),
        Err(DecodeError::MessageType)
    );
    assert_eq!(
        WebSocketMessage::decode("{\"type\":\"DATA\",\"device_id\":\"d\",\"payload\":1,\"timestamp\":1}"),
        Err(DecodeError::MessageType)
    );
}

#[test]
fn decode_names_the_member_that_is_wrong() {
    assert_eq!(
        WebSocketMessage::decode("{\"type\":\"data\",\"payload\":1,\"timestamp\":1}"),
        Err(DecodeError::DeviceId)
    );
    assert_eq!(
        WebSocketMessage::decode("{\"type\":\"data\",\"device_id\":7,\"payload\":1,\"timestamp\":1}"),
        Err(DecodeError::DeviceId)
    );
    assert_eq!(
        WebSocketMessage::decode("{\"type\":\"data\",\"device_id\":\"d\",\"timestamp\":1}"),
        Err(DecodeError::Payload)
    );
    assert_eq!(
        WebSocketMessage::decode("{\"type\":\"data\",\"device_id\":\"d\",\"payload\":1,\"id\":7,\"timestamp\":1}"),
        Err(DecodeError::Id)
    );
    assert_eq!(
        WebSocketMessage::decode("{\"type\":\"data\",\"device_id\":\"d\",\"payload\":1}"),
        Err(DecodeError::Timestamp)
    );
    assert_eq!(
        WebSocketMessage::decode("{\"type\":\"data\",\"device_id\":\"d\",\"payload\":1,\"timestamp\":-1}"),
        Err(DecodeError::Timestamp)
    );
    assert_eq!(
        WebSocketMessage::decode("{\"type\":\"data\",\"device_id\":\"d\",\"payload\":1,\"timestamp\":\"1\"}"),
        Err(DecodeError::Timestamp)
    );
    assert_eq!(
        WebSocketMessage::decode("{\"type\":\"data\",\"device_id\":\"d\",\"payload\":1,\"timestamp\":1.5}"),
        Err(DecodeError::Timestamp)
    );
    assert_eq!(
        WebSocketMessage::decode("{\"type\":\"data\",\"device_id\":\"d\",\"payload\":1,\"timestamp\":18446744073709551616}"),
        Err(DecodeError::Timestamp)
    );
}

#[test]
fn decode_takes_the_largest_timestamp() {
    let m = WebSocketMessage::decode(
        "{\"type\":\"data\",\"device_id\":\"d\",\"payload\":1,\"timestamp\":18446744073709551615}",
    )
    .unwrap();
    assert_eq!(m.timestamp, u64::MAX);
}

#[test]
fn decoding_an_encoded_message_gives_it_back() {
    let m = message(
        WebSocketMessageType::Acknowledgement,
        "dev \"x\"\n",
        "{\"status\":\"received\"}",
        Some("k+/="),
        1_700_000_000,
    );
    assert_eq!(WebSocketMessage::decode(&m.encode()), Ok(m));
    let n = message(WebSocketMessageType::Data, "", "[]", None, 0);
    assert_eq!(WebSocketMessage::decode(&n.encode()), Ok(n));
}

#[test]
fn from_fields_builds_a_message() {
    let r = WebSocketMessage::from_fields(
        Some("status".to_string()),
        Some("d9".to_string()),
        Some("{\"up\":true}".to_string()),
        Some(Some("m1".to_string())),
        Some(99),
    );
    assert_eq!(r, Ok(message(WebSocketMessageType::Status, "d9", "{\"up\":true}", Some("m1"), 99)));
    let without_id = WebSocketMessage::from_fields(
        Some("data".to_string()),
        Some("d9".to_string()),
        Some("1".to_string()),
        Some(None),
        Some(0),
    );
    assert_eq!(without_id, Ok(message(WebSocketMessageType::Data, "d9", "1", None, 0)));
}

#[test]
fn from_fields_reports_the_first_wrong_member() {
    let d = || Some("d".to_string());
    let p = || Some("1".to_string());
    let t = || Some("data".to_string());
    assert_eq!(
        WebSocketMessage::from_fields(None, None, None, None, None),
        Err(DecodeError::MessageType)
    );
    assert_eq!(
        WebSocketMessage::from_fields(Some("x".to_string()), d(), p(), Some(None), Some(1)),
        Err(DecodeError::MessageType)
    );
    assert_eq!(
        WebSocketMessage::from_fields(t(), None, None, None, None),
        Err(DecodeError::DeviceId)
    );
    assert_eq!(WebSocketMessage::from_fields(t(), d(), None, None, None), Err(DecodeError::Payload));
    assert_eq!(WebSocketMessage::from_fields(t(), d(), p(), None, None), Err(DecodeError::Id));
    assert_eq!(
        WebSocketMessage::from_fields(t(), d(), p(), Some(None), None),
        Err(DecodeError::Timestamp)
    );
}

#[test]
fn a_command_with_an_id_is_acknowledged_under_that_id() {
    let command = message(WebSocketMessageType::Command, "server", "{\"do\":1}", Some("abc123"), 1000);
    let ack = command.acknowledgement("d1", 2000).unwrap();
    assert_eq!(
        ack,
        message(
            WebSocketMessageType::Acknowledgement,
            "d1",
            "{\"status\":\"received\"}",
            Some("abc123"),
            2000
        )
    );
}

#[test]
fn nothing_else_is_acknowledged() {
    let no_id = message(WebSocketMessageType::Command, "d1", "{}", None, 1);
    assert_eq!(no_id.acknowledgement("d1", 2), None);
    for t in [
        WebSocketMessageType::Data,
        WebSocketMessageType::Status,
        WebSocketMessageType::Acknowledgement,
    ] {
        let m = message(t, "d1", "{}", Some("abc"), 1);
        assert_eq!(m.acknowledgement("d1", 2), None);
    }
}

#[test]
fn local_messages_carry_an_id() {
    let data = WebSocketMessage::data("d1", "1".to_string(), "i1".to_string(), 3);
    assert_eq!(data, message(WebSocketMessageType::Data, "d1", "1", Some("i1"), 3));
    let status = WebSocketMessage::status("d1", "2".to_string(), "i2".to_string(), 4);
    assert_eq!(status, message(WebSocketMessageType::Status, "d1", "2", Some("i2"), 4));
}
