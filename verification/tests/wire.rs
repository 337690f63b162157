use finance_tracker::infrastructure::web::websocket::connection_manager::WebSocketMessage;
use finance_tracker::infrastructure::web::websocket::wire::{decode, encode, DecodeError};

fn heartbeat(timestamp: u64, server_time: &str) -> WebSocketMessage {
    WebSocketMessage::Heartbeat { timestamp, server_time: server_time.to_string() }
}

fn status(connected_users: usize, uptime_seconds: u64) -> WebSocketMessage {
    WebSocketMessage::ConnectionStatus { connected_users, uptime_seconds }
}

fn error(message: &str) -> WebSocketMessage {
    WebSocketMessage::Error { message: message.to_string() }
}

fn round_trip(message: WebSocketMessage) {
    let text = encode(&message);
    assert_eq!(decode(&text), Ok(message), "through {}", text);
}

#[test]
fn heartbeat_is_written_as_documented() {
    assert_eq!(
        encode(&heartbeat(1_700_000_000_123, "2023-11-14T22:13:20.123+00:00")),
        r#"{"type":"Heartbeat","data":{"timestamp":1700000000123,"server_time":"2023-11-14T22:13:20.123+00:00"}}"#
    );
}

#[test]
fn connection_status_is_written_as_documented() {
    assert_eq!(
        encode(&status(3, 42)),
        r#"{"type":"ConnectionStatus","data":{"connected_users":3,"uptime_seconds":42}}"#
    );
    assert_eq!(
        encode(&status(0, 0)),
        r#"{"type":"ConnectionStatus","data":{"connected_users":0,"uptime_seconds":0}}"#
    );
}

#[test]
fn error_is_written_as_documented() {
    assert_eq!(encode(&error("boom")), r#"{"type":"Error","data":{"message":"boom"}}"#);
    assert_eq!(encode(&error("")), r#"{"type":"Error","data":{"message":""}}"#);
}

#[test]
fn pong_is_written_without_data() {
    assert_eq!(encode(&WebSocketMessage::Pong), r#"{"type":"Pong"}"#);
}

#[test]
fn numbers_are_written_in_decimal_without_leading_zeros() {
    assert_eq!(
        encode(&status(10, 100)),
        r#"{"type":"ConnectionStatus","data":{"connected_users":10,"uptime_seconds":100}}"#
    );
    assert_eq!(
        encode(&heartbeat(u64::MAX, "")),
        r#"{"type":"Heartbeat","data":{"timestamp":18446744073709551615,"server_time":""}}"#
    );
    assert_eq!(
        encode(&heartbeat(9, "")),
        r#"{"type":"Heartbeat","data":{"timestamp":9,"server_time":""}}"#
    );
}

#[test]
fn strings_are_escaped() {
    assert_eq!(
        encode(&error("say \"hi\" \\ now")),
        r#"{"type":"Error","data":{"message":"say \"hi\" \\ now"}}"#
    );
    assert_eq!(
        encode(&error("a\nb\rc\td\u{08}e\u{0c}f")),
        r#"{"type":"Error","data":{"message":"a\nb\rc\td\be\ff"}}"#
    );
    assert_eq!(
        encode(&error("\u{00}\u{01}\u{1f}\u{7f}")),
        "{\"type\":\"Error\",\"data\":{\"message\":\"\\u0000\\u0001\\u001f\u{7f}\"}}"
    );
    assert_eq!(
        encode(&error("prix: 5 €, 日本語, 🙂 /")),
        r#"{"type":"Error","data":{"message":"prix: 5 €, 日本語, 🙂 /"}}"#
    );
}

#[test]
fn round_trip_of_each_variant() {
    round_trip(heartbeat(1_700_000_000_123, "2023-11-14T22:13:20.123456789+00:00"));
    round_trip(status(3, 42));
    round_trip(error("something went wrong"));
    round_trip(WebSocketMessage::Pong);
}

#[test]
fn round_trip_at_the_edges() {
    round_trip(heartbeat(0, ""));
    round_trip(heartbeat(u64::MAX, "x"));
    round_trip(status(0, 0));
    round_trip(status(usize::MAX, u64::MAX));
    round_trip(status(10, 1_000_000));
    round_trip(error(""));
    round_trip(error("\"\\/\u{08}\u{0c}\n\r\t"));
    round_trip(error("\u{00}\u{01}\u{02}\u{1e}\u{1f} \u{7f}\u{80}\u{d7ff}\u{e000}\u{ffff}\u{10000}\u{10ffff}"));
    round_trip(error("{\"type\":\"Pong\"}"));
    round_trip(error("\\u0041"));
    round_trip(heartbeat(7, "日本語 🙂"));
}

#[test]
fn round_trip_of_every_control_character() {
    for code in 0u32..0x80 {
        let c = char::from_u32(code).unwrap();
        round_trip(error(&format!("<{}>", c)));
    }
}

#[test]
fn decodes_the_documented_shapes() {
    assert_eq!(decode(r#"{"type":"Pong"}"#), Ok(WebSocketMessage::Pong));
    assert_eq!(
        decode(r#"{"type":"Heartbeat","data":{"timestamp":12,"server_time":"now"}}"#),
        Ok(heartbeat(12, "now"))
    );
    assert_eq!(
        decode(r#"{"type":"ConnectionStatus","data":{"connected_users":3,"uptime_seconds":9}}"#),
        Ok(status(3, 9))
    );
    assert_eq!(decode(r#"{"type":"Error","data":{"message":"no"}}"#), Ok(error("no")));
}

#[test]
fn whitespace_between_tokens_is_allowed() {
    assert_eq!(decode(" { \"type\" : \"Pong\" } "), Ok(WebSocketMessage::Pong));
    assert_eq!(decode("\t{\n\"type\"\r\n:\n\"Pong\"\n}\n"), Ok(WebSocketMessage::Pong));
    assert_eq!(
        decode("{ \"type\": \"ConnectionStatus\", \"data\": { \"connected_users\": 3, \"uptime_seconds\": 9 } }"),
        Ok(status(3, 9))
    );
    assert_eq!(
        decode("{\"type\":\"Error\",\"data\":{\"message\":\"  kept  \"}}"),
        Ok(error("  kept  "))
    );
}

#[test]
fn every_json_escape_is_read() {
    assert_eq!(
        decode(r#"{"type":"Error","data":{"message":"\"\\\/\b\f\n\r\t"}}"#),
        Ok(error("\"\\/\u{08}\u{0c}\n\r\t"))
    );
    assert_eq!(
        decode(r#"{"type":"Error","data":{"message":"\u0041\u00e9\u00E9\u20ac\uFFFF\u0000"}}"#),
        Ok(error("Aéé€\u{ffff}\u{0}"))
    );
    assert_eq!(decode(r#"{"\u0074ype":"P\u006fng"}"#), Ok(WebSocketMessage::Pong));
}

#[test]
fn surrogate_pairs_are_read_as_one_character() {
    assert_eq!(
        decode(r#"{"type":"Error","data":{"message":"\ud83d\ude42"}}"#),
        Ok(error("🙂"))
    );
    assert_eq!(
        decode(r#"{"type":"Error","data":{"message":"a\uD800\uDC00b\uDBFF\uDFFFc"}}"#),
        Ok(error("a\u{10000}b\u{10ffff}c"))
    );
    assert_eq!(
        decode(r#"{"type":"Error","data":{"message":"\ud834\udd1e\u00e9"}}"#),
        Ok(error("\u{1d11e}é"))
    );
}

#[test]
fn pong_may_carry_data_that_says_nothing() {
    assert_eq!(decode(r#"{"type":"Pong","data":null}"#), Ok(WebSocketMessage::Pong));
    assert_eq!(decode(r#"{"type":"Pong","data":{}}"#), Ok(WebSocketMessage::Pong));
    assert_eq!(decode("{ \"type\" : \"Pong\" , \"data\" : null }"), Ok(WebSocketMessage::Pong));
    assert_eq!(decode("{\"type\":\"Pong\",\"data\":{ \n }}"), Ok(WebSocketMessage::Pong));
    for text in [
        r#"{"type":"Pong","data":1}"#,
        r#"{"type":"Pong","data":""}"#,
        r#"{"type":"Pong","data":nul}"#,
        r#"{"type":"Pong","data":nullx}"#,
        r#"{"type":"Pong","data":Null}"#,
        r#"{"type":"Pong","data":{"x":1}}"#,
        r#"{"type":"Pong","data":[]}"#,
        r#"{"type":"Pong","data":null,"more":1}"#,
        r#"{"type":"Pong","payload":null}"#,
        r#"{"type":"Pong","data"}"#,
        r#"{"type":"Pong","data":}"#,
    ] {
        assert_eq!(decode(text), Err(DecodeError::Malformed), "for {:?}", text);
    }
}

#[test]
fn unknown_type_is_told_apart() {
    assert_eq!(decode(r#"{"type":"Ping"}"#), Err(DecodeError::UnknownType));
    assert_eq!(decode(r#"{"type":"pong"}"#), Err(DecodeError::UnknownType));
    assert_eq!(decode(r#"{"type":""}"#), Err(DecodeError::UnknownType));
    assert_eq!(decode(r#"{"type":"Pong "}"#), Err(DecodeError::UnknownType));
    assert_eq!(decode(r#"{"type":"Subscribe","data":{"topic":"x"}}"#), Err(DecodeError::UnknownType));
}

#[test]
fn text_that_is_no_message_is_malformed() {
    for text in [
        "",
        " ",
        "Pong",
        "\"Pong\"",
        "null",
        "[]",
        "{}",
        "{",
        "{\"type\"",
        "{\"type\":",
        "{\"type\":\"Pong\"",
        "{\"type\":\"Pong\"}}",
        "{\"type\":\"Pong\"} x",
        "{\"type\":\"Pong\",}",
        "{\"type\":Pong}",
        "{type:\"Pong\"}",
        "{\"kind\":\"Pong\"}",
        "{\"data\":{\"message\":\"x\"},\"type\":\"Error\"}",
        "{\"type\":\"Error\"}",
        "{\"type\":\"Error\",\"data\":{}}",
        "{\"type\":\"Error\",\"data\":{\"message\":5}}",
        "{\"type\":\"Error\",\"data\":{\"text\":\"x\"}}",
        "{\"type\":\"Error\",\"data\":{\"message\":\"x\",\"more\":1}}",
        "{\"type\":\"Error\",\"data\":{\"message\":\"x\"}",
        "{\"type\":\"Error\",\"data\":{\"message\":\"x}}",
        "{\"type\":\"Heartbeat\",\"data\":{\"server_time\":\"x\",\"timestamp\":1}}",
        "{\"type\":\"Heartbeat\",\"data\":{\"timestamp\":1}}",
        "{\"type\":\"Heartbeat\",\"data\":{\"timestamp\":\"1\",\"server_time\":\"x\"}}",
        "{\"type\":\"ConnectionStatus\",\"data\":{\"connected_users\":3}}",
        "{\"type\":\"ConnectionStatus\",\"data\":{\"connected_users\":3,\"uptime_seconds\":}}",
    ] {
        assert_eq!(decode(text), Err(DecodeError::Malformed), "for {:?}", text);
    }
}

#[test]
fn numbers_must_be_plain_unsigned_and_in_range() {
    fn with_uptime(number: &str) -> String {
        format!(
            "{{\"type\":\"ConnectionStatus\",\"data\":{{\"connected_users\":1,\"uptime_seconds\":{}}}}}",
            number
        )
    }
    assert_eq!(decode(&with_uptime("0")), Ok(status(1, 0)));
    assert_eq!(decode(&with_uptime("18446744073709551615")), Ok(status(1, u64::MAX)));
    for number in ["18446744073709551616", "99999999999999999999999", "-1", "+1", "01", "00", "1.0", "1e3", "0x10", "", "1 2"] {
        assert_eq!(decode(&with_uptime(number)), Err(DecodeError::Malformed), "for {:?}", number);
    }
}

#[test]
fn strings_must_be_well_formed() {
    fn with_message(body: &str) -> String {
        format!("{{\"type\":\"Error\",\"data\":{{\"message\":\"{}\"}}}}", body)
    }
    assert_eq!(decode(&with_message("fine")), Ok(error("fine")));
    for body in [
        "a\nb",
        "a\tb",
        "a\u{0}b",
        "a\u{1f}b",
        "\\x41",
        "\\",
        "\\u",
        "\\u12",
        "\\u12G4",
        "\\ud800",
        "\\udfff",
        "\\ud83d",
        "\\ud83dx",
        "\\ud83d\\n",
        "\\ud83d\\u0041",
        "\\ud83d\\ud83d",
        "\\ude42\\ud83d",
        "\\ud83d\\ude4",
        "\\U0041",
        "a\"b",
    ] {
        assert_eq!(decode(&with_message(body)), Err(DecodeError::Malformed), "for {:?}", body);
    }
}

#[test]
fn what_is_written_is_json_that_serde_json_reads_alike() {
    let text = encode(&heartbeat(1_700_000_000_123, "2023-11-14T22:13:20+00:00"));
    let value: serde_json::Value = serde_json::from_str(&text).unwrap();
    assert_eq!(value["type"].as_str(), Some("Heartbeat"));
    assert_eq!(value["data"]["timestamp"].as_u64(), Some(1_700_000_000_123));
    assert_eq!(value["data"]["server_time"].as_str(), Some("2023-11-14T22:13:20+00:00"));

    let text = encode(&status(3, 42));
    let value: serde_json::Value = serde_json::from_str(&text).unwrap();
    assert_eq!(value["type"].as_str(), Some("ConnectionStatus"));
    assert_eq!(value["data"]["connected_users"].as_u64(), Some(3));
    assert_eq!(value["data"]["uptime_seconds"].as_u64(), Some(42));

    let nasty = "quote \" backslash \\ newline \n tab \t bell \u{07} nul \u{00} é 日本 🙂";
    let text = encode(&error(nasty));
    let value: serde_json::Value = serde_json::from_str(&text).unwrap();
    assert_eq!(value["type"].as_str(), Some("Error"));
    assert_eq!(value["data"]["message"].as_str(), Some(nasty));

    let value: serde_json::Value = serde_json::from_str(&encode(&WebSocketMessage::Pong)).unwrap();
    assert_eq!(value["type"].as_str(), Some("Pong"));
    assert!(value.get("data").is_none());
}

#[test]
fn strings_are_escaped_as_serde_json_escapes_them() {
    for code in 0u32..0x100 {
        let c = char::from_u32(code).unwrap();
        let text = c.to_string();
        let ours = encode(&error(&text));
        let theirs = serde_json::to_string(&text).unwrap();
        assert_eq!(ours, format!("{{\"type\":\"Error\",\"data\":{{\"message\":{}}}}}", theirs));
    }
}

#[test]
fn what_serde_json_writes_is_read() {
    let mut data = serde_json::Map::new();
    data.insert("message".to_string(), serde_json::Value::from("line\nbreak \"quoted\""));
    let mut envelope = serde_json::Map::new();
    envelope.insert("type".to_string(), serde_json::Value::from("Error"));
    envelope.insert("data".to_string(), serde_json::Value::Object(data));
    // serde_json sorts the members by name; put them in the order of the wire format.
    let text = format!(
        "{{\"type\":{},\"data\":{}}}",
        serde_json::to_string(&envelope["type"]).unwrap(),
        serde_json::to_string(&envelope["data"]).unwrap()
    );
    assert_eq!(decode(&text), Ok(error("line\nbreak \"quoted\"")));
}
