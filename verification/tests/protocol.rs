use cliplink::error::AppError;
use cliplink::identity::DEVICE_NAME_MAX_LEN;
use cliplink::json::{Json, Member};
use cliplink::protocol::{
    encode, millis_or_zero, now_millis, parse_disconnect, parse_ping, parse_pong, read_message,
    sha256_hex, validate_clipboard, validate_hello, ClipboardPayload, DisconnectPayload,
    ErrorPayload, FrameReader, HelloPayload, Message, Payload, PingPayload, PongPayload, Progress,
    MAX_MESSAGE_BYTES, MSG_CLIPBOARD_UPDATE, MSG_DISCONNECT, MSG_HELLO, MSG_PING, MSG_PONG,
    PROTOCOL_VERSION, REASON_USER_REQUESTED,
};

const LOCAL_ID: &str = "550e8400-e29b-41d4-a716-446655440000";
const PEER_ID: &str = "650e8400-e29b-41d4-a716-446655440001";

struct Printed<'a>(&'a Json);

impl serde::Serialize for Printed<'_> {
    fn serialize<S: serde::Serializer>(&self, s: S) -> Result<S::Ok, S::Error> {
        match self.0 {
            Json::Null => s.serialize_unit(),
            Json::Bool(b) => s.serialize_bool(*b),
            Json::Unsigned(n) => s.serialize_u64(*n),
            Json::Negative(n) => s.serialize_i64(*n),
            Json::Fraction(t) => s.serialize_f64(t.parse().unwrap()),
            Json::Text(t) => s.serialize_str(t),
            Json::List(v) => s.collect_seq(v.iter().map(Printed)),
            Json::Object(ms) => s.collect_map(ms.iter().map(|m| (&m.name, Printed(&m.value)))),
        }
    }
}

fn to_json(v: &serde_json::Value) -> Json {
    match v {
        serde_json::Value::Null => Json::Null,
        serde_json::Value::Bool(b) => Json::Bool(*b),
        serde_json::Value::Number(n) => match (n.as_u64(), n.as_i64()) {
            (Some(u), _) => Json::Unsigned(u),
            (None, Some(i)) => Json::Negative(i),
            _ => Json::Fraction(n.to_string()),
        },
        serde_json::Value::String(s) => Json::Text(s.clone()),
        serde_json::Value::Array(a) => Json::List(a.iter().map(to_json).collect()),
        serde_json::Value::Object(m) => Json::Object(
            m.iter()
                .map(|(k, v)| Member {
                    name: k.clone(),
                    value: to_json(v),
                })
                .collect(),
        ),
    }
}

fn print(j: &Json) -> Vec<u8> {
    serde_json::to_vec(&Printed(j)).unwrap()
}

fn frame(m: Message) -> Result<Vec<u8>, AppError> {
    encode(&print(&m.into_json()))
}

fn parse(text: &str) -> Result<Message, AppError> {
    let v: serde_json::Value =
        serde_json::from_str(text).map_err(|_| AppError::ProtocolInvalidJson)?;
    Message::from_json(to_json(&v))
}

/// Reads one message from a stream that hands out at most `chunk` bytes at a time.
fn read(data: &[u8], chunk: usize) -> Result<Message, AppError> {
    let mut reader = FrameReader::new();
    let mut at = 0;
    loop {
        let n = reader.wanted().min(chunk).min(data.len() - at);
        if n == 0 {
            return Err(AppError::ConnectionClosed);
        }
        match reader.feed(&data[at..at + n]) {
            Progress::Partial => at += n,
            Progress::Complete(text) => return parse(&text),
            Progress::Refused(e) => return Err(e),
        }
    }
}

fn hello_with(id: &str, name: &str, version: u32) -> Message {
    Message::new(
        MSG_HELLO,
        LOCAL_ID,
        &HelloPayload {
            device_id: id.into(),
            device_name: name.into(),
            protocol_version: version,
        },
    )
    .unwrap()
}

fn hello_msg() -> Message {
    hello_with(PEER_ID, "DESKTOP-B", PROTOCOL_VERSION)
}

fn ping_msg() -> Message {
    Message::new(
        MSG_PING,
        LOCAL_ID,
        &PingPayload {
            ping_id: "p-1".into(),
            sent_at: 1789550000000,
        },
    )
    .unwrap()
}

fn pong_msg() -> Message {
    Message::new(
        MSG_PONG,
        LOCAL_ID,
        &PongPayload {
            ping_id: "p-1".into(),
            sent_at: 1789550000000,
        },
    )
    .unwrap()
}

fn disconnect_msg() -> Message {
    Message::new(
        MSG_DISCONNECT,
        LOCAL_ID,
        &DisconnectPayload {
            reason: REASON_USER_REQUESTED.into(),
        },
    )
    .unwrap()
}

fn clipboard_msg(text: &str, hash: &str) -> Message {
    Message::new(
        MSG_CLIPBOARD_UPDATE,
        LOCAL_ID,
        &ClipboardPayload {
            text: text.into(),
            content_hash: hash.into(),
        },
    )
    .unwrap()
}

fn hash(text: &str) -> String {
    sha256_hex(text.as_bytes())
}

#[test]
fn roundtrip_all_message_types() {
    for (i, make) in [hello_msg, ping_msg, pong_msg, disconnect_msg]
        .into_iter()
        .enumerate()
    {
        let m = make();
        let want_type = m.msg_type.clone();
        let want_auth = m.auth.clone();
        let want_payload = print(&m.payload);
        let want_id = m.message_id.clone();
        let bytes = frame(m).unwrap();
        let got = read(&bytes, 3).unwrap();
        assert_eq!(got.msg_type, want_type, "{i}");
        assert_eq!(got.auth, want_auth, "{i}");
        assert_eq!(print(&got.payload), want_payload, "{i}");
        assert_eq!(got.message_id, want_id, "{i}");
        assert_eq!(got.version, PROTOCOL_VERSION);
        assert_eq!(got.device_id, LOCAL_ID);
    }
}

#[test]
fn length_prefix_is_big_endian() {
    let json = print(&ping_msg().into_json());
    let bytes = encode(&json).unwrap();
    let json_len = bytes.len() - 4;
    assert_eq!(
        u32::from_be_bytes([bytes[0], bytes[1], bytes[2], bytes[3]]),
        json_len as u32
    );
    assert_eq!(&bytes[4..], &json[..]);
}

#[test]
fn clipboard_roundtrip_and_validate() {
    let text = "你好，世界 🎉\n第二行";
    let bytes = frame(clipboard_msg(text, &hash(text))).unwrap();
    let got = read(&bytes, 3).unwrap();
    assert_eq!(got.msg_type, MSG_CLIPBOARD_UPDATE);
    let p = validate_clipboard(&got).unwrap();
    assert_eq!(p.text, text);
    assert_eq!(p.content_hash, hash(text));
}

#[test]
fn clipboard_validation_rejects_bad_input() {
    assert!(matches!(
        validate_clipboard(&clipboard_msg("hello", &hash("hello"))),
        Ok(p) if p.text == "hello"
    ));
    let e = validate_clipboard(&clipboard_msg("", &hash(""))).unwrap_err();
    assert_eq!(e.code(), AppError::ProtocolInvalidJson.code());
    let big = "x".repeat(MAX_MESSAGE_BYTES as usize + 1);
    let e = validate_clipboard(&clipboard_msg(&big, &hash(&big))).unwrap_err();
    assert_eq!(e.code(), AppError::ProtocolMessageTooLarge.code());
    let e = validate_clipboard(&clipboard_msg("hello", "")).unwrap_err();
    assert_eq!(e.code(), AppError::ProtocolInvalidJson.code());
    let e = validate_clipboard(&clipboard_msg("hello", "not-a-hash")).unwrap_err();
    assert_eq!(e.code(), AppError::ProtocolInvalidJson.code());
    let e = validate_clipboard(&ping_msg()).unwrap_err();
    assert_eq!(e.code(), AppError::ProtocolInvalidJson.code());
}

#[test]
fn clipboard_hash_in_either_case_and_version() {
    let upper = hash("hello").to_uppercase();
    assert_eq!(
        validate_clipboard(&clipboard_msg("hello", &upper)).unwrap().content_hash,
        upper
    );
    let exact = "x".repeat(MAX_MESSAGE_BYTES as usize);
    assert!(validate_clipboard(&clipboard_msg(&exact, &hash(&exact))).is_ok());
    let mut m = clipboard_msg("hello", &hash("hello"));
    m.version = 2;
    assert_eq!(
        validate_clipboard(&m).unwrap_err(),
        AppError::ProtocolVersionMismatch
    );
}

#[test]
fn fragmented_reads_succeed() {
    let bytes = frame(hello_msg()).unwrap();
    for chunk in [1usize, 2, 7, 4096] {
        let m = read(&bytes, chunk).unwrap();
        assert_eq!(m.msg_type, MSG_HELLO);
    }
}

#[test]
fn zero_length_rejected() {
    assert!(matches!(
        read(&[0, 0, 0, 0], 4),
        Err(AppError::ProtocolInvalidLength)
    ));
}

#[test]
fn overlong_length_rejected_without_allocation() {
    assert!(matches!(
        read(&[0xFF, 0xFF, 0xFF, 0xFE], 4),
        Err(AppError::ProtocolMessageTooLarge)
    ));
    assert!(matches!(
        read(&[0xFF, 0xFF, 0xFF, 0xFF], 1),
        Err(AppError::ProtocolMessageTooLarge)
    ));
}

#[test]
fn truncated_body_detected() {
    assert!(matches!(
        read(&[0, 0, 0, 100, 1, 2, 3], 2),
        Err(AppError::ConnectionClosed)
    ));
}

#[test]
fn invalid_utf8_rejected() {
    assert!(matches!(
        read(&[0, 0, 0, 3, 0xFF, 0xFE, 0xFD], 2),
        Err(AppError::ProtocolInvalidUtf8)
    ));
}

#[test]
fn invalid_json_rejected() {
    let body = b"this is not json {";
    let mut data = Vec::new();
    data.extend_from_slice(&((body.len() as u32).to_be_bytes()));
    data.extend_from_slice(body);
    assert!(matches!(
        read(&data, 5),
        Err(AppError::ProtocolInvalidJson)
    ));
}

#[test]
fn unknown_message_type_decodes_safely() {
    let m = Message {
        version: PROTOCOL_VERSION,
        msg_type: "pair_request".into(),
        message_id: uuid::Uuid::new_v4().to_string(),
        timestamp: 1,
        device_id: PEER_ID.into(),
        payload: Json::Object(vec![Member {
            name: "future".into(),
            value: Json::Bool(true),
        }]),
        auth: None,
    };
    let bytes = frame(m).unwrap();
    let got = read(&bytes, 11).unwrap();
    assert_eq!(got.msg_type, "pair_request");
}

#[test]
fn version_mismatch_rejected() {
    let mut m = hello_msg();
    m.version = 2;
    let e = validate_hello(&m, LOCAL_ID).unwrap_err();
    assert!(matches!(e, AppError::ProtocolVersionMismatch));
}

#[test]
fn oversized_encode_rejected() {
    let big = "x".repeat(MAX_MESSAGE_BYTES as usize + 1);
    let m = Message::assemble(
        "clipboard_update",
        LOCAL_ID,
        Json::Object(vec![Member {
            name: "text".into(),
            value: Json::Text(big),
        }]),
        "id".into(),
        0,
    );
    assert!(matches!(frame(m), Err(AppError::ProtocolMessageTooLarge)));
    assert!(encode(&vec![b'x'; MAX_MESSAGE_BYTES as usize]).is_ok());
}

#[test]
fn null_auth_roundtrip() {
    let m = ping_msg();
    assert!(m.auth.is_none());
    let text = String::from_utf8(print(&m.into_json())).unwrap();
    assert!(text.contains("\"auth\":null"));
    let back = parse(&text).unwrap();
    assert!(back.auth.is_none());
}

#[test]
fn message_is_printed_in_order() {
    let m = Message::assemble("t", "d", Json::Null, "i".into(), 5);
    let text = String::from_utf8(print(&m.into_json())).unwrap();
    assert_eq!(
        text,
        r#"{"version":1,"type":"t","message_id":"i","timestamp":5,"device_id":"d","payload":null,"auth":null}"#
    );
}

#[test]
fn valid_hello_passes() {
    let p = validate_hello(&hello_msg(), LOCAL_ID).unwrap();
    assert_eq!(p.device_id, PEER_ID);
    assert_eq!(p.device_name, "DESKTOP-B");
    assert_eq!(p.protocol_version, PROTOCOL_VERSION);
}

#[test]
fn hello_invalid_uuid_rejected() {
    assert!(matches!(
        validate_hello(&hello_with("not-a-uuid", "B", PROTOCOL_VERSION), LOCAL_ID),
        Err(AppError::InvalidHello)
    ));
}

#[test]
fn hello_empty_name_rejected() {
    for name in ["", "   "] {
        assert!(matches!(
            validate_hello(&hello_with(PEER_ID, name, PROTOCOL_VERSION), LOCAL_ID),
            Err(AppError::InvalidHello)
        ));
    }
}

#[test]
fn hello_long_name_rejected() {
    let name = "N".repeat(DEVICE_NAME_MAX_LEN + 1);
    assert!(matches!(
        validate_hello(&hello_with(PEER_ID, &name, PROTOCOL_VERSION), LOCAL_ID),
        Err(AppError::InvalidHello)
    ));
    let ok = hello_with(PEER_ID, &"N".repeat(DEVICE_NAME_MAX_LEN), PROTOCOL_VERSION);
    assert!(validate_hello(&ok, LOCAL_ID).is_ok());
}

#[test]
fn hello_same_device_id_rejected() {
    assert!(matches!(
        validate_hello(&hello_with(LOCAL_ID, "B", PROTOCOL_VERSION), LOCAL_ID),
        Err(AppError::InvalidHello)
    ));
}

#[test]
fn hello_payload_version_mismatch_rejected() {
    assert!(matches!(
        validate_hello(&hello_with(PEER_ID, "B", 2), LOCAL_ID),
        Err(AppError::InvalidHello)
    ));
}

#[test]
fn hello_of_another_type_rejected() {
    assert_eq!(
        validate_hello(&ping_msg(), LOCAL_ID).unwrap_err(),
        AppError::InvalidHello
    );
}

#[test]
fn payloads_are_read_from_objects_and_lists() {
    let of = |text: &str| {
        let v: serde_json::Value = serde_json::from_str(text).unwrap();
        Message::assemble(MSG_PING, PEER_ID, to_json(&v), "i".into(), 0)
    };
    let want = PingPayload {
        ping_id: "x".into(),
        sent_at: 7,
    };
    assert_eq!(
        parse_ping(&of(r#"{"sent_at":7,"ping_id":"x","more":[1]}"#)),
        Some(want)
    );
    assert!(parse_pong(&of(r#"["x",7]"#)).is_some());
    assert!(parse_ping(&of(r#"["x",7,1]"#)).is_none());
    assert!(parse_ping(&of(r#"["x"]"#)).is_none());
    assert!(parse_ping(&of(r#"{"ping_id":"x"}"#)).is_none());
    assert!(parse_ping(&of(r#"{"ping_id":"x","sent_at":-7}"#)).is_none());
    assert!(parse_ping(&of(r#"{"ping_id":"x","sent_at":7.0}"#)).is_none());
    assert!(parse_ping(&of(r#"{"ping_id":5,"sent_at":7}"#)).is_none());
    assert!(parse_ping(&of("null")).is_none());
    assert_eq!(
        parse_disconnect(&disconnect_msg()).unwrap().reason,
        "user_requested"
    );
}

#[test]
fn payload_members() {
    let text = |j: Json| String::from_utf8(print(&j)).unwrap();
    assert_eq!(
        text(ClipboardPayload { text: "t".into(), content_hash: "h".into() }.to_json()),
        r#"{"content_hash":"h","text":"t"}"#
    );
    assert_eq!(
        text(ErrorPayload { reason: "version_mismatch".into() }.to_json()),
        r#"{"reason":"version_mismatch"}"#
    );
}

#[test]
fn messages_that_are_none() {
    let good = r#"{"version":1,"type":"t","message_id":"i","timestamp":5,"device_id":"d","payload":{}}"#;
    let m = parse(good).unwrap();
    assert!(m.auth.is_none());
    assert_eq!(m.timestamp, 5);
    let extra = r#"{"x":1,"version":1,"type":"t","message_id":"i","timestamp":5,"device_id":"d","payload":null,"auth":"a"}"#;
    assert_eq!(parse(extra).unwrap().auth.as_deref(), Some("a"));
    assert!(parse(r#"[1,"t","i",5,"d",{},null]"#).is_ok());
    for bad in [
        "{}",
        "[]",
        "1",
        r#"[1,"t","i",5,"d",{}]"#,
        r#"{"version":1,"type":"t","message_id":"i","timestamp":5,"device_id":"d"}"#,
        r#"{"version":4294967296,"type":"t","message_id":"i","timestamp":5,"device_id":"d","payload":{}}"#,
        r#"{"version":1.0,"type":"t","message_id":"i","timestamp":5,"device_id":"d","payload":{}}"#,
        r#"{"version":1,"type":"t","message_id":"i","timestamp":5,"device_id":"d","payload":{},"auth":1}"#,
        r#"{"version":1,"type":null,"message_id":"i","timestamp":5,"device_id":"d","payload":{}}"#,
    ] {
        assert_eq!(parse(bad).unwrap_err(), AppError::ProtocolInvalidJson, "{bad}");
    }
    let mut twice = match ping_msg().into_json() {
        Json::Object(ms) => ms,
        _ => panic!("an object"),
    };
    twice.push(Member {
        name: "version".into(),
        value: Json::Unsigned(1),
    });
    assert_eq!(
        Message::from_json(Json::Object(twice)).unwrap_err(),
        AppError::ProtocolInvalidJson
    );
}

#[test]
fn frames_follow_each_other() {
    let mut data = encode("第一".as_bytes()).unwrap();
    let first = data.len();
    data.extend_from_slice(&encode(b"second").unwrap());
    assert_eq!(read_message(&data), Ok(("第一".to_string(), first)));
    assert_eq!(read_message(&data[first..]), Ok(("second".to_string(), 10)));
    assert_eq!(read_message(&[]), Err(AppError::ConnectionClosed));
    assert_eq!(read_message(&[0, 0, 0]), Err(AppError::ConnectionClosed));
    let mut reader = FrameReader::new();
    assert_eq!(reader.wanted(), 4);
    assert_eq!(reader.feed(&[0, 0, 1]), Progress::Partial);
    assert_eq!(reader.wanted(), 1);
    assert_eq!(reader.feed(&[2]), Progress::Partial);
    assert_eq!(reader.wanted(), 0x102);
}

#[test]
fn largest_frame_is_read() {
    let body = vec![b'x'; MAX_MESSAGE_BYTES as usize];
    let data = encode(&body).unwrap();
    assert_eq!(&data[..4], &[0, 0x10, 0, 0]);
    let (text, used) = read_message(&data).unwrap();
    assert_eq!(text.len(), body.len());
    assert_eq!(used, data.len());
    assert_eq!(
        read_message(&[0, 0x10, 0, 1, b'x']),
        Err(AppError::ProtocolMessageTooLarge)
    );
}

#[test]
fn clock_readings() {
    assert_eq!(millis_or_zero(None), 0);
    assert_eq!(millis_or_zero(Some(5)), 5);
    assert_eq!(millis_or_zero(Some(1u128 << 64 | 9)), 9);
    assert!(now_millis() > 1_600_000_000_000);
    assert_eq!(cliplink::config::seconds_or_zero(None), 0);
    assert_eq!(cliplink::config::seconds_or_zero(Some(7)), 7);
    assert!(cliplink::config::now_seconds() > 1_600_000_000);
}

#[test]
fn other_id_same_message() {
    let m = ping_msg().with_message_id("fixed".to_string());
    assert_eq!(m.message_id, "fixed");
    assert_eq!(m.msg_type, MSG_PING);
    assert!(uuid::Uuid::parse_str(&ping_msg().message_id).is_ok());
}
