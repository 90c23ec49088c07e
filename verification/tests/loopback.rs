use cliplink::error::AppError;
use cliplink::json::{Json, Member};
use cliplink::network::{
    Action, Conn, ConnEvent, ConnectionStatusEvent, ManagerConfig, NetworkLatencyEvent,
    NetworkManager, Surroundings,
};
use cliplink::protocol::{
    encode, parse_clipboard, parse_disconnect, parse_hello, parse_ping, parse_pong, sha256_hex,
    validate_hello, ClipboardPayload, DisconnectPayload, FrameReader, HelloPayload, Message,
    PingPayload, PongPayload, Progress,
};
use cliplink::state::ConnectionStatus;

const LOCAL_DEVICE_ID: &str = "550e8400-e29b-41d4-a716-446655440000";
const PEER_DEVICE_ID: &str = "6ba7b810-9dad-41d1-80b4-00c04fd430c8";

fn to_json(v: &serde_json::Value) -> Json {
    match v {
        serde_json::Value::Null => Json::Null,
        serde_json::Value::Bool(b) => Json::Bool(*b),
        serde_json::Value::Number(n) => match (n.as_u64(), n.as_i64()) {
            (Some(u), _) => Json::Unsigned(u),
            (None, Some(i)) => Json::Negative(i),
            _ => Json::Fraction(n.to_string()),
        },
        serde_json::Value::String(s) => Json::Text(s.clone()),
        serde_json::Value::Array(a) => Json::List(a.iter().map(to_json).collect()),
        serde_json::Value::Object(m) => Json::Object(
            m.iter()
                .map(|(k, v)| Member {
                    name: k.clone(),
                    value: to_json(v),
                })
                .collect(),
        ),
    }
}

fn to_value(j: &Json) -> serde_json::Value {
    match j {
        Json::Null => serde_json::Value::Null,
        Json::Bool(b) => serde_json::Value::Bool(*b),
        Json::Unsigned(n) => serde_json::Value::from(*n),
        Json::Negative(n) => serde_json::Value::from(*n),
        Json::Fraction(t) => serde_json::from_str(t).unwrap(),
        Json::Text(s) => serde_json::Value::String(s.clone()),
        Json::List(v) => serde_json::Value::Array(v.iter().map(to_value).collect()),
        Json::Object(ms) => serde_json::Value::Object(
            ms.iter().map(|m| (m.name.clone(), to_value(&m.value))).collect(),
        ),
    }
}

fn body(m: Message) -> Vec<u8> {
    serde_json::to_vec(&to_value(&m.into_json())).unwrap()
}

/// A device with its one connection: its actions are carried out here, with what it sends on a
/// wire of bytes.
struct Node {
    net: NetworkManager,
    conn: Option<Conn>,
    reader: FrameReader,
    wire: Vec<u8>,
    events: Vec<ConnectionStatusEvent>,
    latency: Vec<NetworkLatencyEvent>,
    landed: Vec<ClipboardPayload>,
    dialed: Vec<(u32, u16)>,
    beating: bool,
    closed: bool,
    retries: usize,
}

impl Node {
    fn new() -> Node {
        Node {
            net: NetworkManager::new(
                LOCAL_DEVICE_ID.to_string(),
                "TEST-A".to_string(),
                ManagerConfig {
                    port: 0,
                    heartbeat_secs: 1,
                    handshake_timeout_ms: 500,
                    connect_timeout_ms: 500,
                    reconnect: false,
                },
            ),
            conn: None,
            reader: FrameReader::new(),
            wire: Vec::new(),
            events: Vec::new(),
            latency: Vec::new(),
            landed: Vec::new(),
            dialed: Vec::new(),
            beating: false,
            closed: false,
            retries: 0,
        }
    }

    fn around() -> Surroundings {
        Surroundings {
            zt_ip: Some("192.168.191.180".to_string()),
            peer_ip: Some("192.168.191.181".to_string()),
        }
    }

    fn last(&self) -> &ConnectionStatusEvent {
        self.events.last().unwrap()
    }

    fn perform(&mut self, actions: Vec<Action>) {
        for a in actions {
            match a {
                Action::Dial { ip, port } => self.dialed.push((ip, port)),
                Action::Send(m) => self.wire.extend(encode(&body(m)).unwrap()),
                Action::SendHello(m) => {
                    self.wire.extend(encode(&body(m)).unwrap());
                    self.happen(ConnEvent::HelloSent);
                }
                Action::StartHeartbeat => self.beating = true,
                Action::Announce(ev) => self.events.push(ev),
                Action::Latency(ev) => self.latency.push(ev),
                Action::Land(p) => self.landed.push(p),
                Action::Close => self.closed = true,
                Action::Retry(_) => self.retries += 1,
            }
        }
    }

    fn happen(&mut self, e: ConnEvent) {
        let conn = self.conn.unwrap();
        let actions = self.net.drive(conn, e, &Node::around());
        self.perform(actions);
    }

    fn accept(&mut self, addr: &str) {
        let (conn, actions) = self.net.accept(addr).unwrap();
        self.conn = Some(conn);
        self.closed = false;
        self.perform(actions);
        self.happen(ConnEvent::Begin);
    }

    fn connect(&mut self, ip: &str, port: u16) {
        let (conn, actions) = self.net.connect(ip, port).unwrap();
        self.conn = Some(conn);
        self.closed = false;
        self.perform(actions);
        self.happen(ConnEvent::Begin);
    }

    fn disconnect(&mut self) {
        let actions = self.net.disconnect(&Node::around());
        self.perform(actions);
    }

    fn bytes(&mut self, data: &[u8]) {
        let mut at = 0;
        while at < data.len() && !self.closed {
            let n = self.reader.wanted().min(data.len() - at);
            let step = self.reader.feed(&data[at..at + n]);
            at += n;
            match step {
                Progress::Partial => {}
                Progress::Complete(text) => {
                    match serde_json::from_str::<serde_json::Value>(&text)
                        .map_err(|_| AppError::ProtocolInvalidJson)
                        .and_then(|v| Message::from_json(to_json(&v)))
                    {
                        Ok(msg) => self.happen(ConnEvent::Received { msg, now: 1_000_000 }),
                        Err(e) => self.happen(ConnEvent::ReadFailed(e)),
                    }
                }
                Progress::Refused(e) => self.happen(ConnEvent::ReadFailed(e)),
            }
        }
    }

    fn message(&mut self, m: Message) {
        let data = encode(&body(m)).unwrap();
        self.bytes(&data);
    }

    fn tick(&mut self, id: &str, now: u64) {
        self.happen(ConnEvent::Tick {
            ping_id: id.to_string(),
            now,
        });
    }

    /// What the device has sent since the last look.
    fn sent(&mut self) -> Vec<Message> {
        let mut out = Vec::new();
        let mut reader = FrameReader::new();
        let data = std::mem::take(&mut self.wire);
        let mut at = 0;
        while at < data.len() {
            let n = reader.wanted();
            let step = reader.feed(&data[at..at + n]);
            at += n;
            match step {
                Progress::Partial => {}
                Progress::Complete(text) => {
                    let v: serde_json::Value = serde_json::from_str(&text).unwrap();
                    out.push(Message::from_json(to_json(&v)).unwrap());
                }
                Progress::Refused(e) => panic!("{e:?}"),
            }
        }
        out
    }
}

fn peer_hello() -> Message {
    Message::new(
        "hello",
        PEER_DEVICE_ID,
        &HelloPayload {
            device_id: PEER_DEVICE_ID.to_string(),
            device_name: "TEST-PEER-B".to_string(),
            protocol_version: 1,
        },
    )
    .unwrap()
}

fn establish_inbound() -> Node {
    let mut n = Node::new();
    n.accept("127.0.0.1:50123");
    assert_eq!(n.last().status, ConnectionStatus::Connecting);
    n.message(peer_hello());
    let sent = n.sent();
    assert_eq!(sent.len(), 1);
    validate_hello(&sent[0], PEER_DEVICE_ID).expect("a good hello");
    let hp = parse_hello(&sent[0]).unwrap();
    assert_eq!(hp.device_id, LOCAL_DEVICE_ID);
    assert_eq!(hp.device_name, "TEST-A");
    assert_eq!(hp.protocol_version, 1);
    n
}

#[test]
fn inbound_hello_ping_pong() {
    let mut n = establish_inbound();
    let ev = n.last().clone();
    assert_eq!(ev.status, ConnectionStatus::Connected);
    let peer = ev.peer.unwrap();
    assert_eq!(peer.device_name, "TEST-PEER-B");
    assert_eq!(peer.ip, "127.0.0.1:50123");
    assert!(n.beating);

    n.message(
        Message::new(
            "ping",
            PEER_DEVICE_ID,
            &PingPayload {
                ping_id: "it-ping-1".into(),
                sent_at: 1789550000000,
            },
        )
        .unwrap(),
    );
    let sent = n.sent();
    assert_eq!(sent[0].msg_type, "pong");
    let pp = parse_pong(&sent[0]).unwrap();
    assert_eq!(pp.ping_id, "it-ping-1");
    assert_eq!(pp.sent_at, 1789550000000);

    n.tick("own-ping", 999_982);
    let sent = n.sent();
    assert_eq!(sent[0].msg_type, "ping");
    let p = parse_ping(&sent[0]).unwrap();
    assert_eq!(p.ping_id, "own-ping");
    n.message(
        Message::new(
            "pong",
            PEER_DEVICE_ID,
            &PongPayload {
                ping_id: p.ping_id,
                sent_at: p.sent_at,
            },
        )
        .unwrap(),
    );
    assert_eq!(n.latency.len(), 1);
    assert_eq!(n.latency[0].latency_ms, 18);
    assert_eq!(n.latency[0].generation, n.conn.unwrap().generation);
    assert_eq!(n.last().status, ConnectionStatus::Connected);

    n.message(
        Message::new(
            "disconnect",
            PEER_DEVICE_ID,
            &DisconnectPayload {
                reason: "user_requested".into(),
            },
        )
        .unwrap(),
    );
    assert_eq!(n.last().status, ConnectionStatus::Offline);
    assert!(n.last().status_text.contains("对方已断开"));
    assert!(!n.net.is_busy());
    assert!(n.closed);
}

#[test]
fn outbound_connect_and_user_disconnect() {
    let mut n = Node::new();
    n.connect("127.0.0.1", 40000);
    assert_eq!(n.dialed, vec![(0x7f00_0001, 40000)]);
    n.happen(ConnEvent::Dialed);
    let sent = n.sent();
    assert_eq!(sent[0].msg_type, "hello");
    validate_hello(&sent[0], PEER_DEVICE_ID).unwrap();
    n.message(peer_hello());
    assert_eq!(n.last().status, ConnectionStatus::Connected);
    assert_eq!(n.last().peer.as_ref().unwrap().device_name, "TEST-PEER-B");
    n.disconnect();
    let sent = n.sent();
    assert_eq!(sent[0].msg_type, "disconnect");
    assert_eq!(parse_disconnect(&sent[0]).unwrap().reason, "user_requested");
    assert_eq!(n.last().status, ConnectionStatus::Offline);
    assert!(n.last().error_code.is_none());
    assert_eq!(n.last().status_text, "等待输入对方 IP。");
    assert!(!n.net.is_busy());
    // What comes late from the connection that ended changes nothing.
    let said = n.events.len();
    n.message(peer_hello());
    n.happen(ConnEvent::Stopped);
    assert_eq!(n.events.len(), said);
}

#[test]
fn overlong_frame_closes_connection() {
    let mut n = establish_inbound();
    assert_eq!(n.last().status, ConnectionStatus::Connected);
    n.bytes(&[0x00, 0x10, 0x00, 0x01, b'x']);
    assert_eq!(n.last().status, ConnectionStatus::Error);
    assert_eq!(
        n.last().error_code.as_deref(),
        Some("protocol_message_too_large")
    );
    assert!(!n.net.is_busy());
}

#[test]
fn invalid_json_and_utf8_no_crash() {
    let mut n = establish_inbound();
    assert_eq!(n.last().status, ConnectionStatus::Connected);
    let text = b"this is not json";
    let mut frame = Vec::new();
    frame.extend_from_slice(&((text.len() as u32).to_be_bytes()));
    frame.extend_from_slice(text);
    n.bytes(&frame);
    assert_eq!(n.last().status, ConnectionStatus::Error);
    assert_eq!(n.last().error_code.as_deref(), Some("protocol_invalid_json"));

    let mut n2 = establish_inbound();
    n2.bytes(&[0, 0, 0, 3, 0xFF, 0xFE, 0xFD]);
    assert_eq!(n2.last().status, ConnectionStatus::Error);
    assert_eq!(n2.last().error_code.as_deref(), Some("protocol_invalid_utf8"));
}

#[test]
fn no_hello_handshake_timeout() {
    let mut n = Node::new();
    n.accept("127.0.0.1:50123");
    n.happen(ConnEvent::HelloTimedOut);
    assert_eq!(n.last().status, ConnectionStatus::Error);
    assert_eq!(n.last().error_code.as_deref(), Some("handshake_timeout"));
    assert!(!n.net.is_busy());

    let mut n2 = Node::new();
    n2.connect("127.0.0.1", 40000);
    n2.happen(ConnEvent::Dialed);
    n2.happen(ConnEvent::HelloTimedOut);
    assert_eq!(n2.last().status, ConnectionStatus::Error);
    assert_eq!(n2.last().error_code.as_deref(), Some("handshake_timeout"));
    assert!(!n2.net.is_busy());
}

#[test]
fn peer_socket_close_detected() {
    let mut n = establish_inbound();
    assert_eq!(n.last().status, ConnectionStatus::Connected);
    n.happen(ConnEvent::ReadFailed(AppError::ConnectionClosed));
    assert_eq!(n.last().status, ConnectionStatus::Error);
    assert_eq!(n.last().status_text, "连接已中断。");
    assert_eq!(n.last().error_code.as_deref(), Some("connection_closed"));
    assert!(!n.net.is_busy());
}

#[test]
fn inbound_rejected_when_active() {
    let mut n = establish_inbound();
    assert_eq!(n.last().status, ConnectionStatus::Connected);
    assert!(matches!(
        n.net.accept("127.0.0.1:50124"),
        Err(AppError::AlreadyConnected)
    ));
    assert_eq!(n.last().status, ConnectionStatus::Connected);
    n.disconnect();
    assert_eq!(n.last().status, ConnectionStatus::Offline);
}

#[test]
fn outbound_connect_refused() {
    let mut n = Node::new();
    n.connect("127.0.0.1", 40000);
    n.happen(ConnEvent::DialFailed);
    assert_eq!(n.last().status, ConnectionStatus::Error);
    assert_eq!(n.last().error_code.as_deref(), Some("connect_failed"));
    assert!(!n.net.is_busy());
}

#[test]
fn outbound_unreachable_fails_bounded() {
    let mut n = Node::new();
    n.connect("192.0.2.1", 45888);
    n.happen(ConnEvent::DialTimedOut);
    assert_eq!(n.last().status, ConnectionStatus::Error);
    assert_eq!(n.last().error_code.as_deref(), Some("connect_timeout"));
    assert!(!n.net.is_busy());
}

fn clipboard_msg_with_id(message_id: &str, text: &str) -> Message {
    Message::new(
        "clipboard_update",
        PEER_DEVICE_ID,
        &ClipboardPayload {
            text: text.to_string(),
            content_hash: sha256_hex(text.as_bytes()),
        },
    )
    .unwrap()
    .with_message_id(message_id.to_string())
}

#[test]
fn clipboard_update_flow_and_dedup() {
    let mut n = establish_inbound();
    let unicode = "你好，世界 🎉\n第二行\tTab";
    n.message(clipboard_msg_with_id("cb-1", unicode));
    assert_eq!(n.landed.len(), 1);
    assert_eq!(n.landed[0].text, unicode);
    assert_eq!(n.landed[0].content_hash, sha256_hex(unicode.as_bytes()));

    n.message(clipboard_msg_with_id("cb-1", unicode));
    assert_eq!(n.landed.len(), 1);

    n.message(clipboard_msg_with_id("cb-2", unicode));
    assert_eq!(n.landed.len(), 2);

    n.message(clipboard_msg_with_id("cb-bad", ""));
    assert_eq!(n.landed.len(), 2);
    assert_eq!(n.last().status, ConnectionStatus::Connected);

    let tampered = Message::new(
        "clipboard_update",
        PEER_DEVICE_ID,
        &ClipboardPayload {
            text: "real-content".to_string(),
            content_hash: "deadbeef".to_string(),
        },
    )
    .unwrap()
    .with_message_id("cb-tampered".to_string());
    n.message(tampered);
    assert_eq!(n.landed.len(), 2);
    assert_eq!(n.last().status, ConnectionStatus::Connected);

    n.disconnect();
    assert_eq!(n.last().status, ConnectionStatus::Offline);
}

#[test]
fn outbound_clipboard_update_reaches_peer() {
    let mut n = establish_inbound();
    let text = "A → B 同步 🎉";
    let msg = Message::new(
        "clipboard_update",
        LOCAL_DEVICE_ID,
        &ClipboardPayload {
            text: text.to_string(),
            content_hash: sha256_hex(text.as_bytes()),
        },
    )
    .unwrap();
    let (conn, frame) = n.net.send_message(&body(msg)).unwrap();
    assert_eq!(Some(conn), n.conn);
    n.wire.extend(frame);
    let sent = n.sent();
    assert_eq!(sent[0].msg_type, "clipboard_update");
    let p = parse_clipboard(&sent[0]).unwrap();
    assert_eq!(p.text, text);
    assert_eq!(p.content_hash, sha256_hex(text.as_bytes()));
    n.disconnect();
    assert_eq!(n.last().status, ConnectionStatus::Offline);
}

#[test]
fn other_version_is_told_and_turned_away() {
    let mut n = Node::new();
    n.accept("10.0.0.2:5");
    let mut hello = peer_hello();
    hello.version = 2;
    n.message(hello);
    let sent = n.sent();
    assert_eq!(sent[0].msg_type, "error");
    assert_eq!(parse_disconnect(&sent[0]).unwrap().reason, "version_mismatch");
    assert_eq!(
        n.last().error_code.as_deref(),
        Some("protocol_version_mismatch")
    );
    assert!(n.closed && !n.net.is_busy());
}

#[test]
fn bad_hello_is_turned_away() {
    let mut n = Node::new();
    n.accept("10.0.0.2:5");
    n.message(Message::new("hello", "x", &HelloPayload {
        device_id: LOCAL_DEVICE_ID.into(),
        device_name: "B".into(),
        protocol_version: 1,
    }).unwrap());
    assert_eq!(n.last().error_code.as_deref(), Some("invalid_hello"));
    assert!(n.sent().is_empty());
}

#[test]
fn hello_that_cannot_be_sent() {
    let mut n = Node::new();
    n.connect("10.0.0.1", 1);
    let actions = n.net.drive(n.conn.unwrap(), ConnEvent::Dialed, &Node::around());
    assert!(matches!(actions[..], [Action::SendHello(_)]));
    n.happen(ConnEvent::HelloUnsent(AppError::ProtocolMessageTooLarge));
    assert_eq!(
        n.last().error_code.as_deref(),
        Some("protocol_message_too_large")
    );
}

#[test]
fn silent_peer_is_lost_after_three_pings() {
    let mut n = establish_inbound();
    for (i, id) in ["a", "b", "c"].iter().enumerate() {
        n.tick(id, i as u64);
        assert!(!n.closed);
        assert_eq!(n.sent().len(), 1);
    }
    n.tick("d", 9);
    assert!(n.closed);
    assert!(n.sent().is_empty());
    assert!(n.net.is_busy());
    n.happen(ConnEvent::Stopped);
    assert_eq!(n.last().status, ConnectionStatus::Error);
    assert_eq!(n.last().error_code.as_deref(), Some("heartbeat_timeout"));
    assert!(!n.net.is_busy());
}

#[test]
fn messages_that_end_an_open_connection() {
    let end = |m: Message| {
        let mut n = establish_inbound();
        n.message(m);
        assert!(!n.net.is_busy());
        n.last().error_code.clone()
    };
    let of = |t: &str, p: Json| Message::assemble(t, PEER_DEVICE_ID, p, "i".into(), 0);
    assert_eq!(end(of("ping", Json::Null)).as_deref(), Some("protocol_invalid_json"));
    assert_eq!(end(of("pong", Json::Null)).as_deref(), Some("protocol_invalid_json"));
    assert_eq!(end(of("error", Json::Null)).as_deref(), Some("connection_closed"));
    let mut other = of("later", Json::Null);
    other.version = 2;
    assert_eq!(end(other).as_deref(), Some("protocol_version_mismatch"));
}

#[test]
fn messages_that_do_nothing() {
    let mut n = establish_inbound();
    let said = n.events.len();
    n.message(peer_hello());
    n.message(Message::assemble("later", PEER_DEVICE_ID, Json::Null, "i".into(), 0));
    n.message(Message::new("pong", PEER_DEVICE_ID, &PongPayload {
        ping_id: "never sent".into(),
        sent_at: 0,
    }).unwrap());
    assert_eq!(n.events.len(), said);
    assert!(n.sent().is_empty() && n.latency.is_empty() && n.landed.is_empty());
    assert!(n.net.is_busy() && !n.closed);
}

#[test]
fn lost_connection_is_retried() {
    let mut n = establish_inbound();
    n.net.set_reconnect(true);
    n.happen(ConnEvent::ReadFailed(AppError::ConnectionClosed));
    assert_eq!(n.last().status, ConnectionStatus::Reconnecting);
    assert_eq!(n.retries, 1);
    assert!(n.last().error_code.is_none());
}
