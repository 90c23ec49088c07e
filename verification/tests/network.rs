use cliplink::error::AppError;
use cliplink::network::{
    reconnect_delay_ms, validate_peer_target, Action, CloseCause, ConnEvent, ConnectionStatusEvent,
    HeartbeatState, ListenAddr, ListenPlan, ManagerConfig, NetworkManager, ReconnectPlan,
    Surroundings, MAX_RECENT_MESSAGE_IDS,
};
use cliplink::state::ConnectionStatus;

fn test_manager() -> NetworkManager {
    NetworkManager::new(
        "550e8400-e29b-41d4-a716-446655440000".into(),
        "TEST-A".into(),
        ManagerConfig {
            port: 0,
            heartbeat_secs: 1,
            handshake_timeout_ms: 300,
            connect_timeout_ms: 300,
            reconnect: false,
        },
    )
}

fn alone() -> Surroundings {
    Surroundings {
        zt_ip: None,
        peer_ip: None,
    }
}

fn with_peer() -> Surroundings {
    Surroundings {
        zt_ip: None,
        peer_ip: Some("192.168.191.181".into()),
    }
}

fn announced(actions: &[Action]) -> Option<&ConnectionStatusEvent> {
    actions.iter().rev().find_map(|a| match a {
        Action::Announce(ev) => Some(ev),
        _ => None,
    })
}

fn plan(actions: Vec<Action>) -> Option<ReconnectPlan> {
    actions.into_iter().find_map(|a| match a {
        Action::Retry(p) => Some(p),
        _ => None,
    })
}

#[test]
fn claim_protects_single_channel() {
    let mut m = test_manager();
    let c1 = m.claim_conn().unwrap();
    assert!(matches!(m.claim_conn(), Err(AppError::AlreadyConnected)));
    let done = m.finalize(c1, CloseCause::User, &alone());
    assert!(!m.is_busy());
    assert_eq!(announced(&done).unwrap().status, ConnectionStatus::Offline);
}

#[test]
fn stale_generation_cannot_touch_new_connection() {
    let mut m = test_manager();
    let c1 = m.claim_conn().unwrap();
    let first = m.finalize(c1, CloseCause::User, &alone());
    assert_eq!(announced(&first).unwrap().generation, c1.generation);
    let c2 = m.claim_conn().unwrap();
    assert_ne!(c2.generation, c1.generation);
    assert!(m.finalize(c1, CloseCause::Lost, &alone()).is_empty());
    assert!(m.is_busy());
    assert!(m.generation_is_current(c2.generation));
    assert!(!m.generation_is_current(c1.generation));
    let done = m.finalize(c2, CloseCause::Peer, &alone());
    assert!(!m.is_busy());
    let ev = announced(&done).unwrap();
    assert_eq!(ev.generation, c2.generation);
    assert_eq!(ev.status, ConnectionStatus::Offline);
}

#[test]
fn heartbeat_pong_keeps_connection() {
    let mut hb = HeartbeatState::default();
    let (p1, t1) = hb.on_tick();
    assert!(!t1);
    let id = p1.unwrap().0;
    let rtt = hb.on_pong(&id).expect("an answer");
    assert!(rtt < 5000, "{rtt}");
    let (p2, t2) = hb.on_tick();
    assert!(!t2);
    assert!(p2.is_some());
    assert_eq!(hb.misses(), 0);
}

#[test]
fn heartbeat_mismatched_pong_does_not_reset() {
    let mut hb = HeartbeatState::default();
    let (p1, _) = hb.on_tick();
    assert!(hb.on_pong("other-id").is_none());
    let (_, _) = hb.on_tick();
    assert_eq!(hb.misses(), 1);
    assert!(hb.on_pong(&p1.unwrap().0).is_none());
    assert_eq!(hb.misses(), 1);
}

#[test]
fn heartbeat_pong_returns_rtt_only_once() {
    let mut hb = HeartbeatState::default();
    let (p1, _) = hb.on_tick();
    let id = p1.unwrap().0;
    assert!(hb.on_pong(&id).is_some());
    assert!(hb.on_pong(&id).is_none());
    assert_eq!(hb.misses(), 0);
}

#[test]
fn heartbeat_three_misses_timeout() {
    let mut hb = HeartbeatState::default();
    let (_, t1) = hb.on_tick();
    assert!(!t1);
    let (_, t2) = hb.on_tick();
    assert!(!t2);
    let (_, t3) = hb.on_tick();
    assert!(!t3);
    let (p4, t4) = hb.on_tick();
    assert!(t4);
    assert!(p4.is_none());
}

#[test]
fn round_trip_by_own_clock() {
    let mut hb = HeartbeatState::default();
    assert_eq!(hb.tick_with("p".into(), 1000), (Some(("p".to_string(), 1000)), false));
    assert_eq!(hb.pong_at("q", 1010), None);
    assert_eq!(hb.pong_at("p", 1018), Some(18));
    hb.tick_with("r".into(), 2000);
    assert_eq!(hb.pong_at("r", 1999), Some(0));
}

#[test]
fn fresh_pings_differ() {
    let mut hb = HeartbeatState::default();
    let a = hb.on_tick().0.unwrap().0;
    let b = hb.on_tick().0.unwrap().0;
    assert_ne!(a, b);
    assert!(uuid::Uuid::parse_str(&a).is_ok());
}

#[test]
fn duplicate_message_ids_dropped() {
    let mut m = test_manager();
    assert!(!m.is_duplicate_message("id-1"));
    assert!(m.is_duplicate_message("id-1"));
    for i in 0..MAX_RECENT_MESSAGE_IDS {
        m.is_duplicate_message(&format!("gen-{i}"));
    }
    assert!(!m.is_duplicate_message("id-1"));
    // The memory holds its limit: of the ids above, the first one had to leave for the last.
    for i in 1..MAX_RECENT_MESSAGE_IDS {
        assert!(m.is_duplicate_message(&format!("gen-{i}")));
    }
    assert!(!m.is_duplicate_message("gen-0"));
}

#[test]
fn validate_peer_target_rules() {
    let zt = Some("192.168.191.180");
    assert!(validate_peer_target("10.147.17.36", zt).is_ok());
    assert!(validate_peer_target(" 10.147.17.36 ", zt).is_ok());
    for bad in [
        "abc",
        "999.1.1.1",
        "1.2.3",
        "1.2.3.4.5",
        "",
        "0.0.0.0",
        "127.0.0.1",
        "169.254.10.11",
        "255.255.255.255",
        "224.0.0.5",
        "240.1.1.1",
    ] {
        assert!(
            matches!(validate_peer_target(bad, zt), Err(AppError::InvalidPeerIp)),
            "{bad:?}"
        );
    }
    assert!(matches!(
        validate_peer_target("192.168.191.180", zt),
        Err(AppError::SelfConnection)
    ));
    assert!(validate_peer_target("192.168.191.181", zt).is_ok());
    assert!(validate_peer_target("10.0.0.1", None).is_ok());
    assert_eq!(ManagerConfig::production(45888).port, 45888);
    assert_eq!(cliplink::config::DEFAULT_LISTEN_PORT, 45888);
    assert_eq!(validate_peer_target("10.147.17.36", zt), Ok(0x0a93_1124));
    assert_eq!(
        validate_peer_target("10.0.0.1", Some(" 10.0.0.1\n")),
        Err(AppError::SelfConnection)
    );
}

#[test]
fn reconnect_backoff_sequence_and_jitter() {
    let id = "550e8400-e29b-41d4-a716-446655440000";
    let expected_bases = [2000u64, 5000, 10000, 20000, 30000, 30000];
    for (attempt, base) in expected_bases.iter().enumerate() {
        let d = reconnect_delay_ms(id, attempt as u32);
        let limit = base + 1500;
        assert!(d >= *base && d < limit, "{attempt}: {d}");
    }
    assert_ne!(
        reconnect_delay_ms("550e8400-550e-41d4-a716-446655440000", 0),
        reconnect_delay_ms("6ba7b810-9dad-11d1-80b4-00c04fd430c8", 0)
    );
}

#[test]
fn delay_exactly() {
    assert_eq!(reconnect_delay_ms("", 0), 2000);
    assert_eq!(reconnect_delay_ms("a", 1), 5097);
    assert_eq!(reconnect_delay_ms("ab", 9), 30000 + (97 * 31 + 98) % 1500);
    let id = "550e8400-e29b-41d4-a716-446655440000";
    let mixed = id
        .bytes()
        .fold(0u64, |acc, b| acc.wrapping_mul(31).wrapping_add(b as u64));
    assert_eq!(reconnect_delay_ms(id, 3), 20000 + mixed % 1500);
}

#[test]
fn reconnect_toggled_by_set_reconnect() {
    let mut m = test_manager();
    let peer = Some("192.168.191.181".to_string());
    m.set_reconnect(false);
    assert!(m.start_reconnect(&peer).is_none());
    m.set_reconnect(true);
    assert!(m.start_reconnect(&None).is_none());
    let p = m.start_reconnect(&peer).unwrap();
    assert_eq!(p.attempt, 0);
    assert_eq!(p.peer, "192.168.191.181");
    assert_eq!(m.start_reconnect(&peer).unwrap().attempt, 1);
    m.cancel_reconnect();
    assert_eq!(m.start_reconnect(&peer).unwrap().attempt, 0);
}

#[test]
fn failed_attempts_wait_longer_and_success_starts_over() {
    let mut m = test_manager();
    m.set_reconnect(true);
    let id = "550e8400-e29b-41d4-a716-446655440000";
    let (c, _) = m.connect("192.168.191.181", 45888).unwrap();
    let mut done = m.drive(c, ConnEvent::DialTimedOut, &with_peer());
    for attempt in 0..4u32 {
        assert_eq!(
            announced(&done).unwrap().status,
            ConnectionStatus::Reconnecting
        );
        let p = plan(done).unwrap();
        assert_eq!(p.attempt, attempt);
        assert_eq!(p.delay_ms, reconnect_delay_ms(id, attempt));
        let (c, said) = m.reconnect_attempt(&p).unwrap();
        assert_eq!(announced(&said).unwrap().status, ConnectionStatus::Connecting);
        // The same retry is not run twice.
        assert!(m.reconnect_attempt(&p).is_none());
        done = m.drive(c, ConnEvent::DialFailed, &with_peer());
    }
    // An order of the user starts over.
    let late = plan(done).unwrap();
    let (c, _) = m.connect("192.168.191.181", 45888).unwrap();
    assert!(m.reconnect_attempt(&late).is_none());
    let p = plan(m.drive(c, ConnEvent::DialFailed, &with_peer())).unwrap();
    assert_eq!(p.attempt, 0);
}

#[test]
fn user_disconnect_calls_off_retries() {
    let mut m = test_manager();
    m.set_reconnect(true);
    let (c, _) = m.connect("192.168.191.181", 1).unwrap();
    let p = plan(m.drive(c, ConnEvent::DialFailed, &with_peer())).unwrap();
    assert!(m.disconnect(&with_peer()).is_empty());
    assert!(m.reconnect_attempt(&p).is_none());
    assert!(!m.is_busy());
    let (_, _) = m.connect("192.168.191.181", 1).unwrap();
    let done = m.disconnect(&with_peer());
    assert!(matches!(&done[0], Action::Send(msg) if msg.msg_type == "disconnect"));
    assert!(matches!(&done[1], Action::Close));
    let ev = announced(&done).unwrap();
    assert_eq!(ev.status, ConnectionStatus::Offline);
    assert_eq!(ev.status_text, "未发现 ZeroTier IP。");
    assert!(plan(done).is_none());
}

#[test]
fn retry_waits_for_a_free_slot() {
    let mut m = test_manager();
    m.set_reconnect(true);
    let (c, _) = m.accept("10.0.0.2:50000").unwrap();
    let p = plan(m.drive(c, ConnEvent::HelloTimedOut, &with_peer())).unwrap();
    let (_, _) = m.accept("10.0.0.2:50001").unwrap();
    assert!(matches!(m.accept("10.0.0.3:1"), Err(AppError::AlreadyConnected)));
    assert!(m.reconnect_attempt(&p).is_none());
    assert!(m.is_busy());
}

#[test]
fn address_that_cannot_be_dialled() {
    let mut m = test_manager();
    let (c, _) = m.connect("010.0.0.1", 1).unwrap();
    let done = m.drive(c, ConnEvent::Begin, &alone());
    assert_eq!(
        announced(&done).unwrap().error_code.as_deref(),
        Some("invalid_peer_ip")
    );
    let (c, _) = m.connect("10.0.0.1", 45888).unwrap();
    let done = m.drive(c, ConnEvent::Begin, &alone());
    assert!(matches!(
        done[..],
        [Action::Dial {
            ip: 0x0a00_0001,
            port: 45888
        }]
    ));
}

#[test]
fn listener_follows_the_address() {
    let mut m = test_manager();
    assert_eq!(m.sync_listener(None), ListenPlan::Keep);
    let addr = ListenAddr {
        ip: 0x7f00_0001,
        port: 0,
    };
    assert_eq!(m.sync_listener(Some("127.0.0.1")), ListenPlan::Rebind(addr));
    assert_eq!(m.listener_local_addr(), None);
    let bound = ListenAddr {
        ip: 0x7f00_0001,
        port: 40123,
    };
    m.listener_started(bound);
    assert_eq!(m.listener_local_addr(), Some(bound));
    assert_eq!(m.sync_listener(Some("127.0.0.1")), ListenPlan::Keep);
    assert_eq!(m.sync_listener(Some("nonsense")), ListenPlan::Unusable);
    assert_eq!(m.listener_local_addr(), None);
    assert_eq!(m.sync_listener(Some("nonsense")), ListenPlan::Keep);
    assert_eq!(m.sync_listener(None), ListenPlan::Stop);
    assert_eq!(m.listener_local_addr(), None);
    m.listener_started(bound);
    m.listener_failed();
    assert_eq!(m.listener_local_addr(), None);
    m.listener_started(bound);
    m.claim_conn().unwrap();
    let alone = Surroundings {
        zt_ip: None,
        peer_ip: None,
    };
    assert!(matches!(m.shutdown(&alone)[..], [Action::Close]));
    assert!(!m.is_busy());
    assert_eq!(m.listener_local_addr(), None);
    assert!(m.shutdown(&alone).is_empty());
}

#[test]
fn sending_needs_a_connection() {
    let mut m = test_manager();
    assert_eq!(m.send_message(b"{}"), Err(AppError::ConnectionClosed));
    let c = m.claim_conn().unwrap();
    assert_eq!(m.send_message(b"{}"), Ok((c, vec![0, 0, 0, 2, b'{', b'}'])));
    let big = vec![b'x'; 1024 * 1024 + 1];
    assert_eq!(m.send_message(&big), Err(AppError::ProtocolMessageTooLarge));
}

#[test]
fn last_words() {
    let zt = Some("192.168.191.180".to_string());
    let say = |c: CloseCause| NetworkManager::terminal(&c, &zt);
    assert_eq!(
        say(CloseCause::User),
        (ConnectionStatus::Offline, "等待输入对方 IP。".to_string(), None)
    );
    assert_eq!(
        say(CloseCause::Peer),
        (ConnectionStatus::Offline, "对方已断开连接。".to_string(), None)
    );
    assert_eq!(
        say(CloseCause::HeartbeatLost),
        (
            ConnectionStatus::Error,
            "连接已中断。".to_string(),
            Some("heartbeat_timeout".to_string())
        )
    );
    assert_eq!(
        say(CloseCause::Lost),
        (
            ConnectionStatus::Error,
            "连接已中断。".to_string(),
            Some("connection_closed".to_string())
        )
    );
    assert_eq!(
        say(CloseCause::Failed(AppError::ConnectFailed)),
        (
            ConnectionStatus::Error,
            "对方没有运行 ClipLink，或被防火墙阻止。".to_string(),
            Some("connect_failed".to_string())
        )
    );
}

#[test]
fn counters_have_room() {
    assert!(test_manager().has_room());
    assert_eq!(test_manager().config().heartbeat_secs, 1);
    let p = ManagerConfig::production(45888);
    assert_eq!(p.heartbeat_secs, 10);
    assert_eq!(p.handshake_timeout_ms, 5000);
    assert_eq!(p.connect_timeout_ms, 5000);
    assert!(p.reconnect);
}
