use cliplink::clipboard::{
    begin_landing, classify_change, finish_landing, observe, sha256_hex, wants_poll, ChangeKind,
    Landing, PollOutcome, MAX_CLIPBOARD_BYTES,
};
use cliplink::config::AppConfig;
use cliplink::network::{ManagerConfig, NetworkManager};
use cliplink::protocol::{validate_clipboard, ClipboardPayload, MSG_CLIPBOARD_UPDATE};
use cliplink::state::{AppState, ConnectionStatus, Inner};

fn state() -> AppState {
    let cfg = AppConfig::new().unwrap();
    let net = NetworkManager::new(
        cfg.identity.device_id.clone(),
        cfg.identity.device_name.clone(),
        ManagerConfig::production(45888),
    );
    AppState::new(cfg, net)
}

fn remote(text: &str) -> ClipboardPayload {
    ClipboardPayload {
        text: text.to_string(),
        content_hash: sha256_hex(text.as_bytes()),
    }
}

#[test]
fn sha256_hash_matches_expected() {
    let hash = sha256_hex(b"Hello, ClipLink!");
    assert_eq!(hash.len(), 64);
    assert!(hash.chars().all(|c| c.is_ascii_hexdigit()));
    assert_eq!(hash, sha256_hex(b"Hello, ClipLink!"));
}

#[test]
fn sha256_of_known_inputs() {
    assert_eq!(
        sha256_hex(b""),
        "e3b0c44298fc1c149afbf4c8996fb92427ae41e4649b934ca495991b7852b855"
    );
    assert_eq!(
        sha256_hex(b"abc"),
        "ba7816bf8f01cfea414140de5dae2223b00361a396177a9cb410ff61f20015ad"
    );
}

#[test]
fn different_text_different_hash() {
    assert_ne!(sha256_hex(b"text A"), sha256_hex(b"text B"));
}

#[test]
fn size_limit_boundary() {
    let mut s = state();
    let exact = "x".repeat(MAX_CLIPBOARD_BYTES);
    assert!(exact.len() <= MAX_CLIPBOARD_BYTES);
    assert!(!matches!(observe(&mut s, &exact), PollOutcome::TooLong));
    let over = "x".repeat(MAX_CLIPBOARD_BYTES + 1);
    assert!(over.len() > MAX_CLIPBOARD_BYTES);
    let before = s.inner.last_clipboard_hash.clone();
    assert!(matches!(observe(&mut s, &over), PollOutcome::TooLong));
    assert_eq!(s.inner.last_clipboard_hash, before);
}

#[test]
fn classify_local_change() {
    assert_eq!(
        classify_change(Some("h-old"), None, "h-new"),
        ChangeKind::LocalChange
    );
    assert_eq!(
        classify_change(None, None, "h-new"),
        ChangeKind::LocalChange
    );
}

#[test]
fn classify_unchanged() {
    assert_eq!(
        classify_change(Some("h1"), None, "h1"),
        ChangeKind::Unchanged
    );
}

#[test]
fn classify_remote_echo_not_sent_back() {
    assert_eq!(
        classify_change(Some("h-old"), Some("h-remote"), "h-remote"),
        ChangeKind::RemoteEcho
    );
    assert_eq!(
        classify_change(None, Some("h-remote"), "h-remote"),
        ChangeKind::RemoteEcho
    );
}

#[test]
fn new_text_goes_out_once_while_connected() {
    let mut s = state();
    assert!(wants_poll(&s.inner));
    assert!(matches!(observe(&mut s, ""), PollOutcome::Nothing));
    assert!(matches!(observe(&mut s, "before"), PollOutcome::Nothing));
    s.inner.status = ConnectionStatus::Connected;
    assert!(matches!(observe(&mut s, "before"), PollOutcome::Nothing));
    match observe(&mut s, "你好 🎉") {
        PollOutcome::Send(m) => {
            assert_eq!(m.msg_type, MSG_CLIPBOARD_UPDATE);
            assert_eq!(m.message_id.len(), 36);
            assert_eq!(&m.message_id[14..15], "4");
            assert_eq!(m.device_id, s.config.identity.device_id);
            let p = validate_clipboard(&m).unwrap();
            assert_eq!(p.text, "你好 🎉");
            assert_eq!(p.content_hash, sha256_hex("你好 🎉".as_bytes()));
        }
        other => panic!("{other:?}"),
    }
    assert!(matches!(observe(&mut s, "你好 🎉"), PollOutcome::Nothing));
    assert_eq!(s.inner.last_clipboard_text.as_deref(), Some("你好 🎉"));
}

#[test]
fn remote_text_is_absorbed() {
    let mut s = state();
    s.inner.status = ConnectionStatus::Connected;
    let p = remote("from the peer");
    assert_eq!(begin_landing(&mut s.inner, &p, 1), Landing::Write);
    assert_eq!(s.inner.last_remote_hash.as_deref(), Some(p.content_hash.as_str()));
    assert!(matches!(observe(&mut s, "from the peer"), PollOutcome::Nothing));
    assert_eq!(s.inner.last_remote_hash, None);
    assert_eq!(
        finish_landing(&mut s.inner, &p, true, 1789550000000).as_deref(),
        Some("1789550000000")
    );
    assert_eq!(s.inner.last_sync.as_deref(), Some("1789550000000"));
    assert!(matches!(observe(&mut s, "from the peer"), PollOutcome::Nothing));
    assert!(matches!(observe(&mut s, "own"), PollOutcome::Send(_)));
}

#[test]
fn remote_text_is_absorbed_in_whatever_case_its_hash_is() {
    let mut s = state();
    s.inner.status = ConnectionStatus::Connected;
    let own = sha256_hex(b"from the peer");
    let p = ClipboardPayload {
        text: "from the peer".into(),
        content_hash: own.to_uppercase(),
    };
    let sent = cliplink::protocol::Message::new(MSG_CLIPBOARD_UPDATE, "peer", &p).unwrap();
    let p = validate_clipboard(&sent).unwrap();
    assert_ne!(p.content_hash, own);
    assert_eq!(begin_landing(&mut s.inner, &p, 1), Landing::Write);
    assert_eq!(s.inner.last_remote_hash.as_deref(), Some(own.as_str()));
    assert!(matches!(observe(&mut s, "from the peer"), PollOutcome::Nothing));
    finish_landing(&mut s.inner, &p, true, 2);
    assert_eq!(s.inner.last_clipboard_hash.as_deref(), Some(own.as_str()));
    assert!(matches!(observe(&mut s, "from the peer"), PollOutcome::Nothing));
    assert_eq!(begin_landing(&mut s.inner, &p, 3), Landing::Skip);
}

#[test]
fn landing_is_skipped_when_paused_or_known() {
    let mut inner = Inner::default();
    inner.paused = true;
    let p = remote("x");
    assert_eq!(begin_landing(&mut inner, &p, 5), Landing::Skip);
    assert!(inner.last_remote_hash.is_none() && inner.last_sync.is_none());
    assert!(!wants_poll(&inner));
    inner.paused = false;
    inner.last_clipboard_hash = Some(p.content_hash.clone());
    assert_eq!(begin_landing(&mut inner, &p, 5), Landing::Skip);
    assert_eq!(inner.last_sync.as_deref(), Some("5"));
}

#[test]
fn failed_write_leaves_the_mark_only() {
    let mut inner = Inner::default();
    let p = remote("x");
    assert_eq!(begin_landing(&mut inner, &p, 5), Landing::Write);
    assert_eq!(finish_landing(&mut inner, &p, false, 6), None);
    assert_eq!(inner.last_remote_hash.as_deref(), Some(p.content_hash.as_str()));
    assert!(inner.last_clipboard_hash.is_none() && inner.last_sync.is_none());
}
