use cliplink::external_status::{arrival, ExternalStatusWriter, RemoteClipboardWriter};
use cliplink::json::Json;

fn get<'a>(j: &'a Json, name: &str) -> Option<&'a Json> {
    match j {
        Json::Object(ms) => ms.iter().find(|m| m.name == name).map(|m| &m.value),
        _ => None,
    }
}

fn text(s: &str) -> Json {
    Json::Text(s.to_string())
}

#[test]
fn connected_with_peer_writes_name_ip_and_null_latency() {
    let mut w = ExternalStatusWriter::new("status.json".to_string());
    let v = w
        .record_status("connected", true, Some("DESKTOP-A"), Some("192.168.191.95"), 5)
        .into_json();
    assert_eq!(get(&v, "version"), Some(&Json::Unsigned(1)));
    assert_eq!(get(&v, "status"), Some(&text("connected")));
    assert_eq!(get(&v, "peer_name"), Some(&text("DESKTOP-A")));
    assert_eq!(get(&v, "peer_ip"), Some(&text("192.168.191.95")));
    assert_eq!(get(&v, "latency_ms"), Some(&Json::Null));
    assert_eq!(get(&v, "generation"), Some(&Json::Unsigned(5)));
    assert!(matches!(get(&v, "updated_at"), Some(Json::Unsigned(n)) if *n > 0));
    assert_eq!(w.path(), "status.json");
}

#[test]
fn latency_event_writes_latency_ms() {
    let mut w = ExternalStatusWriter::new("status.json".to_string());
    w.record_status("connected", true, Some("A"), Some("1.2.3.4"), 5);
    let v = w.record_latency(18, "connected", Some("A"), Some("1.2.3.4"), 5);
    assert_eq!(v.latency_ms, Some(18));
    assert_eq!(v.generation, 5);
    assert_eq!(v.status, "connected");
}

#[test]
fn connected_new_generation_clears_old_latency() {
    let mut w = ExternalStatusWriter::new("status.json".to_string());
    w.record_status("connected", true, Some("A"), Some("1.2.3.4"), 5);
    w.record_latency(18, "connected", Some("A"), Some("1.2.3.4"), 5);
    let v = w.record_status("connected", true, Some("B"), Some("2.3.4.5"), 6);
    assert!(v.latency_ms.is_none());
    assert_eq!(v.generation, 6);
    assert_eq!(v.peer_name.as_deref(), Some("B"));
}

#[test]
fn reconnecting_clears_latency() {
    let mut w = ExternalStatusWriter::new("status.json".to_string());
    w.record_status("connected", true, Some("A"), Some("1.2.3.4"), 5);
    w.record_latency(18, "connected", Some("A"), Some("1.2.3.4"), 5);
    let v = w.record_status("reconnecting", false, None, None, 6);
    assert_eq!(v.status, "reconnecting");
    assert!(v.latency_ms.is_none());
    assert!(v.peer_name.is_none());
}

#[test]
fn offline_clears_latency() {
    let mut w = ExternalStatusWriter::new("status.json".to_string());
    w.record_status("connected", true, Some("A"), Some("1.2.3.4"), 5);
    w.record_latency(18, "connected", Some("A"), Some("1.2.3.4"), 5);
    let v = w.record_status("offline", false, None, None, 6);
    assert_eq!(v.status, "offline");
    assert!(v.latency_ms.is_none());
}

#[test]
fn paused_keeps_peer_but_new_status_event_not_inherit_old_latency() {
    let mut w = ExternalStatusWriter::new("status.json".to_string());
    w.record_status("connected", true, Some("A"), Some("1.2.3.4"), 5);
    w.record_latency(18, "connected", Some("A"), Some("1.2.3.4"), 5);
    let v = w.record_status("paused", true, Some("A"), Some("1.2.3.4"), 6);
    assert_eq!(v.status, "paused");
    assert_eq!(v.peer_name.as_deref(), Some("A"));
    assert_eq!(v.peer_ip.as_deref(), Some("1.2.3.4"));
    assert!(v.latency_ms.is_none());
}

#[test]
fn file_is_valid_json_with_expected_keys() {
    let mut w = ExternalStatusWriter::new("status.json".to_string());
    w.record_status("connected", true, Some("A"), Some("1.2.3.4"), 1);
    let v = w
        .record_latency(12, "connected", Some("A"), Some("1.2.3.4"), 1)
        .into_json();
    for key in [
        "version",
        "status",
        "peer_name",
        "peer_ip",
        "latency_ms",
        "generation",
        "updated_at",
    ] {
        assert!(get(&v, key).is_some(), "{key}");
    }
    for key in [
        "token",
        "secret",
        "clipboard",
        "device_secret",
        "shared_key",
    ] {
        assert!(get(&v, key).is_none(), "{key}");
    }
}

#[test]
fn same_generation_keeps_latency() {
    let mut w = ExternalStatusWriter::new("status.json".to_string());
    w.latency_at(7, "connected", None, None, 3, 100);
    let v = w.status_at("paused", true, None, None, 3, 200);
    assert_eq!(v.latency_ms, Some(7));
    assert_eq!(v.updated_at, 200);
    assert_eq!(w.status_at("offline", false, None, None, 3, 300).latency_ms, None);
}

#[test]
fn remote_event_file_schema_correct() {
    let w = RemoteClipboardWriter::new("remote_clipboard.json".to_string());
    let v = w.record("A端原文", "abc123").into_json();
    for key in ["version", "event_id", "text", "content_hash", "updated_at"] {
        assert!(get(&v, key).is_some(), "{key}");
    }
    assert_eq!(get(&v, "version"), Some(&Json::Unsigned(1)));
    assert_eq!(get(&v, "content_hash"), Some(&text("abc123")));
    assert!(matches!(get(&v, "updated_at"), Some(Json::Unsigned(n)) if *n > 0));
    assert!(matches!(get(&v, "event_id"), Some(Json::Text(s)) if !s.is_empty()));
    for key in [
        "token",
        "device_secret",
        "shared_key",
        "pairing_secret",
        "secret",
        "key",
    ] {
        assert!(get(&v, key).is_none(), "{key}");
    }
    assert_eq!(w.path(), "remote_clipboard.json");
}

#[test]
fn remote_event_text_preserved_verbatim() {
    let w = RemoteClipboardWriter::new("remote_clipboard.json".to_string());
    let original = "第一行\n第二行\t制表\n中文：剪贴板同步";
    assert_eq!(w.record(original, "deadbeef").text, original);
}

#[test]
fn remote_event_content_hash_preserved() {
    let w = RemoteClipboardWriter::new("remote_clipboard.json".to_string());
    assert_eq!(w.record("x", "cafebabe64").content_hash, "cafebabe64");
}

#[test]
fn remote_event_id_differs_each_write() {
    let w = RemoteClipboardWriter::new("remote_clipboard.json".to_string());
    let e1 = w.record("same", "h1").event_id;
    let e2 = w.record("same", "h1").event_id;
    assert_ne!(e1, e2);
}

#[test]
fn arrival_holds_what_it_is_given() {
    let e = arrival("id-1".to_string(), "t", "h", 42);
    assert_eq!(e.version, 1);
    assert_eq!(e.event_id, "id-1");
    assert_eq!(e.text, "t");
    assert_eq!(e.content_hash, "h");
    assert_eq!(e.updated_at, 42);
}
