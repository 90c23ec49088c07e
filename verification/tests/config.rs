use cliplink::config::{backup_name, is_valid_ipv4_str, AppConfig};
use cliplink::config_file::{
    config_names, identity_names, plan_load, LoadPlan, Stored, IDENTITY_NAME,
};
use cliplink::identity::{hex_decode, hex_encode};
use cliplink::json::{Json, Member};

fn to_json(v: &serde_json::Value) -> Json {
    match v {
        serde_json::Value::Null => Json::Null,
        serde_json::Value::Bool(b) => Json::Bool(*b),
        serde_json::Value::Number(n) => match (n.as_u64(), n.as_i64()) {
            (Some(u), _) => Json::Unsigned(u),
            (None, Some(i)) => Json::Negative(i),
            _ => Json::Fraction(n.to_string()),
        },
        serde_json::Value::String(s) => Json::Text(s.clone()),
        serde_json::Value::Array(a) => Json::List(a.iter().map(to_json).collect()),
        serde_json::Value::Object(m) => Json::Object(
            m.iter()
                .map(|(k, v)| Member {
                    name: k.clone(),
                    value: to_json(v),
                })
                .collect(),
        ),
    }
}

fn to_value(j: &Json) -> serde_json::Value {
    match j {
        Json::Null => serde_json::Value::Null,
        Json::Bool(b) => serde_json::Value::Bool(*b),
        Json::Unsigned(n) => serde_json::Value::from(*n),
        Json::Negative(n) => serde_json::Value::from(*n),
        Json::Fraction(t) => serde_json::from_str(t).unwrap(),
        Json::Text(s) => serde_json::Value::String(s.clone()),
        Json::List(v) => serde_json::Value::Array(v.iter().map(to_value).collect()),
        Json::Object(ms) => serde_json::Value::Object(
            ms.iter().map(|m| (m.name.clone(), to_value(&m.value))).collect(),
        ),
    }
}

fn print(c: &AppConfig) -> String {
    serde_json::to_string_pretty(&to_value(&c.to_json())).unwrap()
}

fn stored(text: &str) -> Stored {
    match serde_json::from_str::<serde_json::Value>(text) {
        Ok(v) => Stored::Parsed(to_json(&v)),
        Err(_) => Stored::NotJson,
    }
}

fn load(text: &str) -> Option<AppConfig> {
    match plan_load(stored(text)) {
        LoadPlan::Use(c) => Some(c),
        LoadPlan::Recover => None,
        LoadPlan::Create => panic!("a file was there"),
    }
}

#[test]
fn first_run_creates_config_and_identity_is_stable() {
    assert!(matches!(plan_load(Stored::Missing), LoadPlan::Create));
    let first = AppConfig::new().unwrap();
    let u = uuid::Uuid::parse_str(&first.identity.device_id).unwrap();
    assert_eq!(u.as_bytes()[6] >> 4, 4);
    assert_eq!(hex_decode(&first.identity.device_secret).unwrap().len(), 32);
    let second = load(&print(&first)).unwrap();
    assert_eq!(second.identity.device_id, first.identity.device_id);
    assert_eq!(second.identity.device_secret, first.identity.device_secret);
}

#[test]
fn defaults() {
    let c = AppConfig::new().unwrap();
    assert_eq!(c.listen_port, 45888);
    assert_eq!(c.schema_version, 1);
    assert!(!c.autostart);
    assert!(c.auto_reconnect);
    assert!(!c.sync_paused);
    assert!(c.last_peer_ip.is_none());
}

#[test]
fn valid_last_peer_ip_persists() {
    let mut cfg = AppConfig::new().unwrap();
    cfg.last_peer_ip = Some("10.147.17.36".to_string());
    let re = load(&print(&cfg)).unwrap();
    assert_eq!(re.last_peer_ip.as_deref(), Some("10.147.17.36"));
}

#[test]
fn invalid_ipv4_and_zero_port_rejected() {
    for bad in ["999.1.1.1", "1.2.3", "a.b.c.d", "1.2.3.4.5", " ", ""] {
        let mut c = AppConfig::new().unwrap();
        c.last_peer_ip = Some(bad.to_string());
        assert!(c.validate().is_err(), "{bad:?}");
    }
    assert!(is_valid_ipv4_str("192.168.191.180"));
    assert!(is_valid_ipv4_str("10.0.0.1"));
    let mut c = AppConfig::new().unwrap();
    c.listen_port = 0;
    assert!(c.validate().is_err());
}

#[test]
fn corrupt_json_backed_up_and_recovered() {
    assert!(matches!(plan_load(stored("{ not valid json")), LoadPlan::Recover));
    let good = AppConfig::new().unwrap();
    let recovered = AppConfig::new().unwrap();
    assert!(recovered.validate().is_ok());
    assert_ne!(recovered.identity.device_id, good.identity.device_id);
    assert_eq!(backup_name(1789550000, 0), "config.json.bak-1789550000");
    assert_eq!(backup_name(1789550000, 1), "config.json.bak-1789550000-1");
    assert_eq!(backup_name(1789550000, 12), "config.json.bak-1789550000-12");
}

#[test]
fn invalid_uuid_is_corrupt() {
    let cfg = AppConfig::new().unwrap();
    let mut v = to_value(&cfg.to_json());
    v["identity"]["device_id"] = serde_json::Value::String("not-a-uuid".into());
    assert!(load(&serde_json::to_string(&v).unwrap()).is_none());
}

#[test]
fn bad_secret_is_corrupt() {
    for bad in ["zz", "abc", &hex_encode(&[0u8; 31])] {
        let cfg = AppConfig::new().unwrap();
        let mut v = to_value(&cfg.to_json());
        v["identity"]["device_secret"] = serde_json::Value::String(bad.to_string());
        assert!(load(&serde_json::to_string(&v).unwrap()).is_none());
    }
}

#[test]
fn repeated_saves_stay_parseable() {
    let mut cfg = AppConfig::new().unwrap();
    for i in 0..3u8 {
        cfg.sync_paused = i % 2 == 1;
        cfg.last_peer_ip = Some(format!("10.0.0.{i}"));
        let re = load(&print(&cfg)).unwrap();
        assert!(re.validate().is_ok());
        assert_eq!(
            re.last_peer_ip.as_deref(),
            Some(format!("10.0.0.{i}")).as_deref()
        );
        assert_eq!(re.sync_paused, i % 2 == 1);
    }
}

#[test]
fn missing_optional_fields_get_defaults() {
    let cfg = AppConfig::new().unwrap();
    let mut v = to_value(&cfg.to_json());
    for k in [
        "listen_port",
        "autostart",
        "auto_reconnect",
        "sync_paused",
        "last_peer_ip",
    ] {
        v.as_object_mut().unwrap().remove(k);
    }
    let loaded = load(&serde_json::to_string(&v).unwrap()).unwrap();
    assert_eq!(loaded.listen_port, 45888);
    assert!(!loaded.autostart);
    assert!(loaded.auto_reconnect);
    assert!(!loaded.sync_paused);
    assert!(loaded.last_peer_ip.is_none());
}

#[test]
fn unknown_members_of_a_config_do_not_count() {
    let cfg = AppConfig::new().unwrap();
    let mut v = to_value(&cfg.to_json());
    v["paired_peer"] = serde_json::Value::Null;
    let loaded = load(&serde_json::to_string(&v).unwrap()).unwrap();
    assert_eq!(loaded.identity.device_id, cfg.identity.device_id);
}

#[test]
fn configs_that_are_none() {
    let cfg = AppConfig::new().unwrap();
    let with = |key: &str, value: serde_json::Value| {
        let mut v = to_value(&cfg.to_json());
        v[key] = value;
        load(&serde_json::to_string(&v).unwrap()).is_some()
    };
    assert!(with("schema_version", serde_json::Value::from(7u32)));
    assert!(!with("schema_version", serde_json::Value::Null));
    assert!(!with("schema_version", serde_json::Value::from(1u64 << 32)));
    assert!(!with("listen_port", serde_json::Value::from(65536u32)));
    assert!(!with("listen_port", serde_json::Value::from(0u32)));
    assert!(!with("listen_port", serde_json::Value::Null));
    assert!(!with("autostart", serde_json::Value::Null));
    assert!(!with("autostart", serde_json::Value::from(1u32)));
    assert!(with("last_peer_ip", serde_json::Value::Null));
    assert!(!with("last_peer_ip", serde_json::Value::from("x")));
    assert!(!with("identity", serde_json::Value::Null));
    assert!(load("[]").is_none());
    assert!(load("7").is_none());
    let text = serde_json::to_string(&to_value(&cfg.to_json())).unwrap();
    assert!(load(&text).is_some());
    let mut twice = match cfg.to_json() {
        Json::Object(ms) => ms,
        _ => panic!("an object"),
    };
    twice.push(Member {
        name: "autostart".to_string(),
        value: Json::Bool(true),
    });
    assert!(matches!(
        plan_load(Stored::Parsed(Json::Object(twice))),
        LoadPlan::Recover
    ));
}

#[test]
fn config_as_a_list() {
    let cfg = AppConfig::new().unwrap();
    let list = match cfg.to_json() {
        Json::Object(ms) => Json::List(ms.into_iter().map(|m| m.value).collect()),
        _ => panic!("an object"),
    };
    let loaded = AppConfig::from_json(&list).unwrap();
    assert_eq!(loaded.identity.device_id, cfg.identity.device_id);
    assert!(AppConfig::from_json(&Json::List(vec![Json::Unsigned(1)])).is_none());
}

#[test]
fn stored_addresses_may_have_leading_zeros() {
    assert!(is_valid_ipv4_str("010.001.000.255"));
    assert!(is_valid_ipv4_str("0.0.0.0"));
    assert!(!is_valid_ipv4_str("0010.1.1.1"));
    assert!(!is_valid_ipv4_str("1.2.3.256"));
    assert!(!is_valid_ipv4_str("1.2..4"));
    assert!(!is_valid_ipv4_str("1.2.3.4 "));
}

#[test]
fn each_config_complaint() {
    let mut c = AppConfig::new().unwrap();
    c.listen_port = 0;
    assert_eq!(c.validate().unwrap_err().user_text(), "listen_port 必须为有效非零端口");
    c.listen_port = 1;
    c.last_peer_ip = Some("x".into());
    assert_eq!(c.validate().unwrap_err().user_text(), "last_peer_ip 不是有效 IPv4: x");
    c.last_peer_ip = None;
    c.identity.device_name = " ".into();
    assert_eq!(c.validate().unwrap_err().user_text(), "identity.device_name 不能为空");
}

#[test]
fn names_are_those_of_the_saved_members() {
    let names = |j: &Json| match j {
        Json::Object(ms) => ms.iter().map(|m| m.name.clone()).collect::<Vec<_>>(),
        other => panic!("{other:?}"),
    };
    let saved = AppConfig::new().unwrap().to_json();
    assert_eq!(names(&saved), config_names());
    assert_eq!(config_names()[6], IDENTITY_NAME);
    match &saved {
        Json::Object(ms) => assert_eq!(names(&ms[6].value), identity_names()),
        other => panic!("{other:?}"),
    }
}
