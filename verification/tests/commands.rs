use cliplink::commands::{
    apply_settings, apply_user_settings, do_connect, do_disconnect, get_app_snapshot,
    get_device_identity_summary, identity_summary_from, plan_connect, settings_registered,
    settings_saved, settings_unsaved, snapshot_from, AppSnapshot, SettingsStep, SettingsUpdate,
};
use cliplink::config::AppConfig;
use cliplink::error::AppError;
use cliplink::network::{Action, ManagerConfig, NetworkManager};
use cliplink::state::{AppState, ConnectionStatus, Inner, PeerInfo};
use cliplink::zerotier::{detect_and_notify, ZtAdapter, ZtResult, STATUS_CONNECTED, STATUS_PAUSED};

fn test_state() -> AppState {
    let cfg = AppConfig::new().unwrap();
    let net = NetworkManager::new(
        cfg.identity.device_id.clone(),
        cfg.identity.device_name.clone(),
        ManagerConfig::production(45888),
    );
    AppState::new(cfg, net)
}

/// Changes the settings with a save that succeeds; what was saved is handed back too.
fn change(
    state: &mut AppState,
    settings: &SettingsUpdate,
) -> Result<(AppSnapshot, AppConfig), AppError> {
    match apply_settings(&state.config, settings) {
        SettingsStep::Save(c) => {
            let disk = c.clone();
            let snap = settings_saved(state, settings, c, Ok(()), "0.1.0")?;
            Ok((snap, disk))
        }
        SettingsStep::Refused(e) => Err(e),
        SettingsStep::Register(_) => panic!("nothing to register"),
    }
}

fn connect(state: &mut AppState, ip: &str) -> Result<Vec<Action>, AppError> {
    let plan = plan_connect(state, ip)?;
    do_connect(state, plan, true).map(|(_, done)| done)
}

#[test]
fn snapshot_contains_no_secrets() {
    let mut state = test_state();
    let test_device_secret = "ab".repeat(32);
    state.config.identity.device_secret = test_device_secret.clone();
    let inner = Inner {
        peer: Some(PeerInfo {
            device_name: "SNAP-TEST".into(),
            ip: "10.147.17.36".into(),
        }),
        ..Inner::default()
    };
    let snap = snapshot_from(&state.config, &inner, "0.1.0");
    let shown = format!("{snap:?}");
    assert!(!shown.contains(&test_device_secret));
    assert!(shown.contains("SNAP-TEST"));
    assert!(shown.contains(&state.config.identity.device_id));
    assert!(shown.contains("10.147.17.36"));
}

#[test]
fn update_settings_persists_and_validates() {
    let mut state = test_state();

    let bad = SettingsUpdate {
        autostart: None,
        sync_paused: None,
        auto_reconnect: None,
        last_peer_ip: Some("999.1.1.1".into()),
    };
    assert!(change(&mut state, &bad).is_err());
    assert!(state.inner.last_peer_ip.is_none());

    let ok = SettingsUpdate {
        autostart: Some(true),
        sync_paused: Some(true),
        auto_reconnect: None,
        last_peer_ip: Some("10.147.17.36".into()),
    };
    let (snap, disk) = change(&mut state, &ok).unwrap();
    assert!(snap.autostart);
    assert!(snap.paused);
    assert_eq!(snap.last_peer_ip.as_deref(), Some("10.147.17.36"));
    assert!(disk.autostart);
    assert!(disk.sync_paused);
    assert_eq!(disk.last_peer_ip.as_deref(), Some("10.147.17.36"));
    assert_eq!(state.config.last_peer_ip.as_deref(), Some("10.147.17.36"));

    let clear = SettingsUpdate {
        autostart: None,
        sync_paused: None,
        auto_reconnect: None,
        last_peer_ip: Some(String::new()),
    };
    let (snap, _) = change(&mut state, &clear).unwrap();
    assert!(snap.last_peer_ip.is_none());
}

#[test]
fn failed_save_changes_nothing() {
    let mut state = test_state();
    let s = SettingsUpdate {
        sync_paused: Some(true),
        auto_reconnect: Some(false),
        ..SettingsUpdate::default()
    };
    let new_cfg = match apply_settings(&state.config, &s) {
        SettingsStep::Save(c) => c,
        other => panic!("{other:?}"),
    };
    let before = format!("{state:?}");
    let r = settings_saved(&mut state, &s, new_cfg, Err(AppError::new("保存配置文件失败: x")), "0");
    assert_eq!(r.unwrap_err().user_text(), "保存配置文件失败: x");
    assert_eq!(format!("{state:?}"), before);
}

#[test]
fn start_with_system_is_registered_first() {
    let state = test_state();
    // What cannot be made is refused before anything is registered.
    let bad = SettingsUpdate {
        autostart: Some(true),
        last_peer_ip: Some("x".into()),
        ..SettingsUpdate::default()
    };
    assert!(matches!(
        apply_user_settings(&state.config, &bad),
        SettingsStep::Refused(e) if e.user_text() == "last_peer_ip 不是有效的 IPv4 地址"
    ));
    assert!(matches!(
        settings_registered(&state.config, &bad, Ok(())),
        SettingsStep::Refused(e) if e.user_text() == "last_peer_ip 不是有效的 IPv4 地址"
    ));
    let fine = SettingsUpdate {
        autostart: Some(true),
        last_peer_ip: Some("10.0.0.7".into()),
        ..SettingsUpdate::default()
    };
    assert!(matches!(
        apply_user_settings(&state.config, &fine),
        SettingsStep::Register(true)
    ));
    assert!(matches!(
        settings_registered(&state.config, &fine, Err("no reg".into())),
        SettingsStep::Refused(AppError::Other(m)) if m == "no reg"
    ));
    assert!(matches!(
        settings_registered(&state.config, &fine, Ok(())),
        SettingsStep::Save(c) if c.autostart
    ));
    assert!(matches!(
        apply_user_settings(&state.config, &SettingsUpdate::default()),
        SettingsStep::Save(c) if !c.autostart
    ));
}

/// Runs a change of settings to its end against a system with one entry.
fn run_change(
    state: &mut AppState,
    settings: &SettingsUpdate,
    entry: &mut bool,
    registers: bool,
    saves: bool,
) -> Result<(), AppError> {
    let mut step = apply_user_settings(&state.config, settings);
    loop {
        step = match step {
            SettingsStep::Register(v) => {
                let outcome = if registers {
                    *entry = v;
                    Ok(())
                } else {
                    Err("no reg".to_string())
                };
                settings_registered(&state.config, settings, outcome)
            }
            SettingsStep::Save(c) => {
                let outcome = if saves {
                    Ok(())
                } else {
                    Err(AppError::new("no disk"))
                };
                if outcome.is_err() {
                    if let Some(v) = settings_unsaved(&state.config, settings) {
                        *entry = v;
                    }
                }
                return settings_saved(state, settings, c, outcome, "0").map(|_| ());
            }
            SettingsStep::Refused(e) => return Err(e),
        }
    }
}

#[test]
fn registration_and_configuration_agree() {
    for before in [false, true] {
        for wanted in [None, Some(false), Some(true)] {
            for ip in [None, Some("10.0.0.7".to_string()), Some("x".to_string())] {
                for (registers, saves) in [(true, true), (true, false), (false, true)] {
                    let mut state = test_state();
                    state.config.autostart = before;
                    let mut entry = before;
                    let s = SettingsUpdate {
                        autostart: wanted,
                        last_peer_ip: ip.clone(),
                        ..SettingsUpdate::default()
                    };
                    let r = run_change(&mut state, &s, &mut entry, registers, saves);
                    assert_eq!(entry, state.config.autostart);
                    let expected = match (r.is_ok(), wanted) {
                        (true, Some(v)) => v,
                        _ => before,
                    };
                    assert_eq!(entry, expected);
                }
            }
        }
    }
}

#[test]
fn registration_to_go_back_to() {
    let mut state = test_state();
    let on = SettingsUpdate {
        autostart: Some(true),
        ..SettingsUpdate::default()
    };
    assert_eq!(settings_unsaved(&state.config, &on), Some(false));
    assert_eq!(
        settings_unsaved(&state.config, &SettingsUpdate::default()),
        None
    );
    state.config.autostart = true;
    assert_eq!(settings_unsaved(&state.config, &on), None);
}

#[test]
fn shutdown_says_the_last_word() {
    let mut state = test_state();
    let (conn, _) = state.accept("10.0.0.7:50000").unwrap();
    assert_eq!(state.inner.status, ConnectionStatus::Connecting);
    match &state.shutdown()[..] {
        [Action::Close, Action::Announce(ev)] => {
            assert_eq!(ev.generation, conn.generation);
            assert_eq!(ev.status, ConnectionStatus::Error);
            assert_eq!(ev.error_code.as_deref(), Some("connection_closed"));
        }
        other => panic!("{other:?}"),
    }
    assert_eq!(state.inner.status, ConnectionStatus::Error);
    assert!(!state.net.is_busy());
    assert!(state.shutdown().is_empty());
    // A connection that is still dialled ends as if the user ended it; no retry follows.
    connect(&mut state, "192.0.2.1").unwrap();
    assert!(matches!(
        state.shutdown()[..],
        [Action::Close, Action::Announce(_)]
    ));
    assert_eq!(state.inner.status, ConnectionStatus::Offline);
}

#[test]
fn identity_summary_has_no_secret() {
    let state = test_state();
    let secret = state.config.identity.device_secret.clone();
    let sum = identity_summary_from(&state.config);
    assert!(!format!("{sum:?}").contains(&secret));
    assert_eq!(sum.device_id, state.config.identity.device_id);
    assert_eq!(
        get_device_identity_summary(&state).device_name,
        state.config.identity.device_name
    );
}

#[test]
fn connect_peer_validates_input() {
    let mut state = test_state();
    state.inner.zerotier_ip = Some("192.168.191.180".into());
    assert!(matches!(
        connect(&mut state, "abc"),
        Err(AppError::InvalidPeerIp)
    ));
    assert!(matches!(
        connect(&mut state, "999.1.1.1"),
        Err(AppError::InvalidPeerIp)
    ));
    assert!(matches!(
        connect(&mut state, "127.0.0.1"),
        Err(AppError::InvalidPeerIp)
    ));
    assert!(matches!(
        connect(&mut state, "224.0.0.5"),
        Err(AppError::InvalidPeerIp)
    ));
    assert!(matches!(
        connect(&mut state, "192.168.191.180"),
        Err(AppError::SelfConnection)
    ));
    assert!(connect(&mut state, "192.0.2.1").is_ok());
    assert_eq!(state.inner.status, ConnectionStatus::Connecting);
    assert!(matches!(
        connect(&mut state, "192.0.2.2"),
        Err(AppError::AlreadyConnected)
    ));
    do_disconnect(&mut state);
    assert_eq!(state.inner.status, ConnectionStatus::Offline);
    assert_eq!(state.inner.status_text, "等待输入对方 IP。");
    assert_eq!(state.inner.last_peer_ip.as_deref(), Some("192.0.2.2"));
}

#[test]
fn connect_saves_the_address_first() {
    let mut state = test_state();
    let plan = plan_connect(&state, " 192.0.2.1\t").unwrap();
    assert_eq!(plan.ip, "192.0.2.1");
    assert_eq!(plan.port, 45888);
    assert_eq!(
        plan.save.as_ref().unwrap().last_peer_ip.as_deref(),
        Some("192.0.2.1")
    );
    // A save that failed does not stop the connection, and nothing is kept.
    assert!(do_connect(&mut state, plan, false).is_ok());
    assert!(state.config.last_peer_ip.is_none());
    assert!(state.inner.last_peer_ip.is_none());
    do_disconnect(&mut state);
    let plan = plan_connect(&state, "192.0.2.1").unwrap();
    assert!(do_connect(&mut state, plan, true).is_ok());
    assert_eq!(state.config.last_peer_ip.as_deref(), Some("192.0.2.1"));
    do_disconnect(&mut state);
    assert!(plan_connect(&state, "192.0.2.1").unwrap().save.is_none());
}

#[test]
fn disconnect_idle_is_noop() {
    let mut state = test_state();
    assert!(do_disconnect(&mut state).is_empty());
    assert_eq!(state.inner.status, ConnectionStatus::Offline);
}

#[test]
fn pause_transitions_connected_state_and_text() {
    let mut state = test_state();
    state.inner.status = ConnectionStatus::Connected;
    state.inner.status_text = STATUS_CONNECTED.into();
    let pause = SettingsUpdate {
        autostart: None,
        sync_paused: Some(true),
        auto_reconnect: None,
        last_peer_ip: None,
    };
    let (snap, _) = change(&mut state, &pause).unwrap();
    assert!(snap.paused);
    assert_eq!(snap.status, ConnectionStatus::Paused);
    assert_eq!(snap.status_text, STATUS_PAUSED);

    let resume = SettingsUpdate {
        autostart: None,
        sync_paused: Some(false),
        auto_reconnect: None,
        last_peer_ip: None,
    };
    let (snap, _) = change(&mut state, &resume).unwrap();
    assert!(!snap.paused);
    assert_eq!(snap.status, ConnectionStatus::Connected);
    assert_eq!(snap.status_text, STATUS_CONNECTED);
}

#[test]
fn pause_keeps_non_connected_status_text() {
    let mut state = test_state();
    state.inner.status = ConnectionStatus::Error;
    state.inner.status_text = "分散服务异常".into();
    let pause = SettingsUpdate {
        autostart: None,
        sync_paused: Some(true),
        auto_reconnect: None,
        last_peer_ip: None,
    };
    let (snap, _) = change(&mut state, &pause).unwrap();
    assert!(snap.paused);
    assert_eq!(snap.status, ConnectionStatus::Error);
    assert_eq!(snap.status_text, "分散服务异常");
}

#[test]
fn auto_reconnect_persists_to_config() {
    let mut state = test_state();
    assert!(state.config.auto_reconnect);
    let off = SettingsUpdate {
        autostart: None,
        sync_paused: None,
        auto_reconnect: Some(false),
        last_peer_ip: None,
    };
    let (snap, disk) = change(&mut state, &off).unwrap();
    assert!(!snap.auto_reconnect);
    assert!(!state.config.auto_reconnect);
    assert!(!disk.auto_reconnect);
    assert!(state.net.start_reconnect(&Some("10.0.0.1".into())).is_none());
}

#[test]
fn snapshot_at_the_start() {
    let mut cfg = AppConfig::new().unwrap();
    cfg.sync_paused = true;
    cfg.last_peer_ip = Some("10.0.0.7".into());
    let net = NetworkManager::new("a".into(), "b".into(), ManagerConfig::production(1));
    let state = AppState::new(cfg, net);
    let snap = get_app_snapshot(&state, "9.9");
    assert!(snap.paused);
    assert_eq!(snap.app_version, "9.9");
    assert_eq!(snap.last_peer_ip.as_deref(), Some("10.0.0.7"));
    assert_eq!(snap.status, ConnectionStatus::Offline);
    assert_eq!(snap.status_text, "正在检测 ZeroTier 网络……");
    assert_eq!(snap.listen_port, 45888);
}

#[test]
fn detection_is_told_once() {
    let mut state = test_state();
    let on = [ZtAdapter {
        name: "ZeroTier".into(),
        description: "".into(),
        ipv4s: vec![0xc0a8_bfb4],
    }];
    let d = detect_and_notify(&mut state, &on);
    assert_eq!(d.result, ZtResult::Found);
    assert_eq!(d.event.unwrap().ip.as_deref(), Some("192.168.191.180"));
    assert_eq!(state.inner.status_text, "等待输入对方 IP。");
    assert_eq!(state.inner.zerotier_hint, "ZeroTier 已连接");
    assert!(detect_and_notify(&mut state, &on).event.is_none());
    connect(&mut state, "192.0.2.1").unwrap();
    let d = detect_and_notify(&mut state, &[]);
    assert_eq!(d.result, ZtResult::NoAdapter);
    assert!(d.event.unwrap().ip.is_none());
    assert!(state.inner.hint_warn);
    assert_eq!(state.inner.status, ConnectionStatus::Connecting);
}

#[test]
fn retries_are_as_configured_from_the_start() {
    let peer = Some("10.0.0.7".to_string());
    let mut cfg = AppConfig::new().unwrap();
    cfg.auto_reconnect = false;
    cfg.listen_port = 40001;
    // The network side is taken as it is; a run switches its retries.
    let net = NetworkManager::new("a".into(), "b".into(), ManagerConfig::production(1));
    let mut state = AppState::new(cfg.clone(), net);
    assert!(state.net.start_reconnect(&peer).is_some());
    let mut state = AppState::launch(cfg.clone());
    assert_eq!(state.net.config(), ManagerConfig::production(40001));
    assert!(state.net.start_reconnect(&peer).is_none());
    cfg.auto_reconnect = true;
    let mut state = AppState::launch(cfg);
    assert_eq!(state.net.start_reconnect(&peer).unwrap().port, 40001);
}
