use cliplink::commands::SettingsUpdate;
use cliplink::config::{retries_replace, AppConfig};
use cliplink::network::{ManagerConfig, NetworkManager};
use cliplink::state::AppState;
use cliplink::tray::{
    handle_menu, handle_tray_icon, pause_label, read_state, reconnect, toggle_autostart,
    toggle_sync_paused, MenuAction,
};
use cliplink::window::{gives_way, indicator_position, starts_hidden, MainShown, WorkArea};

fn state() -> AppState {
    let cfg = AppConfig::new().unwrap();
    let net = NetworkManager::new(
        cfg.identity.device_id.clone(),
        cfg.identity.device_name.clone(),
        ManagerConfig::production(cfg.listen_port),
    );
    AppState::new(cfg, net)
}

#[test]
fn menu_items() {
    assert_eq!(handle_menu("tray-open"), MenuAction::ShowMain);
    assert_eq!(handle_menu("tray-pause"), MenuAction::TogglePause);
    assert_eq!(handle_menu("tray-reconnect"), MenuAction::Reconnect);
    assert_eq!(handle_menu("tray-autostart"), MenuAction::ToggleAutostart);
    assert_eq!(handle_menu("tray-quit"), MenuAction::Quit);
    assert_eq!(handle_menu("tray-state"), MenuAction::Nothing);
    assert_eq!(handle_menu(""), MenuAction::Nothing);
}

#[test]
fn menu_shows_state_and_toggles() {
    let mut s = state();
    assert_eq!(
        read_state(&s),
        ("正在检测 ZeroTier 网络……".to_string(), false, false)
    );
    assert_eq!(pause_label(false), "暂停同步");
    assert_eq!(pause_label(true), "恢复同步");
    let u: SettingsUpdate = toggle_sync_paused(&s);
    assert_eq!(u.sync_paused, Some(true));
    assert!(u.autostart.is_none() && u.auto_reconnect.is_none() && u.last_peer_ip.is_none());
    assert_eq!(toggle_autostart(&s).autostart, Some(true));
    s.inner.paused = true;
    s.config.autostart = true;
    assert_eq!(toggle_sync_paused(&s).sync_paused, Some(false));
    assert_eq!(toggle_autostart(&s).autostart, Some(false));
    assert_eq!(reconnect(&s), None);
    s.inner.last_peer_ip = Some("10.0.0.9".into());
    assert_eq!(reconnect(&s).as_deref(), Some("10.0.0.9"));
}

#[test]
fn indicator_goes_to_the_corner() {
    let area = WorkArea { x: 0, y: 0, width: 1920, height: 1040 };
    assert_eq!(indicator_position(area, 40, 40), (1868, 988));
    let area = WorkArea { x: -100, y: 50, width: 60, height: 30 };
    assert_eq!(indicator_position(area, 40, 40), (-92, 50));
    assert_eq!(indicator_position(area, 4_000_000_000, 1), (-100, 67));
}

#[test]
fn only_the_minimised_main_window_gives_way() {
    let shown = MainShown::new(false);
    assert!(gives_way("main", true, &shown));
    assert!(!gives_way("main", false, &shown));
    assert!(!gives_way("indicator", true, &shown));
    let mut hidden = MainShown::new(true);
    assert!(!gives_way("main", true, &hidden));
    hidden.mark();
    assert!(hidden.is_shown());
    assert!(gives_way("main", true, &hidden));
}

#[test]
fn clicks_on_the_tray_icon() {
    assert!(handle_tray_icon(true, false, true));
    assert!(handle_tray_icon(true, true, false));
    assert!(!handle_tray_icon(true, false, false));
    assert!(!handle_tray_icon(false, true, true));
}

#[test]
fn refused_replacements_are_tried_five_times_more() {
    assert!(retries_replace(0, true));
    assert!(retries_replace(4, true));
    assert!(!retries_replace(5, true));
    assert!(!retries_replace(0, false));
}

#[test]
fn hidden_start_by_argument() {
    assert!(starts_hidden(&vec!["cliplink.exe".into(), "--minimized".into()]));
    assert!(!starts_hidden(&vec!["cliplink.exe".into(), "--Minimized".into()]));
    assert!(!starts_hidden(&vec![]));
}
