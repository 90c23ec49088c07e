use crate::commands::SettingsUpdate;
use crate::state::AppState;
use crate::text;
use vstd::prelude::*;

verus! {

/// Tells the front end of settings that were changed in the tray.
pub const SETTINGS_CHANGED_EVENT: &'static str = "settings-changed";

pub const MENU_STATE: &'static str = "tray-state";

pub const MENU_OPEN: &'static str = "tray-open";

pub const MENU_PAUSE: &'static str = "tray-pause";

pub const MENU_RECONNECT: &'static str = "tray-reconnect";

pub const MENU_AUTOSTART: &'static str = "tray-autostart";

pub const MENU_QUIT: &'static str = "tray-quit";

/// What an item of the tray menu does.
#[derive(Debug, Clone, Copy, PartialEq, Eq, Structural)]
pub enum MenuAction {
    ShowMain,
    TogglePause,
    Reconnect,
    ToggleAutostart,
    Quit,
    Nothing,
}

/// What the item of a given id does.
pub open spec fn action_of(id: Seq<char>) -> MenuAction {
    if id == MENU_OPEN@ {
        MenuAction::ShowMain
    } else if id == MENU_PAUSE@ {
        MenuAction::TogglePause
    } else if id == MENU_RECONNECT@ {
        MenuAction::Reconnect
    } else if id == MENU_AUTOSTART@ {
        MenuAction::ToggleAutostart
    } else if id == MENU_QUIT@ {
        MenuAction::Quit
    } else {
        MenuAction::Nothing
    }
}

pub fn handle_menu(id: &str) -> (r: MenuAction)
    ensures
        r == action_of(id@),
{
    if text::same_text(id, MENU_OPEN) {
        MenuAction::ShowMain
    } else if text::same_text(id, MENU_PAUSE) {
        MenuAction::TogglePause
    } else if text::same_text(id, MENU_RECONNECT) {
        MenuAction::Reconnect
    } else if text::same_text(id, MENU_AUTOSTART) {
        MenuAction::ToggleAutostart
    } else if text::same_text(id, MENU_QUIT) {
        MenuAction::Quit
    } else {
        MenuAction::Nothing
    }
}

/// Whether a click on the tray icon opens the main window: a double click of the left button, or
/// its release.
pub fn handle_tray_icon(left: bool, double_click: bool, released: bool) -> (r: bool)
    ensures
        r == (left && (double_click || released)),
{
    left && (double_click || released)
}

/// What the item for pausing says.
pub fn pause_label(paused: bool) -> (r: &'static str)
    ensures
        r@ == if paused {
            "恢复同步"@
        } else {
            "暂停同步"@
        },
{
    if paused {
        "恢复同步"
    } else {
        "暂停同步"
    }
}

/// What the menu shows: the state's text, whether synchronisation is paused, and whether the
/// application starts with the system.
pub fn read_state(state: &AppState) -> (r: (String, bool, bool))
    ensures
        r.0@ == state.inner@.status_text,
        r.1 == state.inner.paused,
        r.2 == state.config.autostart,
{
    (state.inner.status_text.clone(), state.inner.paused, state.config.autostart)
}

/// The change of settings that pauses or resumes.
pub fn toggle_sync_paused(state: &AppState) -> (r: SettingsUpdate)
    ensures
        r.sync_paused == Some(!state.inner.paused),
        r.autostart is None,
        r.auto_reconnect is None,
        r.last_peer_ip is None,
{
    SettingsUpdate {
        autostart: None,
        sync_paused: Some(!state.inner.paused),
        auto_reconnect: None,
        last_peer_ip: None,
    }
}

/// The change of settings that turns the start with the system on or off.
pub fn toggle_autostart(state: &AppState) -> (r: SettingsUpdate)
    ensures
        r.autostart == Some(!state.config.autostart),
        r.sync_paused is None,
        r.auto_reconnect is None,
        r.last_peer_ip is None,
{
    SettingsUpdate {
        autostart: Some(!state.config.autostart),
        sync_paused: None,
        auto_reconnect: None,
        last_peer_ip: None,
    }
}

/// Where the menu's order to connect goes: the saved address.
pub fn reconnect(state: &AppState) -> (r: Option<String>)
    ensures
        text::maybe(r) == state.inner@.last_peer_ip,
{
    text::copy_maybe(&state.inner.last_peer_ip)
}

/// Each item of the menu does one thing, and no two do the same; an id that no item has does
/// nothing.
pub proof fn menu_items(id: Seq<char>, other: Seq<char>)
    ensures
        action_of("tray-open"@) == MenuAction::ShowMain,
        action_of("tray-pause"@) == MenuAction::TogglePause,
        action_of("tray-reconnect"@) == MenuAction::Reconnect,
        action_of("tray-autostart"@) == MenuAction::ToggleAutostart,
        action_of("tray-quit"@) == MenuAction::Quit,
        action_of(id) == action_of(other) && action_of(id) != MenuAction::Nothing ==> id == other,
{
    reveal_strlit("tray-open");
    reveal_strlit("tray-pause");
    reveal_strlit("tray-reconnect");
    reveal_strlit("tray-autostart");
    reveal_strlit("tray-quit");
    assert("tray-open"@.len() == 9);
    assert("tray-pause"@.len() == 10);
    assert("tray-reconnect"@.len() == 14);
    assert("tray-autostart"@.len() == 14);
    assert("tray-quit"@.len() == 9);
    assert("tray-open"@[5] != "tray-quit"@[5]);
    assert("tray-reconnect"@[5] != "tray-autostart"@[5]);
}

} // verus!
