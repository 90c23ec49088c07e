use crate::config;
use crate::config::AppConfig;
use crate::config::ConfigView;
use crate::error::AppError;
use crate::ipv4;
use crate::network;
use crate::network::model;
use crate::network::model::Action;
use crate::network::Conn;
use crate::state;
use crate::state::AppState;
use crate::state::ConnectionStatus;
use crate::state::Inner;
use crate::state::InnerView;
use crate::state::PeerInfo;
use crate::state::PeerView;
use crate::text;
use crate::zerotier;
use vstd::prelude::*;

verus! {

/// What the front end sees. It holds nothing secret.
#[derive(Debug)]
pub struct AppSnapshot {
    pub device_id: String,
    pub device_name: String,
    pub app_version: String,
    pub listen_port: u16,
    pub autostart: bool,
    pub auto_reconnect: bool,
    pub last_peer_ip: Option<String>,
    pub zerotier_ip: Option<String>,
    pub zerotier_hint: String,
    pub hint_warn: bool,
    pub status: ConnectionStatus,
    pub status_text: String,
    pub peer: Option<PeerInfo>,
    pub paused: bool,
    pub last_sync: Option<String>,
}

/// What a snapshot says.
pub struct SnapshotView {
    pub device_id: Seq<char>,
    pub device_name: Seq<char>,
    pub app_version: Seq<char>,
    pub listen_port: u16,
    pub autostart: bool,
    pub auto_reconnect: bool,
    pub last_peer_ip: Option<Seq<char>>,
    pub zerotier_ip: Option<Seq<char>>,
    pub zerotier_hint: Seq<char>,
    pub hint_warn: bool,
    pub status: ConnectionStatus,
    pub status_text: Seq<char>,
    pub peer: Option<PeerView>,
    pub paused: bool,
    pub last_sync: Option<Seq<char>>,
}

impl View for AppSnapshot {
    type V = SnapshotView;

    open spec fn view(&self) -> SnapshotView {
        SnapshotView {
            device_id: self.device_id@,
            device_name: self.device_name@,
            app_version: self.app_version@,
            listen_port: self.listen_port,
            autostart: self.autostart,
            auto_reconnect: self.auto_reconnect,
            last_peer_ip: text::maybe(self.last_peer_ip),
            zerotier_ip: text::maybe(self.zerotier_ip),
            zerotier_hint: self.zerotier_hint@,
            hint_warn: self.hint_warn,
            status: self.status,
            status_text: self.status_text@,
            peer: state::maybe_peer(self.peer),
            paused: self.paused,
            last_sync: text::maybe(self.last_sync),
        }
    }
}

/// The snapshot of a configuration and of what is known.
pub open spec fn snapshot_of(c: ConfigView, v: InnerView, app_version: Seq<char>) -> SnapshotView {
    SnapshotView {
        device_id: c.identity.device_id,
        device_name: c.identity.device_name,
        app_version,
        listen_port: c.listen_port,
        autostart: c.autostart,
        auto_reconnect: c.auto_reconnect,
        last_peer_ip: v.last_peer_ip,
        zerotier_ip: v.zerotier_ip,
        zerotier_hint: v.zerotier_hint,
        hint_warn: v.hint_warn,
        status: v.status,
        status_text: v.status_text,
        peer: v.peer,
        paused: v.paused,
        last_sync: v.last_sync,
    }
}

pub fn snapshot_from(cfg: &AppConfig, inner: &Inner, app_version: &str) -> (r: AppSnapshot)
    ensures
        r@ == snapshot_of(cfg@, inner@, app_version@),
{
    AppSnapshot {
        device_id: cfg.identity.device_id.clone(),
        device_name: cfg.identity.device_name.clone(),
        app_version: app_version.to_string(),
        listen_port: cfg.listen_port,
        autostart: cfg.autostart,
        auto_reconnect: cfg.auto_reconnect,
        last_peer_ip: text::copy_maybe(&inner.last_peer_ip),
        zerotier_ip: text::copy_maybe(&inner.zerotier_ip),
        zerotier_hint: inner.zerotier_hint.clone(),
        hint_warn: inner.hint_warn,
        status: inner.status,
        status_text: inner.status_text.clone(),
        peer: state::copy_peer(&inner.peer),
        paused: inner.paused,
        last_sync: text::copy_maybe(&inner.last_sync),
    }
}

pub fn get_app_snapshot(state: &AppState, app_version: &str) -> (r: AppSnapshot)
    ensures
        r@ == snapshot_of(state.config@, state.inner@, app_version@),
{
    snapshot_from(&state.config, &state.inner, app_version)
}

/// Who this device is, without its secret.
#[derive(Debug)]
pub struct IdentitySummary {
    pub device_id: String,
    pub device_name: String,
}

pub fn identity_summary_from(cfg: &AppConfig) -> (r: IdentitySummary)
    ensures
        r.device_id@ == cfg@.identity.device_id,
        r.device_name@ == cfg@.identity.device_name,
{
    IdentitySummary {
        device_id: cfg.identity.device_id.clone(),
        device_name: cfg.identity.device_name.clone(),
    }
}

pub fn get_device_identity_summary(state: &AppState) -> (r: IdentitySummary)
    ensures
        r.device_id@ == state.config@.identity.device_id,
        r.device_name@ == state.config@.identity.device_name,
{
    identity_summary_from(&state.config)
}

/// A change of settings. What is absent stays as it is; an empty address clears the saved one.
#[derive(Debug)]
pub struct SettingsUpdate {
    pub autostart: Option<bool>,
    pub sync_paused: Option<bool>,
    pub auto_reconnect: Option<bool>,
    pub last_peer_ip: Option<String>,
}

impl Default for SettingsUpdate {
    fn default() -> (r: SettingsUpdate)
        ensures
            r.autostart is None,
            r.sync_paused is None,
            r.auto_reconnect is None,
            r.last_peer_ip is None,
    {
        SettingsUpdate {
            autostart: None,
            sync_paused: None,
            auto_reconnect: None,
            last_peer_ip: None,
        }
    }
}

/// A value with a change that may be absent.
pub open spec fn changed<T>(old_value: T, change: Option<T>) -> T {
    match change {
        Some(x) => x,
        None => old_value,
    }
}

/// A saved address with a change that may be absent or clear it.
pub open spec fn changed_ip(old_value: Option<Seq<char>>, change: Option<Seq<char>>) -> Option<
    Seq<char>,
> {
    match change {
        Some(ip) => if ip.len() == 0 {
            None
        } else {
            Some(ip)
        },
        None => old_value,
    }
}

/// The configuration with a change of settings.
pub open spec fn changed_config(c: ConfigView, s: SettingsUpdate) -> ConfigView {
    ConfigView {
        autostart: changed(c.autostart, s.autostart),
        sync_paused: changed(c.sync_paused, s.sync_paused),
        auto_reconnect: changed(c.auto_reconnect, s.auto_reconnect),
        last_peer_ip: changed_ip(c.last_peer_ip, text::maybe(s.last_peer_ip)),
        ..c
    }
}

/// Whether a change of settings can be made: an address is an IPv4 address or empty.
pub open spec fn acceptable_settings(s: SettingsUpdate) -> bool {
    text::maybe(s.last_peer_ip) matches Some(ip) ==> ip.len() == 0 || config::is_stored_ipv4(ip)
}

/// What is known behind a change of settings. Pausing and resuming switch between connected and
/// paused; in any other state the state and its text stay.
pub open spec fn changed_inner(v: InnerView, s: SettingsUpdate) -> InnerView {
    let w = InnerView {
        paused: changed(v.paused, s.sync_paused),
        last_peer_ip: changed_ip(v.last_peer_ip, text::maybe(s.last_peer_ip)),
        ..v
    };
    if s.sync_paused == Some(true) && v.status == ConnectionStatus::Connected {
        InnerView {
            status: ConnectionStatus::Paused,
            status_text: zerotier::STATUS_PAUSED@,
            ..w
        }
    } else if s.sync_paused == Some(false) && v.status == ConnectionStatus::Paused {
        InnerView {
            status: ConnectionStatus::Connected,
            status_text: zerotier::STATUS_CONNECTED@,
            ..w
        }
    } else {
        w
    }
}

/// The next thing to do for a change of settings.
#[derive(Debug)]
pub enum SettingsStep {
    /// Register the application to start with the system, or the opposite; go on with
    /// `settings_registered`.
    Register(bool),
    /// Save this configuration; go on with `settings_saved`.
    Save(AppConfig),
    /// Nothing: the change is refused.
    Refused(AppError),
}

/// How a change of settings begins: what cannot be made is refused before anything is registered.
pub open spec fn settings_begun(c: ConfigView, s: SettingsUpdate, r: SettingsStep) -> bool {
    match s.autostart {
        Some(v) => if acceptable_settings(s) {
            r == SettingsStep::Register(v)
        } else {
            settings_verdict(c, s, r)
        },
        None => settings_verdict(c, s, r),
    }
}

/// Begins a change of settings. A change of the start with the system is registered there before
/// anything is saved, so that the configuration never claims what is not so.
pub fn apply_user_settings(cfg: &AppConfig, settings: &SettingsUpdate) -> (r: SettingsStep)
    ensures
        settings_begun(cfg@, *settings, r),
{
    match settings.autostart {
        Some(v) => if can_be_made(settings) {
            SettingsStep::Register(v)
        } else {
            apply_settings(cfg, settings)
        },
        None => apply_settings(cfg, settings),
    }
}

/// Whether a change of settings can be made.
fn can_be_made(settings: &SettingsUpdate) -> (r: bool)
    ensures
        r == acceptable_settings(*settings),
{
    match &settings.last_peer_ip {
        Some(ip) => ip.as_str().is_empty() || config::is_valid_ipv4_str(ip.as_str()),
        None => true,
    }
}

/// How a change of settings goes on behind the registration.
pub open spec fn settings_went_on(
    c: ConfigView,
    s: SettingsUpdate,
    outcome: Result<(), String>,
    r: SettingsStep,
) -> bool {
    match outcome {
        Err(m) => r == SettingsStep::Refused(AppError::Other(m)),
        Ok(()) => settings_verdict(c, s, r),
    }
}

/// Goes on with a change of settings once the system has registered it or failed to.
pub fn settings_registered(
    cfg: &AppConfig,
    settings: &SettingsUpdate,
    outcome: Result<(), String>,
) -> (r: SettingsStep)
    ensures
        settings_went_on(cfg@, *settings, outcome, r),
{
    match outcome {
        Err(m) => SettingsStep::Refused(AppError::Other(m)),
        Ok(()) => apply_settings(cfg, settings),
    }
}

/// What is decided on a change of settings: the configuration to save, or a refusal.
pub open spec fn settings_verdict(c: ConfigView, s: SettingsUpdate, r: SettingsStep) -> bool {
    if acceptable_settings(s) {
        r matches SettingsStep::Save(n) && n@ == changed_config(c, s)
    } else {
        r matches SettingsStep::Refused(AppError::Other(m)) && m@
            == "last_peer_ip 不是有效的 IPv4 地址"@
    }
}

/// Decides on a change of settings.
pub fn apply_settings(cfg: &AppConfig, settings: &SettingsUpdate) -> (r: SettingsStep)
    ensures
        settings_verdict(cfg@, *settings, r),
{
    let mut c = cfg.clone();
    if let Some(v) = settings.autostart {
        c.autostart = v;
    }
    if let Some(v) = settings.sync_paused {
        c.sync_paused = v;
    }
    if let Some(v) = settings.auto_reconnect {
        c.auto_reconnect = v;
    }
    if !can_be_made(settings) {
        return SettingsStep::Refused(AppError::new("last_peer_ip 不是有效的 IPv4 地址"));
    }
    if let Some(ip) = &settings.last_peer_ip {
        c.last_peer_ip = if ip.as_str().is_empty() {
            None
        } else {
            Some(ip.clone())
        };
    }
    SettingsStep::Save(c)
}

/// The registration to go back to where a change of settings was registered but could not be saved:
/// that of the configuration in force.
pub fn settings_unsaved(cfg: &AppConfig, settings: &SettingsUpdate) -> (r: Option<bool>)
    ensures
        r == if settings.autostart is Some && settings.autostart != Some(cfg.autostart) {
            Some(cfg.autostart)
        } else {
            None
        },
{
    match settings.autostart {
        Some(v) => if v != cfg.autostart {
            Some(cfg.autostart)
        } else {
            None
        },
        None => None,
    }
}

/// Ends a change of settings once the configuration was saved or could not be. What could not be
/// saved is not in force either; `settings_unsaved` says what is to be registered again.
pub fn settings_saved(
    state: &mut AppState,
    settings: &SettingsUpdate,
    new_cfg: AppConfig,
    outcome: Result<(), AppError>,
    app_version: &str,
) -> (r: Result<AppSnapshot, AppError>)
    ensures
        match outcome {
            Err(e) => r == Err::<AppSnapshot, AppError>(e) && *final(state) == *old(state),
            Ok(()) => {
                &&& r matches Ok(snap) && snap@ == snapshot_of(
                    final(state).config@,
                    final(state).inner@,
                    app_version@,
                )
                &&& final(state).config == new_cfg
                &&& final(state).inner@ == changed_inner(old(state).inner@, *settings)
                &&& final(state).net@ == (model::NetView {
                    reconnect_enabled: changed(
                        old(state).net@.reconnect_enabled,
                        settings.auto_reconnect,
                    ),
                    ..old(state).net@
                })
            },
        },
{
    if let Err(e) = outcome {
        return Err(e);
    }
    state.config = new_cfg;
    if let Some(v) = settings.sync_paused {
        state.inner.paused = v;
        if v {
            if state.inner.status == ConnectionStatus::Connected {
                state.inner.status = ConnectionStatus::Paused;
                state.inner.status_text = zerotier::STATUS_PAUSED.to_string();
            }
        } else if state.inner.status == ConnectionStatus::Paused {
            state.inner.status = ConnectionStatus::Connected;
            state.inner.status_text = zerotier::STATUS_CONNECTED.to_string();
        }
    }
    if let Some(ip) = &settings.last_peer_ip {
        state.inner.last_peer_ip = if ip.as_str().is_empty() {
            None
        } else {
            Some(ip.clone())
        };
    }
    if let Some(v) = settings.auto_reconnect {
        state.net.set_reconnect(v);
    }
    Ok(snapshot_from(&state.config, &state.inner, app_version))
}

/// A connection that the user ordered and that can be made: where to, and the configuration to
/// save first, where the address is a new one.
#[derive(Debug)]
pub struct ConnectPlan {
    pub ip: String,
    pub port: u16,
    pub save: Option<AppConfig>,
}

/// Checks the user's order to connect.
pub fn plan_connect(state: &AppState, raw_ip: &str) -> (r: Result<ConnectPlan, AppError>)
    ensures
        ({
            let t = text::trimmed(raw_ip@);
            let own = state.inner@.zerotier_ip matches Some(z) && text::trimmed(z) == t;
            match r {
                Ok(p) => {
                    &&& exists|v: u32| t == #[trigger] ipv4::dotted(v) && ipv4::usable(v)
                    &&& !own
                    &&& p.ip@ == t
                    &&& p.port == state.config.listen_port
                    &&& match p.save {
                        Some(c) => state.config@.last_peer_ip != Some(t) && c@ == (ConfigView {
                            last_peer_ip: Some(t),
                            ..state.config@
                        }),
                        None => state.config@.last_peer_ip == Some(t),
                    }
                },
                Err(AppError::SelfConnection) => own && exists|v: u32|
                    t == #[trigger] ipv4::dotted(v) && ipv4::usable(v),
                Err(AppError::InvalidPeerIp) => forall|v: u32|
                    t == #[trigger] ipv4::dotted(v) ==> !ipv4::usable(v),
                _ => false,
            }
        }),
{
    let ip = text::trim(raw_ip);
    proof {
        text::trimmed_twice(raw_ip@);
    }
    let local: Option<&str> = match &state.inner.zerotier_ip {
        Some(z) => Some(z.as_str()),
        None => None,
    };
    match network::validate_peer_target(ip.as_str(), local) {
        Ok(v) => {
            assert(ip@ == ipv4::dotted(v));
        },
        Err(e) => {
            return Err(e);
        },
    }
    let save = if text::is_text(&state.config.last_peer_ip, ip.as_str()) {
        None
    } else {
        let mut c = state.config.clone();
        c.last_peer_ip = Some(ip.clone());
        Some(c)
    };
    Ok(ConnectPlan { ip, port: state.config.listen_port, save })
}

/// Makes the connection that was planned, once the configuration was saved or could not be. That
/// it could not be saved does not stop the connection; configuration and known address then stay
/// as they were.
pub fn do_connect(state: &mut AppState, plan: ConnectPlan, saved: bool) -> (r: Result<
    (Conn, Vec<Action>),
    AppError,
>)
    requires
        model::can_claim(old(state).net@),
    ensures
        ({
            let keep = saved && plan.save is Some;
            let known = InnerView {
                last_peer_ip: if keep {
                    Some(plan.ip@)
                } else {
                    old(state).inner@.last_peer_ip
                },
                ..old(state).inner@
            };
            let net = model::retries_cancelled(old(state).net@);
            &&& final(state).config@ == if keep {
                plan.save->0@
            } else {
                old(state).config@
            }
            &&& match r {
                Ok((c, done)) => {
                    &&& old(state).net@.slot is None
                    &&& final(state).net@ == model::claimed_for(net, false, plan.ip@, plan.port)
                    &&& c.generation == old(state).net@.next_generation + 1
                    &&& model::deeds(done@) == seq![model::connecting(c.generation)]
                    &&& final(state).inner@ == state::told_all(known, model::deeds(done@))
                },
                Err(e) => {
                    &&& old(state).net@.slot is Some
                    &&& e == AppError::AlreadyConnected
                    &&& final(state).net@ == net
                    &&& final(state).inner@ == known
                },
            }
        }),
{
    if saved {
        if let Some(c) = plan.save {
            state.config = c;
            state.inner.last_peer_ip = Some(plan.ip.clone());
        }
    }
    match state.net.connect(plan.ip.as_str(), plan.port) {
        Ok((c, done)) => {
            state.inner.on_actions(&done);
            Ok((c, done))
        },
        Err(e) => Err(e),
    }
}

/// The user's order to disconnect. The saved address stays.
pub fn do_disconnect(state: &mut AppState) -> (r: Vec<Action>)
    ensures
        ({
            let step = model::disconnected(
                old(state).net@,
                old(state).inner@.zerotier_ip,
                old(state).inner@.last_peer_ip,
            );
            &&& final(state).net@ == step.net
            &&& model::deeds(r@) == step.deeds
            &&& final(state).inner@ == state::told_all(old(state).inner@, step.deeds)
            &&& final(state).config == old(state).config
        }),
        model::all_send_well(r@),
{
    let around = state.surroundings();
    let actions = state.net.disconnect(&around);
    state.inner.on_actions(&actions);
    actions
}

/// A snapshot does not depend on the device's secret: whatever the secret is, the snapshot is the
/// same.
pub proof fn snapshot_has_no_secret(
    c: ConfigView,
    v: InnerView,
    app_version: Seq<char>,
    secret: Seq<char>,
)
    ensures
        snapshot_of(
            (ConfigView {
                identity: (crate::identity::IdentityView { device_secret: secret, ..c.identity }),
                ..c
            }),
            v,
            app_version,
        ) == snapshot_of(c, v, app_version),
{
}

/// A change of settings touches only what it names; an empty one touches nothing.
pub proof fn absent_settings_stay(c: ConfigView, v: InnerView, s: SettingsUpdate)
    ensures
        s.autostart is None ==> changed_config(c, s).autostart == c.autostart,
        s.sync_paused is None ==> changed_config(c, s).sync_paused == c.sync_paused
            && changed_inner(v, s).paused == v.paused && changed_inner(v, s).status == v.status
            && changed_inner(v, s).status_text == v.status_text,
        s.auto_reconnect is None ==> changed_config(c, s).auto_reconnect == c.auto_reconnect,
        s.last_peer_ip is None ==> changed_config(c, s).last_peer_ip == c.last_peer_ip
            && changed_inner(v, s).last_peer_ip == v.last_peer_ip,
        changed_config(c, s).identity == c.identity,
        changed_config(c, s).listen_port == c.listen_port,
        changed_config(c, s).schema_version == c.schema_version,
        s.autostart is None && s.sync_paused is None && s.auto_reconnect is None && s.last_peer_ip
            is None ==> changed_config(c, s) == c && changed_inner(v, s) == v,
{
}

/// The registration with the system and the configuration's flag agree after every change of
/// settings if they did before, whether the change is refused, cannot be registered, cannot be
/// saved or is made. `registered` tells whether the entry is there before; an order to the system
/// that fails leaves the entry as it was, and the order to go back, which follows a failed save,
/// is one that succeeds.
pub proof fn registration_agrees(
    cfg: AppConfig,
    s: SettingsUpdate,
    registered: bool,
    first: SettingsStep,
    outcome: Result<(), String>,
    second: SettingsStep,
    saved: bool,
    back: Option<bool>,
)
    requires
        registered == cfg.autostart,
        settings_begun(cfg@, s, first),
        first is Register ==> settings_went_on(cfg@, s, outcome, second),
        back == if s.autostart is Some && s.autostart != Some(cfg.autostart) {
            Some(cfg.autostart)
        } else {
            None
        },
    ensures
        ({
            let then = match first {
                SettingsStep::Register(v) => if outcome is Ok {
                    v
                } else {
                    registered
                },
                _ => registered,
            };
            let last = if first is Register {
                second
            } else {
                first
            };
            match last {
                SettingsStep::Save(n) => if saved {
                    then == n@.autostart
                } else {
                    changed(then, back) == cfg.autostart
                },
                SettingsStep::Refused(_) => then == cfg.autostart,
                SettingsStep::Register(_) => false,
            }
        }),
{
}

/// Pausing and then resuming leads back: where the connection was there before, it is there again,
/// and any other state but paused stayed as it was.
pub proof fn resume_undoes_pause(v: InnerView, pause: SettingsUpdate, resume: SettingsUpdate)
    requires
        pause.sync_paused == Some(true),
        pause.last_peer_ip is None,
        resume.sync_paused == Some(false),
        resume.last_peer_ip is None,
        v.status == ConnectionStatus::Connected ==> v.status_text == zerotier::STATUS_CONNECTED@,
        v.status != ConnectionStatus::Paused,
        !v.paused,
    ensures
        changed_inner(changed_inner(v, pause), resume) == v,
        changed_inner(v, pause).paused,
{
}

/// A configuration that passes its checks still does after any change of settings that is accepted.
pub proof fn settings_keep_config_sound(c: ConfigView, s: SettingsUpdate)
    requires
        config::config_complaint(c) is None,
        acceptable_settings(s),
    ensures
        config::config_complaint(changed_config(c, s)) is None,
{
}

/// The address that a connection was planned for can be saved: it passes the configuration's
/// checks.
pub proof fn planned_address_can_be_saved(c: ConfigView, ip: u32)
    requires
        config::config_complaint(c) is None,
    ensures
        config::config_complaint((ConfigView { last_peer_ip: Some(ipv4::dotted(ip)), ..c })) is None,
{
    config::dotted_can_be_stored(ip);
}

/// What the front end sees is what the configuration and the application hold, field by field.
pub proof fn snapshot_shows_what_is_there(c: ConfigView, v: InnerView, app_version: Seq<char>)
    ensures
        ({
            let s = snapshot_of(c, v, app_version);
            &&& s.device_id == c.identity.device_id
            &&& s.device_name == c.identity.device_name
            &&& s.app_version == app_version
            &&& s.listen_port == c.listen_port
            &&& s.autostart == c.autostart
            &&& s.auto_reconnect == c.auto_reconnect
            &&& s.last_peer_ip == v.last_peer_ip
            &&& s.zerotier_ip == v.zerotier_ip
            &&& s.zerotier_hint == v.zerotier_hint
            &&& s.hint_warn == v.hint_warn
            &&& s.status == v.status
            &&& s.status_text == v.status_text
            &&& s.peer == v.peer
            &&& s.paused == v.paused
            &&& s.last_sync == v.last_sync
        }),
{
}

/// A snapshot shows what its fields hold.
pub proof fn snapshot_shows_its_fields(s: AppSnapshot)
    ensures
        s@.device_id == s.device_id@,
        s@.device_name == s.device_name@,
        s@.app_version == s.app_version@,
        s@.listen_port == s.listen_port,
        s@.autostart == s.autostart,
        s@.auto_reconnect == s.auto_reconnect,
        s@.last_peer_ip == text::maybe(s.last_peer_ip),
        s@.zerotier_ip == text::maybe(s.zerotier_ip),
        s@.zerotier_hint == s.zerotier_hint@,
        s@.hint_warn == s.hint_warn,
        s@.status == s.status,
        s@.status_text == s.status_text@,
        s@.paused == s.paused,
        s@.last_sync == text::maybe(s.last_sync),
        s.peer is None ==> s@.peer is None,
        s.peer matches Some(p) ==> (s@.peer matches Some(q) && q.device_name == p.device_name@
            && q.ip == p.ip@),
{
}

/// What a change of settings names takes the value that it names, in the configuration and in what
/// is known; an empty address clears the saved one.
pub proof fn named_settings_take_effect(c: ConfigView, v: InnerView, s: SettingsUpdate)
    ensures
        s.autostart matches Some(x) ==> changed_config(c, s).autostart == x,
        s.sync_paused matches Some(x) ==> changed_config(c, s).sync_paused == x && changed_inner(
            v,
            s,
        ).paused == x,
        s.auto_reconnect matches Some(x) ==> changed_config(c, s).auto_reconnect == x,
        s.last_peer_ip matches Some(ip) ==> {
            &&& ip@.len() == 0 ==> changed_config(c, s).last_peer_ip is None && changed_inner(
                v,
                s,
            ).last_peer_ip is None
            &&& ip@.len() > 0 ==> changed_config(c, s).last_peer_ip == Some(ip@) && changed_inner(
                v,
                s,
            ).last_peer_ip == Some(ip@)
        },
{
}

/// Which changes of settings can be made: all without an address, those with an empty one, and
/// those with one that can be stored.
pub proof fn settings_that_can_be_made(s: SettingsUpdate)
    ensures
        s.last_peer_ip is None ==> acceptable_settings(s),
        s.last_peer_ip matches Some(ip) ==> (acceptable_settings(s) <==> ip@.len() == 0
            || config::is_stored_ipv4(ip@)),
{
}

/// What comes of a change of settings that names no start with the system: where it can be made,
/// the changed configuration is to be saved; otherwise it is refused.
pub proof fn settings_are_decided(c: ConfigView, s: SettingsUpdate, r: SettingsStep)
    requires
        settings_verdict(c, s, r),
    ensures
        s.last_peer_ip is None ==> r is Save,
        s.last_peer_ip matches Some(ip) ==> (r is Save <==> ip@.len() == 0
            || config::is_stored_ipv4(ip@)),
        r matches SettingsStep::Save(n) ==> n@ == changed_config(c, s),
        !(r is Register),
{
}

/// A change that names the start with the system and can be made is registered first, with the
/// value that it names, and nothing else ever is; where registering worked it goes on to be saved.
pub proof fn registered_as_named(
    c: ConfigView,
    s: SettingsUpdate,
    first: SettingsStep,
    outcome: Result<(), String>,
    second: SettingsStep,
)
    requires
        settings_begun(c, s, first),
        settings_went_on(c, s, outcome, second),
        s.last_peer_ip is None,
    ensures
        s.autostart matches Some(x) ==> first == SettingsStep::Register(x),
        s.autostart is None ==> first is Save,
        outcome is Ok ==> second is Save,
        outcome matches Err(m) ==> second == SettingsStep::Refused(AppError::Other(m)),
{
}

/// Pausing shows as paused where the device was connected, resuming as connected where it was
/// paused; in every other case the state and its text stay, and so does everything else but what
/// the change names.
pub proof fn pause_shows_only_while_connected(v: InnerView, s: SettingsUpdate)
    ensures
        ({
            let w = changed_inner(v, s);
            let pausing = s.sync_paused == Some(true) && v.status == ConnectionStatus::Connected;
            let resuming = s.sync_paused == Some(false) && v.status == ConnectionStatus::Paused;
            &&& pausing ==> w.status == ConnectionStatus::Paused && w.status_text == "同步已暂停。"@
            &&& resuming ==> w.status == ConnectionStatus::Connected && w.status_text == "已连接。"@
            &&& !pausing && !resuming ==> w.status == v.status && w.status_text == v.status_text
            &&& w == (InnerView {
                status: w.status,
                status_text: w.status_text,
                paused: w.paused,
                last_peer_ip: w.last_peer_ip,
                ..v
            })
        }),
{
}

} // verus!
