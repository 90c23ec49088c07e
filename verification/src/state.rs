use crate::config::AppConfig;
use crate::config::ConfigView;
use crate::network::model;
use crate::network::model::Action;
use crate::network::model::ConnEvent;
use crate::network::model::Deed;
use crate::network::model::ReconnectPlan;
use crate::network::model::Surroundings;
use crate::network::Conn;
use crate::network::ConnectionStatusEvent;
use crate::network::ManagerConfig;
use crate::network::NetworkManager;
use crate::network::StatusView;
use crate::text;
use crate::zerotier;
use vstd::prelude::*;

verus! {

#[derive(Debug, Clone, Copy, PartialEq, Eq, Structural)]
pub enum ConnectionStatus {
    Offline,
    Connecting,
    Connected,
    Reconnecting,
    Paused,
    Error,
}

impl Default for ConnectionStatus {
    fn default() -> (r: ConnectionStatus)
        ensures
            r == ConnectionStatus::Offline,
    {
        ConnectionStatus::Offline
    }
}

/// Who is at the other end of a connection.
#[derive(Debug)]
pub struct PeerInfo {
    pub device_name: String,
    pub ip: String,
}

/// A peer's name and address.
pub struct PeerView {
    pub device_name: Seq<char>,
    pub ip: Seq<char>,
}

impl View for PeerInfo {
    type V = PeerView;

    open spec fn view(&self) -> PeerView {
        PeerView { device_name: self.device_name@, ip: self.ip@ }
    }
}

impl Clone for PeerInfo {
    fn clone(&self) -> (r: PeerInfo)
        ensures
            r@ == self@,
    {
        PeerInfo { device_name: self.device_name.clone(), ip: self.ip.clone() }
    }
}

/// The view of a peer that may be absent.
pub open spec fn maybe_peer(p: Option<PeerInfo>) -> Option<PeerView> {
    match p {
        Some(x) => Some(x@),
        None => None,
    }
}

/// A copy of a peer that may be absent.
pub fn copy_peer(p: &Option<PeerInfo>) -> (r: Option<PeerInfo>)
    ensures
        maybe_peer(r) == maybe_peer(*p),
{
    match p {
        Some(x) => Some(x.clone()),
        None => None,
    }
}

/// What the application knows while it runs.
#[derive(Debug)]
pub struct Inner {
    pub zerotier_ip: Option<String>,
    pub zerotier_hint: String,
    pub hint_warn: bool,
    pub status: ConnectionStatus,
    pub status_text: String,
    pub peer: Option<PeerInfo>,
    pub paused: bool,
    /// When a text last came from the peer, in milliseconds since the Unix epoch.
    pub last_sync: Option<String>,
    /// The saved address of the peer.
    pub last_peer_ip: Option<String>,
    /// The hash of the clipboard text last seen.
    pub last_clipboard_hash: Option<String>,
    /// The clipboard text last seen.
    pub last_clipboard_text: Option<String>,
    /// The hash of a text of the peer that is on its way to the clipboard.
    pub last_remote_hash: Option<String>,
}

/// What `Inner` says.
pub struct InnerView {
    pub zerotier_ip: Option<Seq<char>>,
    pub zerotier_hint: Seq<char>,
    pub hint_warn: bool,
    pub status: ConnectionStatus,
    pub status_text: Seq<char>,
    pub peer: Option<PeerView>,
    pub paused: bool,
    pub last_sync: Option<Seq<char>>,
    pub last_peer_ip: Option<Seq<char>>,
    pub last_clipboard_hash: Option<Seq<char>>,
    pub last_clipboard_text: Option<Seq<char>>,
    pub last_remote_hash: Option<Seq<char>>,
}

impl View for Inner {
    type V = InnerView;

    open spec fn view(&self) -> InnerView {
        InnerView {
            zerotier_ip: text::maybe(self.zerotier_ip),
            zerotier_hint: self.zerotier_hint@,
            hint_warn: self.hint_warn,
            status: self.status,
            status_text: self.status_text@,
            peer: maybe_peer(self.peer),
            paused: self.paused,
            last_sync: text::maybe(self.last_sync),
            last_peer_ip: text::maybe(self.last_peer_ip),
            last_clipboard_hash: text::maybe(self.last_clipboard_hash),
            last_clipboard_text: text::maybe(self.last_clipboard_text),
            last_remote_hash: text::maybe(self.last_remote_hash),
        }
    }
}

/// What is known at first.
pub open spec fn blank_inner() -> InnerView {
    InnerView {
        zerotier_ip: None,
        zerotier_hint: seq![],
        hint_warn: false,
        status: ConnectionStatus::Offline,
        status_text: seq![],
        peer: None,
        paused: false,
        last_sync: None,
        last_peer_ip: None,
        last_clipboard_hash: None,
        last_clipboard_text: None,
        last_remote_hash: None,
    }
}

impl Default for Inner {
    fn default() -> (r: Inner)
        ensures
            r@ == blank_inner(),
    {
        let hint = String::new();
        let status_text = String::new();
        assert(hint@ =~= seq![]);
        assert(status_text@ =~= seq![]);
        Inner {
            zerotier_ip: None,
            zerotier_hint: hint,
            hint_warn: false,
            status: ConnectionStatus::Offline,
            status_text,
            peer: None,
            paused: false,
            last_sync: None,
            last_peer_ip: None,
            last_clipboard_hash: None,
            last_clipboard_text: None,
            last_remote_hash: None,
        }
    }
}

/// What is known behind a connection state event.
pub open spec fn told(v: InnerView, ev: StatusView) -> InnerView {
    InnerView { status: ev.status, status_text: ev.status_text, peer: ev.peer, ..v }
}

/// What is known behind a list of deeds: their connection state events, one after the other.
pub open spec fn told_all(v: InnerView, done: Seq<Deed>) -> InnerView
    decreases done.len(),
{
    if done.len() == 0 {
        v
    } else {
        let before = told_all(v, done.drop_last());
        match done.last() {
            Deed::Announce(ev) => told(before, ev),
            _ => before,
        }
    }
}

impl Inner {
    /// Takes note of a connection state event.
    pub fn on_status(&mut self, ev: &ConnectionStatusEvent)
        ensures
            final(self)@ == told(old(self)@, ev@),
    {
        self.status = ev.status;
        self.status_text = ev.status_text.clone();
        self.peer = copy_peer(&ev.peer);
    }

    /// Takes note of the connection state events among a list of actions.
    pub fn on_actions(&mut self, actions: &Vec<Action>)
        ensures
            final(self)@ == told_all(old(self)@, model::deeds(actions@)),
    {
        let ghost before = self@;
        let ghost all = model::deeds(actions@);
        let mut i: usize = 0;
        assert(all.take(0) =~= seq![]);
        while i < actions.len()
            invariant
                i <= actions@.len(),
                all == model::deeds(actions@),
                self@ == told_all(before, all.take(i as int)),
            decreases actions@.len() - i,
        {
            assert(all.take(i as int + 1).drop_last() =~= all.take(i as int));
            assert(all.take(i as int + 1).last() == actions@[i as int]@);
            if let Action::Announce(ev) = &actions[i] {
                self.on_status(ev);
            }
            i += 1;
        }
        assert(all.take(all.len() as int) =~= all);
    }
}

/// All that the application holds: the whole configuration, which stays on this side of the front
/// end, what is known while it runs, and the network side.
#[derive(Debug)]
pub struct AppState {
    pub config: AppConfig,
    pub inner: Inner,
    pub net: NetworkManager,
}

/// What is known at the start of a run with a loaded configuration.
pub open spec fn launched_inner(c: ConfigView) -> InnerView {
    InnerView {
        zerotier_hint: zerotier::HINT_DETECTING@,
        status_text: zerotier::HINT_DETECTING@,
        paused: c.sync_paused,
        last_peer_ip: c.last_peer_ip,
        ..blank_inner()
    }
}

impl AppState {
    /// The state at the start of a run with a loaded configuration. The network side is taken as it
    /// is.
    pub fn new(config: AppConfig, net: NetworkManager) -> (r: AppState)
        ensures
            r.config == config,
            r.net == net,
            r.inner@ == launched_inner(config@),
    {
        let mut inner = Inner::default();
        inner.zerotier_hint = zerotier::HINT_DETECTING.to_string();
        inner.status_text = zerotier::HINT_DETECTING.to_string();
        inner.paused = config.sync_paused;
        inner.last_peer_ip = text::copy_maybe(&config.last_peer_ip);
        AppState { config, inner, net }
    }

    /// The state of a run that starts with a loaded configuration: this device's network side, on
    /// the configured port, with retries on or off as the configuration says.
    pub fn launch(config: AppConfig) -> (r: AppState)
        ensures
            r.config == config,
            r.net@ == (model::NetView {
                reconnect_enabled: config.auto_reconnect,
                ..model::started(
                    config@.identity.device_id,
                    config@.identity.device_name,
                    crate::network::production_config(config.listen_port),
                )
            }),
            r.inner@ == launched_inner(config@),
    {
        let net = NetworkManager::new(
            config.identity.device_id.clone(),
            config.identity.device_name.clone(),
            ManagerConfig::production(config.listen_port),
        );
        let enabled: bool = config.auto_reconnect;
        let mut state = AppState::new(config, net);
        state.net.set_reconnect(enabled);
        state
    }

    /// What the connection logic reads of the application.
    pub fn surroundings(&self) -> (r: Surroundings)
        ensures
            text::maybe(r.zt_ip) == self.inner@.zerotier_ip,
            text::maybe(r.peer_ip) == self.inner@.last_peer_ip,
    {
        Surroundings {
            zt_ip: text::copy_maybe(&self.inner.zerotier_ip),
            peer_ip: text::copy_maybe(&self.inner.last_peer_ip),
        }
    }

    /// Takes an event on a connection, takes note of what it says, and says what is to be done.
    pub fn drive(&mut self, conn: Conn, event: ConnEvent) -> (r: Vec<Action>)
        requires
            model::can_retry(old(self).net@),
        ensures
            ({
                let step = model::driven(
                    old(self).net@,
                    conn.generation,
                    event,
                    old(self).inner@.zerotier_ip,
                    old(self).inner@.last_peer_ip,
                );
                &&& final(self).net@ == step.net
                &&& model::deeds(r@) == step.deeds
                &&& final(self).inner@ == told_all(old(self).inner@, step.deeds)
                &&& final(self).config == old(self).config
            }),
            model::all_send_well(r@),
    {
        let around = self.surroundings();
        let actions = self.net.drive(conn, event, &around);
        self.inner.on_actions(&actions);
        actions
    }

    /// Stops the network side and takes note of the last word on the connection.
    pub fn shutdown(&mut self) -> (r: Vec<Action>)
        ensures
            ({
                let step = model::shut_down(old(self).net@, old(self).inner@.zerotier_ip);
                &&& final(self).net@ == step.net
                &&& model::deeds(r@) == step.deeds
                &&& final(self).inner@ == told_all(old(self).inner@, step.deeds)
                &&& final(self).config == old(self).config
            }),
            model::all_send_well(r@),
    {
        let around = self.surroundings();
        let actions = self.net.shutdown(&around);
        self.inner.on_actions(&actions);
        actions
    }

    /// Takes a connection that came in.
    pub fn accept(&mut self, peer_addr: &str) -> (r: Option<(Conn, Vec<Action>)>)
        requires
            model::can_claim(old(self).net@),
        ensures
            final(self).config == old(self).config,
            match r {
                Some((c, done)) => {
                    &&& old(self).net@.slot is None
                    &&& final(self).net@ == model::claimed_for(
                        old(self).net@,
                        true,
                        peer_addr@,
                        0,
                    )
                    &&& c.generation == old(self).net@.next_generation + 1
                    &&& model::deeds(done@) == seq![model::connecting(c.generation)]
                    &&& final(self).inner@ == told_all(old(self).inner@, model::deeds(done@))
                },
                None => old(self).net@.slot is Some && final(self).net@ == old(self).net@
                    && final(self).inner@ == old(self).inner@,
            },
    {
        match self.net.accept(peer_addr) {
            Ok((c, done)) => {
                self.inner.on_actions(&done);
                Some((c, done))
            },
            Err(_) => None,
        }
    }

    /// Takes a retry whose time has come.
    pub fn retry(&mut self, plan: &ReconnectPlan) -> (r: Option<(Conn, Vec<Action>)>)
        requires
            model::can_claim(old(self).net@),
        ensures
            final(self).config == old(self).config,
            match r {
                Some((c, done)) => {
                    &&& old(self).net@.pending == Some(plan.ticket)
                    &&& old(self).net@.slot is None
                    &&& final(self).net@ == model::claimed_for(
                        (model::NetView { pending: None, ..old(self).net@ }),
                        false,
                        plan.peer@,
                        plan.port,
                    )
                    &&& c.generation == old(self).net@.next_generation + 1
                    &&& model::deeds(done@) == seq![model::connecting(c.generation)]
                    &&& final(self).inner@ == told_all(old(self).inner@, model::deeds(done@))
                },
                None => {
                    &&& old(self).net@.pending != Some(plan.ticket) || old(self).net@.slot is Some
                    &&& final(self).net@ == if old(self).net@.pending == Some(plan.ticket) {
                        model::NetView { pending: None, ..old(self).net@ }
                    } else {
                        old(self).net@
                    }
                    &&& final(self).inner@ == old(self).inner@
                },
            },
    {
        match self.net.reconnect_attempt(plan) {
            Some((c, done)) => {
                self.inner.on_actions(&done);
                Some((c, done))
            },
            None => None,
        }
    }
}

/// What the application shows is what was said last: behind a step that ends with a connection
/// state event, state, text and peer are that event's.
pub proof fn shown_state_is_last_event(v: InnerView, done: Seq<Deed>, ev: StatusView)
    requires
        done.len() > 0,
        done.last() == Deed::Announce(ev),
    ensures
        told_all(v, done).status == ev.status,
        told_all(v, done).status_text == ev.status_text,
        told_all(v, done).peer == ev.peer,
{
}

/// Connection state events touch nothing but the state, its text and the peer.
pub proof fn events_keep_the_rest(v: InnerView, done: Seq<Deed>)
    ensures
        ({
            let w = told_all(v, done);
            w == (InnerView { status: w.status, status_text: w.status_text, peer: w.peer, ..v })
        }),
    decreases done.len(),
{
    if done.len() > 0 {
        events_keep_the_rest(v, done.drop_last());
    }
}

/// A connection state event puts its own state, text and peer in place of those before and changes
/// nothing else.
pub proof fn event_replaces_the_state(v: InnerView, ev: StatusView)
    ensures
        ({
            let w = told(v, ev);
            &&& w.status == ev.status
            &&& w.status_text == ev.status_text
            &&& w.peer == ev.peer
            &&& w.zerotier_ip == v.zerotier_ip && w.zerotier_hint == v.zerotier_hint
            &&& w.hint_warn == v.hint_warn && w.paused == v.paused
            &&& w.last_sync == v.last_sync && w.last_peer_ip == v.last_peer_ip
            &&& w.last_clipboard_hash == v.last_clipboard_hash
            &&& w.last_clipboard_text == v.last_clipboard_text
            &&& w.last_remote_hash == v.last_remote_hash
        }),
{
}

/// A step that tells of no connection state leaves what is known as it is; one that tells of one
/// leaves that.
pub proof fn only_events_are_noted(v: InnerView, done: Seq<Deed>, last: Deed)
    ensures
        (forall|i: int| 0 <= i < done.len() ==> !(#[trigger] done[i] is Announce)) ==> told_all(
            v,
            done,
        ) == v,
        last matches Deed::Announce(ev) ==> told_all(v, done.push(last)) == told(
            told_all(v, done),
            ev,
        ),
        !(last is Announce) ==> told_all(v, done.push(last)) == told_all(v, done),
    decreases done.len(),
{
    assert(done.push(last).drop_last() =~= done);
    if done.len() > 0 {
        only_events_are_noted(v, done.drop_last(), last);
        if forall|i: int| 0 <= i < done.len() ==> !(#[trigger] done[i] is Announce) {
            assert forall|i: int| 0 <= i < done.drop_last().len() implies !(
            #[trigger] done.drop_last()[i] is Announce) by {
                assert(done[i] == done.drop_last()[i]);
            }
        }
    }
}

/// At the start of a run the network is being looked for, and the pause and the saved address are
/// those of the configuration; nothing else is known.
pub proof fn known_at_the_start(c: ConfigView)
    ensures
        ({
            let v = launched_inner(c);
            &&& v.paused == c.sync_paused
            &&& v.last_peer_ip == c.last_peer_ip
            &&& v.status == ConnectionStatus::Offline
            &&& v.status_text == "正在检测 ZeroTier 网络……"@
            &&& v.zerotier_hint == "正在检测 ZeroTier 网络……"@
            &&& !v.hint_warn
            &&& v.zerotier_ip is None && v.peer is None && v.last_sync is None
            &&& v.last_clipboard_hash is None && v.last_clipboard_text is None
            &&& v.last_remote_hash is None
        }),
{
}

/// What is shown of what is known is what the fields hold.
pub proof fn knowledge_shows_its_fields(x: Inner, p: PeerInfo)
    ensures
        p@.device_name == p.device_name@,
        p@.ip == p.ip@,
        x@.status == x.status,
        x@.status_text == x.status_text@,
        x@.paused == x.paused,
        x@.hint_warn == x.hint_warn,
        x@.zerotier_hint == x.zerotier_hint@,
        x@.zerotier_ip == text::maybe(x.zerotier_ip),
        x@.last_sync == text::maybe(x.last_sync),
        x@.last_peer_ip == text::maybe(x.last_peer_ip),
        x@.last_clipboard_hash == text::maybe(x.last_clipboard_hash),
        x@.last_clipboard_text == text::maybe(x.last_clipboard_text),
        x@.last_remote_hash == text::maybe(x.last_remote_hash),
        x.peer is None ==> x@.peer is None,
        x.peer matches Some(q) ==> (x@.peer matches Some(w) && w.device_name == q.device_name@
            && w.ip == q.ip@),
{
}

} // verus!
