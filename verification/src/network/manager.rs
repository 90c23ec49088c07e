use crate::error::AppError;
use crate::frame;
use crate::ipv4;
use crate::network;
use crate::network::heartbeat;
use crate::network::heartbeat::HeartbeatState;
use crate::network::model;
use crate::network::model::Action;
use crate::network::model::ConnEvent;
use crate::network::model::Deed;
use crate::network::model::ListenAddr;
use crate::network::model::ListenPlan;
use crate::network::model::NetView;
use crate::network::model::PhaseView;
use crate::network::model::ReconnectPlan;
use crate::network::model::Reply;
use crate::network::model::SlotView;
use crate::network::model::Surroundings;
use crate::network::CloseCause;
use crate::network::ConnectionStatusEvent;
use crate::network::ManagerConfig;
use crate::network::NetworkLatencyEvent;
use crate::network::MAX_RECENT_MESSAGE_IDS;
use crate::protocol;
use crate::protocol::Message;
use crate::state::ConnectionStatus;
use crate::state::PeerInfo;
use crate::text;
use crate::zerotier;
use std::collections::VecDeque;
use vstd::prelude::*;

verus! {

/// Names a connection by its generation, a number that no other connection has.
#[derive(Debug, Clone, Copy, PartialEq, Eq, Structural)]
pub struct Conn {
    pub generation: u64,
}

#[derive(Debug)]
enum Phase {
    Claimed,
    Dialing,
    Greeting,
    Replying(PeerInfo),
    Open,
}

impl View for Phase {
    type V = PhaseView;

    closed spec fn view(&self) -> PhaseView {
        match *self {
            Phase::Claimed => PhaseView::Claimed,
            Phase::Dialing => PhaseView::Dialing,
            Phase::Greeting => PhaseView::Greeting,
            Phase::Replying(p) => PhaseView::Replying(p@),
            Phase::Open => PhaseView::Open,
        }
    }
}

#[derive(Debug)]
struct ConnSlot {
    generation: u64,
    inbound: bool,
    peer_ip: String,
    port: u16,
    phase: Phase,
    heartbeat_lost: bool,
    heartbeat: HeartbeatState,
}

impl View for ConnSlot {
    type V = SlotView;

    closed spec fn view(&self) -> SlotView {
        SlotView {
            generation: self.generation,
            inbound: self.inbound,
            peer_ip: self.peer_ip@,
            port: self.port,
            phase: self.phase@,
            heartbeat_lost: self.heartbeat_lost,
            heartbeat: self.heartbeat@,
        }
    }
}

/// Decides about the network side of the application: the listener, the one connection there is at
/// a time, its heartbeat, and retries. It is told what happens and says what is to be done.
#[derive(Debug)]
pub struct NetworkManager {
    device_id: String,
    device_name: String,
    cfg: ManagerConfig,
    reconnect_enabled: bool,
    recent: VecDeque<String>,
    next_generation: u64,
    bind_ip: Option<String>,
    listener: Option<ListenAddr>,
    conn: Option<ConnSlot>,
    attempts: u32,
    pending: Option<u64>,
    next_ticket: u64,
}

spec fn maybe_slot(s: Option<ConnSlot>) -> Option<SlotView> {
    match s {
        Some(x) => Some(x@),
        None => None,
    }
}

spec fn ids(q: Seq<String>) -> Seq<Seq<char>> {
    q.map_values(|s: String| s@)
}

impl View for NetworkManager {
    type V = NetView;

    closed spec fn view(&self) -> NetView {
        NetView {
            device_id: self.device_id@,
            device_name: self.device_name@,
            cfg: self.cfg,
            reconnect_enabled: self.reconnect_enabled,
            recent: ids(self.recent@),
            next_generation: self.next_generation,
            bind_ip: text::maybe(self.bind_ip),
            listener: self.listener,
            slot: maybe_slot(self.conn),
            attempts: self.attempts,
            pending: self.pending,
            next_ticket: self.next_ticket,
        }
    }
}

/// The state with a slot put into it.
spec fn with_slot(v: NetView, s: SlotView) -> NetView {
    NetView { slot: Some(s), ..v }
}

fn one(a: Action) -> (r: Vec<Action>)
    ensures
        model::deeds(r@) == seq![a@],
        model::sends_well(a) ==> model::all_send_well(r@),
{
    let mut v: Vec<Action> = Vec::new();
    v.push(a);
    assert(model::deeds(v@) =~= seq![a@]);
    v
}

fn none() -> (r: Vec<Action>)
    ensures
        model::deeds(r@) == Seq::<Deed>::empty(),
        model::all_send_well(r@),
{
    let v: Vec<Action> = Vec::new();
    assert(model::deeds(v@) =~= Seq::<Deed>::empty());
    v
}

fn two(a: Action, b: Action) -> (r: Vec<Action>)
    ensures
        model::deeds(r@) == seq![a@, b@],
        model::sends_well(a) && model::sends_well(b) ==> model::all_send_well(r@),
{
    let mut v: Vec<Action> = Vec::new();
    v.push(a);
    v.push(b);
    assert(model::deeds(v@) =~= seq![a@, b@]);
    v
}

fn chain(first: Vec<Action>, second: Vec<Action>) -> (r: Vec<Action>)
    ensures
        model::deeds(r@) == model::deeds(first@) + model::deeds(second@),
        model::all_send_well(first@) && model::all_send_well(second@) ==> model::all_send_well(r@),
{
    let mut v = first;
    let mut w = second;
    v.append(&mut w);
    assert(model::deeds(v@) =~= model::deeds(first@) + model::deeds(second@));
    v
}

impl NetworkManager {
    #[verifier::type_invariant]
    spec fn inv(self) -> bool {
        &&& ids(self.recent@).len() <= MAX_RECENT_MESSAGE_IDS
        &&& ids(self.recent@).no_duplicates()
        &&& self.conn matches Some(s) ==> s.generation <= self.next_generation
        &&& self.pending matches Some(t) ==> t < self.next_ticket
    }

    pub fn new(device_id: String, device_name: String, cfg: ManagerConfig) -> (r: NetworkManager)
        ensures
            r@ == model::started(device_id@, device_name@, cfg),
    {
        let recent: VecDeque<String> = VecDeque::new();
        assert(ids(recent@) =~= seq![]);
        NetworkManager {
            device_id,
            device_name,
            cfg,
            reconnect_enabled: cfg.reconnect,
            recent,
            next_generation: 0,
            bind_ip: None,
            listener: None,
            conn: None,
            attempts: 0,
            pending: None,
            next_ticket: 0,
        }
    }

    /// Whether one more connection and one more retry can be counted. The state is in order at any
    /// time.
    pub fn has_room(&self) -> (r: bool)
        ensures
            r == (model::can_claim(self@) && model::can_retry(self@)),
            model::net_ok(self@),
    {
        proof {
            use_type_invariant(self);
        }
        if let Some(s) = &self.conn {
            let _misses: u32 = s.heartbeat.misses();
        }
        self.next_generation < u64::MAX && self.attempts < u32::MAX && self.next_ticket < u64::MAX
    }

    pub fn config(&self) -> (r: ManagerConfig)
        ensures
            r == self@.cfg,
    {
        self.cfg
    }

    pub fn set_reconnect(&mut self, enabled: bool)
        ensures
            final(self)@ == (NetView { reconnect_enabled: enabled, ..old(self)@ }),
    {
        proof {
            use_type_invariant(&*self);
        }
        self.reconnect_enabled = enabled;
    }

    /// Whether a connection is there or being made.
    pub fn is_busy(&self) -> (r: bool)
        ensures
            r == (self@.slot is Some),
    {
        self.conn.is_some()
    }

    /// Whether the connection of a generation has the slot.
    pub fn generation_is_current(&self, generation: u64) -> (r: bool)
        ensures
            r == (self@.slot matches Some(s) && s.generation == generation),
    {
        match &self.conn {
            Some(s) => s.generation == generation,
            None => false,
        }
    }

    /// Whether a clipboard message was seen before. One that was not is remembered; of too many
    /// the oldest is forgotten.
    pub fn is_duplicate_message(&mut self, message_id: &str) -> (r: bool)
        ensures
            r == old(self)@.recent.contains(message_id@),
            final(self)@ == if r {
                old(self)@
            } else {
                NetView {
                    recent: model::remembered(old(self)@.recent, message_id@),
                    ..old(self)@
                }
            },
    {
        proof {
            use_type_invariant(&*self);
        }
        let ghost before = ids(self.recent@);
        let mut i: usize = 0;
        while i < self.recent.len()
            invariant
                i <= self.recent@.len(),
                before == ids(self.recent@),
                forall|k: int| 0 <= k < i ==> #[trigger] before[k] != message_id@,
                *self == *old(self),
            decreases self.recent@.len() - i,
        {
            if text::same_text(self.recent[i].as_str(), message_id) {
                assert(before[i as int] == message_id@);
                return true;
            }
            assert(before[i as int] != message_id@);
            i += 1;
        }
        let mut queue: VecDeque<String> = VecDeque::new();
        assert(ids(queue@) =~= seq![]);
        std::mem::swap(&mut self.recent, &mut queue);
        queue.push_back(message_id.to_string());
        let ghost pushed = before.push(message_id@);
        assert(ids(queue@) =~= pushed);
        if queue.len() > MAX_RECENT_MESSAGE_IDS {
            queue.pop_front();
            assert(ids(queue@) =~= pushed.drop_first());
        }
        assert(ids(queue@) == model::remembered(before, message_id@));
        assert(ids(queue@).no_duplicates());
        self.recent = queue;
        false
    }

    /// Takes the slot for a new connection, unless it is taken.
    pub fn claim_conn(&mut self) -> (r: Result<Conn, AppError>)
        requires
            model::can_claim(old(self)@),
        ensures
            match r {
                Ok(c) => old(self)@.slot is None && final(self)@ == model::claimed(old(self)@)
                    && c.generation == old(self)@.next_generation + 1,
                Err(e) => old(self)@.slot is Some && final(self)@ == old(self)@ && e
                    == AppError::AlreadyConnected,
            },
    {
        proof {
            use_type_invariant(&*self);
        }
        if self.conn.is_some() {
            return Err(AppError::AlreadyConnected);
        }
        let generation: u64 = self.next_generation + 1;
        self.next_generation = generation;
        let peer_ip = String::new();
        let slot = ConnSlot {
            generation,
            inbound: false,
            peer_ip,
            port: 0,
            phase: Phase::Claimed,
            heartbeat_lost: false,
            heartbeat: HeartbeatState::default(),
        };
        self.conn = Some(slot);
        assert(self@.slot->0.peer_ip =~= seq![]);
        Ok(Conn { generation })
    }

    /// Takes the slot for a connection in a given direction and says that it is being made.
    fn claim_for(&mut self, inbound: bool, peer_ip: &str, port: u16) -> (r: Result<
        (Conn, Vec<Action>),
        AppError,
    >)
        requires
            model::can_claim(old(self)@),
        ensures
            match r {
                Ok((c, done)) => {
                    &&& old(self)@.slot is None
                    &&& final(self)@ == model::claimed_for(old(self)@, inbound, peer_ip@, port)
                    &&& c.generation == old(self)@.next_generation + 1
                    &&& model::deeds(done@) == seq![model::connecting(c.generation)]
                },
                Err(e) => old(self)@.slot is Some && final(self)@ == old(self)@ && e
                    == AppError::AlreadyConnected,
            },
    {
        let conn = match self.claim_conn() {
            Ok(c) => c,
            Err(e) => {
                return Err(e);
            },
        };
        proof {
            use_type_invariant(&*self);
        }
        let mut taken: Option<ConnSlot> = None;
        std::mem::swap(&mut self.conn, &mut taken);
        match taken {
            Some(slot) => {
                let mut slot = slot;
                slot.inbound = inbound;
                slot.peer_ip = peer_ip.to_string();
                slot.port = port;
                slot.phase = if inbound {
                    Phase::Greeting
                } else {
                    Phase::Dialing
                };
                self.conn = Some(slot);
            },
            None => {},
        }
        let ev = ConnectionStatusEvent {
            status: ConnectionStatus::Connecting,
            status_text: model::TEXT_CONNECTING.to_string(),
            error_code: None,
            peer: None,
            generation: conn.generation,
        };
        Ok((conn, one(Action::Announce(ev))))
    }

    /// The user's order to connect. It calls off due retries; it is refused where a connection is
    /// there or being made.
    pub fn connect(&mut self, peer_ip: &str, port: u16) -> (r: Result<
        (Conn, Vec<Action>),
        AppError,
    >)
        requires
            model::can_claim(old(self)@),
        ensures
            match r {
                Ok((c, done)) => {
                    &&& old(self)@.slot is None
                    &&& final(self)@ == model::claimed_for(
                        model::retries_cancelled(old(self)@),
                        false,
                        peer_ip@,
                        port,
                    )
                    &&& c.generation == old(self)@.next_generation + 1
                    &&& model::deeds(done@) == seq![model::connecting(c.generation)]
                },
                Err(e) => old(self)@.slot is Some && final(self)@ == model::retries_cancelled(
                    old(self)@,
                ) && e == AppError::AlreadyConnected,
            },
    {
        self.cancel_reconnect();
        self.claim_for(false, peer_ip, port)
    }

    /// A connection that came in. It is refused where one is there or being made.
    pub fn accept(&mut self, peer_addr: &str) -> (r: Result<(Conn, Vec<Action>), AppError>)
        requires
            model::can_claim(old(self)@),
        ensures
            match r {
                Ok((c, done)) => {
                    &&& old(self)@.slot is None
                    &&& final(self)@ == model::claimed_for(old(self)@, true, peer_addr@, 0)
                    &&& c.generation == old(self)@.next_generation + 1
                    &&& model::deeds(done@) == seq![model::connecting(c.generation)]
                },
                Err(e) => old(self)@.slot is Some && final(self)@ == old(self)@ && e
                    == AppError::AlreadyConnected,
            },
    {
        self.claim_for(true, peer_addr, 0)
    }

    /// Calls off due retries and starts counting them anew.
    pub fn cancel_reconnect(&mut self)
        ensures
            final(self)@ == model::retries_cancelled(old(self)@),
    {
        proof {
            use_type_invariant(&*self);
        }
        self.attempts = 0;
        self.pending = None;
    }

    /// Schedules the next retry, where retries are on and there is an address to go to. Each waits
    /// longer than the one before, up to a limit.
    pub fn start_reconnect(&mut self, peer_ip: &Option<String>) -> (r: Option<ReconnectPlan>)
        requires
            model::can_retry(old(self)@),
        ensures
            match r {
                Some(p) => {
                    &&& model::would_retry(old(self)@, text::maybe(*peer_ip))
                    &&& final(self)@ == model::retry_scheduled(old(self)@)
                    &&& p@ == model::next_retry(old(self)@, text::maybe(*peer_ip)->0)
                },
                None => !model::would_retry(old(self)@, text::maybe(*peer_ip)) && final(self)@
                    == old(self)@,
            },
    {
        proof {
            use_type_invariant(&*self);
        }
        if !self.reconnect_enabled {
            return None;
        }
        match peer_ip {
            None => None,
            Some(peer) => {
                let attempt: u32 = self.attempts;
                let ticket: u64 = self.next_ticket;
                let plan = ReconnectPlan {
                    peer: peer.clone(),
                    port: self.cfg.port,
                    delay_ms: network::reconnect_delay_ms(self.device_id.as_str(), attempt),
                    attempt,
                    ticket,
                };
                self.attempts = attempt + 1;
                self.next_ticket = ticket + 1;
                self.pending = Some(ticket);
                Some(plan)
            },
        }
    }

    /// A retry whose time has come. It makes a connection where it was not called off and none is
    /// there; the count of retries goes on.
    pub fn reconnect_attempt(&mut self, plan: &ReconnectPlan) -> (r: Option<(Conn, Vec<Action>)>)
        requires
            model::can_claim(old(self)@),
        ensures
            match r {
                Some((c, done)) => {
                    &&& old(self)@.pending == Some(plan.ticket)
                    &&& old(self)@.slot is None
                    &&& final(self)@ == model::claimed_for(
                        (NetView { pending: None, ..old(self)@ }),
                        false,
                        plan.peer@,
                        plan.port,
                    )
                    &&& c.generation == old(self)@.next_generation + 1
                    &&& model::deeds(done@) == seq![model::connecting(c.generation)]
                },
                None => if old(self)@.pending == Some(plan.ticket) {
                    old(self)@.slot is Some && final(self)@ == (NetView {
                        pending: None,
                        ..old(self)@
                    })
                } else {
                    final(self)@ == old(self)@
                },
            },
    {
        proof {
            use_type_invariant(&*self);
        }
        let due: bool = match self.pending {
            Some(t) => t == plan.ticket,
            None => false,
        };
        if !due {
            return None;
        }
        self.pending = None;
        match self.claim_for(false, plan.peer.as_str(), plan.port) {
            Ok(x) => Some(x),
            Err(_) => None,
        }
    }

    /// The last word on a connection: state, text and error code.
    pub fn terminal(cause: &CloseCause, zt_ip: &Option<String>) -> (r: (
        ConnectionStatus,
        String,
        Option<String>,
    ))
        ensures
            (r.0, r.1@, text::maybe(r.2)) == model::last_word(*cause, text::maybe(*zt_ip)),
    {
        match cause {
            CloseCause::User => {
                let t = if zt_ip.is_some() {
                    zerotier::STATUS_WAITING_INPUT.to_string()
                } else {
                    zerotier::STATUS_NO_ZT.to_string()
                };
                (ConnectionStatus::Offline, t, None)
            },
            CloseCause::Peer => (
                ConnectionStatus::Offline,
                model::TEXT_PEER_CLOSED.to_string(),
                None,
            ),
            CloseCause::HeartbeatLost => (
                ConnectionStatus::Error,
                model::TEXT_BROKEN.to_string(),
                Some("heartbeat_timeout".to_string()),
            ),
            CloseCause::Lost => (
                ConnectionStatus::Error,
                model::TEXT_BROKEN.to_string(),
                Some("connection_closed".to_string()),
            ),
            CloseCause::Failed(e) => (
                ConnectionStatus::Error,
                e.user_text(),
                Some(e.code().to_string()),
            ),
        }
    }

    /// The end of a connection. It frees the slot and schedules a retry or says the last word,
    /// where that connection has the slot; a connection that has lost it ends without a trace.
    pub fn finalize(&mut self, conn: Conn, cause: CloseCause, around: &Surroundings) -> (r: Vec<
        Action,
    >)
        requires
            model::can_retry(old(self)@),
        ensures
            ({
                let step = model::finalized(
                    old(self)@,
                    conn.generation,
                    cause,
                    text::maybe(around.zt_ip),
                    text::maybe(around.peer_ip),
                );
                final(self)@ == step.net && model::deeds(r@) == step.deeds
            }),
            model::all_send_well(r@),
    {
        proof {
            use_type_invariant(&*self);
        }
        if !self.generation_is_current(conn.generation) {
            return none();
        }
        self.conn = None;
        let user: bool = match &cause {
            CloseCause::User => true,
            _ => false,
        };
        if !user {
            if let Some(plan) = self.start_reconnect(&around.peer_ip) {
                let ev = ConnectionStatusEvent {
                    status: ConnectionStatus::Reconnecting,
                    status_text: zerotier::STATUS_RECONNECTING.to_string(),
                    error_code: None,
                    peer: None,
                    generation: conn.generation,
                };
                return two(Action::Retry(plan), Action::Announce(ev));
            }
        }
        let (status, status_text, error_code) = NetworkManager::terminal(&cause, &around.zt_ip);
        let ev = ConnectionStatusEvent {
            status,
            status_text,
            error_code,
            peer: None,
            generation: conn.generation,
        };
        one(Action::Announce(ev))
    }

    /// Takes the connection out of its slot.
    fn take_slot(&mut self) -> (r: ConnSlot)
        requires
            old(self)@.slot is Some,
        ensures
            old(self)@.slot == Some(r@),
            final(self)@ == (NetView { slot: None, ..old(self)@ }),
            r.generation <= final(self)@.next_generation,
    {
        proof {
            use_type_invariant(&*self);
        }
        let mut taken: Option<ConnSlot> = None;
        std::mem::swap(&mut self.conn, &mut taken);
        taken.unwrap()
    }

    /// Puts a connection into the slot.
    fn put_slot(&mut self, slot: ConnSlot)
        requires
            slot.generation <= old(self)@.next_generation,
        ensures
            final(self)@ == with_slot(old(self)@, slot@),
    {
        proof {
            use_type_invariant(&*self);
        }
        self.conn = Some(slot);
    }

    /// Ends a connection that was taken out of its slot.
    fn close_out(&mut self, slot: ConnSlot, cause: CloseCause, around: &Surroundings) -> (r: Vec<
        Action,
    >)
        requires
            slot.generation <= old(self)@.next_generation,
            model::can_retry(old(self)@),
        ensures
            ({
                let step = model::closed_out(
                    with_slot(old(self)@, slot@),
                    slot@,
                    cause,
                    text::maybe(around.zt_ip),
                    text::maybe(around.peer_ip),
                );
                final(self)@ == step.net && model::deeds(r@) == step.deeds
            }),
            model::all_send_well(r@),
    {
        let conn = Conn { generation: slot.generation };
        self.put_slot(slot);
        let end = self.finalize(conn, cause, around);
        chain(one(Action::Close), end)
    }

    fn build_hello(&self) -> (r: Message)
        ensures
            protocol::content(r) == model::own_hello(self@),
            model::well_made(r),
    {
        let payload = protocol::HelloPayload {
            device_id: self.device_id.clone(),
            device_name: self.device_name.clone(),
            protocol_version: protocol::PROTOCOL_VERSION,
        };
        Message::compose(protocol::MSG_HELLO, self.device_id.as_str(), &payload)
    }

    /// Takes the first message on a connection.
    fn handshake(&mut self, slot: ConnSlot, msg: &Message, around: &Surroundings) -> (r: Vec<
        Action,
    >)
        requires
            slot.generation <= old(self)@.next_generation,
            model::can_retry(old(self)@),
        ensures
            ({
                let step = model::greeted(
                    with_slot(old(self)@, slot@),
                    slot@,
                    *msg,
                    text::maybe(around.zt_ip),
                    text::maybe(around.peer_ip),
                );
                final(self)@ == step.net && model::deeds(r@) == step.deeds
            }),
            model::all_send_well(r@),
    {
        proof {
            use_type_invariant(&*self);
        }
        if msg.version != protocol::PROTOCOL_VERSION {
            let refusal = Message::compose(
                protocol::MSG_ERROR,
                self.device_id.as_str(),
                &protocol::ErrorPayload { reason: protocol::REASON_VERSION_MISMATCH.to_string() },
            );
            let end = self.close_out(slot, CloseCause::Failed(AppError::ProtocolVersionMismatch), around);
            return chain(one(Action::Send(refusal)), end);
        }
        let payload = match protocol::validate_hello(msg, self.device_id.as_str()) {
            Ok(p) => p,
            Err(_) => {
                return self.close_out(slot, CloseCause::Failed(AppError::InvalidHello), around);
            },
        };
        let peer = PeerInfo {
            device_name: text::trim(payload.device_name.as_str()),
            ip: slot.peer_ip.clone(),
        };
        let mut slot = slot;
        if slot.inbound {
            slot.phase = Phase::Replying(peer);
            let hello = self.build_hello();
            self.put_slot(slot);
            one(Action::SendHello(hello))
        } else {
            self.open(slot, peer)
        }
    }

    /// Makes a connection an open one.
    fn open(&mut self, slot: ConnSlot, peer: PeerInfo) -> (r: Vec<Action>)
        requires
            slot.generation <= old(self)@.next_generation,
        ensures
            final(self)@ == model::opened(with_slot(old(self)@, slot@), slot@),
            model::deeds(r@) == seq![
                model::connected(peer@, slot@.generation),
                Deed::StartHeartbeat,
            ],
            model::all_send_well(r@),
    {
        proof {
            use_type_invariant(&*self);
        }
        let mut slot = slot;
        let generation: u64 = slot.generation;
        slot.phase = Phase::Open;
        self.put_slot(slot);
        proof {
            use_type_invariant(&*self);
        }
        self.attempts = 0;
        let ev = ConnectionStatusEvent {
            status: ConnectionStatus::Connected,
            status_text: zerotier::STATUS_CONNECTED.to_string(),
            error_code: None,
            peer: Some(peer),
            generation,
        };
        two(Action::Announce(ev), Action::StartHeartbeat)
    }

    /// Takes a message on an open connection: what is to be done, and why the connection is over
    /// if it is.
    fn handle_message(&mut self, slot: &mut ConnSlot, msg: &Message, now: u64) -> (r: (
        Vec<Action>,
        Option<CloseCause>,
    ))
        ensures
            match model::handled(with_slot(old(self)@, old(slot)@), old(slot)@, *msg, now) {
                Reply::Go(net, done) => {
                    &&& r.1 is None
                    &&& with_slot(final(self)@, final(slot)@) == net
                    &&& model::deeds(r.0@) == done
                },
                Reply::End(net, cause) => {
                    &&& r.1 == Some(cause)
                    &&& with_slot(final(self)@, final(slot)@) == net
                    &&& model::deeds(r.0@) == Seq::<Deed>::empty()
                },
            },
            final(self)@.next_generation == old(self)@.next_generation,
            final(self)@.attempts == old(self)@.attempts,
            final(self)@.next_ticket == old(self)@.next_ticket,
            final(slot)@.generation == old(slot)@.generation,
            model::all_send_well(r.0@),
    {
        if msg.version != protocol::PROTOCOL_VERSION {
            return (none(), Some(CloseCause::Failed(AppError::ProtocolVersionMismatch)));
        }
        let kind = msg.msg_type.as_str();
        if text::same_text(kind, protocol::MSG_PING) {
            return match protocol::parse_ping(msg) {
                Some(ping) => {
                    let pong = Message::compose(
                        protocol::MSG_PONG,
                        self.device_id.as_str(),
                        &protocol::PongPayload { ping_id: ping.ping_id, sent_at: ping.sent_at },
                    );
                    (one(Action::Send(pong)), None)
                },
                None => (none(), Some(CloseCause::Failed(AppError::ProtocolInvalidJson))),
            };
        }
        if text::same_text(kind, protocol::MSG_PONG) {
            return match protocol::parse_pong(msg) {
                Some(pong) => match slot.heartbeat.pong_at(pong.ping_id.as_str(), now) {
                    Some(latency_ms) => {
                        let ev = NetworkLatencyEvent { latency_ms, generation: slot.generation };
                        (one(Action::Latency(ev)), None)
                    },
                    None => (none(), None),
                },
                None => (none(), Some(CloseCause::Failed(AppError::ProtocolInvalidJson))),
            };
        }
        if text::same_text(kind, protocol::MSG_HELLO) {
            return (none(), None);
        }
        if text::same_text(kind, protocol::MSG_DISCONNECT) {
            return (none(), Some(CloseCause::Peer));
        }
        if text::same_text(kind, protocol::MSG_ERROR) {
            return (none(), Some(CloseCause::Failed(AppError::ConnectionClosed)));
        }
        if text::same_text(kind, protocol::MSG_CLIPBOARD_UPDATE) {
            if self.is_duplicate_message(msg.message_id.as_str()) {
                return (none(), None);
            }
            return match protocol::validate_clipboard(msg) {
                Ok(payload) => (one(Action::Land(payload)), None),
                Err(_) => (none(), None),
            };
        }
        (none(), None)
    }

    /// Takes a heartbeat on an open connection.
    fn beat(&mut self, slot: ConnSlot, ping_id: String, now: u64) -> (r: Vec<Action>)
        requires
            slot.generation <= old(self)@.next_generation,
        ensures
            ({
                let step = model::beaten(with_slot(old(self)@, slot@), slot@, ping_id@, now);
                final(self)@ == step.net && model::deeds(r@) == step.deeds
            }),
            model::all_send_well(r@),
    {
        let mut slot = slot;
        let (ping, gone) = slot.heartbeat.tick_with(ping_id, now);
        if gone {
            slot.heartbeat_lost = true;
        }
        self.put_slot(slot);
        match ping {
            Some((id, sent_at)) => {
                let msg = Message::compose(
                    protocol::MSG_PING,
                    self.device_id.as_str(),
                    &protocol::PingPayload { ping_id: id, sent_at },
                );
                one(Action::Send(msg))
            },
            None => one(Action::Close),
        }
    }

    /// Starts a connection that is to be dialled.
    fn dial(&mut self, slot: ConnSlot, around: &Surroundings) -> (r: Vec<Action>)
        requires
            slot.generation <= old(self)@.next_generation,
            slot@.phase is Dialing,
            model::can_retry(old(self)@),
        ensures
            ({
                let step = model::advanced(
                    with_slot(old(self)@, slot@),
                    slot@,
                    ConnEvent::Begin,
                    text::maybe(around.zt_ip),
                    text::maybe(around.peer_ip),
                );
                final(self)@ == step.net && model::deeds(r@) == step.deeds
            }),
            model::all_send_well(r@),
    {
        let port: u16 = slot.port;
        match ipv4::parse(slot.peer_ip.as_str()) {
            Some(ip) => {
                proof {
                    let chosen = choose|x: u32| slot@.peer_ip == #[trigger] ipv4::dotted(x);
                    assert(slot@.peer_ip == ipv4::dotted(ip));
                    ipv4::dotted_is_unique(ip, chosen);
                }
                self.put_slot(slot);
                one(Action::Dial { ip, port })
            },
            None => self.close_out(slot, CloseCause::Failed(AppError::InvalidPeerIp), around),
        }
    }

    /// Leaves a connection as it was.
    fn unmoved(&mut self, slot: ConnSlot) -> (r: Vec<Action>)
        requires
            slot.generation <= old(self)@.next_generation,
        ensures
            final(self)@ == with_slot(old(self)@, slot@),
            model::deeds(r@) == Seq::<Deed>::empty(),
            model::all_send_well(r@),
    {
        self.put_slot(slot);
        none()
    }

    /// Takes an event on a connection and says what is to be done.
    pub fn drive(&mut self, conn: Conn, event: ConnEvent, around: &Surroundings) -> (r: Vec<Action>)
        requires
            model::can_retry(old(self)@),
        ensures
            ({
                let step = model::driven(
                    old(self)@,
                    conn.generation,
                    event,
                    text::maybe(around.zt_ip),
                    text::maybe(around.peer_ip),
                );
                final(self)@ == step.net && model::deeds(r@) == step.deeds
            }),
            model::all_send_well(r@),
    {
        if !self.generation_is_current(conn.generation) {
            return one(Action::Close);
        }
        let slot = self.take_slot();
        match &slot.phase {
            Phase::Claimed => match event {
                ConnEvent::Stopped => self.close_out(slot, CloseCause::User, around),
                _ => self.unmoved(slot),
            },
            Phase::Dialing => match event {
                ConnEvent::Begin => self.dial(slot, around),
                ConnEvent::Dialed => {
                    let mut slot = slot;
                    slot.phase = Phase::Greeting;
                    let hello = self.build_hello();
                    self.put_slot(slot);
                    one(Action::SendHello(hello))
                },
                ConnEvent::DialFailed => self.close_out(
                    slot,
                    CloseCause::Failed(AppError::ConnectFailed),
                    around,
                ),
                ConnEvent::DialTimedOut => self.close_out(
                    slot,
                    CloseCause::Failed(AppError::ConnectTimeout),
                    around,
                ),
                ConnEvent::Stopped => self.close_out(slot, CloseCause::User, around),
                _ => self.unmoved(slot),
            },
            Phase::Greeting => match event {
                ConnEvent::Received { msg, now } => self.handshake(slot, &msg, around),
                ConnEvent::HelloUnsent(e) => self.close_out(slot, CloseCause::Failed(e), around),
                ConnEvent::HelloTimedOut => self.close_out(slot, CloseCause::Failed(AppError::HandshakeTimeout), around),
                ConnEvent::ReadFailed(e) => self.close_out(slot, CloseCause::Failed(e), around),
                ConnEvent::Stopped => self.close_out(slot, CloseCause::Failed(AppError::ConnectionClosed), around),
                _ => self.unmoved(slot),
            },
            Phase::Replying(peer) => match event {
                ConnEvent::HelloSent => {
                    let peer = peer.clone();
                    self.open(slot, peer)
                },
                ConnEvent::HelloUnsent(e) => self.close_out(slot, CloseCause::Failed(e), around),
                ConnEvent::Stopped => self.close_out(slot, CloseCause::Failed(AppError::ConnectionClosed), around),
                _ => self.unmoved(slot),
            },
            Phase::Open => match event {
                ConnEvent::Received { msg, now } => {
                    let mut slot = slot;
                    let (done, end) = self.handle_message(&mut slot, &msg, now);
                    match end {
                        None => {
                            self.put_slot(slot);
                            done
                        },
                        Some(cause) => self.close_out(slot, cause, around),
                    }
                },
                ConnEvent::ReadFailed(e) => {
                    let cause = cause_from_flags_or(&slot, e);
                    self.close_out(slot, cause, around)
                },
                ConnEvent::Tick { ping_id, now } => self.beat(slot, ping_id, now),
                ConnEvent::Stopped => {
                    let cause = cause_from_flags(&slot);
                    self.close_out(slot, cause, around)
                },
                _ => self.unmoved(slot),
            },
        }
    }

    /// The user's order to disconnect.
    pub fn disconnect(&mut self, around: &Surroundings) -> (r: Vec<Action>)
        ensures
            ({
                let step = model::disconnected(
                    old(self)@,
                    text::maybe(around.zt_ip),
                    text::maybe(around.peer_ip),
                );
                final(self)@ == step.net && model::deeds(r@) == step.deeds
            }),
            model::all_send_well(r@),
    {
        self.cancel_reconnect();
        if !self.is_busy() {
            return none();
        }
        let slot = self.take_slot();
        let bye = Message::compose(
            protocol::MSG_DISCONNECT,
            self.device_id.as_str(),
            &protocol::DisconnectPayload { reason: protocol::REASON_USER_REQUESTED.to_string() },
        );
        let (status, status_text, error_code) = NetworkManager::terminal(
            &CloseCause::User,
            &around.zt_ip,
        );
        let ev = ConnectionStatusEvent {
            status,
            status_text,
            error_code,
            peer: None,
            generation: slot.generation,
        };
        chain(one(Action::Send(bye)), two(Action::Close, Action::Announce(ev)))
    }
}

impl NetworkManager {
    /// Takes a body to send on the connection there is: which one, and the frame.
    pub fn send_message(&self, json: &[u8]) -> (r: Result<(Conn, Vec<u8>), AppError>)
        ensures
            match self@.slot {
                None => r == Err::<(Conn, Vec<u8>), AppError>(AppError::ConnectionClosed),
                Some(s) => if json@.len() > frame::MAX_MESSAGE_BYTES {
                    r == Err::<(Conn, Vec<u8>), AppError>(AppError::ProtocolMessageTooLarge)
                } else {
                    r matches Ok((c, f)) && c.generation == s.generation && f@ == frame::framed(
                        json@,
                    )
                },
            },
    {
        match &self.conn {
            None => Err(AppError::ConnectionClosed),
            Some(s) => match frame::encode(json) {
                Ok(f) => Ok((Conn { generation: s.generation }, f)),
                Err(e) => Err(e),
            },
        }
    }

    /// Takes this machine's address as it is now and says what to do about the listener.
    pub fn sync_listener(&mut self, zt_ip: Option<&str>) -> (r: ListenPlan)
        ensures
            (final(self)@, r) == model::listening(old(self)@, text::maybe_str(zt_ip)),
    {
        proof {
            use_type_invariant(&*self);
        }
        let want = text::own_maybe(zt_ip);
        if text::same_maybe(&self.bind_ip, &want) {
            return ListenPlan::Keep;
        }
        match &want {
            None => {
                self.bind_ip = None;
                self.listener = None;
                ListenPlan::Stop
            },
            Some(t) => {
                let plan = match ipv4::parse(t.as_str()) {
                    Some(ip) => {
                        proof {
                            let chosen = choose|x: u32| t@ == #[trigger] ipv4::dotted(x);
                            assert(t@ == ipv4::dotted(ip));
                            ipv4::dotted_is_unique(ip, chosen);
                        }
                        ListenPlan::Rebind(ListenAddr { ip, port: self.cfg.port })
                    },
                    None => {
                        self.listener = None;
                        ListenPlan::Unusable
                    },
                };
                self.bind_ip = text::copy_maybe(&want);
                plan
            },
        }
    }

    /// The listener started on an address.
    pub fn listener_started(&mut self, addr: ListenAddr)
        ensures
            final(self)@ == (NetView { listener: Some(addr), ..old(self)@ }),
    {
        proof {
            use_type_invariant(&*self);
        }
        self.listener = Some(addr);
    }

    /// The listener could not start.
    pub fn listener_failed(&mut self)
        ensures
            final(self)@ == (NetView { listener: None, ..old(self)@ }),
    {
        proof {
            use_type_invariant(&*self);
        }
        self.listener = None;
    }

    pub fn listener_local_addr(&self) -> (r: Option<ListenAddr>)
        ensures
            r == self@.listener,
    {
        self.listener
    }

    /// Stops the listener, the connection and retries, and says the last word on the connection.
    pub fn shutdown(&mut self, around: &Surroundings) -> (r: Vec<Action>)
        ensures
            ({
                let step = model::shut_down(old(self)@, text::maybe(around.zt_ip));
                final(self)@ == step.net && model::deeds(r@) == step.deeds
            }),
            model::all_send_well(r@),
    {
        self.cancel_reconnect();
        let done = match &self.conn {
            None => none(),
            Some(slot) => match &slot.phase {
                Phase::Claimed => one(Action::Close),
                _ => {
                    let cause = cause_of_shutdown(slot);
                    let (status, status_text, error_code) = NetworkManager::terminal(
                        &cause,
                        &around.zt_ip,
                    );
                    let ev = ConnectionStatusEvent {
                        status,
                        status_text,
                        error_code,
                        peer: None,
                        generation: slot.generation,
                    };
                    two(Action::Close, Action::Announce(ev))
                },
            },
        };
        proof {
            use_type_invariant(&*self);
        }
        self.listener = None;
        self.bind_ip = None;
        self.conn = None;
        done
    }
}

/// Why a connection ends that is stopped with the whole network side.
fn cause_of_shutdown(slot: &ConnSlot) -> (r: CloseCause)
    ensures
        r == model::cause_of_shutdown(slot@),
{
    match &slot.phase {
        Phase::Claimed => CloseCause::User,
        Phase::Dialing => CloseCause::User,
        Phase::Greeting => CloseCause::Failed(AppError::ConnectionClosed),
        Phase::Replying(_) => CloseCause::Failed(AppError::ConnectionClosed),
        Phase::Open => cause_from_flags(slot),
    }
}

/// Why a connection that was told to stop ended.
fn cause_from_flags(slot: &ConnSlot) -> (r: CloseCause)
    ensures
        r == model::cause_of_flags(slot@),
{
    if slot.heartbeat_lost {
        CloseCause::HeartbeatLost
    } else {
        CloseCause::Lost
    }
}

/// Why a connection on which reading ended is over.
fn cause_from_flags_or(slot: &ConnSlot, e: AppError) -> (r: CloseCause)
    ensures
        r == model::cause_of_flags_or(slot@, e),
{
    if slot.heartbeat_lost {
        CloseCause::HeartbeatLost
    } else {
        CloseCause::Failed(e)
    }
}

} // verus!
