use crate::error;
use crate::error::AppError;
use crate::ipv4;
use crate::json::Scalar;
use crate::network::heartbeat;
use crate::network::heartbeat::HeartbeatView;
use crate::network::CloseCause;
use crate::network::ConnectionStatusEvent;
use crate::network::ManagerConfig;
use crate::network::NetworkLatencyEvent;
use crate::network::StatusView;
use crate::network::MAX_RECENT_MESSAGE_IDS;
use crate::protocol;
use crate::protocol::ClipboardPayload;
use crate::protocol::Content;
use crate::protocol::Message;
use crate::state::ConnectionStatus;
use crate::state::PeerView;
use crate::system;
use crate::text;
use crate::zerotier;
use vstd::prelude::*;

verus! {

/// The text for a connection that is being made.
pub const TEXT_CONNECTING: &'static str = "正在连接对方……";

/// The text for a connection that the peer closed.
pub const TEXT_PEER_CLOSED: &'static str = "对方已断开连接。";

/// The text for a connection that broke.
pub const TEXT_BROKEN: &'static str = "连接已中断。";

/// What the connection logic reads of the rest of the application.
#[derive(Debug)]
pub struct Surroundings {
    /// This machine's ZeroTier address.
    pub zt_ip: Option<String>,
    /// The saved address of the peer: where a retry goes.
    pub peer_ip: Option<String>,
}

/// An address that is listened on.
#[derive(Debug, Clone, Copy, PartialEq, Eq, Structural)]
pub struct ListenAddr {
    pub ip: u32,
    pub port: u16,
}

/// What to do about the listener.
#[derive(Debug, Clone, Copy, PartialEq, Eq, Structural)]
pub enum ListenPlan {
    /// It stays as it is.
    Keep,
    /// The one there is stops.
    Stop,
    /// The one there is stops; the new address is none that can be listened on.
    Unusable,
    /// The one there is stops and one on this address starts.
    Rebind(ListenAddr),
}

/// A retry that is due after a time, unless its ticket is no longer the valid one.
#[derive(Debug)]
pub struct ReconnectPlan {
    pub peer: String,
    pub port: u16,
    pub delay_ms: u64,
    pub attempt: u32,
    pub ticket: u64,
}

/// What a retry says.
pub struct RetryView {
    pub peer: Seq<char>,
    pub port: u16,
    pub delay_ms: u64,
    pub attempt: u32,
    pub ticket: u64,
}

impl View for ReconnectPlan {
    type V = RetryView;

    open spec fn view(&self) -> RetryView {
        RetryView {
            peer: self.peer@,
            port: self.port,
            delay_ms: self.delay_ms,
            attempt: self.attempt,
            ticket: self.ticket,
        }
    }
}

/// What happens to a connection.
#[derive(Debug)]
pub enum ConnEvent {
    /// Its work starts.
    Begin,
    /// The TCP connection was made.
    Dialed,
    /// The TCP connection was refused or failed.
    DialFailed,
    /// The TCP connection was not made in time.
    DialTimedOut,
    /// The hello went to the sender.
    HelloSent,
    /// The hello could not go to the sender.
    HelloUnsent(AppError),
    /// No hello came in time.
    HelloTimedOut,
    /// A message came at a given time.
    Received { msg: Message, now: u64 },
    /// Reading ended.
    ReadFailed(AppError),
    /// It is time for a heartbeat, with this id for its ping.
    Tick { ping_id: String, now: u64 },
    /// The order to stop was noticed.
    Stopped,
}

impl ConnEvent {
    /// It is time for a heartbeat now, with a fresh id for its ping.
    pub fn tick() -> (r: ConnEvent)
        ensures
            r matches ConnEvent::Tick { ping_id, .. } && system::is_v4_text(ping_id@),
    {
        ConnEvent::Tick { ping_id: system::random_uuid(), now: protocol::now_millis() }
    }

    /// A message came now.
    pub fn received(msg: Message) -> (r: ConnEvent)
        ensures
            r matches ConnEvent::Received { msg: m, .. } && m == msg,
    {
        ConnEvent::Received { msg, now: protocol::now_millis() }
    }
}

/// What is to be done for a connection, in order.
#[derive(Debug)]
pub enum Action {
    /// Make a TCP connection; report `Dialed`, `DialFailed` or `DialTimedOut`.
    Dial { ip: u32, port: u16 },
    /// Send a message; that it cannot be sent does not matter.
    Send(Message),
    /// Send a message; report `HelloSent` or `HelloUnsent`.
    SendHello(Message),
    /// Start the heartbeat: report `Tick` at once and then at its interval.
    StartHeartbeat,
    /// Tell of a connection state.
    Announce(ConnectionStatusEvent),
    /// Tell of a round trip.
    Latency(NetworkLatencyEvent),
    /// Put a text on the clipboard.
    Land(ClipboardPayload),
    /// Order the connection's tasks to stop, which send what is queued first; report `Stopped`.
    Close,
    /// Retry later.
    Retry(ReconnectPlan),
}

/// What an action does.
pub enum Deed {
    Dial(u32, u16),
    Send(Content),
    SendHello(Content),
    StartHeartbeat,
    Announce(StatusView),
    Latency(NetworkLatencyEvent),
    Land(Seq<char>, Seq<char>),
    Close,
    Retry(RetryView),
}

impl View for Action {
    type V = Deed;

    open spec fn view(&self) -> Deed {
        match *self {
            Action::Dial { ip, port } => Deed::Dial(ip, port),
            Action::Send(m) => Deed::Send(protocol::content(m)),
            Action::SendHello(m) => Deed::SendHello(protocol::content(m)),
            Action::StartHeartbeat => Deed::StartHeartbeat,
            Action::Announce(ev) => Deed::Announce(ev@),
            Action::Latency(ev) => Deed::Latency(ev),
            Action::Land(p) => Deed::Land(p.text@, p.content_hash@),
            Action::Close => Deed::Close,
            Action::Retry(p) => Deed::Retry(p@),
        }
    }
}

/// What a list of actions does.
pub open spec fn deeds(actions: Seq<Action>) -> Seq<Deed> {
    actions.map_values(|a: Action| a@)
}

/// A message of this library as it is sent: its payload is an object, and its id is a random UUID.
pub open spec fn well_made(m: Message) -> bool {
    m.payload is Object && system::is_v4_text(m.message_id@)
}

/// Whether what an action sends, if it sends anything, is well made.
pub open spec fn sends_well(a: Action) -> bool {
    match a {
        Action::Send(m) => well_made(m),
        Action::SendHello(m) => well_made(m),
        _ => true,
    }
}

/// Whether every message that a list of actions sends is well made.
pub open spec fn all_send_well(actions: Seq<Action>) -> bool {
    forall|i: int| 0 <= i < actions.len() ==> sends_well(#[trigger] actions[i])
}

/// How far a connection is.
pub enum PhaseView {
    /// The slot is taken, no more.
    Claimed,
    /// The TCP connection is being made.
    Dialing,
    /// The peer's hello is awaited.
    Greeting,
    /// The peer's hello was good; the answer to it is being sent.
    Replying(PeerView),
    /// Both hellos were exchanged.
    Open,
}

/// The connection there is, or that is being made.
pub struct SlotView {
    pub generation: u64,
    pub inbound: bool,
    pub peer_ip: Seq<char>,
    pub port: u16,
    pub phase: PhaseView,
    pub heartbeat_lost: bool,
    pub heartbeat: HeartbeatView,
}

/// The state of the network side of the application.
pub struct NetView {
    pub device_id: Seq<char>,
    pub device_name: Seq<char>,
    pub cfg: ManagerConfig,
    pub reconnect_enabled: bool,
    /// The ids of the latest clipboard messages, the oldest first.
    pub recent: Seq<Seq<char>>,
    pub next_generation: u64,
    pub bind_ip: Option<Seq<char>>,
    pub listener: Option<ListenAddr>,
    /// At most one connection.
    pub slot: Option<SlotView>,
    /// Retries since the last success or order of the user.
    pub attempts: u32,
    /// The ticket of the retry that is due.
    pub pending: Option<u64>,
    pub next_ticket: u64,
}

/// What always holds of the state.
pub open spec fn net_ok(v: NetView) -> bool {
    &&& v.recent.len() <= MAX_RECENT_MESSAGE_IDS
    &&& v.recent.no_duplicates()
    &&& v.slot matches Some(s) ==> s.generation <= v.next_generation && heartbeat::heartbeat_ok(
        s.heartbeat,
    )
    &&& v.pending matches Some(t) ==> t < v.next_ticket
}

/// Whether one more retry can be counted.
pub open spec fn can_retry(v: NetView) -> bool {
    v.attempts < u32::MAX && v.next_ticket < u64::MAX
}

/// Whether one more connection can be counted.
pub open spec fn can_claim(v: NetView) -> bool {
    v.next_generation < u64::MAX
}

/// A state and what led to it has done.
pub struct Step {
    pub net: NetView,
    pub deeds: Seq<Deed>,
}

/// The state of a device that has done nothing yet.
pub open spec fn started(
    device_id: Seq<char>,
    device_name: Seq<char>,
    cfg: ManagerConfig,
) -> NetView {
    NetView {
        device_id,
        device_name,
        cfg,
        reconnect_enabled: cfg.reconnect,
        recent: seq![],
        next_generation: 0,
        bind_ip: None,
        listener: None,
        slot: None,
        attempts: 0,
        pending: None,
        next_ticket: 0,
    }
}

/// The state with the slot taken for a new connection.
pub open spec fn claimed(v: NetView) -> NetView {
    NetView {
        next_generation: (v.next_generation + 1) as u64,
        slot: Some(
            SlotView {
                generation: (v.next_generation + 1) as u64,
                inbound: false,
                peer_ip: seq![],
                port: 0,
                phase: PhaseView::Claimed,
                heartbeat_lost: false,
                heartbeat: heartbeat::fresh(),
            },
        ),
        ..v
    }
}

/// The state with the slot taken for a connection in a given direction.
pub open spec fn claimed_for(v: NetView, inbound: bool, peer_ip: Seq<char>, port: u16) -> NetView {
    NetView {
        slot: Some(
            SlotView {
                inbound,
                peer_ip,
                port,
                phase: if inbound {
                    PhaseView::Greeting
                } else {
                    PhaseView::Dialing
                },
                ..claimed(v).slot->0
            },
        ),
        ..claimed(v)
    }
}

/// The state with no retry due and the count of retries cleared.
pub open spec fn retries_cancelled(v: NetView) -> NetView {
    NetView { attempts: 0, pending: None, ..v }
}

/// Says that a connection is being made.
pub open spec fn connecting(generation: u64) -> Deed {
    Deed::Announce(
        StatusView {
            status: ConnectionStatus::Connecting,
            status_text: TEXT_CONNECTING@,
            error_code: None,
            peer: None,
            generation,
        },
    )
}

/// Says that a connection is there.
pub open spec fn connected(peer: PeerView, generation: u64) -> Deed {
    Deed::Announce(
        StatusView {
            status: ConnectionStatus::Connected,
            status_text: zerotier::STATUS_CONNECTED@,
            error_code: None,
            peer: Some(peer),
            generation,
        },
    )
}

/// Says that a connection ended and will be retried.
pub open spec fn reconnecting(generation: u64) -> Deed {
    Deed::Announce(
        StatusView {
            status: ConnectionStatus::Reconnecting,
            status_text: zerotier::STATUS_RECONNECTING@,
            error_code: None,
            peer: None,
            generation,
        },
    )
}

/// Whether a lost connection is retried: retries are on, and there is an address to go to.
pub open spec fn would_retry(v: NetView, peer_ip: Option<Seq<char>>) -> bool {
    v.reconnect_enabled && peer_ip is Some
}

/// The retry that is due next.
pub open spec fn next_retry(v: NetView, peer: Seq<char>) -> RetryView {
    RetryView {
        peer,
        port: v.cfg.port,
        delay_ms: crate::network::retry_delay(v.device_id, v.attempts),
        attempt: v.attempts,
        ticket: v.next_ticket,
    }
}

/// The state with the next retry due.
pub open spec fn retry_scheduled(v: NetView) -> NetView {
    NetView {
        attempts: (v.attempts + 1) as u32,
        pending: Some(v.next_ticket),
        next_ticket: (v.next_ticket + 1) as u64,
        ..v
    }
}

/// The last word on a connection: its state, text and error code.
pub open spec fn last_word(cause: CloseCause, zt_ip: Option<Seq<char>>) -> (
    ConnectionStatus,
    Seq<char>,
    Option<Seq<char>>,
) {
    match cause {
        CloseCause::User => (
            ConnectionStatus::Offline,
            if zt_ip is Some {
                zerotier::STATUS_WAITING_INPUT@
            } else {
                zerotier::STATUS_NO_ZT@
            },
            None,
        ),
        CloseCause::Peer => (ConnectionStatus::Offline, TEXT_PEER_CLOSED@, None),
        CloseCause::HeartbeatLost => (
            ConnectionStatus::Error,
            TEXT_BROKEN@,
            Some("heartbeat_timeout"@),
        ),
        CloseCause::Lost => (ConnectionStatus::Error, TEXT_BROKEN@, Some("connection_closed"@)),
        CloseCause::Failed(e) => (
            ConnectionStatus::Error,
            error::user_text_of(e),
            Some(error::code_of(e)),
        ),
    }
}

/// Says the last word on a connection.
pub open spec fn ended(generation: u64, cause: CloseCause, zt_ip: Option<Seq<char>>) -> Deed {
    Deed::Announce(
        StatusView {
            status: last_word(cause, zt_ip).0,
            status_text: last_word(cause, zt_ip).1,
            error_code: last_word(cause, zt_ip).2,
            peer: None,
            generation,
        },
    )
}

/// The end of a connection. It counts only where that connection has the slot, which becomes free.
/// Unless the user ended it, it is retried where that is possible.
pub open spec fn finalized(
    v: NetView,
    generation: u64,
    cause: CloseCause,
    zt_ip: Option<Seq<char>>,
    peer_ip: Option<Seq<char>>,
) -> Step {
    if !(v.slot matches Some(s) && s.generation == generation) {
        Step { net: v, deeds: seq![] }
    } else {
        let free = NetView { slot: None, ..v };
        if !(cause is User) && would_retry(v, peer_ip) {
            Step {
                net: retry_scheduled(free),
                deeds: seq![Deed::Retry(next_retry(v, peer_ip->0)), reconnecting(generation)],
            }
        } else {
            Step { net: free, deeds: seq![ended(generation, cause, zt_ip)] }
        }
    }
}

/// The end of the connection that has the slot, with its tasks told to stop.
pub open spec fn closed_out(
    v: NetView,
    s: SlotView,
    cause: CloseCause,
    zt_ip: Option<Seq<char>>,
    peer_ip: Option<Seq<char>>,
) -> Step {
    let end = finalized(v, s.generation, cause, zt_ip, peer_ip);
    Step { net: end.net, deeds: seq![Deed::Close] + end.deeds }
}

/// Why a connection that was told to stop ended.
pub open spec fn cause_of_flags(s: SlotView) -> CloseCause {
    if s.heartbeat_lost {
        CloseCause::HeartbeatLost
    } else {
        CloseCause::Lost
    }
}

/// Why a connection on which reading ended is over.
pub open spec fn cause_of_flags_or(s: SlotView, e: AppError) -> CloseCause {
    if s.heartbeat_lost {
        CloseCause::HeartbeatLost
    } else {
        CloseCause::Failed(e)
    }
}

/// The hello of this device.
pub open spec fn own_hello(v: NetView) -> Content {
    protocol::own_content(
        protocol::MSG_HELLO@,
        v.device_id,
        seq![
            ("device_id"@, Scalar::Text(v.device_id)),
            ("device_name"@, Scalar::Text(v.device_name)),
            ("protocol_version"@, Scalar::Unsigned(protocol::PROTOCOL_VERSION as u64)),
        ],
    )
}

/// The message that tells a peer of another version why it is turned away.
pub open spec fn version_refusal(v: NetView) -> Content {
    protocol::own_content(
        protocol::MSG_ERROR@,
        v.device_id,
        seq![("reason"@, Scalar::Text(protocol::REASON_VERSION_MISMATCH@))],
    )
}

/// The message that tells a peer that the user disconnects.
pub open spec fn goodbye(v: NetView) -> Content {
    protocol::own_content(
        protocol::MSG_DISCONNECT@,
        v.device_id,
        seq![("reason"@, Scalar::Text(protocol::REASON_USER_REQUESTED@))],
    )
}

/// The answer to a ping.
pub open spec fn pong(v: NetView, ping_id: Seq<char>, sent_at: u64) -> Content {
    protocol::own_content(
        protocol::MSG_PONG@,
        v.device_id,
        seq![("ping_id"@, Scalar::Text(ping_id)), ("sent_at"@, Scalar::Unsigned(sent_at))],
    )
}

/// A ping.
pub open spec fn ping(v: NetView, ping_id: Seq<char>, sent_at: u64) -> Content {
    protocol::own_content(
        protocol::MSG_PING@,
        v.device_id,
        seq![("ping_id"@, Scalar::Text(ping_id)), ("sent_at"@, Scalar::Unsigned(sent_at))],
    )
}

/// The peer that a good hello introduces.
pub open spec fn introduced(s: SlotView, m: Message) -> PeerView {
    PeerView {
        device_name: text::trimmed((protocol::hello_of(m.payload)->0).1),
        ip: s.peer_ip,
    }
}

/// The ids of clipboard messages with a new one: the oldest leaves where there are too many.
pub open spec fn remembered(recent: Seq<Seq<char>>, id: Seq<char>) -> Seq<Seq<char>> {
    let more = recent.push(id);
    if more.len() > MAX_RECENT_MESSAGE_IDS {
        more.drop_first()
    } else {
        more
    }
}

/// The state with the slot's phase changed.
pub open spec fn in_phase(v: NetView, s: SlotView, phase: PhaseView) -> NetView {
    NetView { slot: Some(SlotView { phase, ..s }), ..v }
}

/// The state of a connection that is now open: the count of retries starts over.
pub open spec fn opened(v: NetView, s: SlotView) -> NetView {
    NetView { attempts: 0, ..in_phase(v, s, PhaseView::Open) }
}

/// What comes of the first message on a connection, which has to be a hello. A peer of another
/// version is told so. On an inbound connection this device's hello follows.
pub open spec fn greeted(
    v: NetView,
    s: SlotView,
    m: Message,
    zt_ip: Option<Seq<char>>,
    peer_ip: Option<Seq<char>>,
) -> Step {
    if m.version != protocol::PROTOCOL_VERSION {
        let end = closed_out(
            v,
            s,
            CloseCause::Failed(AppError::ProtocolVersionMismatch),
            zt_ip,
            peer_ip,
        );
        Step { net: end.net, deeds: seq![Deed::Send(version_refusal(v))] + end.deeds }
    } else if !(m.msg_type@ == protocol::MSG_HELLO@ && protocol::acceptable_hello(
        m.payload,
        v.device_id,
    )) {
        closed_out(v, s, CloseCause::Failed(AppError::InvalidHello), zt_ip, peer_ip)
    } else if s.inbound {
        Step {
            net: in_phase(v, s, PhaseView::Replying(introduced(s, m))),
            deeds: seq![Deed::SendHello(own_hello(v))],
        }
    } else {
        Step {
            net: opened(v, s),
            deeds: seq![connected(introduced(s, m), s.generation), Deed::StartHeartbeat],
        }
    }
}

/// What a message on an open connection is.
pub enum Reply {
    /// The connection goes on.
    Go(NetView, Seq<Deed>),
    /// The connection is over.
    End(NetView, CloseCause),
}

/// What comes of a message on an open connection. A ping is answered; an answer to the waiting
/// ping gives a round trip; a clipboard update that is new and passes its checks lands. Hellos and
/// messages of unknown types do nothing. Another version, a ping or pong that cannot be read, an
/// error and a goodbye end the connection.
pub open spec fn handled(v: NetView, s: SlotView, m: Message, now: u64) -> Reply {
    if m.version != protocol::PROTOCOL_VERSION {
        Reply::End(v, CloseCause::Failed(AppError::ProtocolVersionMismatch))
    } else if m.msg_type@ == protocol::MSG_PING@ {
        match protocol::ping_of(m.payload) {
            Some((id, at)) => Reply::Go(v, seq![Deed::Send(pong(v, id, at))]),
            None => Reply::End(v, CloseCause::Failed(AppError::ProtocolInvalidJson)),
        }
    } else if m.msg_type@ == protocol::MSG_PONG@ {
        match protocol::ping_of(m.payload) {
            Some((id, _)) => Reply::Go(
                NetView {
                    slot: Some(SlotView { heartbeat: heartbeat::ponged(s.heartbeat, id), ..s }),
                    ..v
                },
                match heartbeat::round_trip(s.heartbeat, id, now) {
                    Some(ms) => seq![
                        Deed::Latency(
                            NetworkLatencyEvent { latency_ms: ms, generation: s.generation },
                        ),
                    ],
                    None => seq![],
                },
            ),
            None => Reply::End(v, CloseCause::Failed(AppError::ProtocolInvalidJson)),
        }
    } else if m.msg_type@ == protocol::MSG_HELLO@ {
        Reply::Go(v, seq![])
    } else if m.msg_type@ == protocol::MSG_DISCONNECT@ {
        Reply::End(v, CloseCause::Peer)
    } else if m.msg_type@ == protocol::MSG_ERROR@ {
        Reply::End(v, CloseCause::Failed(AppError::ConnectionClosed))
    } else if m.msg_type@ == protocol::MSG_CLIPBOARD_UPDATE@ {
        if v.recent.contains(m.message_id@) {
            Reply::Go(v, seq![])
        } else {
            Reply::Go(
                NetView { recent: remembered(v.recent, m.message_id@), ..v },
                match protocol::accepted_clipboard(m) {
                    Some((t, h)) => seq![Deed::Land(t, h)],
                    None => seq![],
                },
            )
        }
    } else {
        Reply::Go(v, seq![])
    }
}

/// What comes of a heartbeat: a ping, or the end where the peer is gone.
pub open spec fn beaten(v: NetView, s: SlotView, ping_id: Seq<char>, now: u64) -> Step {
    let beat = SlotView { heartbeat: heartbeat::ticked(s.heartbeat, ping_id, now), ..s };
    if heartbeat::expires(s.heartbeat) {
        Step {
            net: NetView { slot: Some(SlotView { heartbeat_lost: true, ..beat }), ..v },
            deeds: seq![Deed::Close],
        }
    } else {
        Step {
            net: NetView { slot: Some(beat), ..v },
            deeds: seq![Deed::Send(ping(v, ping_id, now))],
        }
    }
}

/// What comes of an event on the connection that has the slot. An event that does not belong to
/// the connection's phase does nothing.
pub open spec fn advanced(
    v: NetView,
    s: SlotView,
    e: ConnEvent,
    zt_ip: Option<Seq<char>>,
    peer_ip: Option<Seq<char>>,
) -> Step {
    let same = Step { net: v, deeds: seq![] };
    match s.phase {
        PhaseView::Claimed => match e {
            ConnEvent::Stopped => closed_out(v, s, CloseCause::User, zt_ip, peer_ip),
            _ => same,
        },
        PhaseView::Dialing => match e {
            ConnEvent::Begin => if exists|ip: u32| s.peer_ip == #[trigger] ipv4::dotted(ip) {
                let ip = choose|ip: u32| s.peer_ip == #[trigger] ipv4::dotted(ip);
                Step { net: v, deeds: seq![Deed::Dial(ip, s.port)] }
            } else {
                closed_out(v, s, CloseCause::Failed(AppError::InvalidPeerIp), zt_ip, peer_ip)
            },
            ConnEvent::Dialed => Step {
                net: in_phase(v, s, PhaseView::Greeting),
                deeds: seq![Deed::SendHello(own_hello(v))],
            },
            ConnEvent::DialFailed => closed_out(
                v,
                s,
                CloseCause::Failed(AppError::ConnectFailed),
                zt_ip,
                peer_ip,
            ),
            ConnEvent::DialTimedOut => closed_out(
                v,
                s,
                CloseCause::Failed(AppError::ConnectTimeout),
                zt_ip,
                peer_ip,
            ),
            ConnEvent::Stopped => closed_out(v, s, CloseCause::User, zt_ip, peer_ip),
            _ => same,
        },
        PhaseView::Greeting => match e {
            ConnEvent::Received { msg, .. } => greeted(v, s, msg, zt_ip, peer_ip),
            ConnEvent::HelloUnsent(x) => closed_out(v, s, CloseCause::Failed(x), zt_ip, peer_ip),
            ConnEvent::HelloTimedOut => closed_out(
                v,
                s,
                CloseCause::Failed(AppError::HandshakeTimeout),
                zt_ip,
                peer_ip,
            ),
            ConnEvent::ReadFailed(x) => closed_out(v, s, CloseCause::Failed(x), zt_ip, peer_ip),
            ConnEvent::Stopped => closed_out(
                v,
                s,
                CloseCause::Failed(AppError::ConnectionClosed),
                zt_ip,
                peer_ip,
            ),
            _ => same,
        },
        PhaseView::Replying(peer) => match e {
            ConnEvent::HelloSent => Step {
                net: opened(v, s),
                deeds: seq![connected(peer, s.generation), Deed::StartHeartbeat],
            },
            ConnEvent::HelloUnsent(x) => closed_out(v, s, CloseCause::Failed(x), zt_ip, peer_ip),
            ConnEvent::Stopped => closed_out(
                v,
                s,
                CloseCause::Failed(AppError::ConnectionClosed),
                zt_ip,
                peer_ip,
            ),
            _ => same,
        },
        PhaseView::Open => match e {
            ConnEvent::Received { msg, now } => match handled(v, s, msg, now) {
                Reply::Go(net, done) => Step { net, deeds: done },
                Reply::End(net, cause) => closed_out(net, s, cause, zt_ip, peer_ip),
            },
            ConnEvent::ReadFailed(x) => closed_out(v, s, cause_of_flags_or(s, x), zt_ip, peer_ip),
            ConnEvent::Tick { ping_id, now } => beaten(v, s, ping_id@, now),
            ConnEvent::Stopped => closed_out(v, s, cause_of_flags(s), zt_ip, peer_ip),
            _ => same,
        },
    }
}

/// What comes of an event on a connection. One that no longer has the slot is told to stop and
/// changes nothing.
pub open spec fn driven(
    v: NetView,
    generation: u64,
    e: ConnEvent,
    zt_ip: Option<Seq<char>>,
    peer_ip: Option<Seq<char>>,
) -> Step {
    match v.slot {
        Some(s) => if s.generation == generation {
            advanced(v, s, e, zt_ip, peer_ip)
        } else {
            Step { net: v, deeds: seq![Deed::Close] }
        },
        None => Step { net: v, deeds: seq![Deed::Close] },
    }
}

/// What comes of the user's order to disconnect: the peer is told, and the connection ends. With
/// no connection only due retries are called off.
pub open spec fn disconnected(
    v: NetView,
    zt_ip: Option<Seq<char>>,
    peer_ip: Option<Seq<char>>,
) -> Step {
    let w = retries_cancelled(v);
    match v.slot {
        Some(s) => {
            let end = closed_out(w, s, CloseCause::User, zt_ip, peer_ip);
            Step { net: end.net, deeds: seq![Deed::Send(goodbye(v))] + end.deeds }
        },
        None => Step { net: w, deeds: seq![] },
    }
}

/// Why a connection ends that is stopped with the whole network side: one that is still being
/// dialled as if the user ended it, one that is being greeted as a closed one, an open one as one
/// that was told to stop.
pub open spec fn cause_of_shutdown(s: SlotView) -> CloseCause {
    match s.phase {
        PhaseView::Claimed => CloseCause::User,
        PhaseView::Dialing => CloseCause::User,
        PhaseView::Greeting => CloseCause::Failed(AppError::ConnectionClosed),
        PhaseView::Replying(_) => CloseCause::Failed(AppError::ConnectionClosed),
        PhaseView::Open => cause_of_flags(s),
    }
}

/// What comes of stopping the network side: no listener, no connection and no retry is left, and
/// the last word on the connection is said. Of a slot that was only taken nothing was ever said.
pub open spec fn shut_down(v: NetView, zt_ip: Option<Seq<char>>) -> Step {
    Step {
        net: NetView { listener: None, bind_ip: None, slot: None, ..retries_cancelled(v) },
        deeds: match v.slot {
            None => seq![],
            Some(s) => if s.phase is Claimed {
                seq![Deed::Close]
            } else {
                seq![Deed::Close, ended(s.generation, cause_of_shutdown(s), zt_ip)]
            },
        },
    }
}

/// What becomes of the listener when this machine's address is a new one: nothing where it is the
/// one bound last; otherwise the listener stops and, where there is an address that can be listened
/// on, one on it starts. Until that one has started or failed to, the address of the one before is
/// still the listener's.
pub open spec fn listening(v: NetView, zt_ip: Option<Seq<char>>) -> (NetView, ListenPlan) {
    if v.bind_ip == zt_ip {
        (v, ListenPlan::Keep)
    } else {
        match zt_ip {
            None => (NetView { bind_ip: None, listener: None, ..v }, ListenPlan::Stop),
            Some(t) => if exists|ip: u32| t == #[trigger] ipv4::dotted(ip) {
                let ip = choose|ip: u32| t == #[trigger] ipv4::dotted(ip);
                (
                    NetView { bind_ip: zt_ip, ..v },
                    ListenPlan::Rebind(ListenAddr { ip, port: v.cfg.port }),
                )
            } else {
                (NetView { bind_ip: zt_ip, listener: None, ..v }, ListenPlan::Unusable)
            },
        }
    }
}

} // verus!
