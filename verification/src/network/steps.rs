use crate::error::AppError;
use crate::identity;
use crate::ipv4;
use crate::network;
use crate::network::heartbeat;
use crate::network::model;
use crate::network::model::Action;
use crate::network::model::ConnEvent;
use crate::network::model::Deed;
use crate::network::model::ListenAddr;
use crate::network::model::ListenPlan;
use crate::network::model::NetView;
use crate::network::model::PhaseView;
use crate::network::model::Reply;
use crate::network::model::SlotView;
use crate::network::CloseCause;
use crate::network::ManagerConfig;
use crate::protocol;
use crate::protocol::Message;
use crate::state::ConnectionStatus;
use crate::state::PeerView;
use crate::system;
use crate::text;
use vstd::prelude::*;

verus! {

/// A device that has done nothing yet has no listener, no connection and no retry, remembers no
/// message, and is set up as it was asked to be.
pub proof fn at_the_start(device_id: Seq<char>, device_name: Seq<char>, cfg: ManagerConfig)
    ensures
        ({
            let v = model::started(device_id, device_name, cfg);
            &&& v.device_id == device_id && v.device_name == device_name && v.cfg == cfg
            &&& v.reconnect_enabled == cfg.reconnect
            &&& v.slot is None && v.listener is None && v.bind_ip is None && v.pending is None
            &&& v.recent.len() == 0 && v.attempts == 0 && v.next_generation == 0
            &&& v.next_ticket == 0
        }),
{
}

/// A connection is made for the address and in the direction that was asked for, with the next
/// generation and a heartbeat that has missed nothing; everything else stays.
pub proof fn slot_is_taken_as_asked(v: NetView, inbound: bool, peer: Seq<char>, port: u16)
    requires
        v.next_generation < u64::MAX,
    ensures
        ({
            let w = model::claimed_for(v, inbound, peer, port);
            &&& w.slot matches Some(s) && s.peer_ip == peer && s.port == port && s.inbound == inbound
                && s.generation == v.next_generation + 1 && !s.heartbeat_lost
                && s.heartbeat.pending is None && s.heartbeat.misses == 0 && (inbound
                ==> s.phase is Greeting) && (!inbound ==> s.phase is Dialing)
            &&& w.next_generation == v.next_generation + 1
            &&& w == (NetView { slot: w.slot, next_generation: w.next_generation, ..v })
        }),
{
}

/// Whatever happens to a connection, it stays a connection to the same address in the same
/// direction under the same generation, and the device, its settings and its listener stay as they
/// are. Only a message changes which ids are remembered.
#[verifier::rlimit(80)]
#[verifier::spinoff_prover]
pub proof fn what_no_event_changes(
    v: NetView,
    generation: u64,
    e: ConnEvent,
    zt_ip: Option<Seq<char>>,
    peer_ip: Option<Seq<char>>,
)
    ensures
        ({
            let w = model::driven(v, generation, e, zt_ip, peer_ip).net;
            &&& w.device_id == v.device_id && w.device_name == v.device_name && w.cfg == v.cfg
            &&& w.reconnect_enabled == v.reconnect_enabled
            &&& w.next_generation == v.next_generation
            &&& w.bind_ip == v.bind_ip && w.listener == v.listener
            &&& w.slot matches Some(t) ==> (v.slot matches Some(s) && t.generation == s.generation
                && t.peer_ip == s.peer_ip && t.port == s.port && t.inbound == s.inbound)
            &&& !(e is Received) ==> w.recent == v.recent
            &&& w.slot is Some ==> w.pending == v.pending && w.next_ticket == v.next_ticket
        }),
{
}

/// On a connection the peer is announced with the address that the connection was made for, on
/// those that this device dialled and those that came in alike, and with the trimmed name of the
/// hello that was accepted, which on one that came in is kept until the answer was sent.
#[verifier::rlimit(40)]
pub proof fn peer_is_announced_by_address_and_name(
    v: NetView,
    s: SlotView,
    e: ConnEvent,
    zt_ip: Option<Seq<char>>,
    peer_ip: Option<Seq<char>>,
    i: int,
)
    requires
        v.slot == Some(s),
        s.phase matches PhaseView::Replying(p) ==> p.ip == s.peer_ip,
        ({
            let step = model::driven(v, s.generation, e, zt_ip, peer_ip);
            0 <= i < step.deeds.len() && (step.deeds[i] matches Deed::Announce(ev) && ev.status
                == ConnectionStatus::Connected)
        }),
    ensures
        model::driven(v, s.generation, e, zt_ip, peer_ip).deeds[i] matches Deed::Announce(ev) && {
            &&& ev.peer matches Some(p) && p.ip == s.peer_ip
            &&& ev.generation == s.generation
            &&& ev.error_code is None
            &&& ev.status_text == "已连接。"@
            &&& s.phase is Greeting ==> (e matches ConnEvent::Received { msg, .. } && (
            protocol::hello_of(msg.payload) matches Some((_, name, _)) && (ev.peer matches Some(p)
                && p.device_name == text::trimmed(name))))
            &&& s.phase matches PhaseView::Replying(q) ==> ev.peer == Some(q)
        },
{
}

/// The peer that is kept while its hello is answered is the one that sent it: by the address that
/// the connection came from and the trimmed name.
pub proof fn peer_is_kept_while_answered(
    v: NetView,
    generation: u64,
    e: ConnEvent,
    zt_ip: Option<Seq<char>>,
    peer_ip: Option<Seq<char>>,
)
    requires
        v.slot matches Some(s) && (s.phase matches PhaseView::Replying(p) ==> p.ip == s.peer_ip),
    ensures
        model::driven(v, generation, e, zt_ip, peer_ip).net.slot matches Some(t) ==> (t.phase
            matches PhaseView::Replying(p) ==> p.ip == t.peer_ip),
        !(v.slot matches Some(s) && s.phase is Replying) ==> (model::driven(
            v,
            generation,
            e,
            zt_ip,
            peer_ip,
        ).net.slot matches Some(t) ==> (t.phase matches PhaseView::Replying(p) ==> (e matches
            ConnEvent::Received { msg, .. } && (protocol::hello_of(msg.payload) matches Some(
            (_, name, _),
        ) && p.device_name == text::trimmed(name))))),
{
}

/// From the order to connect to the announcement: the address is dialled on the port that was asked
/// for, this device's hello goes out, and with the peer's good hello the peer is announced by its
/// name and by that very address.
pub proof fn from_dialling_to_connected(
    v: NetView,
    ip: u32,
    port: u16,
    hello: Message,
    id: Seq<char>,
    name: Seq<char>,
    now: u64,
    zt_ip: Option<Seq<char>>,
    peer_ip: Option<Seq<char>>,
)
    requires
        v.next_generation < u64::MAX,
        hello.version == 1,
        hello.msg_type@ == "hello"@,
        protocol::hello_of(hello.payload) == Some((id, name, 1u32)),
        system::is_uuid_text(id),
        id != v.device_id,
        identity::presentable_name(name),
    ensures
        ({
            let g = (v.next_generation + 1) as u64;
            let a = model::claimed_for(v, false, ipv4::dotted(ip), port);
            let b = model::driven(a, g, ConnEvent::Begin, zt_ip, peer_ip);
            let c = model::driven(b.net, g, ConnEvent::Dialed, zt_ip, peer_ip);
            let d = model::driven(
                c.net,
                g,
                ConnEvent::Received { msg: hello, now },
                zt_ip,
                peer_ip,
            );
            &&& b.deeds == seq![Deed::Dial(ip, port)]
            &&& c.deeds.len() == 1 && c.deeds[0] is SendHello
            &&& d.deeds.len() == 2 && d.deeds[1] is StartHeartbeat
            &&& d.deeds[0] matches Deed::Announce(ev) && ev.status == ConnectionStatus::Connected
                && ev.generation == g && ev.peer == Some(
                PeerView { device_name: text::trimmed(name), ip: ipv4::dotted(ip) },
            )
            &&& d.net.slot matches Some(s) && s.phase is Open && s.peer_ip == ipv4::dotted(ip)
            &&& d.net.attempts == 0
        }),
{
    let chosen = choose|x: u32| ipv4::dotted(ip) == #[trigger] ipv4::dotted(x);
    assert(ipv4::dotted(ip) == ipv4::dotted(ip));
    ipv4::dotted_is_unique(ip, chosen);
    text::trimmed_no_longer(name);
}

/// From a connection that comes in to the announcement: the peer's good hello is answered with this
/// device's, and once that was sent the peer is announced by its name and by the address that the
/// connection came from.
pub proof fn from_accepting_to_connected(
    v: NetView,
    from: Seq<char>,
    hello: Message,
    id: Seq<char>,
    name: Seq<char>,
    now: u64,
    zt_ip: Option<Seq<char>>,
    peer_ip: Option<Seq<char>>,
)
    requires
        v.next_generation < u64::MAX,
        hello.version == 1,
        hello.msg_type@ == "hello"@,
        protocol::hello_of(hello.payload) == Some((id, name, 1u32)),
        system::is_uuid_text(id),
        id != v.device_id,
        identity::presentable_name(name),
    ensures
        ({
            let g = (v.next_generation + 1) as u64;
            let a = model::claimed_for(v, true, from, 0);
            let b = model::driven(
                a,
                g,
                ConnEvent::Received { msg: hello, now },
                zt_ip,
                peer_ip,
            );
            let c = model::driven(b.net, g, ConnEvent::HelloSent, zt_ip, peer_ip);
            &&& b.deeds.len() == 1 && b.deeds[0] is SendHello
            &&& c.deeds.len() == 2 && c.deeds[1] is StartHeartbeat
            &&& c.deeds[0] matches Deed::Announce(ev) && ev.status == ConnectionStatus::Connected
                && ev.generation == g && ev.peer == Some(
                PeerView { device_name: text::trimmed(name), ip: from },
            )
            &&& c.net.slot matches Some(s) && s.phase is Open && s.peer_ip == from
            &&& c.net.attempts == 0
        }),
{
    text::trimmed_no_longer(name);
}

/// A success starts the count of retries over: whenever a connection becomes an open one, the count
/// is 0 from there on.
#[verifier::rlimit(40)]
pub proof fn success_starts_the_count_over(
    v: NetView,
    generation: u64,
    e: ConnEvent,
    zt_ip: Option<Seq<char>>,
    peer_ip: Option<Seq<char>>,
)
    requires
        v.slot matches Some(s) && !(s.phase is Open),
        model::driven(v, generation, e, zt_ip, peer_ip).net.slot matches Some(t) && t.phase is Open,
    ensures
        model::driven(v, generation, e, zt_ip, peer_ip).net.attempts == 0,
{
}

/// The count of retries changes in no other way: while a connection is there an event leaves it,
/// and with the connection's end it goes up by one or stays.
#[verifier::rlimit(40)]
pub proof fn count_changes_only_with_success_or_end(
    v: NetView,
    generation: u64,
    e: ConnEvent,
    zt_ip: Option<Seq<char>>,
    peer_ip: Option<Seq<char>>,
)
    requires
        v.attempts < u32::MAX,
        v.slot matches Some(s) && s.generation == generation,
    ensures
        ({
            let w = model::driven(v, generation, e, zt_ip, peer_ip).net;
            &&& (w.slot matches Some(t) && (!(t.phase is Open) || (v.slot matches Some(s)
                && s.phase is Open))) ==> w.attempts == v.attempts
            &&& w.slot is None ==> w.attempts == v.attempts || w.attempts == v.attempts + 1
        }),
{
}

/// The first retry after an open connection was lost waits the shortest time, however often it was
/// retried before: with the success in between it is attempt 0, 2 to 3.5 seconds later.
pub proof fn first_retry_after_a_success(
    v: NetView,
    s: SlotView,
    hello_sent: PeerView,
    lost: AppError,
    zt_ip: Option<Seq<char>>,
    peer: Seq<char>,
)
    requires
        v.slot == Some(s),
        s.phase == PhaseView::Replying(hello_sent),
        !s.heartbeat_lost,
        v.reconnect_enabled,
        v.next_ticket < u64::MAX,
    ensures
        ({
            let open = model::driven(v, s.generation, ConnEvent::HelloSent, zt_ip, Some(peer));
            let end = model::driven(
                open.net,
                s.generation,
                ConnEvent::ReadFailed(lost),
                zt_ip,
                Some(peer),
            );
            &&& end.net.slot is None
            &&& end.net.attempts == 1
            &&& end.net.pending == Some(v.next_ticket)
            &&& end.deeds[1] matches Deed::Retry(r) && r.attempt == 0 && r.peer == peer && r.port
                == v.cfg.port && r.ticket == v.next_ticket && 2000 <= r.delay_ms < 3500
        }),
{
    network::waits_in_numbers(v.device_id, 0);
}

/// The same of a connection that this device dialled: with the peer's good hello the count starts
/// over, and the next loss is retried as attempt 0.
pub proof fn first_retry_after_a_dialled_success(
    v: NetView,
    s: SlotView,
    hello: Message,
    now: u64,
    lost: AppError,
    zt_ip: Option<Seq<char>>,
    peer: Seq<char>,
)
    requires
        v.slot == Some(s),
        s.phase is Greeting,
        !s.inbound,
        !s.heartbeat_lost,
        hello.version == 1,
        hello.msg_type@ == "hello"@,
        protocol::acceptable_hello(hello.payload, v.device_id),
        v.reconnect_enabled,
        v.next_ticket < u64::MAX,
    ensures
        ({
            let open = model::driven(
                v,
                s.generation,
                ConnEvent::Received { msg: hello, now },
                zt_ip,
                Some(peer),
            );
            let end = model::driven(
                open.net,
                s.generation,
                ConnEvent::ReadFailed(lost),
                zt_ip,
                Some(peer),
            );
            &&& end.net.slot is None
            &&& end.deeds[1] matches Deed::Retry(r) && r.attempt == 0 && r.peer == peer && 2000
                <= r.delay_ms < 3500
        }),
{
    network::waits_in_numbers(v.device_id, 0);
}

/// How a connection ends that has the slot: the slot is free; where the user did not end it,
/// retries are on and an address is saved, one retry to that address is scheduled with the next
/// ticket and the count goes up, and the state shows that it is retried; otherwise the last word is
/// said. Nothing else changes.
pub proof fn how_a_connection_ends(
    v: NetView,
    s: SlotView,
    cause: CloseCause,
    zt_ip: Option<Seq<char>>,
    peer_ip: Option<Seq<char>>,
)
    requires
        v.slot == Some(s),
        v.attempts < u32::MAX,
        v.next_ticket < u64::MAX,
    ensures
        ({
            let step = model::finalized(v, s.generation, cause, zt_ip, peer_ip);
            let retried = !(cause is User) && v.reconnect_enabled && peer_ip is Some;
            &&& step.net.slot is None
            &&& step.net == (NetView {
                slot: None,
                attempts: step.net.attempts,
                pending: step.net.pending,
                next_ticket: step.net.next_ticket,
                ..v
            })
            &&& retried ==> {
                &&& step.net.attempts == v.attempts + 1
                &&& step.net.pending == Some(v.next_ticket)
                &&& step.net.next_ticket == v.next_ticket + 1
                &&& step.deeds.len() == 2
                &&& step.deeds[0] matches Deed::Retry(r) && r.peer == peer_ip->0 && r.port
                    == v.cfg.port && r.attempt == v.attempts && r.ticket == v.next_ticket
                    && r.delay_ms == network::retry_delay(v.device_id, v.attempts)
                &&& step.deeds[1] matches Deed::Announce(ev) && ev.status
                    == ConnectionStatus::Reconnecting && ev.generation == s.generation && ev.peer is
                    None && ev.error_code is None && ev.status_text == "连接已断开，正在重试……"@
            }
            &&& !retried ==> {
                &&& step.net.attempts == v.attempts
                &&& step.net.pending == v.pending
                &&& step.net.next_ticket == v.next_ticket
                &&& step.deeds.len() == 1
                &&& step.deeds[0] matches Deed::Announce(ev) && ev.generation == s.generation
                    && ev.peer is None
            }
        }),
{
}

/// What the last word on a connection is. The user's own end and the peer's goodbye are no errors;
/// every other end is one, under the code and with the text of what went wrong.
pub proof fn last_words(
    generation: u64,
    zt_ip: Option<Seq<char>>,
    cause: CloseCause,
)
    ensures
        model::ended(generation, cause, zt_ip) matches Deed::Announce(ev) && {
            &&& ev.generation == generation && ev.peer is None
            &&& cause is User ==> ev.status == ConnectionStatus::Offline && ev.error_code is None
            &&& cause is User && zt_ip is Some ==> ev.status_text == "等待输入对方 IP。"@
            &&& cause is User && zt_ip is None ==> ev.status_text == "未发现 ZeroTier IP。"@
            &&& cause is Peer ==> ev.status == ConnectionStatus::Offline && ev.error_code is None
                && ev.status_text == "对方已断开连接。"@
            &&& cause is HeartbeatLost ==> ev.status == ConnectionStatus::Error && ev.error_code
                == Some("heartbeat_timeout"@) && ev.status_text == "连接已中断。"@
            &&& cause is Lost ==> ev.status == ConnectionStatus::Error && ev.error_code == Some(
                "connection_closed"@,
            ) && ev.status_text == "连接已中断。"@
            &&& cause matches CloseCause::Failed(e) ==> ev.status == ConnectionStatus::Error
                && ev.error_code == Some(crate::error::code_of(e)) && ev.status_text
                == crate::error::user_text_of(e)
        },
{
}

/// An end is told to the connection's tasks first and then happens as `how_a_connection_ends` says.
pub proof fn tasks_are_told_first(
    v: NetView,
    s: SlotView,
    cause: CloseCause,
    zt_ip: Option<Seq<char>>,
    peer_ip: Option<Seq<char>>,
)
    ensures
        ({
            let end = model::finalized(v, s.generation, cause, zt_ip, peer_ip);
            let all = model::closed_out(v, s, cause, zt_ip, peer_ip);
            all.net == end.net && all.deeds.len() == end.deeds.len() + 1 && all.deeds[0] is Close
                && all.deeds.skip(1) == end.deeds
        }),
{
    let end = model::finalized(v, s.generation, cause, zt_ip, peer_ip);
    assert(model::closed_out(v, s, cause, zt_ip, peer_ip).deeds.skip(1) =~= end.deeds);
}

/// What the events of a connection that is being dialled do: the address is dialled on the port of
/// the connection, a text that is no address ends it, and so do a failure, a time-out and the order
/// to stop, each under its own cause.
pub proof fn while_dialling(
    v: NetView,
    s: SlotView,
    ip: u32,
    zt_ip: Option<Seq<char>>,
    peer_ip: Option<Seq<char>>,
)
    requires
        v.slot == Some(s),
        s.phase is Dialing,
    ensures
        s.peer_ip == ipv4::dotted(ip) ==> model::driven(
            v,
            s.generation,
            ConnEvent::Begin,
            zt_ip,
            peer_ip,
        ) == (model::Step { net: v, deeds: seq![Deed::Dial(ip, s.port)] }),
        (forall|x: u32| s.peer_ip != #[trigger] ipv4::dotted(x)) ==> model::driven(
            v,
            s.generation,
            ConnEvent::Begin,
            zt_ip,
            peer_ip,
        ) == model::closed_out(v, s, CloseCause::Failed(AppError::InvalidPeerIp), zt_ip, peer_ip),
        model::driven(v, s.generation, ConnEvent::DialFailed, zt_ip, peer_ip) == model::closed_out(
            v,
            s,
            CloseCause::Failed(AppError::ConnectFailed),
            zt_ip,
            peer_ip,
        ),
        model::driven(v, s.generation, ConnEvent::DialTimedOut, zt_ip, peer_ip)
            == model::closed_out(
            v,
            s,
            CloseCause::Failed(AppError::ConnectTimeout),
            zt_ip,
            peer_ip,
        ),
        model::driven(v, s.generation, ConnEvent::Stopped, zt_ip, peer_ip) == model::closed_out(
            v,
            s,
            CloseCause::User,
            zt_ip,
            peer_ip,
        ),
        ({
            let step = model::driven(v, s.generation, ConnEvent::Dialed, zt_ip, peer_ip);
            &&& step.deeds == seq![Deed::SendHello(model::own_hello(v))]
            &&& step.net == (NetView {
                slot: Some(SlotView { phase: PhaseView::Greeting, ..s }),
                ..v
            })
        }),
{
    if s.peer_ip == ipv4::dotted(ip) {
        let chosen = choose|x: u32| s.peer_ip == #[trigger] ipv4::dotted(x);
        ipv4::dotted_is_unique(ip, chosen);
    }
}

/// What ends a connection whose hellos are being exchanged: an answer that cannot be sent, a hello
/// that does not come in time, a read that fails and the order to stop, each under its own cause.
pub proof fn while_greeting(
    v: NetView,
    s: SlotView,
    x: AppError,
    zt_ip: Option<Seq<char>>,
    peer_ip: Option<Seq<char>>,
)
    requires
        v.slot == Some(s),
        s.phase is Greeting || s.phase is Replying,
    ensures
        model::driven(v, s.generation, ConnEvent::HelloUnsent(x), zt_ip, peer_ip)
            == model::closed_out(v, s, CloseCause::Failed(x), zt_ip, peer_ip),
        model::driven(v, s.generation, ConnEvent::Stopped, zt_ip, peer_ip) == model::closed_out(
            v,
            s,
            CloseCause::Failed(AppError::ConnectionClosed),
            zt_ip,
            peer_ip,
        ),
        s.phase is Greeting ==> model::driven(
            v,
            s.generation,
            ConnEvent::HelloTimedOut,
            zt_ip,
            peer_ip,
        ) == model::closed_out(
            v,
            s,
            CloseCause::Failed(AppError::HandshakeTimeout),
            zt_ip,
            peer_ip,
        ),
        s.phase is Greeting ==> model::driven(
            v,
            s.generation,
            ConnEvent::ReadFailed(x),
            zt_ip,
            peer_ip,
        ) == model::closed_out(v, s, CloseCause::Failed(x), zt_ip, peer_ip),
{
}

/// What comes of the peer's first message, by what it is. A message of another version is refused
/// with an answer that says so; one that is no acceptable hello ends the connection without one; an
/// acceptable hello is answered where the connection came in and opens it where this device
/// dialled.
pub proof fn first_message(
    v: NetView,
    s: SlotView,
    m: Message,
    now: u64,
    zt_ip: Option<Seq<char>>,
    peer_ip: Option<Seq<char>>,
)
    requires
        v.slot == Some(s),
        s.phase is Greeting,
    ensures
        ({
            let step = model::driven(
                v,
                s.generation,
                ConnEvent::Received { msg: m, now },
                zt_ip,
                peer_ip,
            );
            let good = m.version == 1 && m.msg_type@ == "hello"@ && protocol::acceptable_hello(
                m.payload,
                v.device_id,
            );
            &&& m.version != 1 ==> step.net == model::closed_out(
                v,
                s,
                CloseCause::Failed(AppError::ProtocolVersionMismatch),
                zt_ip,
                peer_ip,
            ).net && step.deeds[0] == Deed::Send(model::version_refusal(v)) && step.deeds.skip(1)
                == model::closed_out(
                v,
                s,
                CloseCause::Failed(AppError::ProtocolVersionMismatch),
                zt_ip,
                peer_ip,
            ).deeds
            &&& m.version == 1 && !good ==> step == model::closed_out(
                v,
                s,
                CloseCause::Failed(AppError::InvalidHello),
                zt_ip,
                peer_ip,
            )
            &&& good && s.inbound ==> step.deeds == seq![Deed::SendHello(model::own_hello(v))] && (
            step.net.slot matches Some(t) && t.phase is Replying && t == (SlotView {
                phase: t.phase,
                ..s
            })) && step.net == (NetView { slot: step.net.slot, ..v })
            &&& good && !s.inbound ==> step.deeds.len() == 2 && (step.deeds[0] matches
                Deed::Announce(ev) && ev.status == ConnectionStatus::Connected)
                && step.deeds[1] is StartHeartbeat && step.net == (NetView {
                slot: Some(SlotView { phase: PhaseView::Open, ..s }),
                attempts: 0,
                ..v
            })
        }),
{
    let end = model::closed_out(
        v,
        s,
        CloseCause::Failed(AppError::ProtocolVersionMismatch),
        zt_ip,
        peer_ip,
    );
    let refused = seq![Deed::Send(model::version_refusal(v))] + end.deeds;
    assert(refused.skip(1) =~= end.deeds);
}

/// Once the answer to a hello was sent, the connection is open and the peer that was kept is
/// announced; the heartbeat starts, and nothing else changes but that the count of retries starts
/// over.
pub proof fn answer_sent(
    v: NetView,
    s: SlotView,
    p: PeerView,
    zt_ip: Option<Seq<char>>,
    peer_ip: Option<Seq<char>>,
)
    requires
        v.slot == Some(s),
        s.phase == PhaseView::Replying(p),
    ensures
        ({
            let step = model::driven(v, s.generation, ConnEvent::HelloSent, zt_ip, peer_ip);
            &&& step.net == (NetView {
                slot: Some(SlotView { phase: PhaseView::Open, ..s }),
                attempts: 0,
                ..v
            })
            &&& step.deeds.len() == 2 && step.deeds[1] is StartHeartbeat
            &&& step.deeds[0] matches Deed::Announce(ev) && ev.status == ConnectionStatus::Connected
                && ev.peer == Some(p) && ev.generation == s.generation
        }),
{
}

/// A message on an open connection does what its type says and no more: where the connection goes
/// on, all of that and nothing else is done; where it is over, it ends under that cause.
pub proof fn messages_do_what_their_type_says(
    v: NetView,
    s: SlotView,
    m: Message,
    now: u64,
    zt_ip: Option<Seq<char>>,
    peer_ip: Option<Seq<char>>,
)
    requires
        v.slot == Some(s),
        s.phase is Open,
    ensures
        ({
            let step = model::driven(
                v,
                s.generation,
                ConnEvent::Received { msg: m, now },
                zt_ip,
                peer_ip,
            );
            &&& model::handled(v, s, m, now) matches Reply::Go(w, done) ==> step.net == w
                && step.deeds == done
            &&& model::handled(v, s, m, now) matches Reply::End(w, cause) ==> w == v && step
                == model::closed_out(v, s, cause, zt_ip, peer_ip)
        }),
{
}

/// A ping on an open connection is answered with its own id and time, and the connection stays as
/// it is.
pub proof fn pings_are_answered(
    v: NetView,
    s: SlotView,
    m: Message,
    now: u64,
    id: Seq<char>,
    at: u64,
    zt_ip: Option<Seq<char>>,
    peer_ip: Option<Seq<char>>,
)
    requires
        v.slot == Some(s),
        s.phase is Open,
        m.version == 1,
        m.msg_type@ == "ping"@,
        protocol::ping_of(m.payload) == Some((id, at)),
    ensures
        ({
            let step = model::driven(
                v,
                s.generation,
                ConnEvent::Received { msg: m, now },
                zt_ip,
                peer_ip,
            );
            step.net == v && step.deeds == seq![Deed::Send(model::pong(v, id, at))]
        }),
{
}

/// An event that does not belong to how far a connection is does nothing.
pub proof fn misplaced_events_do_nothing(
    v: NetView,
    s: SlotView,
    e: ConnEvent,
    zt_ip: Option<Seq<char>>,
    peer_ip: Option<Seq<char>>,
)
    requires
        v.slot == Some(s),
        ({
            ||| s.phase is Claimed && !(e is Stopped)
            ||| s.phase is Dialing && (e is HelloSent || e is HelloUnsent || e is HelloTimedOut
                || e is Received || e is ReadFailed || e is Tick)
            ||| s.phase is Greeting && (e is Begin || e is Dialed || e is DialFailed
                || e is DialTimedOut || e is HelloSent || e is Tick)
            ||| s.phase is Replying && (e is Begin || e is Dialed || e is DialFailed
                || e is DialTimedOut || e is HelloTimedOut || e is Received || e is ReadFailed
                || e is Tick)
            ||| s.phase is Open && (e is Begin || e is Dialed || e is DialFailed || e is DialTimedOut
                || e is HelloSent || e is HelloUnsent || e is HelloTimedOut)
        }),
    ensures
        model::driven(v, s.generation, e, zt_ip, peer_ip) == (model::Step { net: v, deeds: seq![] }),
{
}

/// One more connection or retry can be counted up to the largest number there is.
pub proof fn room_in_the_counters(v: NetView)
    ensures
        model::can_claim(v) <==> v.next_generation < 0xffff_ffff_ffff_ffff,
        model::can_retry(v) <==> v.attempts < 0xffff_ffff && v.next_ticket < 0xffff_ffff_ffff_ffff,
{
}

/// What is sent has an object as payload and an id of its own: 36 characters of a random UUID.
pub proof fn what_is_sent_is_well_made(actions: Seq<Action>, i: int)
    requires
        model::all_send_well(actions),
        0 <= i < actions.len(),
    ensures
        actions[i] matches Action::Send(m) ==> m.payload is Object && m.message_id@.len() == 36
            && system::is_v4_text(m.message_id@),
        actions[i] matches Action::SendHello(m) ==> m.payload is Object && m.message_id@.len() == 36
            && system::is_v4_text(m.message_id@),
{
    assert(model::sends_well(actions[i]));
}

/// What a device says in its own messages, as the peer reads them: its hello gives its id, its name
/// and the protocol version; a ping and its answer give the ping's id and time; a goodbye and a
/// refusal give their reason. All are of version 1 and from this device.
pub proof fn own_messages_as_read(v: NetView, m: Message, id: Seq<char>, at: u64)
    requires
        m.payload is Object,
    ensures
        protocol::content(m) == model::own_hello(v) ==> m.version == 1 && m.msg_type@ == "hello"@
            && m.device_id@ == v.device_id && protocol::hello_of(m.payload) == Some(
            (v.device_id, v.device_name, 1u32),
        ),
        protocol::content(m) == model::ping(v, id, at) ==> m.version == 1 && m.msg_type@ == "ping"@
            && m.device_id@ == v.device_id && protocol::ping_of(m.payload) == Some((id, at)),
        protocol::content(m) == model::pong(v, id, at) ==> m.version == 1 && m.msg_type@ == "pong"@
            && m.device_id@ == v.device_id && protocol::ping_of(m.payload) == Some((id, at)),
        protocol::content(m) == model::goodbye(v) ==> m.version == 1 && m.msg_type@
            == "disconnect"@ && m.device_id@ == v.device_id && protocol::reason_of(m.payload)
            == Some("user_requested"@),
        protocol::content(m) == model::version_refusal(v) ==> m.version == 1 && m.msg_type@
            == "error"@ && m.device_id@ == v.device_id && protocol::reason_of(m.payload) == Some(
            "version_mismatch"@,
        ),
{
    if protocol::content(m) == model::own_hello(v) {
        protocol::hello_members_read(m.payload, v.device_id, v.device_name, 1);
    }
    if protocol::content(m) == model::ping(v, id, at) || protocol::content(m) == model::pong(
        v,
        id,
        at,
    ) {
        protocol::ping_members_read(m.payload, id, at);
    }
    if protocol::content(m) == model::goodbye(v) {
        protocol::reason_members_read(m.payload, "user_requested"@);
    }
    if protocol::content(m) == model::version_refusal(v) {
        protocol::reason_members_read(m.payload, "version_mismatch"@);
    }
}

/// What comes of a message on an open connection, by its type. A goodbye and an error end the
/// connection, and so do a ping or pong that cannot be read and a message of another version.
/// Everything else leaves it open; hellos and messages of other types do nothing at all.
pub proof fn messages_by_type(v: NetView, s: SlotView, m: Message, now: u64)
    requires
        m.version == 1,
    ensures
        ({
            let r = model::handled(v, s, m, now);
            &&& m.msg_type@ == "ping"@ && protocol::ping_of(m.payload) is None ==> r == Reply::End(
                v,
                CloseCause::Failed(AppError::ProtocolInvalidJson),
            )
            &&& m.msg_type@ == "pong"@ && protocol::ping_of(m.payload) is None ==> r == Reply::End(
                v,
                CloseCause::Failed(AppError::ProtocolInvalidJson),
            )
            &&& m.msg_type@ == "disconnect"@ ==> r == Reply::End(v, CloseCause::Peer)
            &&& m.msg_type@ == "error"@ ==> r == Reply::End(
                v,
                CloseCause::Failed(AppError::ConnectionClosed),
            )
            &&& m.msg_type@ == "hello"@ ==> r == Reply::Go(v, seq![])
            &&& m.msg_type@ != "ping"@ && m.msg_type@ != "pong"@ && m.msg_type@ != "hello"@
                && m.msg_type@ != "disconnect"@ && m.msg_type@ != "error"@ && m.msg_type@
                != "clipboard_update"@ ==> r == Reply::Go(v, seq![])
        }),
{
    network::laws::message_types_differ();
}

/// A message of another version ends an open connection.
pub proof fn other_versions_end_it(v: NetView, s: SlotView, m: Message, now: u64)
    requires
        m.version != 1,
    ensures
        model::handled(v, s, m, now) == Reply::End(
            v,
            CloseCause::Failed(AppError::ProtocolVersionMismatch),
        ),
{
}

/// A pong that answers the waiting ping tells of the time since the ping was sent, for this
/// connection, and the ping waits no longer; any other pong tells of nothing and changes nothing.
pub proof fn pongs_measure_the_round_trip(
    v: NetView,
    s: SlotView,
    m: Message,
    now: u64,
    id: Seq<char>,
    at: u64,
    sent_at: u64,
)
    requires
        v.slot == Some(s),
        m.version == 1,
        m.msg_type@ == "pong"@,
        protocol::ping_of(m.payload) == Some((id, at)),
    ensures
        s.heartbeat.pending == Some((id, sent_at)) && now >= sent_at ==> (model::handled(
            v,
            s,
            m,
            now,
        ) matches Reply::Go(w, done) && done.len() == 1 && (done[0] matches Deed::Latency(ev)
            && ev.latency_ms == now - sent_at && ev.generation == s.generation) && (w.slot matches
            Some(t) && t.heartbeat.pending is None && t.heartbeat.misses == 0 && t.phase
            == s.phase)),
        !(s.heartbeat.pending matches Some((waiting, _)) && waiting == id) ==> model::handled(
            v,
            s,
            m,
            now,
        ) == Reply::Go(v, seq![]),
{
    network::laws::message_types_differ();
}

/// A clipboard update that is new and passes its checks lands on an open connection, with its text
/// and hash as they came; its id is remembered, and nothing else changes. One that was seen before
/// does nothing.
pub proof fn updates_land_on_an_open_connection(
    v: NetView,
    s: SlotView,
    m: Message,
    now: u64,
    t: Seq<char>,
    h: Seq<char>,
    zt_ip: Option<Seq<char>>,
    peer_ip: Option<Seq<char>>,
)
    requires
        v.slot == Some(s),
        s.phase is Open,
        m.version == 1,
        m.msg_type@ == "clipboard_update"@,
    ensures
        ({
            let step = model::driven(
                v,
                s.generation,
                ConnEvent::Received { msg: m, now },
                zt_ip,
                peer_ip,
            );
            &&& step.net == (NetView { recent: step.net.recent, ..v })
            &&& v.recent.contains(m.message_id@) ==> step.net == v && step.deeds.len() == 0
            &&& !v.recent.contains(m.message_id@) && protocol::accepted_clipboard(m) == Some((t, h))
                ==> step.deeds == seq![Deed::Land(t, h)]
            &&& protocol::accepted_clipboard(m) is None ==> step.deeds.len() == 0
            &&& !v.recent.contains(m.message_id@) ==> step.net.recent.last() == m.message_id@
        }),
{
    network::laws::message_types_differ();
}

/// The latest hundred ids are remembered: a new one comes last, and of a hundred the first leaves.
pub proof fn a_hundred_ids_are_remembered(recent: Seq<Seq<char>>, id: Seq<char>)
    requires
        recent.len() <= 100,
    ensures
        ({
            let more = model::remembered(recent, id);
            &&& more.last() == id
            &&& recent.len() < 100 ==> more.drop_last() == recent
            &&& recent.len() == 100 ==> more.len() == 100 && more.drop_last() == recent.skip(1)
        }),
{
    let more = model::remembered(recent, id);
    if recent.len() < 100 {
        assert(more.drop_last() =~= recent);
    } else {
        assert(more.drop_last() =~= recent.skip(1));
    }
}

/// A heartbeat on an open connection sends a ping that gives the id and time of the tick and then
/// waits for its answer; a miss is counted where the ping before it still waits. With the third
/// miss the connection's tasks are stopped instead.
pub proof fn heartbeat_on_an_open_connection(
    v: NetView,
    s: SlotView,
    ping_id: String,
    now: u64,
    zt_ip: Option<Seq<char>>,
    peer_ip: Option<Seq<char>>,
)
    requires
        v.slot == Some(s),
        s.phase is Open,
    ensures
        ({
            let step = model::driven(
                v,
                s.generation,
                ConnEvent::Tick { ping_id, now },
                zt_ip,
                peer_ip,
            );
            let misses = if s.heartbeat.pending is Some {
                s.heartbeat.misses + 1
            } else {
                s.heartbeat.misses
            };
            &&& step.net == (NetView { slot: step.net.slot, ..v })
            &&& step.net.slot matches Some(t) && t.phase is Open && t.heartbeat.misses == misses
            &&& misses < 3 ==> step.deeds == seq![Deed::Send(model::ping(v, ping_id@, now))] && (
            step.net.slot matches Some(t) && t.heartbeat.pending == Some((ping_id@, now))
                && t.heartbeat_lost == s.heartbeat_lost)
            &&& misses >= 3 ==> step.deeds == seq![Deed::Close] && (step.net.slot matches Some(t)
                && t.heartbeat_lost)
        }),
{
    heartbeat::tick_in_numbers(s.heartbeat, ping_id@, now);
}

/// Why an open connection ends: a lost heartbeat comes before everything; otherwise a read that
/// fails is its own cause, and the order to stop is a lost connection.
pub proof fn why_an_open_connection_ends(
    v: NetView,
    s: SlotView,
    x: AppError,
    zt_ip: Option<Seq<char>>,
    peer_ip: Option<Seq<char>>,
)
    requires
        v.slot == Some(s),
        s.phase is Open,
    ensures
        ({
            let failed = model::driven(
                v,
                s.generation,
                ConnEvent::ReadFailed(x),
                zt_ip,
                peer_ip,
            );
            let stopped = model::driven(v, s.generation, ConnEvent::Stopped, zt_ip, peer_ip);
            let lost = model::closed_out(v, s, CloseCause::HeartbeatLost, zt_ip, peer_ip);
            &&& s.heartbeat_lost ==> failed == lost && stopped == lost
            &&& !s.heartbeat_lost ==> failed == model::closed_out(
                v,
                s,
                CloseCause::Failed(x),
                zt_ip,
                peer_ip,
            )
            &&& !s.heartbeat_lost ==> stopped == model::closed_out(
                v,
                s,
                CloseCause::Lost,
                zt_ip,
                peer_ip,
            )
        }),
{
}

/// A goodbye and an error of the peer end an open connection under their own causes; a connection
/// whose peer said goodbye is retried like any other that the user did not end.
pub proof fn peer_ends_it(
    v: NetView,
    s: SlotView,
    m: Message,
    now: u64,
    zt_ip: Option<Seq<char>>,
    peer_ip: Option<Seq<char>>,
)
    requires
        v.slot == Some(s),
        s.phase is Open,
        m.version == 1,
    ensures
        m.msg_type@ == "disconnect"@ ==> model::driven(
            v,
            s.generation,
            ConnEvent::Received { msg: m, now },
            zt_ip,
            peer_ip,
        ) == model::closed_out(v, s, CloseCause::Peer, zt_ip, peer_ip),
        m.msg_type@ == "error"@ ==> model::driven(
            v,
            s.generation,
            ConnEvent::Received { msg: m, now },
            zt_ip,
            peer_ip,
        ) == model::closed_out(
            v,
            s,
            CloseCause::Failed(AppError::ConnectionClosed),
            zt_ip,
            peer_ip,
        ),
{
    messages_by_type(v, s, m, now);
}

/// Calling off retries clears the count and the retry that is due, and nothing else.
pub proof fn calling_off_retries(v: NetView)
    ensures
        model::retries_cancelled(v).attempts == 0,
        model::retries_cancelled(v).pending is None,
        model::retries_cancelled(v) == (NetView { attempts: 0, pending: None, ..v }),
{
}

/// A retry is scheduled wherever retries are on and an address is saved, and nowhere else: to that
/// address on the device's port, with the wait of the attempt and a ticket that none had before.
pub proof fn when_a_retry_is_scheduled(v: NetView, peer_ip: Option<Seq<char>>, peer: Seq<char>)
    requires
        v.attempts < u32::MAX,
        v.next_ticket < u64::MAX,
    ensures
        model::would_retry(v, peer_ip) <==> v.reconnect_enabled && peer_ip is Some,
        ({
            let r = model::next_retry(v, peer);
            let w = model::retry_scheduled(v);
            &&& r.peer == peer && r.port == v.cfg.port && r.attempt == v.attempts
            &&& r.ticket == v.next_ticket && w.pending == Some(r.ticket)
            &&& r.delay_ms == network::retry_delay(v.device_id, v.attempts)
            &&& w.attempts == v.attempts + 1
            &&& w.next_ticket > r.ticket
            &&& w == (NetView {
                attempts: w.attempts,
                pending: w.pending,
                next_ticket: w.next_ticket,
                ..v
            })
        }),
{
}

/// A connection that is being made is announced as such, without a peer or an error.
pub proof fn connecting_is_announced(generation: u64)
    ensures
        model::connecting(generation) matches Deed::Announce(ev) && ev.status
            == ConnectionStatus::Connecting && ev.status_text == "正在连接对方……"@ && ev.peer is None
            && ev.error_code is None && ev.generation == generation,
{
}

/// The user's order to disconnect tells the peer goodbye, stops the tasks and says the last word,
/// in this order; nothing is left but what has nothing to do with the connection.
pub proof fn disconnecting_in_order(
    v: NetView,
    s: SlotView,
    zt_ip: Option<Seq<char>>,
    peer_ip: Option<Seq<char>>,
)
    requires
        v.slot == Some(s),
    ensures
        ({
            let step = model::disconnected(v, zt_ip, peer_ip);
            &&& step.net == (NetView { slot: None, attempts: 0, pending: None, ..v })
            &&& step.deeds.len() == 3
            &&& step.deeds[0] == Deed::Send(model::goodbye(v))
            &&& step.deeds[1] is Close
            &&& step.deeds[2] matches Deed::Announce(ev) && ev.status == ConnectionStatus::Offline
                && ev.generation == s.generation && ev.error_code is None && ev.peer is None
        }),
{
}

/// Where all is stopped, the last word on a connection says how far it was: ended by the user while
/// it was dialled, closed while hellos were exchanged, lost or given up once it was open.
pub proof fn last_word_of_a_shutdown(v: NetView, s: SlotView, zt_ip: Option<Seq<char>>)
    requires
        v.slot == Some(s),
        !(s.phase is Claimed),
    ensures
        ({
            let step = model::shut_down(v, zt_ip);
            &&& step.net == (NetView {
                slot: None,
                listener: None,
                bind_ip: None,
                attempts: 0,
                pending: None,
                ..v
            })
            &&& step.deeds.len() == 2 && step.deeds[0] is Close
            &&& step.deeds[1] matches Deed::Announce(ev) && {
                &&& ev.generation == s.generation && ev.peer is None
                &&& s.phase is Dialing <==> ev.status == ConnectionStatus::Offline
                &&& s.phase is Open && s.heartbeat_lost ==> ev.error_code == Some(
                    "heartbeat_timeout"@,
                )
                &&& !(s.phase is Dialing) && !(s.phase is Open && s.heartbeat_lost)
                    ==> ev.error_code == Some("connection_closed"@)
            }
        }),
{
}

/// What becomes of the listener, by address: the address bound last stays bound; no address and one
/// that is none stop it; any other is bound on the device's port.
pub proof fn listener_by_address(v: NetView, ip: u32, t: Seq<char>)
    ensures
        v.bind_ip == Some(t) ==> model::listening(v, Some(t)) == (v, ListenPlan::Keep),
        v.bind_ip is None ==> model::listening(v, None) == (v, ListenPlan::Keep),
        v.bind_ip is Some ==> model::listening(v, None) == (
            NetView { bind_ip: None, listener: None, ..v },
            ListenPlan::Stop,
        ),
        v.bind_ip != Some(ipv4::dotted(ip)) ==> model::listening(v, Some(ipv4::dotted(ip))) == (
            NetView { bind_ip: Some(ipv4::dotted(ip)), ..v },
            ListenPlan::Rebind(ListenAddr { ip, port: v.cfg.port }),
        ),
        v.bind_ip != Some(t) && (forall|x: u32| t != #[trigger] ipv4::dotted(x))
            ==> model::listening(v, Some(t)) == (
            NetView { bind_ip: Some(t), listener: None, ..v },
            ListenPlan::Unusable,
        ),
{
    let chosen = choose|x: u32| ipv4::dotted(ip) == #[trigger] ipv4::dotted(x);
    assert(ipv4::dotted(ip) == ipv4::dotted(ip));
    ipv4::dotted_is_unique(ip, chosen);
}

/// What a list of actions does is what its actions do, one by one and in their order.
pub proof fn actions_show_what_they_do(actions: Seq<Action>, i: int)
    requires
        0 <= i < actions.len(),
    ensures
        model::deeds(actions).len() == actions.len(),
        ({
            let d = model::deeds(actions)[i];
            match actions[i] {
                Action::Dial { ip, port } => d == Deed::Dial(ip, port),
                Action::Send(m) => d == Deed::Send(protocol::content(m)),
                Action::SendHello(m) => d == Deed::SendHello(protocol::content(m)),
                Action::StartHeartbeat => d is StartHeartbeat,
                Action::Announce(ev) => d == Deed::Announce(ev@),
                Action::Latency(ev) => d == Deed::Latency(ev),
                Action::Land(p) => d == Deed::Land(p.text@, p.content_hash@),
                Action::Close => d is Close,
                Action::Retry(p) => d matches Deed::Retry(r) && r.peer == p.peer@ && r.port == p.port
                    && r.delay_ms == p.delay_ms && r.attempt == p.attempt && r.ticket == p.ticket,
            }
        }),
{
}

/// A message shows its version, type, sender and authenticator as its fields hold them.
pub proof fn contents_show_the_fields(m: Message)
    ensures
        protocol::content(m).version == m.version,
        protocol::content(m).msg_type == m.msg_type@,
        protocol::content(m).device_id == m.device_id@,
        protocol::content(m).auth == text::maybe(m.auth),
        protocol::content(m).payload == crate::json::members(m.payload),
{
}

/// A slot that is only taken is for no address yet, has the next generation and awaits what it is
/// for; everything else stays.
pub proof fn slot_only_taken(v: NetView)
    requires
        v.next_generation < u64::MAX,
    ensures
        ({
            let w = model::claimed(v);
            &&& w.slot matches Some(s) && s.phase is Claimed && s.generation == v.next_generation + 1
                && s.peer_ip.len() == 0 && !s.heartbeat_lost && s.heartbeat.pending is None
                && s.heartbeat.misses == 0
            &&& w == (NetView { slot: w.slot, next_generation: (v.next_generation + 1) as u64, ..v })
        }),
{
}

/// Connections stay apart: what happens to the one that has the slot never depends on what another
/// generation is told, and ends with the slot free or with the same connection in it.
#[verifier::rlimit(40)]
pub proof fn slot_keeps_its_connection(
    v: NetView,
    generation: u64,
    e: ConnEvent,
    zt_ip: Option<Seq<char>>,
    peer_ip: Option<Seq<char>>,
)
    ensures
        ({
            let w = model::driven(v, generation, e, zt_ip, peer_ip).net;
            &&& v.slot is None ==> w.slot is None
            &&& (v.slot matches Some(s) && s.generation != generation) ==> w == v
            &&& w.slot matches Some(t) ==> (v.slot matches Some(s) && s.generation == t.generation)
        }),
{
}

/// A slot that was only taken ends with the order to stop, as if the user ended it.
pub proof fn taken_slot_ends_when_stopped(
    v: NetView,
    s: SlotView,
    zt_ip: Option<Seq<char>>,
    peer_ip: Option<Seq<char>>,
)
    requires
        v.slot == Some(s),
        s.phase is Claimed,
    ensures
        model::driven(v, s.generation, ConnEvent::Stopped, zt_ip, peer_ip) == model::closed_out(
            v,
            s,
            CloseCause::User,
            zt_ip,
            peer_ip,
        ),
{
}

} // verus!
