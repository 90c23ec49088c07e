use crate::identity;
use crate::ipv4;
use crate::network;
use crate::network::heartbeat;
use crate::network::model;
use crate::network::model::ConnEvent;
use crate::network::model::Deed;
use crate::network::model::ListenAddr;
use crate::network::model::ListenPlan;
use crate::network::model::NetView;
use crate::network::model::Reply;
use crate::network::model::SlotView;
use crate::network::CloseCause;
use crate::network::MAX_RECENT_MESSAGE_IDS;
use crate::protocol;
use crate::protocol::Message;
use crate::state::ConnectionStatus;
use crate::system;
use crate::text;
use vstd::prelude::*;

verus! {

/// A remembered id is one more, and none is remembered twice.
proof fn remembering_keeps_order(recent: Seq<Seq<char>>, id: Seq<char>)
    requires
        recent.len() <= MAX_RECENT_MESSAGE_IDS,
        recent.no_duplicates(),
        !recent.contains(id),
    ensures
        model::remembered(recent, id).len() <= MAX_RECENT_MESSAGE_IDS,
        model::remembered(recent, id).no_duplicates(),
{
    let more = recent.push(id);
    assert forall|i: int, j: int| 0 <= i < j < more.len() implies more[i] != more[j] by {
        if j == recent.len() {
            assert(recent[i] != id) by {
                assert(recent.contains(recent[i]));
            }
        }
    }
    assert(more.no_duplicates());
}

/// The state stays in order whatever happens to a connection: at most one connection, with a
/// generation that was given out; at most `MAX_RECENT_MESSAGE_IDS` remembered ids, each once; and
/// a due retry only with a ticket that was given out.
pub proof fn driving_keeps_order(
    v: NetView,
    generation: u64,
    e: ConnEvent,
    zt_ip: Option<Seq<char>>,
    peer_ip: Option<Seq<char>>,
)
    requires
        model::net_ok(v),
        model::can_retry(v),
    ensures
        model::net_ok(model::driven(v, generation, e, zt_ip, peer_ip).net),
{
    if let Some(s) = v.slot {
        if let ConnEvent::Received { msg, now } = e {
            if !v.recent.contains(msg.message_id@) {
                remembering_keeps_order(v.recent, msg.message_id@);
            }
        }
    }
}

/// The state stays in order when a connection is made or ended, when retries are scheduled or
/// called off, when this machine's address changes, and when all is stopped.
pub proof fn orders_keep_order(
    v: NetView,
    inbound: bool,
    peer: Seq<char>,
    port: u16,
    generation: u64,
    cause: CloseCause,
    zt_ip: Option<Seq<char>>,
    peer_ip: Option<Seq<char>>,
)
    requires
        model::net_ok(v),
        model::can_retry(v),
        model::can_claim(v),
    ensures
        model::net_ok(model::claimed(v)),
        model::net_ok(model::claimed_for(v, inbound, peer, port)),
        model::net_ok(model::retries_cancelled(v)),
        model::net_ok(model::retry_scheduled(v)),
        model::net_ok(model::listening(v, zt_ip).0),
        model::net_ok(model::shut_down(v, zt_ip).net),
        model::net_ok(model::finalized(v, generation, cause, zt_ip, peer_ip).net),
        model::net_ok(model::disconnected(v, zt_ip, peer_ip).net),
{
}

/// A new connection's generation is above those of all connections before it, and nothing that
/// happens to a connection gives a generation back.
pub proof fn generations_never_repeat(
    v: NetView,
    generation: u64,
    e: ConnEvent,
    zt_ip: Option<Seq<char>>,
    peer_ip: Option<Seq<char>>,
)
    requires
        model::net_ok(v),
        model::can_claim(v),
    ensures
        model::claimed(v).slot->0.generation > v.next_generation,
        v.slot matches Some(s) ==> model::claimed(v).slot->0.generation > s.generation,
        model::driven(v, generation, e, zt_ip, peer_ip).net.next_generation == v.next_generation,
{
}

/// A connection that has lost the slot changes nothing, whatever happens to it: it is only told to
/// stop.
pub proof fn stale_connection_has_no_effect(
    v: NetView,
    generation: u64,
    e: ConnEvent,
    cause: CloseCause,
    zt_ip: Option<Seq<char>>,
    peer_ip: Option<Seq<char>>,
)
    requires
        v.slot matches Some(s) ==> s.generation != generation,
    ensures
        model::driven(v, generation, e, zt_ip, peer_ip).net == v,
        model::driven(v, generation, e, zt_ip, peer_ip).deeds == seq![Deed::Close],
        model::finalized(v, generation, cause, zt_ip, peer_ip).net == v,
        model::finalized(v, generation, cause, zt_ip, peer_ip).deeds.len() == 0,
{
}

/// A connection ends once: a second end has no effect, not even on the connection that took the
/// slot meanwhile.
pub proof fn ends_only_once(
    v: NetView,
    generation: u64,
    first: CloseCause,
    second: CloseCause,
    zt_ip: Option<Seq<char>>,
    peer_ip: Option<Seq<char>>,
)
    requires
        model::net_ok(v),
        model::can_claim(v),
        v.slot matches Some(s) && s.generation == generation,
    ensures
        ({
            let w = model::finalized(v, generation, first, zt_ip, peer_ip).net;
            let next = model::claimed(w);
            &&& w.slot is None
            &&& model::finalized(w, generation, second, zt_ip, peer_ip).net == w
            &&& model::finalized(w, generation, second, zt_ip, peer_ip).deeds.len() == 0
            &&& model::finalized(next, generation, second, zt_ip, peer_ip).net == next
            &&& model::finalized(next, generation, second, zt_ip, peer_ip).deeds.len() == 0
        }),
{
}

/// The user's order to disconnect frees the slot, tells the peer, calls off retries and schedules
/// none. Without a connection it says nothing.
pub proof fn user_disconnect_is_final(
    v: NetView,
    zt_ip: Option<Seq<char>>,
    peer_ip: Option<Seq<char>>,
)
    ensures
        ({
            let step = model::disconnected(v, zt_ip, peer_ip);
            &&& step.net.slot is None
            &&& step.net.pending is None
            &&& step.net.attempts == 0
            &&& forall|i: int| 0 <= i < step.deeds.len() ==> !(#[trigger] step.deeds[i] is Retry)
            &&& v.slot is None ==> step.deeds.len() == 0
            &&& v.slot matches Some(s) ==> step.deeds == seq![
                Deed::Send(model::goodbye(v)),
                Deed::Close,
                model::ended(s.generation, CloseCause::User, zt_ip),
            ]
        }),
{
    let step = model::disconnected(v, zt_ip, peer_ip);
    if let Some(s) = v.slot {
        assert(step.deeds =~= seq![
            Deed::Send(model::goodbye(v)),
            Deed::Close,
            model::ended(s.generation, CloseCause::User, zt_ip),
        ]);
    }
}

/// Stopping the network side leaves no listener, no connection and no retry, and schedules none. A
/// connection that was announced gets its last word, which is not that it is there or being made.
pub proof fn shutdown_is_final(v: NetView, s: SlotView, zt_ip: Option<Seq<char>>)
    ensures
        ({
            let step = model::shut_down(v, zt_ip);
            &&& step.net.slot is None
            &&& step.net.listener is None
            &&& step.net.pending is None
            &&& forall|i: int| 0 <= i < step.deeds.len() ==> !(#[trigger] step.deeds[i] is Retry)
            &&& v.slot == Some(s) && !(s.phase is Claimed) ==> (step.deeds.last() matches
                Deed::Announce(ev) && ev.generation == s.generation && (ev.status
                == ConnectionStatus::Offline || ev.status == ConnectionStatus::Error))
        }),
{
}

/// Every end that is not the user's is retried where retries are on and an address is saved: the
/// retry waits the time of the next attempt, and with each attempt that fails the count, and so
/// the wait, goes up.
pub proof fn failed_retries_wait_longer(
    v: NetView,
    generation: u64,
    cause: CloseCause,
    again: CloseCause,
    zt_ip: Option<Seq<char>>,
    peer: Seq<char>,
)
    requires
        model::net_ok(v),
        v.slot matches Some(s) && s.generation == generation,
        v.reconnect_enabled,
        model::can_claim(v),
        v.attempts < u32::MAX - 1,
        v.next_ticket < u64::MAX - 1,
        !(cause is User),
        !(again is User),
    ensures
        ({
            let first = model::finalized(v, generation, cause, zt_ip, Some(peer));
            let plan = model::next_retry(v, peer);
            let retry = model::claimed_for(
                (NetView { pending: None, ..first.net }),
                false,
                plan.peer,
                plan.port,
            );
            let second = model::finalized(
                retry,
                retry.slot->0.generation,
                again,
                zt_ip,
                Some(peer),
            );
            &&& first.deeds == seq![Deed::Retry(plan), model::reconnecting(generation)]
            &&& plan.delay_ms == network::retry_delay(v.device_id, v.attempts)
            &&& second.deeds[0] == Deed::Retry(model::next_retry(retry, peer))
            &&& model::next_retry(retry, peer).attempt == plan.attempt + 1
            &&& model::next_retry(retry, peer).delay_ms == network::retry_delay(
                v.device_id,
                (v.attempts + 1) as u32,
            )
            &&& plan.delay_ms <= model::next_retry(retry, peer).delay_ms
        }),
{
    network::delay_grows(v.device_id, v.attempts, (v.attempts + 1) as u32);
}

/// A retry that was called off, or that another one replaced, is never run: its ticket is not the
/// one that is due.
pub proof fn cancelled_retry_never_due(v: NetView, ticket: u64)
    requires
        model::net_ok(v),
        model::can_retry(v),
        v.pending == Some(ticket),
    ensures
        model::retries_cancelled(v).pending != Some(ticket),
        model::retry_scheduled(v).pending != Some(ticket),
{
}

/// No connection is announced as connected before the peer's hello was accepted: on a connection
/// that this device made, only with that hello; on one that came in, only after it and after this
/// device's own hello was sent.
#[verifier::rlimit(40)]
pub proof fn connected_only_after_hello(
    v: NetView,
    generation: u64,
    e: ConnEvent,
    zt_ip: Option<Seq<char>>,
    peer_ip: Option<Seq<char>>,
    i: int,
)
    requires
        ({
            let step = model::driven(v, generation, e, zt_ip, peer_ip);
            &&& 0 <= i < step.deeds.len()
            &&& step.deeds[i] matches Deed::Announce(ev) && ev.status == ConnectionStatus::Connected
        }),
    ensures
        v.slot matches Some(s) && s.generation == generation && {
            ||| s.phase is Greeting && !s.inbound && (e matches ConnEvent::Received { msg, .. }
                && msg.version == protocol::PROTOCOL_VERSION && msg.msg_type@
                == protocol::MSG_HELLO@ && protocol::acceptable_hello(msg.payload, v.device_id))
            ||| s.phase is Replying && e is HelloSent
        },
{
}

/// A peer's hello is answered on a connection that came in, and only an acceptable one.
pub proof fn replies_only_to_good_hello(
    v: NetView,
    generation: u64,
    e: ConnEvent,
    zt_ip: Option<Seq<char>>,
    peer_ip: Option<Seq<char>>,
)
    requires
        model::driven(v, generation, e, zt_ip, peer_ip).net.slot matches Some(t)
            && t.phase is Replying,
        v.slot matches Some(s) && !(s.phase is Replying),
    ensures
        e matches ConnEvent::Received { msg, .. } && msg.version == protocol::PROTOCOL_VERSION
            && msg.msg_type@ == protocol::MSG_HELLO@ && protocol::acceptable_hello(
            msg.payload,
            v.device_id,
        ),
{
}

/// A peer of another version gets told so before the connection closes.
pub proof fn version_mismatch_is_answered(
    v: NetView,
    s: SlotView,
    msg: Message,
    now: u64,
    zt_ip: Option<Seq<char>>,
    peer_ip: Option<Seq<char>>,
)
    requires
        v.slot == Some(s),
        s.phase is Greeting,
        msg.version != protocol::PROTOCOL_VERSION,
    ensures
        ({
            let step = model::driven(
                v,
                s.generation,
                ConnEvent::Received { msg, now },
                zt_ip,
                peer_ip,
            );
            &&& step.deeds[0] == Deed::Send(model::version_refusal(v))
            &&& step.deeds[1] is Close
            &&& step.net.slot is None
        }),
{
}

/// Clipboard updates never end a connection, whatever they hold, and neither do messages of
/// unknown types or repeated hellos.
pub proof fn data_messages_never_close(v: NetView, s: SlotView, m: Message, now: u64)
    requires
        m.version == protocol::PROTOCOL_VERSION,
        m.msg_type@ != protocol::MSG_PING@,
        m.msg_type@ != protocol::MSG_PONG@,
        m.msg_type@ != protocol::MSG_DISCONNECT@,
        m.msg_type@ != protocol::MSG_ERROR@,
    ensures
        model::handled(v, s, m, now) is Go,
{
}

/// A text lands only from an open connection, with its own hash, and not empty or too long.
#[verifier::rlimit(40)]
pub proof fn only_checked_texts_land(
    v: NetView,
    generation: u64,
    e: ConnEvent,
    zt_ip: Option<Seq<char>>,
    peer_ip: Option<Seq<char>>,
    i: int,
)
    requires
        ({
            let step = model::driven(v, generation, e, zt_ip, peer_ip);
            0 <= i < step.deeds.len() && step.deeds[i] is Land
        }),
    ensures
        v.slot matches Some(s) && s.phase is Open,
        e matches ConnEvent::Received { msg, .. } && {
            &&& !v.recent.contains(msg.message_id@)
            &&& protocol::accepted_clipboard(msg) matches Some((t, h))
            &&& model::driven(v, generation, e, zt_ip, peer_ip).deeds[i] == Deed::Land(t, h)
        },
{
}

/// A clipboard message that comes a second time does not land a second time, as long as its id is
/// remembered; and the id of one that came is remembered.
pub proof fn same_message_lands_once(
    v: NetView,
    s: SlotView,
    m: Message,
    now: u64,
    again: Message,
    later: u64,
)
    requires
        m.version == protocol::PROTOCOL_VERSION,
        m.msg_type@ == protocol::MSG_CLIPBOARD_UPDATE@,
        again.version == protocol::PROTOCOL_VERSION,
        again.msg_type@ == protocol::MSG_CLIPBOARD_UPDATE@,
        again.message_id@ == m.message_id@,
    ensures
        model::handled(v, s, m, now) matches Reply::Go(w, _) && w.recent.contains(m.message_id@)
            && model::handled(w, s, again, later) == Reply::Go(w, seq![]),
{
    message_types_differ();
    if !v.recent.contains(m.message_id@) {
        let more = v.recent.push(m.message_id@);
        let kept = model::remembered(v.recent, m.message_id@);
        assert(more.last() == m.message_id@);
        assert(kept.last() == m.message_id@);
        assert(kept.contains(kept.last()));
    }
}

/// The latest `MAX_RECENT_MESSAGE_IDS` ids are those that are remembered: of a full memory the
/// oldest id leaves, and no other.
pub proof fn oldest_id_forgotten(recent: Seq<Seq<char>>, id: Seq<char>, k: int)
    requires
        0 < k < recent.len() <= MAX_RECENT_MESSAGE_IDS,
    ensures
        model::remembered(recent, id).contains(recent[k]),
        recent.len() < MAX_RECENT_MESSAGE_IDS ==> model::remembered(recent, id).contains(recent[0]),
        recent.len() == MAX_RECENT_MESSAGE_IDS && recent.no_duplicates() && id != recent[0] ==> !(
        model::remembered(recent, id).contains(recent[0])),
{
    let more = recent.push(id);
    let kept = model::remembered(recent, id);
    if recent.len() < MAX_RECENT_MESSAGE_IDS {
        assert(kept[k] == recent[k]);
        assert(kept[0] == recent[0]);
    } else {
        assert(kept[k - 1] == recent[k]);
        if recent.no_duplicates() && id != recent[0] {
            assert forall|i: int| 0 <= i < kept.len() implies kept[i] != recent[0] by {
                assert(kept[i] == more[i + 1]);
                if i + 1 < recent.len() {
                    assert(recent[i + 1] != recent[0]);
                }
            }
        }
    }
}

/// A ping is answered with a pong of the same id and time, and the connection stays as it is.
pub proof fn ping_is_answered(v: NetView, s: SlotView, m: Message, now: u64, id: Seq<char>, at: u64)
    requires
        m.version == protocol::PROTOCOL_VERSION,
        m.msg_type@ == protocol::MSG_PING@,
        protocol::ping_of(m.payload) == Some((id, at)),
    ensures
        model::handled(v, s, m, now) == Reply::Go(v, seq![Deed::Send(model::pong(v, id, at))]),
{
}

/// The end of a connection tells of no round trip.
proof fn end_tells_no_round_trip(
    v: NetView,
    s: SlotView,
    cause: CloseCause,
    zt_ip: Option<Seq<char>>,
    peer_ip: Option<Seq<char>>,
    i: int,
)
    requires
        0 <= i,
    ensures
        ({
            let done = model::closed_out(v, s, cause, zt_ip, peer_ip).deeds;
            i >= done.len() || !(done[i] is Latency)
        }),
{
}

/// A round trip is told only of the connection that has the slot.
#[verifier::rlimit(40)]
pub proof fn latency_is_current(
    v: NetView,
    generation: u64,
    e: ConnEvent,
    zt_ip: Option<Seq<char>>,
    peer_ip: Option<Seq<char>>,
    i: int,
)
    requires
        ({
            let step = model::driven(v, generation, e, zt_ip, peer_ip);
            0 <= i < step.deeds.len() && step.deeds[i] is Latency
        }),
    ensures
        v.slot matches Some(s) && s.generation == generation && (model::driven(
            v,
            generation,
            e,
            zt_ip,
            peer_ip,
        ).deeds[i] matches Deed::Latency(ev) && ev.generation == s.generation),
{
    if let Some(s) = v.slot {
        if s.generation == generation {
            assert forall|w: NetView, cause: CloseCause|
                !(#[trigger] model::closed_out(w, s, cause, zt_ip, peer_ip).deeds[i] is Latency)
                    || i >= model::closed_out(w, s, cause, zt_ip, peer_ip).deeds.len() by {
                end_tells_no_round_trip(w, s, cause, zt_ip, peer_ip, i);
            }
        }
    }
}

/// The message types have names that differ, so that a message is of one type only.
pub proof fn message_types_differ()
    ensures
        protocol::MSG_HELLO@ != protocol::MSG_PING@,
        protocol::MSG_HELLO@ != protocol::MSG_PONG@,
        protocol::MSG_HELLO@ != protocol::MSG_CLIPBOARD_UPDATE@,
        protocol::MSG_HELLO@ != protocol::MSG_DISCONNECT@,
        protocol::MSG_HELLO@ != protocol::MSG_ERROR@,
        protocol::MSG_PING@ != protocol::MSG_PONG@,
        protocol::MSG_PING@ != protocol::MSG_CLIPBOARD_UPDATE@,
        protocol::MSG_PING@ != protocol::MSG_DISCONNECT@,
        protocol::MSG_PING@ != protocol::MSG_ERROR@,
        protocol::MSG_PONG@ != protocol::MSG_CLIPBOARD_UPDATE@,
        protocol::MSG_PONG@ != protocol::MSG_DISCONNECT@,
        protocol::MSG_PONG@ != protocol::MSG_ERROR@,
        protocol::MSG_CLIPBOARD_UPDATE@ != protocol::MSG_DISCONNECT@,
        protocol::MSG_CLIPBOARD_UPDATE@ != protocol::MSG_ERROR@,
        protocol::MSG_DISCONNECT@ != protocol::MSG_ERROR@,
{
    reveal_strlit("hello");
    reveal_strlit("ping");
    reveal_strlit("pong");
    reveal_strlit("clipboard_update");
    reveal_strlit("disconnect");
    reveal_strlit("error");
    assert("clipboard_update"@.len() == 16);
    assert("disconnect"@.len() == 10);
    assert("ping"@.len() == 4 && "pong"@.len() == 4);
    assert("hello"@.len() == 5 && "error"@.len() == 5);
    assert("ping"@[1] != "pong"@[1]);
    assert("hello"@[0] != "error"@[0]);
}

/// Two devices that connect become connected: each with an id of its own and a presentable name,
/// the one that dials sends its hello, the other accepts and answers it, and both announce the
/// other by name.
pub proof fn two_devices_connect(
    a: NetView,
    b: NetView,
    sa: SlotView,
    sb: SlotView,
    hello_a: Message,
    hello_b: Message,
    now: u64,
    zt_ip: Option<Seq<char>>,
    peer_ip: Option<Seq<char>>,
)
    requires
        system::is_uuid_text(a.device_id),
        system::is_uuid_text(b.device_id),
        a.device_id != b.device_id,
        identity::presentable_name(a.device_name),
        identity::presentable_name(b.device_name),
        a.slot == Some(sa),
        sa.phase is Dialing,
        b.slot == Some(sb),
        sb.phase is Greeting,
        !sa.inbound,
        sb.inbound,
        protocol::content(hello_a) == model::own_hello(a),
        hello_a.payload is Object,
        protocol::content(hello_b) == model::own_hello(b),
        hello_b.payload is Object,
    ensures
        ({
            let a1 = model::driven(a, sa.generation, ConnEvent::Dialed, zt_ip, peer_ip);
            let b1 = model::driven(
                b,
                sb.generation,
                ConnEvent::Received { msg: hello_a, now },
                zt_ip,
                peer_ip,
            );
            let b2 = model::driven(b1.net, sb.generation, ConnEvent::HelloSent, zt_ip, peer_ip);
            let a2 = model::driven(
                a1.net,
                sa.generation,
                ConnEvent::Received { msg: hello_b, now },
                zt_ip,
                peer_ip,
            );
            &&& a1.deeds == seq![Deed::SendHello(model::own_hello(a))]
            &&& b1.deeds == seq![Deed::SendHello(model::own_hello(b))]
            &&& b2.net.slot->0.phase is Open
            &&& a2.net.slot->0.phase is Open
            &&& b2.deeds[0] matches Deed::Announce(ev) && ev.status == ConnectionStatus::Connected
                && ev.peer->0.device_name == text::trimmed(a.device_name)
            &&& a2.deeds[0] matches Deed::Announce(ev) && ev.status == ConnectionStatus::Connected
                && ev.peer->0.device_name == text::trimmed(b.device_name)
        }),
{
    hello_is_good(a, b, hello_a);
    hello_is_good(b, a, hello_b);
}

/// A device's hello is acceptable to another device.
proof fn hello_is_good(from: NetView, to: NetView, m: Message)
    requires
        system::is_uuid_text(from.device_id),
        from.device_id != to.device_id,
        identity::presentable_name(from.device_name),
        protocol::content(m) == model::own_hello(from),
        m.payload is Object,
    ensures
        protocol::acceptable_hello(m.payload, to.device_id),
        protocol::hello_of(m.payload) == Some(
            (from.device_id, from.device_name, protocol::PROTOCOL_VERSION),
        ),
{
    protocol::hello_members_read(
        m.payload,
        from.device_id,
        from.device_name,
        protocol::PROTOCOL_VERSION,
    );
    text::trimmed_no_longer(from.device_name);
}

/// A peer that leaves three pings unanswered is given up: the next heartbeat stops the connection,
/// whose end is then told as a heartbeat that timed out, or retried.
pub proof fn silent_peer_is_given_up(
    v: NetView,
    s: SlotView,
    ping_id: String,
    now: u64,
    zt_ip: Option<Seq<char>>,
    peer_ip: Option<Seq<char>>,
)
    requires
        v.slot == Some(s),
        s.phase is Open,
        heartbeat::expires(s.heartbeat),
    ensures
        ({
            let tick = model::driven(
                v,
                s.generation,
                ConnEvent::Tick { ping_id, now },
                zt_ip,
                peer_ip,
            );
            let end = model::driven(tick.net, s.generation, ConnEvent::Stopped, zt_ip, peer_ip);
            &&& tick.deeds == seq![Deed::Close]
            &&& end.net.slot is None
            &&& end.deeds == if model::would_retry(v, peer_ip) {
                seq![
                    Deed::Close,
                    Deed::Retry(model::next_retry(v, peer_ip->0)),
                    model::reconnecting(s.generation),
                ]
            } else {
                seq![
                    Deed::Close,
                    model::ended(s.generation, CloseCause::HeartbeatLost, zt_ip),
                ]
            }
        }),
{
    let tick = model::driven(v, s.generation, ConnEvent::Tick { ping_id, now }, zt_ip, peer_ip);
    let end = model::driven(tick.net, s.generation, ConnEvent::Stopped, zt_ip, peer_ip);
    if model::would_retry(v, peer_ip) {
        assert(end.deeds =~= seq![
            Deed::Close,
            Deed::Retry(model::next_retry(v, peer_ip->0)),
            model::reconnecting(s.generation),
        ]);
    } else {
        assert(end.deeds =~= seq![
            Deed::Close,
            model::ended(s.generation, CloseCause::HeartbeatLost, zt_ip),
        ]);
    }
}

/// The listener follows this machine's address: the same address a second time changes nothing, no
/// address and one that cannot be listened on leave no listener, and an address that can be a peer's
/// is listened on, which is never
/// the one that stands for all addresses. The connection there is stays.
pub proof fn listener_follows_address(v: NetView, ip: u32, zt_ip: Option<Seq<char>>)
    requires
        ipv4::usable(ip),
    ensures
        ({
            let (w, _) = model::listening(v, zt_ip);
            &&& model::listening(w, zt_ip) == (w, ListenPlan::Keep)
            &&& w.slot == v.slot
        }),
        v.bind_ip is Some ==> model::listening(v, None).0.listener is None && model::listening(
            v,
            None,
        ).1 == ListenPlan::Stop,
        model::listening(v, zt_ip).1 == ListenPlan::Unusable ==> model::listening(
            v,
            zt_ip,
        ).0.listener is None,
        v.bind_ip != Some(ipv4::dotted(ip)) ==> model::listening(v, Some(ipv4::dotted(ip))).1
            == ListenPlan::Rebind(ListenAddr { ip, port: v.cfg.port }),
        ip != 0,
{
    let chosen = choose|x: u32| ipv4::dotted(ip) == #[trigger] ipv4::dotted(x);
    assert(ipv4::dotted(ip) == ipv4::dotted(ip));
    ipv4::dotted_is_unique(ip, chosen);
}

} // verus!
