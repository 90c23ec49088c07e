use crate::error::AppError;
use crate::ipv4;
use crate::state;
use crate::state::ConnectionStatus;
use crate::state::PeerInfo;
use crate::state::PeerView;
use crate::text;
use vstd::prelude::*;
use vstd::utf8::*;

pub mod heartbeat;
pub mod laws;
pub mod manager;
pub mod model;
pub mod steps;

pub use heartbeat::HeartbeatState;
pub use manager::{Conn, NetworkManager};
pub use model::{Action, ConnEvent, ListenAddr, ListenPlan, ReconnectPlan, Surroundings};

verus! {

pub const STATUS_EVENT: &'static str = "connection-status-changed";

pub const LATENCY_EVENT: &'static str = "network-latency-changed";

/// How many ids of clipboard messages are remembered.
pub const MAX_RECENT_MESSAGE_IDS: usize = 100;

/// Tells of a new connection state. It holds nothing secret.
#[derive(Debug)]
pub struct ConnectionStatusEvent {
    pub status: ConnectionStatus,
    pub status_text: String,
    pub error_code: Option<String>,
    pub peer: Option<PeerInfo>,
    pub generation: u64,
}

/// What a connection state event says.
pub struct StatusView {
    pub status: ConnectionStatus,
    pub status_text: Seq<char>,
    pub error_code: Option<Seq<char>>,
    pub peer: Option<PeerView>,
    pub generation: u64,
}

impl View for ConnectionStatusEvent {
    type V = StatusView;

    open spec fn view(&self) -> StatusView {
        StatusView {
            status: self.status,
            status_text: self.status_text@,
            error_code: text::maybe(self.error_code),
            peer: state::maybe_peer(self.peer),
            generation: self.generation,
        }
    }
}

impl Clone for ConnectionStatusEvent {
    fn clone(&self) -> (r: ConnectionStatusEvent)
        ensures
            r@ == self@,
    {
        ConnectionStatusEvent {
            status: self.status,
            status_text: self.status_text.clone(),
            error_code: text::copy_maybe(&self.error_code),
            peer: state::copy_peer(&self.peer),
            generation: self.generation,
        }
    }
}

/// Tells of a measured round trip, and of the connection it was measured on.
#[derive(Debug, Clone, Copy, PartialEq, Eq, Structural)]
pub struct NetworkLatencyEvent {
    pub latency_ms: u64,
    pub generation: u64,
}

/// Where connection state events go.
pub trait StatusSink {
    fn on_status(&self, ev: &ConnectionStatusEvent);

    fn on_latency(&self, _ev: &NetworkLatencyEvent) {
    }
}

#[derive(Debug, Clone, Copy, PartialEq, Eq, Structural)]
pub struct ManagerConfig {
    /// Port to listen on and to dial.
    pub port: u16,
    pub heartbeat_secs: u64,
    pub handshake_timeout_ms: u64,
    pub connect_timeout_ms: u64,
    /// Whether a lost connection is made again.
    pub reconnect: bool,
}

/// The parameters in use: a heartbeat every 10 seconds, 5 seconds to connect and 5 to say hello,
/// retries on.
pub open spec fn production_config(port: u16) -> ManagerConfig {
    ManagerConfig {
        port,
        heartbeat_secs: 10,
        handshake_timeout_ms: 5000,
        connect_timeout_ms: 5000,
        reconnect: true,
    }
}

impl ManagerConfig {
    pub fn production(port: u16) -> (r: ManagerConfig)
        ensures
            r == production_config(port),
    {
        ManagerConfig {
            port,
            heartbeat_secs: 10,
            handshake_timeout_ms: 5000,
            connect_timeout_ms: 5000,
            reconnect: true,
        }
    }
}

/// Why a connection ended.
#[derive(Debug, Clone)]
pub enum CloseCause {
    /// The user closed it.
    User,
    /// The peer said goodbye.
    Peer,
    /// Three pings in a row were not answered.
    HeartbeatLost,
    /// It ended unexpectedly.
    Lost,
    /// It could not be made, or broke the protocol.
    Failed(AppError),
}

/// The time to wait before a retry, in milliseconds, without the jitter: it grows with each failed
/// attempt up to a limit.
pub open spec fn backoff_base(attempt: u32) -> u64 {
    if attempt == 0 {
        2000
    } else if attempt == 1 {
        5000
    } else if attempt == 2 {
        10000
    } else if attempt == 3 {
        20000
    } else {
        30000
    }
}

/// A number made from bytes: a polynomial in 31, cut to 64 bits.
pub open spec fn mixed(b: Seq<u8>) -> u64
    decreases b.len(),
{
    if b.len() == 0 {
        0
    } else {
        ((mixed(b.drop_last()) * 31 + b.last()) % 0x1_0000_0000_0000_0000) as u64
    }
}

/// The part of the waiting time that is a device's own, so that two devices do not retry in step.
pub open spec fn jitter(device_id: Seq<char>) -> u64 {
    mixed(encode_utf8(device_id)) % 1500
}

/// The time to wait before a retry, in milliseconds.
pub open spec fn retry_delay(device_id: Seq<char>, attempt: u32) -> u64 {
    (backoff_base(attempt) + jitter(device_id)) as u64
}

pub fn reconnect_delay_ms(device_id: &str, attempt: u32) -> (r: u64)
    ensures
        r == retry_delay(device_id@, attempt),
{
    let base: u64 = if attempt == 0 {
        2000
    } else if attempt == 1 {
        5000
    } else if attempt == 2 {
        10000
    } else if attempt == 3 {
        20000
    } else {
        30000
    };
    let b = device_id.as_bytes();
    let mut acc: u64 = 0;
    let mut i: usize = 0;
    while i < b.len()
        invariant
            i <= b@.len(),
            b@ == encode_utf8(device_id@),
            acc == mixed(b@.take(i as int)),
        decreases b@.len() - i,
    {
        assert(b@.take(i as int + 1).drop_last() =~= b@.take(i as int));
        acc = ((acc as u128 * 31 + b[i] as u128) % 0x1_0000_0000_0000_0000) as u64;
        i += 1;
    }
    assert(b@.take(b@.len() as int) =~= b@);
    base + acc % 1500
}

/// The address to dial for what the user typed: an IPv4 address that a peer can have and that is
/// not this machine's own ZeroTier address. White space around it does not count.
pub fn validate_peer_target(ip: &str, local_zt_ip: Option<&str>) -> (r: Result<u32, AppError>)
    ensures
        ({
            let t = text::trimmed(ip@);
            let own = local_zt_ip matches Some(z) && text::trimmed(z@) == t;
            match r {
                Ok(v) => t == ipv4::dotted(v) && ipv4::usable(v) && !own,
                Err(AppError::SelfConnection) => own && exists|v: u32|
                    t == #[trigger] ipv4::dotted(v) && ipv4::usable(v),
                Err(AppError::InvalidPeerIp) => forall|v: u32|
                    t == #[trigger] ipv4::dotted(v) ==> !ipv4::usable(v),
                _ => false,
            }
        }),
{
    let t = text::trim(ip);
    let v: u32 = match ipv4::parse(t.as_str()) {
        Some(v) => v,
        None => {
            return Err(AppError::InvalidPeerIp);
        },
    };
    if !ipv4::is_usable(v) {
        proof {
            assert forall|w: u32| t@ == #[trigger] ipv4::dotted(w) implies !ipv4::usable(w) by {
                ipv4::dotted_is_unique(v, w);
            }
        }
        return Err(AppError::InvalidPeerIp);
    }
    if let Some(z) = local_zt_ip {
        let own = text::trim(z);
        if text::same_text(own.as_str(), t.as_str()) {
            return Err(AppError::SelfConnection);
        }
    }
    Ok(v)
}

/// A retry waits at least its base time, and less than 1.5 seconds longer.
pub proof fn delay_within_bounds(device_id: Seq<char>, attempt: u32)
    ensures
        backoff_base(attempt) <= retry_delay(device_id, attempt) < backoff_base(attempt) + 1500,
{
}

/// A device never waits shorter for a later attempt, and never longer than for the fifth.
pub proof fn delay_grows(device_id: Seq<char>, earlier: u32, later: u32)
    requires
        earlier <= later,
    ensures
        retry_delay(device_id, earlier) <= retry_delay(device_id, later) <= retry_delay(
            device_id,
            4,
        ),
{
}

/// How long a retry waits, in milliseconds: 2, 5, 10, 20 and 30 seconds for the first five and 30
/// for every later one, and up to a second and a half more, which is the same for each retry of a
/// device.
pub proof fn waits_in_numbers(device_id: Seq<char>, attempt: u32)
    ensures
        ({
            let own = retry_delay(device_id, 0) - 2000;
            &&& 0 <= own < 1500
            &&& retry_delay(device_id, 1) == 5000 + own
            &&& retry_delay(device_id, 2) == 10000 + own
            &&& retry_delay(device_id, 3) == 20000 + own
            &&& attempt >= 4 ==> retry_delay(device_id, attempt) == 30000 + own
        }),
{
}

/// The part of the waiting time that is a device's own comes from all bytes of its id, one after
/// the other, each counting thirty-one times what the next one does.
pub proof fn own_wait_from_the_id(device_id: Seq<char>, b: Seq<u8>, last: u8)
    ensures
        mixed(seq![]) == 0,
        mixed(b.push(last)) as int == (31 * mixed(b) + last) % 0x1_0000_0000_0000_0000,
        retry_delay(device_id, 0) as int == 2000 + mixed(encode_utf8(device_id)) as int % 1500,
{
    assert(b.push(last).drop_last() =~= b);
}

/// The parameters in use.
pub proof fn parameters_in_use(port: u16)
    ensures
        production_config(port).port == port,
        production_config(port).heartbeat_secs == 10,
        production_config(port).handshake_timeout_ms == 5000,
        production_config(port).connect_timeout_ms == 5000,
        production_config(port).reconnect,
{
}

/// What a connection state event shows is what its fields hold.
pub proof fn event_shows_its_fields(ev: ConnectionStatusEvent)
    ensures
        ev@.status == ev.status,
        ev@.status_text == ev.status_text@,
        ev.error_code matches Some(c) ==> ev@.error_code == Some(c@),
        ev.error_code is None ==> ev@.error_code is None,
        ev.peer matches Some(p) ==> (ev@.peer matches Some(q) && q.device_name == p.device_name@
            && q.ip == p.ip@),
        ev.peer is None ==> ev@.peer is None,
        ev@.generation == ev.generation,
{
}

} // verus!
