use crate::protocol;
use crate::system;
use crate::text;
use vstd::prelude::*;

verus! {

/// Watches over a connection: a ping goes out with every tick; an answer to the last ping clears
/// the count of misses, three misses in a row mean that the peer is gone.
#[derive(Debug)]
pub struct HeartbeatState {
    pending: Option<PendingPing>,
    misses: u32,
}

/// A ping that waits for its answer.
#[derive(Debug)]
struct PendingPing {
    id: String,
    /// The time it was sent, by this machine's clock.
    sent_at: u64,
}

/// The ping that waits for its answer, by id and time, and the pings missed so far.
pub struct HeartbeatView {
    pub pending: Option<(Seq<char>, u64)>,
    pub misses: nat,
}

/// No ping waits once three were missed.
pub open spec fn heartbeat_ok(v: HeartbeatView) -> bool {
    v.misses <= 3 && (v.misses == 3 ==> v.pending is None)
}

/// A connection that has sent no ping yet.
pub open spec fn fresh() -> HeartbeatView {
    HeartbeatView { pending: None, misses: 0 }
}

/// The misses that a tick finds.
pub open spec fn misses_at_tick(v: HeartbeatView) -> nat {
    if v.pending is Some {
        v.misses + 1
    } else {
        v.misses
    }
}

/// Whether a tick finds the peer gone.
pub open spec fn expires(v: HeartbeatView) -> bool {
    misses_at_tick(v) >= 3
}

/// The state behind a tick that sends the given ping, unless the peer is gone.
pub open spec fn ticked(v: HeartbeatView, id: Seq<char>, now: u64) -> HeartbeatView {
    HeartbeatView {
        pending: if expires(v) {
            None
        } else {
            Some((id, now))
        },
        misses: misses_at_tick(v),
    }
}

/// Whether an answer is to the ping that waits.
pub open spec fn answers(v: HeartbeatView, ping_id: Seq<char>) -> bool {
    v.pending matches Some((id, _)) && id == ping_id
}

/// The state behind an answer.
pub open spec fn ponged(v: HeartbeatView, ping_id: Seq<char>) -> HeartbeatView {
    if answers(v, ping_id) {
        fresh()
    } else {
        v
    }
}

/// The round trip that an answer at a given time shows: by this machine's own record of the ping,
/// and nothing for an answer to another ping.
pub open spec fn round_trip(v: HeartbeatView, ping_id: Seq<char>, now: u64) -> Option<u64> {
    match v.pending {
        Some((id, sent_at)) => if id != ping_id {
            None
        } else if now >= sent_at {
            Some((now - sent_at) as u64)
        } else {
            Some(0)
        },
        None => None,
    }
}

impl View for HeartbeatState {
    type V = HeartbeatView;

    closed spec fn view(&self) -> HeartbeatView {
        HeartbeatView {
            pending: match self.pending {
                Some(p) => Some((p.id@, p.sent_at)),
                None => None,
            },
            misses: self.misses as nat,
        }
    }
}

impl Default for HeartbeatState {
    fn default() -> (r: HeartbeatState)
        ensures
            r@ == fresh(),
    {
        HeartbeatState { pending: None, misses: 0 }
    }
}

impl HeartbeatState {
    #[verifier::type_invariant]
    spec fn inv(self) -> bool {
        heartbeat_ok(self@)
    }

    /// A tick at a given time with a given id for its ping: the ping to send, or that the peer is
    /// gone.
    pub fn tick_with(&mut self, id: String, now: u64) -> (r: (Option<(String, u64)>, bool))
        ensures
            final(self)@ == ticked(old(self)@, id@, now),
            r.1 == expires(old(self)@),
            match r.0 {
                Some((ping_id, sent_at)) => !r.1 && ping_id@ == id@ && sent_at == now,
                None => r.1,
            },
    {
        proof {
            use_type_invariant(&*self);
        }
        let misses: u32 = if self.pending.is_some() {
            self.misses + 1
        } else {
            self.misses
        };
        if misses >= 3 {
            *self = HeartbeatState { pending: None, misses };
            return (None, true);
        }
        let ping_id = id.clone();
        *self = HeartbeatState { pending: Some(PendingPing { id, sent_at: now }), misses };
        (Some((ping_id, now)), false)
    }

    /// A tick now, with a fresh id.
    pub fn on_tick(&mut self) -> (r: (Option<(String, u64)>, bool))
        ensures
            r.1 == expires(old(self)@),
            match r.0 {
                Some((ping_id, sent_at)) => !r.1 && system::is_v4_text(ping_id@) && final(self)@
                    == ticked(old(self)@, ping_id@, sent_at),
                None => r.1 && final(self)@ == (HeartbeatView {
                    pending: None,
                    misses: misses_at_tick(old(self)@),
                }),
            },
    {
        let id = system::random_uuid();
        let now: u64 = protocol::now_millis();
        self.tick_with(id, now)
    }

    /// An answer at a given time: the round trip, if it is to the ping that waits.
    pub fn pong_at(&mut self, ping_id: &str, now: u64) -> (r: Option<u64>)
        ensures
            final(self)@ == ponged(old(self)@, ping_id@),
            r == round_trip(old(self)@, ping_id@, now),
    {
        let rtt: Option<u64> = match &self.pending {
            Some(p) => if text::same_text(p.id.as_str(), ping_id) {
                Some(now.saturating_sub(p.sent_at))
            } else {
                None
            },
            None => None,
        };
        if rtt.is_some() {
            *self = HeartbeatState { pending: None, misses: 0 };
        }
        rtt
    }

    /// An answer that came now: the round trip is measured up to some reading of the clock.
    pub fn on_pong(&mut self, ping_id: &str) -> (r: Option<u64>)
        ensures
            final(self)@ == ponged(old(self)@, ping_id@),
            r is Some == answers(old(self)@, ping_id@),
            exists|now: u64| r == #[trigger] round_trip(old(self)@, ping_id@, now),
    {
        let now: u64 = protocol::now_millis();
        self.pong_at(ping_id, now)
    }

    pub fn misses(&self) -> (r: u32)
        ensures
            r == self@.misses,
            heartbeat_ok(self@),
    {
        proof {
            use_type_invariant(self);
        }
        self.misses
    }
}

/// Three ticks of a fresh connection send a ping each; where none is answered, the fourth finds
/// the peer gone, and so does every later one.
pub proof fn three_misses_end_it(ids: Seq<Seq<char>>, times: Seq<u64>)
    requires
        ids.len() == 4,
        times.len() == 4,
    ensures
        ({
            let v1 = ticked(fresh(), ids[0], times[0]);
            let v2 = ticked(v1, ids[1], times[1]);
            let v3 = ticked(v2, ids[2], times[2]);
            let v4 = ticked(v3, ids[3], times[3]);
            &&& !expires(fresh())
            &&& !expires(v1)
            &&& !expires(v2)
            &&& expires(v3)
            &&& expires(v4)
        }),
        forall|v: HeartbeatView, id: Seq<char>, now: u64|
            expires(v) ==> expires(#[trigger] ticked(v, id, now)),
{
}

/// An answer to the ping that waits clears all misses, so that the next tick cannot find the peer
/// gone.
pub proof fn pong_keeps_connection(v: HeartbeatView, ping_id: Seq<char>)
    requires
        answers(v, ping_id),
    ensures
        ponged(v, ping_id).misses == 0,
        !expires(ponged(v, ping_id)),
{
}

/// An answer to any other ping shows no round trip and clears no miss.
pub proof fn other_pong_has_no_effect(v: HeartbeatView, ping_id: Seq<char>, now: u64)
    requires
        !answers(v, ping_id),
    ensures
        ponged(v, ping_id) == v,
        round_trip(v, ping_id, now) is None,
{
}

/// A ping shows one round trip: a second answer to it shows none.
pub proof fn round_trip_only_once(v: HeartbeatView, ping_id: Seq<char>, now: u64, later: u64)
    requires
        answers(v, ping_id),
    ensures
        round_trip(v, ping_id, now) is Some,
        round_trip(ponged(v, ping_id), ping_id, later) is None,
{
}

/// A tick counts a miss exactly where a ping still waits. It sends a new ping, which then waits,
/// unless that makes three misses.
pub proof fn tick_in_numbers(v: HeartbeatView, id: Seq<char>, now: u64)
    ensures
        v.pending is Some ==> ticked(v, id, now).misses == v.misses + 1,
        v.pending is None ==> ticked(v, id, now).misses == v.misses,
        expires(v) <==> ticked(v, id, now).misses >= 3,
        !expires(v) ==> ticked(v, id, now).pending == Some((id, now)),
        expires(v) ==> ticked(v, id, now).pending is None,
{
}

/// An answer to the waiting ping shows the time since it was sent by this machine's clock, and 0
/// where that clock went back. The count of misses starts over and no ping waits.
pub proof fn answer_in_numbers(v: HeartbeatView, id: Seq<char>, sent_at: u64, now: u64)
    requires
        v.pending == Some((id, sent_at)),
    ensures
        now >= sent_at ==> round_trip(v, id, now) == Some((now - sent_at) as u64),
        now < sent_at ==> round_trip(v, id, now) == Some(0u64),
        ponged(v, id).misses == 0,
        ponged(v, id).pending is None,
        forall|other: Seq<char>|
            other != id ==> round_trip(v, other, now) is None && #[trigger] ponged(v, other) == v,
{
}

/// Where no ping waits an answer says nothing.
pub proof fn unasked_answer_says_nothing(v: HeartbeatView, id: Seq<char>, now: u64)
    requires
        v.pending is None,
    ensures
        round_trip(v, id, now) is None,
        ponged(v, id) == v,
{
}

} // verus!
