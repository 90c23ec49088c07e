use crate::ipv4;
use crate::state::AppState;
use crate::state::ConnectionStatus;
use crate::state::InnerView;
use crate::text;
use vstd::prelude::*;

verus! {

pub const ZT_IP_CHANGED_EVENT: &'static str = "zerotier-ip-changed";

pub const POLL_INTERVAL_SECS: u64 = 10;

pub const HINT_DETECTING: &'static str = "正在检测 ZeroTier 网络……";

pub const HINT_FOUND: &'static str = "ZeroTier 已连接";

pub const HINT_NOT_FOUND: &'static str =
    "未发现 ZeroTier IP，请确认 ZeroTier 已启动，并且本机已经加入并获准访问网络。";

pub const STATUS_WAITING_INPUT: &'static str = "等待输入对方 IP。";

pub const STATUS_NO_ZT: &'static str = "未发现 ZeroTier IP。";

pub const STATUS_CONNECTED: &'static str = "已连接。";

pub const STATUS_PAUSED: &'static str = "同步已暂停。";

pub const STATUS_RECONNECTING: &'static str = "连接已断开，正在重试……";

/// What a look at the network adapters found. That ZeroTier is not running, has joined no network
/// or is not authorised shows as one of the two failures.
#[derive(Debug, Clone, Copy, PartialEq, Eq, Structural)]
pub enum ZtResult {
    Found,
    NoAdapter,
    NoValidIpv4,
}

/// Tells the front end of a new ZeroTier address.
#[derive(Debug, Clone)]
pub struct ZtIpEvent {
    pub ip: Option<String>,
}

/// A network adapter: its names and its IPv4 addresses (the first part in the high byte).
pub struct ZtAdapter {
    pub name: String,
    pub description: String,
    pub ipv4s: Vec<u32>,
}

/// An adapter of ZeroTier: its description or name says so, in whatever case.
pub open spec fn is_zt(a: ZtAdapter) -> bool {
    ||| text::contains_text(text::lowered(a.description@), "zerotier"@)
    ||| text::contains_text(text::lowered(a.name@), "zerotier"@)
}

pub fn is_zt_adapter(a: &ZtAdapter) -> (r: bool)
    ensures
        r == is_zt(*a),
{
    text::lowered_contains(a.description.as_str(), "zerotier") || text::lowered_contains(
        a.name.as_str(),
        "zerotier",
    )
}

pub fn is_valid_ipv4(ip: u32) -> (r: bool)
    ensures
        r == ipv4::usable(ip),
        r == (1 <= ip < 0xe000_0000 && !(0x7f00_0000 <= ip <= 0x7fff_ffff) && !(0xa9fe_0000 <= ip
            <= 0xa9fe_ffff)),
{
    ipv4::is_usable(ip)
}

pub fn ip_to_string(ip: u32) -> (r: String)
    ensures
        r@ == ipv4::dotted(ip),
{
    ipv4::dotted_text(ip)
}

/// The address whose four parts these are.
pub fn ip_from_parts(a: u8, b: u8, c: u8, d: u8) -> (r: u32)
    ensures
        ipv4::octet(r, 0) == a,
        ipv4::octet(r, 1) == b,
        ipv4::octet(r, 2) == c,
        ipv4::octet(r, 3) == d,
{
    ipv4::from_parts(a as u32, b as u32, c as u32, d as u32)
}

/// Whether an address is one that ZeroTier gave this machine.
pub open spec fn is_candidate(adapters: Seq<ZtAdapter>, ip: u32) -> bool {
    ipv4::usable(ip) && exists|i: int|
        0 <= i < adapters.len() && is_zt(#[trigger] adapters[i]) && adapters[i].ipv4s@.contains(ip)
}

/// Whether an address is the least of those that ZeroTier gave this machine.
pub open spec fn is_choice(adapters: Seq<ZtAdapter>, ip: u32) -> bool {
    is_candidate(adapters, ip) && forall|other: u32|
        #[trigger] is_candidate(adapters, other) ==> ip <= other
}

fn lowest_usable(ips: &Vec<u32>, bound: Option<u32>) -> (r: Option<u32>)
    ensures
        match r {
            None => bound is None && forall|ip: u32|
                ips@.contains(ip) ==> !(#[trigger] ipv4::usable(ip)),
            Some(m) => {
                &&& bound == Some(m) || (ips@.contains(m) && ipv4::usable(m))
                &&& bound matches Some(b) ==> m <= b
                &&& forall|ip: u32| ips@.contains(ip) && #[trigger] ipv4::usable(ip) ==> m <= ip
            },
        },
{
    let mut best: Option<u32> = bound;
    let mut j: usize = 0;
    while j < ips.len()
        invariant
            j <= ips@.len(),
            match best {
                None => bound is None && forall|k: int|
                    0 <= k < j ==> !ipv4::usable(#[trigger] ips@[k]),
                Some(m) => {
                    &&& bound == Some(m) || (ips@.contains(m) && ipv4::usable(m))
                    &&& bound matches Some(b) ==> m <= b
                    &&& forall|k: int| 0 <= k < j && ipv4::usable(#[trigger] ips@[k]) ==> m <= ips@[k]
                },
            },
        decreases ips@.len() - j,
    {
        let ip: u32 = ips[j];
        assert(ips@.contains(ip));
        if is_valid_ipv4(ip) {
            let lower: bool = match best {
                None => true,
                Some(m) => ip < m,
            };
            if lower {
                best = Some(ip);
            }
        }
        j += 1;
    }
    best
}

/// The lowest candidate, so that the choice does not jump between several. `None` where there is
/// none.
pub fn select_ip(adapters: &[ZtAdapter]) -> (r: Option<String>)
    ensures
        match r {
            Some(s) => exists|ip: u32| #[trigger]
                is_choice(adapters@, ip) && s@ == ipv4::dotted(ip),
            None => forall|ip: u32| !is_candidate(adapters@, ip),
        },
{
    let mut best: Option<u32> = None;
    let mut i: usize = 0;
    while i < adapters.len()
        invariant
            i <= adapters@.len(),
            match best {
                None => forall|ip: u32| !is_candidate(adapters@.take(i as int), ip),
                Some(m) => is_choice(adapters@.take(i as int), m),
            },
        decreases adapters@.len() - i,
    {
        let ghost before = adapters@.take(i as int);
        let ghost after = adapters@.take(i as int + 1);
        let ghost bound = best;
        if is_zt_adapter(&adapters[i]) {
            best = lowest_usable(&adapters[i].ipv4s, best);
        }
        proof {
            assert forall|ip: u32| is_candidate(after, ip) == (is_candidate(before, ip) || (is_zt(
                adapters@[i as int],
            ) && adapters@[i as int].ipv4s@.contains(ip) && ipv4::usable(ip))) by {
                assert(after[i as int] == adapters@[i as int]);
                if is_candidate(before, ip) {
                    let k = choose|k: int|
                        0 <= k < before.len() && is_zt(#[trigger] before[k])
                            && before[k].ipv4s@.contains(ip);
                    assert(after[k] == before[k]);
                }
                if is_candidate(after, ip) {
                    let k = choose|k: int|
                        0 <= k < after.len() && is_zt(#[trigger] after[k])
                            && after[k].ipv4s@.contains(ip);
                    if k < i {
                        assert(before[k] == after[k]);
                    }
                }
            }
        }
        i += 1;
    }
    assert(adapters@.take(adapters@.len() as int) =~= adapters@);
    match best {
        Some(ip) => Some(ip_to_string(ip)),
        None => None,
    }
}

/// Whether a newly detected address differs from the one known before.
pub fn ip_changed(old: &Option<String>, new: &Option<String>) -> (r: bool)
    ensures
        r == (text::maybe(*old) != text::maybe(*new)),
{
    !text::same_maybe(old, new)
}

/// What a look at the adapters found.
pub open spec fn finding(adapters: Seq<ZtAdapter>) -> ZtResult {
    if exists|ip: u32| is_candidate(adapters, ip) {
        ZtResult::Found
    } else if exists|i: int| 0 <= i < adapters.len() && is_zt(#[trigger] adapters[i]) {
        ZtResult::NoValidIpv4
    } else {
        ZtResult::NoAdapter
    }
}

fn any_zt_adapter(adapters: &[ZtAdapter]) -> (r: bool)
    ensures
        r == exists|i: int| 0 <= i < adapters@.len() && is_zt(#[trigger] adapters@[i]),
{
    let mut i: usize = 0;
    while i < adapters.len()
        invariant
            i <= adapters@.len(),
            forall|k: int| 0 <= k < i ==> !is_zt(#[trigger] adapters@[k]),
        decreases adapters@.len() - i,
    {
        if is_zt_adapter(&adapters[i]) {
            return true;
        }
        i += 1;
    }
    false
}

/// The address that the adapters give, and what to call the finding.
pub fn detect(adapters: &[ZtAdapter]) -> (r: (Option<String>, ZtResult))
    ensures
        match r.0 {
            Some(s) => exists|ip: u32| #[trigger]
                is_choice(adapters@, ip) && s@ == ipv4::dotted(ip),
            None => forall|ip: u32| !is_candidate(adapters@, ip),
        },
        r.1 == finding(adapters@),
{
    let ip = select_ip(adapters);
    if ip.is_some() {
        (ip, ZtResult::Found)
    } else if any_zt_adapter(adapters) {
        (ip, ZtResult::NoValidIpv4)
    } else {
        (ip, ZtResult::NoAdapter)
    }
}

/// The choice is determined by the candidates alone, in whatever order and however often the
/// adapters list them.
pub proof fn choice_ignores_order(a: Seq<ZtAdapter>, b: Seq<ZtAdapter>, x: u32, y: u32)
    requires
        forall|ip: u32| is_candidate(a, ip) == is_candidate(b, ip),
        is_choice(a, x),
        is_choice(b, y),
    ensures
        x == y,
{
    assert(is_candidate(b, x));
    assert(is_candidate(a, y));
}

/// What is known behind a look at the adapters. A new address, or the loss of one, changes the
/// address and the hint; the connection state only where no connection is there or being made.
pub open spec fn detected(v: InnerView, new_ip: Option<Seq<char>>, busy: bool) -> InnerView {
    if v.zerotier_ip == new_ip {
        v
    } else {
        let w = InnerView {
            zerotier_ip: new_ip,
            zerotier_hint: if new_ip is Some {
                HINT_FOUND@
            } else {
                HINT_NOT_FOUND@
            },
            hint_warn: new_ip is None,
            ..v
        };
        if busy {
            w
        } else {
            InnerView {
                status: ConnectionStatus::Offline,
                status_text: if new_ip is Some {
                    STATUS_WAITING_INPUT@
                } else {
                    STATUS_NO_ZT@
                },
                ..w
            }
        }
    }
}

/// What a look at the adapters found, and the event for the front end where it is news. The
/// listener then has to follow the event's address.
#[derive(Debug)]
pub struct Detection {
    pub result: ZtResult,
    pub event: Option<ZtIpEvent>,
}

/// Takes a look at the adapters into the application's state.
pub fn detect_and_notify(state: &mut AppState, adapters: &[ZtAdapter]) -> (r: Detection)
    ensures
        r.result == finding(adapters@),
        final(state).config == old(state).config,
        final(state).net == old(state).net,
        ({
            let new_ip = final(state).inner@.zerotier_ip;
            &&& match new_ip {
                Some(s) => exists|ip: u32| #[trigger]
                    is_choice(adapters@, ip) && s == ipv4::dotted(ip),
                None => forall|ip: u32| !is_candidate(adapters@, ip),
            }
            &&& final(state).inner@ == detected(
                old(state).inner@,
                new_ip,
                old(state).net@.slot is Some,
            )
            &&& match r.event {
                Some(ev) => old(state).inner@.zerotier_ip != new_ip && text::maybe(ev.ip) == new_ip,
                None => old(state).inner@.zerotier_ip == new_ip,
            }
        }),
{
    let (new_ip, result) = detect(adapters);
    let busy: bool = state.net.is_busy();
    if !ip_changed(&state.inner.zerotier_ip, &new_ip) {
        return Detection { result, event: None };
    }
    state.inner.zerotier_ip = text::copy_maybe(&new_ip);
    if new_ip.is_some() {
        state.inner.zerotier_hint = HINT_FOUND.to_string();
        state.inner.hint_warn = false;
    } else {
        state.inner.zerotier_hint = HINT_NOT_FOUND.to_string();
        state.inner.hint_warn = true;
    }
    if !busy {
        state.inner.status = ConnectionStatus::Offline;
        state.inner.status_text = if new_ip.is_some() {
            STATUS_WAITING_INPUT.to_string()
        } else {
            STATUS_NO_ZT.to_string()
        };
    }
    Detection { result, event: Some(ZtIpEvent { ip: new_ip }) }
}

/// The same finding a second time is no news and changes nothing.
pub proof fn same_finding_is_no_news(
    v: InnerView,
    new_ip: Option<Seq<char>>,
    busy: bool,
    busy_again: bool,
)
    ensures
        detected(detected(v, new_ip, busy), new_ip, busy_again) == detected(v, new_ip, busy),
{
}

/// While a connection is there or being made, a new address does not touch its state.
pub proof fn detection_spares_connection(v: InnerView, new_ip: Option<Seq<char>>)
    ensures
        detected(v, new_ip, true).status == v.status,
        detected(v, new_ip, true).status_text == v.status_text,
        detected(v, new_ip, true).peer == v.peer,
{
}

/// An adapter is ZeroTier's exactly where the word stands in its description or name, in whatever
/// case its letters are.
pub proof fn adapters_of_zerotier(a: ZtAdapter)
    ensures
        is_zt(a) <==> (exists|i: int|
            0 <= i <= a.description@.len() - 8 && text::lowered(
                #[trigger] a.description@.subrange(i, i + 8),
            ) == "zerotier"@) || (exists|i: int|
            0 <= i <= a.name@.len() - 8 && text::lowered(#[trigger] a.name@.subrange(i, i + 8))
                == "zerotier"@),
{
    word_in_any_case(a.description@);
    word_in_any_case(a.name@);
}

/// Where the word stands in a text, in whatever case.
proof fn word_in_any_case(s: Seq<char>)
    ensures
        text::contains_text(text::lowered(s), "zerotier"@) <==> exists|i: int|
            0 <= i <= s.len() - 8 && text::lowered(#[trigger] s.subrange(i, i + 8)) == "zerotier"@,
{
    reveal_strlit("zerotier");
    let word = "zerotier"@;
    assert(word.len() == 8);
    let low = text::lowered(s);
    assert forall|i: int| 0 <= i <= s.len() - 8 implies text::lowered(
        #[trigger] s.subrange(i, i + 8),
    ) == low.subrange(i, i + 8) by {
        assert(text::lowered(s.subrange(i, i + 8)) =~= low.subrange(i, i + 8));
    }
    if text::contains_text(low, word) {
        let i = choose|i: int|
            0 <= i <= low.len() - word.len() && #[trigger] low.subrange(i, i + word.len()) == word;
        assert(text::lowered(s.subrange(i, i + 8)) == word);
    }
    if exists|i: int| 0 <= i <= s.len() - 8 && text::lowered(#[trigger] s.subrange(i, i + 8)) == word {
        let i = choose|i: int|
            0 <= i <= s.len() - 8 && text::lowered(#[trigger] s.subrange(i, i + 8)) == word;
        assert(low.subrange(i, i + word.len()) == word);
    }
}

/// Every address that an adapter of ZeroTier has and that a peer can have is a candidate, wherever
/// it stands; then an address is found, and the one that is chosen is no higher.
pub proof fn every_address_counts(adapters: Seq<ZtAdapter>, i: int, k: int, chosen: u32)
    requires
        0 <= i < adapters.len(),
        is_zt(adapters[i]),
        0 <= k < adapters[i].ipv4s@.len(),
        1 <= adapters[i].ipv4s@[k] < 0xe000_0000,
        !(0x7f00_0000 <= adapters[i].ipv4s@[k] <= 0x7fff_ffff),
        !(0xa9fe_0000 <= adapters[i].ipv4s@[k] <= 0xa9fe_ffff),
    ensures
        is_candidate(adapters, adapters[i].ipv4s@[k]),
        finding(adapters) == ZtResult::Found,
        is_choice(adapters, chosen) ==> chosen <= adapters[i].ipv4s@[k],
{
    let ip = adapters[i].ipv4s@[k];
    ipv4::usable_in_numbers(ip);
    assert(adapters[i].ipv4s@.contains(ip));
    assert(is_candidate(adapters, ip));
}

/// What is chosen is an address of an adapter of ZeroTier, and one that a peer can have.
pub proof fn chosen_address_is_one_of_theirs(adapters: Seq<ZtAdapter>, chosen: u32)
    requires
        is_choice(adapters, chosen),
    ensures
        1 <= chosen < 0xe000_0000,
        !(0x7f00_0000 <= chosen <= 0x7fff_ffff),
        !(0xa9fe_0000 <= chosen <= 0xa9fe_ffff),
        exists|i: int, k: int|
            0 <= i < adapters.len() && is_zt(adapters[i]) && 0 <= k < adapters[i].ipv4s@.len()
                && #[trigger] adapters[i].ipv4s@[k] == chosen,
{
    ipv4::usable_in_numbers(chosen);
    let i = choose|i: int|
        0 <= i < adapters.len() && is_zt(#[trigger] adapters[i]) && adapters[i].ipv4s@.contains(
            chosen,
        );
    let k = choose|k: int| 0 <= k < adapters[i].ipv4s@.len() && adapters[i].ipv4s@[k] == chosen;
    assert(adapters[i].ipv4s@[k] == chosen);
}

/// What a look found where it found no address: no adapter of ZeroTier, or one without an address
/// that a peer can have.
pub proof fn findings_told_apart(adapters: Seq<ZtAdapter>)
    ensures
        finding(adapters) == ZtResult::NoAdapter <==> forall|i: int|
            0 <= i < adapters.len() ==> !is_zt(#[trigger] adapters[i]),
        finding(adapters) == ZtResult::Found <==> exists|ip: u32| is_candidate(adapters, ip),
{
    if exists|ip: u32| is_candidate(adapters, ip) {
        let ip = choose|ip: u32| is_candidate(adapters, ip);
        let i = choose|i: int|
            0 <= i < adapters.len() && is_zt(#[trigger] adapters[i]) && adapters[i].ipv4s@.contains(
                ip,
            );
        assert(is_zt(adapters[i]));
    }
}

/// What a new address, or the loss of one, changes: the address and the hint always, the state and
/// its text only where no connection is there or being made, and nothing else.
pub proof fn what_a_new_address_changes(v: InnerView, new_ip: Option<Seq<char>>, busy: bool)
    ensures
        ({
            let w = detected(v, new_ip, busy);
            let news = v.zerotier_ip != new_ip;
            &&& !news ==> w == v
            &&& w.zerotier_ip == new_ip
            &&& news && new_ip is Some ==> w.zerotier_hint == "ZeroTier 已连接"@ && !w.hint_warn
            &&& news && new_ip is None ==> w.hint_warn && w.zerotier_hint
                == "未发现 ZeroTier IP，请确认 ZeroTier 已启动，并且本机已经加入并获准访问网络。"@
            &&& news && !busy ==> w.status == ConnectionStatus::Offline
            &&& news && !busy && new_ip is Some ==> w.status_text == "等待输入对方 IP。"@
            &&& news && !busy && new_ip is None ==> w.status_text == "未发现 ZeroTier IP。"@
            &&& busy ==> w.status == v.status && w.status_text == v.status_text
            &&& w == (InnerView {
                zerotier_ip: w.zerotier_ip,
                zerotier_hint: w.zerotier_hint,
                hint_warn: w.hint_warn,
                status: w.status,
                status_text: w.status_text,
                ..v
            })
        }),
{
}

} // verus!
