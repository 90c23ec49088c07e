use crate::error;
use crate::error::AppError;
use crate::identity;
use crate::identity::IdentityView;
use crate::identity::LocalIdentity;
use crate::system;
use crate::text;
use vstd::prelude::*;
use vstd::string::*;

verus! {

pub const CONFIG_FILE: &'static str = "config.json";

pub const SCHEMA_VERSION: u32 = 1;

/// The port that is listened on and dialled by default.
pub const DEFAULT_LISTEN_PORT: u16 = 45888;

/// What is kept between runs of the application.
#[derive(Debug)]
pub struct AppConfig {
    pub schema_version: u32,
    pub listen_port: u16,
    pub autostart: bool,
    /// Whether a lost connection is made again.
    pub auto_reconnect: bool,
    pub sync_paused: bool,
    pub last_peer_ip: Option<String>,
    pub identity: LocalIdentity,
}

/// What a configuration says.
pub struct ConfigView {
    pub schema_version: u32,
    pub listen_port: u16,
    pub autostart: bool,
    pub auto_reconnect: bool,
    pub sync_paused: bool,
    pub last_peer_ip: Option<Seq<char>>,
    pub identity: IdentityView,
}

impl View for AppConfig {
    type V = ConfigView;

    open spec fn view(&self) -> ConfigView {
        ConfigView {
            schema_version: self.schema_version,
            listen_port: self.listen_port,
            autostart: self.autostart,
            auto_reconnect: self.auto_reconnect,
            sync_paused: self.sync_paused,
            last_peer_ip: text::maybe(self.last_peer_ip),
            identity: self.identity@,
        }
    }
}

impl Clone for AppConfig {
    fn clone(&self) -> (r: AppConfig)
        ensures
            r@ == self@,
    {
        AppConfig {
            schema_version: self.schema_version,
            listen_port: self.listen_port,
            autostart: self.autostart,
            auto_reconnect: self.auto_reconnect,
            sync_paused: self.sync_paused,
            last_peer_ip: text::copy_maybe(&self.last_peer_ip),
            identity: self.identity.clone(),
        }
    }
}

/// The configuration of a device on its first run.
pub open spec fn default_config(id: IdentityView) -> ConfigView {
    ConfigView {
        schema_version: SCHEMA_VERSION,
        listen_port: DEFAULT_LISTEN_PORT,
        autostart: false,
        auto_reconnect: true,
        sync_paused: false,
        last_peer_ip: None,
        identity: id,
    }
}

/// One part of an IPv4 address as it may be stored: one to three digits, at most 255.
pub open spec fn is_stored_octet(p: Seq<char>) -> bool {
    &&& 1 <= p.len() <= 3
    &&& forall|i: int| 0 <= i < p.len() ==> '0' <= #[trigger] p[i] <= '9'
    &&& digits_value(p) <= 255
}

/// The number that digits give.
pub open spec fn digits_value(p: Seq<char>) -> int
    decreases p.len(),
{
    if p.len() == 0 {
        0
    } else {
        10 * digits_value(p.drop_last()) + (p.last() as int - 48)
    }
}

/// An IPv4 address as it may be stored: four parts between dots, leading zeros allowed.
pub open spec fn is_stored_ipv4(s: Seq<char>) -> bool {
    &&& text::parts(s).len() == 4
    &&& forall|i: int| 0 <= i < 4 ==> is_stored_octet(#[trigger] text::parts(s)[i])
}

fn is_octet(p: &Vec<char>) -> (r: bool)
    ensures
        r == is_stored_octet(p@),
{
    if p.len() == 0 || p.len() > 3 {
        return false;
    }
    let mut value: u32 = 0;
    let mut i: usize = 0;
    while i < p.len()
        invariant
            i <= p@.len() <= 3,
            forall|k: int| 0 <= k < i ==> '0' <= #[trigger] p@[k] <= '9',
            value == digits_value(p@.take(i as int)),
            i == 0 ==> value == 0,
            i == 1 ==> value < 10,
            i == 2 ==> value < 100,
        decreases p@.len() - i,
    {
        let c: char = p[i];
        if !('0' <= c && c <= '9') {
            return false;
        }
        assert(p@.take(i as int + 1).drop_last() =~= p@.take(i as int));
        value = 10 * value + (c as u32 - 48);
        i += 1;
    }
    assert(p@.take(p@.len() as int) =~= p@);
    value <= 255
}

pub fn is_valid_ipv4_str(s: &str) -> (r: bool)
    ensures
        r == is_stored_ipv4(s@),
{
    let parts = text::split_dots(s);
    if parts.len() != 4 {
        return false;
    }
    let mut i: usize = 0;
    while i < 4
        invariant
            i <= 4,
            parts@.len() == 4,
            text::parts(s@).len() == 4,
            forall|k: int| 0 <= k < 4 ==> (#[trigger] parts@[k])@ == text::parts(s@)[k],
            forall|k: int| 0 <= k < i ==> is_stored_octet(#[trigger] text::parts(s@)[k]),
        decreases 4 - i,
    {
        if !is_octet(&parts[i]) {
            assert(parts@[i as int]@ == text::parts(s@)[i as int]);
            return false;
        }
        assert(parts@[i as int]@ == text::parts(s@)[i as int]);
        i += 1;
    }
    true
}

/// What is wrong with a configuration, if anything: the first of its checks that fails.
pub open spec fn config_complaint(c: ConfigView) -> Option<Seq<char>> {
    if c.listen_port == 0 {
        Some("listen_port 必须为有效非零端口"@)
    } else {
        match c.last_peer_ip {
            Some(ip) => if !is_stored_ipv4(ip) {
                Some("last_peer_ip 不是有效 IPv4: "@ + ip)
            } else {
                identity::identity_complaint(c.identity)
            },
            None => identity::identity_complaint(c.identity),
        }
    }
}

impl AppConfig {
    /// The default configuration for an identity.
    pub fn with_identity(identity: LocalIdentity) -> (r: AppConfig)
        ensures
            r@ == default_config(identity@),
    {
        AppConfig {
            schema_version: SCHEMA_VERSION,
            listen_port: DEFAULT_LISTEN_PORT,
            autostart: false,
            auto_reconnect: true,
            sync_paused: false,
            last_peer_ip: None,
            identity,
        }
    }

    /// The default configuration with a new identity. It passes its own checks; where there is no
    /// random source there is none.
    pub fn new() -> (r: Result<AppConfig, AppError>)
        ensures
            match r {
                Ok(c) => c@ == default_config(c@.identity) && config_complaint(c@) is None,
                Err(_) => error::is_other(r, "系统安全随机源不可用"@),
            },
    {
        match identity::new_identity() {
            Ok(id) => Ok(AppConfig::with_identity(id)),
            Err(e) => Err(e),
        }
    }

    /// The checks on a configuration.
    pub fn validate(&self) -> (r: Result<(), AppError>)
        ensures
            match config_complaint(self@) {
                None => r is Ok,
                Some(m) => error::is_other(r, m),
            },
    {
        if self.listen_port == 0 {
            return Err(AppError::new("listen_port 必须为有效非零端口"));
        }
        if let Some(ip) = &self.last_peer_ip {
            if !is_valid_ipv4_str(ip.as_str()) {
                let mut m = "last_peer_ip 不是有效 IPv4: ".to_string();
                m.append(ip.as_str());
                return Err(AppError::Other(m));
            }
        }
        identity::validate_identity(&self.identity)
    }
}

/// An address in dotted decimal can be stored.
pub proof fn dotted_can_be_stored(ip: u32)
    ensures
        is_stored_ipv4(crate::ipv4::dotted(ip)),
{
    let a = text::decimal(crate::ipv4::octet(ip, 0));
    let b = text::decimal(crate::ipv4::octet(ip, 1));
    let c = text::decimal(crate::ipv4::octet(ip, 2));
    let d = text::decimal(crate::ipv4::octet(ip, 3));
    short_number_is_octet(crate::ipv4::octet(ip, 0));
    short_number_is_octet(crate::ipv4::octet(ip, 1));
    short_number_is_octet(crate::ipv4::octet(ip, 2));
    short_number_is_octet(crate::ipv4::octet(ip, 3));
    let s1 = a + seq!['.'];
    let s2 = s1 + b + seq!['.'];
    let s3 = s2 + c + seq!['.'];
    text::parts_of_word(seq![], a);
    assert(seq![] + a =~= a);
    assert(s1.drop_last() =~= a);
    text::parts_of_word(s1, b);
    assert(s2.drop_last() =~= s1 + b);
    text::parts_of_word(s2, c);
    assert(s3.drop_last() =~= s2 + c);
    text::parts_of_word(s3, d);
    assert(crate::ipv4::dotted(ip) =~= s3 + d);
    assert(text::parts(s3 + d) =~= seq![a, b, c, d]);
}

/// A number below 256 in decimal is one part of a stored address.
proof fn short_number_is_octet(v: nat)
    requires
        v < 256,
    ensures
        is_stored_octet(text::decimal(v)),
        forall|i: int|
            0 <= i < text::decimal(v).len() ==> #[trigger] text::decimal(v)[i] != '.',
{
    crate::ipv4::short_decimal(v);
    let p = text::decimal(v);
    reveal_with_fuel(digits_value, 4);
    if v < 10 {
        assert(p.drop_last() =~= seq![]);
    } else if v < 100 {
        assert(p.drop_last() =~= seq![text::digit(v / 10)]);
        assert(p.drop_last().drop_last() =~= seq![]);
    } else {
        assert(p.drop_last() =~= seq![text::digit(v / 100), text::digit((v / 10) % 10)]);
        assert(p.drop_last().drop_last() =~= seq![text::digit(v / 100)]);
        assert(p.drop_last().drop_last().drop_last() =~= seq![]);
    }
}

/// The name of the `n`-th copy of a broken configuration that is kept in the same second.
pub open spec fn backup_name_of(ts: u64, n: u32) -> Seq<char> {
    if n == 0 {
        "config.json.bak-"@ + text::decimal(ts as nat)
    } else {
        "config.json.bak-"@ + text::decimal(ts as nat) + "-"@ + text::decimal(n as nat)
    }
}

pub fn backup_name(ts: u64, n: u32) -> (r: String)
    ensures
        r@ == backup_name_of(ts, n),
{
    let mut s = "config.json.bak-".to_string();
    s.append(text::decimal_text(ts).as_str());
    if n > 0 {
        s.append("-");
        s.append(text::decimal_text(n as u64).as_str());
    }
    s
}

/// How often the replacement of a file that was refused is tried again.
pub const REPLACE_RETRIES: u32 = 5;

/// Whether the replacement of a file is tried again after so many tries: only where access was
/// refused, as virus scanners do for a moment.
pub fn retries_replace(tried_again: u32, access_refused: bool) -> (r: bool)
    ensures
        r == (tried_again < REPLACE_RETRIES && access_refused),
{
    tried_again < REPLACE_RETRIES && access_refused
}

/// The time in seconds since the Unix epoch, as `seconds_or_zero` takes it from the clock. What the
/// clock reads is not stated.
pub fn now_seconds() -> (r: u64) {
    let now = system::clock();
    let since: Option<u64> = match system::since_epoch(&now) {
        Some(d) => Some(system::whole_seconds(&d)),
        None => None,
    };
    seconds_or_zero(since)
}

/// The seconds of a clock reading; 0 for a clock set before the epoch.
pub fn seconds_or_zero(since_epoch: Option<u64>) -> (r: u64)
    ensures
        r == match since_epoch {
            Some(s) => s,
            None => 0u64,
        },
{
    match since_epoch {
        Some(s) => s,
        None => 0,
    }
}

/// No two copies of a broken configuration get the same name, so that none replaces another.
pub proof fn backup_names_differ(ts: u64, n: u32, other_ts: u64, m: u32)
    requires
        backup_name_of(ts, n) == backup_name_of(other_ts, m),
    ensures
        ts == other_ts && n == m,
{
    reveal_strlit("-");
    let a = backup_tail(ts, n);
    let b = backup_tail(other_ts, m);
    let x = text::decimal(ts as nat);
    let y = text::decimal(other_ts as nat);
    let k = "config.json.bak-"@.len() as int;
    assert(backup_name_of(ts, n).skip(k) =~= a);
    assert(backup_name_of(other_ts, m).skip(k) =~= b);
    text::decimal_digits(ts as nat);
    text::decimal_digits(other_ts as nat);
    text::decimal_digits(n as nat);
    text::decimal_digits(m as nat);
    if x.len() < y.len() {
        assert(b[x.len() as int] == y[x.len() as int]);
        assert(n > 0 ==> a[x.len() as int] == '-');
    } else if y.len() < x.len() {
        assert(a[y.len() as int] == x[y.len() as int]);
        assert(m > 0 ==> b[y.len() as int] == '-');
    } else {
        assert(a.take(x.len() as int) =~= x);
        assert(b.take(y.len() as int) =~= y);
        text::decimal_is_unique(ts as nat, other_ts as nat);
        if n > 0 && m > 0 {
            assert(a.skip(x.len() as int + 1) =~= text::decimal(n as nat));
            assert(b.skip(x.len() as int + 1) =~= text::decimal(m as nat));
            text::decimal_is_unique(n as nat, m as nat);
        }
    }
}

/// What a backup's name has behind the part that all have.
spec fn backup_tail(ts: u64, n: u32) -> Seq<char> {
    if n == 0 {
        text::decimal(ts as nat)
    } else {
        text::decimal(ts as nat) + "-"@ + text::decimal(n as nat)
    }
}

/// Which addresses can be stored: those of four parts between dots, each of one to three digits
/// that give at most 255, leading zeros allowed.
pub proof fn stored_addresses_in_digits(
    a: Seq<char>,
    b: Seq<char>,
    c: Seq<char>,
    d: Seq<char>,
)
    requires
        forall|i: int| 0 <= i < a.len() ==> #[trigger] a[i] != '.',
        forall|i: int| 0 <= i < b.len() ==> #[trigger] b[i] != '.',
        forall|i: int| 0 <= i < c.len() ==> #[trigger] c[i] != '.',
        forall|i: int| 0 <= i < d.len() ==> #[trigger] d[i] != '.',
    ensures
        is_stored_ipv4(a + seq!['.'] + b + seq!['.'] + c + seq!['.'] + d) <==> is_stored_octet(a)
            && is_stored_octet(b) && is_stored_octet(c) && is_stored_octet(d),
{
    let s = a + seq!['.'] + b + seq!['.'] + c + seq!['.'] + d;
    text::four_words_are_four_parts(a, b, c, d);
    let p = text::parts(s);
    assert(p[0] == a && p[1] == b && p[2] == c && p[3] == d);
}

/// A text that does not have four parts between dots cannot be stored.
pub proof fn other_texts_are_not_stored(s: Seq<char>)
    requires
        text::parts(s).len() != 4,
    ensures
        !is_stored_ipv4(s),
{
}

/// What one part of a stored address may be, digit by digit: one digit, two digits, or three that
/// give at most 255.
pub proof fn stored_part_in_digits(p: Seq<char>)
    ensures
        is_stored_octet(p) ==> 1 <= p.len() <= 3,
        p.len() == 1 ==> (is_stored_octet(p) <==> 48 <= p[0] as int <= 57),
        p.len() == 2 ==> (is_stored_octet(p) <==> 48 <= p[0] as int <= 57 && 48 <= p[1] as int
            <= 57),
        p.len() == 3 ==> (is_stored_octet(p) <==> 48 <= p[0] as int <= 57 && 48 <= p[1] as int <= 57
            && 48 <= p[2] as int <= 57 && 100 * (p[0] as int - 48) + 10 * (p[1] as int - 48) + (
        p[2] as int - 48) <= 255),
{
    reveal_with_fuel(digits_value, 4);
    if p.len() == 1 {
        assert(p.drop_last() =~= seq![]);
    } else if p.len() == 2 {
        assert(p.drop_last() =~= seq![p[0]]);
        assert(p.drop_last().drop_last() =~= seq![]);
    } else if p.len() == 3 {
        assert(p.drop_last() =~= seq![p[0], p[1]]);
        assert(p.drop_last().drop_last() =~= seq![p[0]]);
        assert(p.drop_last().drop_last().drop_last() =~= seq![]);
    }
}

/// A configuration passes its checks exactly where its port is not 0, its saved address, if it has
/// one, can be stored, and its identity passes its own checks. Nothing else about it matters.
pub proof fn checks_on_a_configuration(c: ConfigView)
    ensures
        config_complaint(c) is None <==> c.listen_port != 0 && (c.last_peer_ip is None
            || is_stored_ipv4(c.last_peer_ip->0)) && identity::identity_complaint(c.identity) is None,
{
}

/// A device that runs for the first time listens on 45888, retries lost connections, is not
/// paused, does not start with the system and knows no peer.
pub proof fn first_configuration(id: IdentityView)
    ensures
        ({
            let c = default_config(id);
            &&& c.schema_version == 1
            &&& c.listen_port == 45888
            &&& c.auto_reconnect
            &&& !c.autostart
            &&& !c.sync_paused
            &&& c.last_peer_ip is None
            &&& c.identity == id
        }),
{
}

/// What a configuration shows is what its fields hold.
pub proof fn configuration_shows_its_fields(c: AppConfig)
    ensures
        c@.schema_version == c.schema_version,
        c@.listen_port == c.listen_port,
        c@.autostart == c.autostart,
        c@.auto_reconnect == c.auto_reconnect,
        c@.sync_paused == c.sync_paused,
        c.last_peer_ip matches Some(ip) ==> c@.last_peer_ip == Some(ip@),
        c.last_peer_ip is None ==> c@.last_peer_ip is None,
        c@.identity.device_id == c.identity.device_id@,
        c@.identity.device_name == c.identity.device_name@,
        c@.identity.device_secret == c.identity.device_secret@,
{
}

/// Which of the complaints about a configuration comes: the port's before the address's, and that
/// before the identity's own.
pub proof fn complaints_in_order(c: ConfigView)
    ensures
        c.listen_port == 0 ==> config_complaint(c) == Some("listen_port 必须为有效非零端口"@),
        c.listen_port != 0 && (c.last_peer_ip matches Some(ip) && !is_stored_ipv4(ip))
            ==> config_complaint(c) == Some("last_peer_ip 不是有效 IPv4: "@ + c.last_peer_ip->0),
        c.listen_port != 0 && (c.last_peer_ip is None || is_stored_ipv4(c.last_peer_ip->0))
            ==> config_complaint(c) == identity::identity_complaint(c.identity),
{
}

/// A copy of a broken configuration is named after the second it is made in, with a number where
/// that second has one already.
pub proof fn backups_are_named_after_the_time(ts: u64, n: u32)
    ensures
        backup_name_of(ts, 0) == "config.json.bak-"@ + text::decimal(ts as nat),
        n > 0 ==> backup_name_of(ts, n) == backup_name_of(ts, 0) + "-"@ + text::decimal(n as nat),
{
}

} // verus!
