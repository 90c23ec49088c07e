use crate::config;
use crate::config::AppConfig;
use crate::config::ConfigView;
use crate::identity::IdentityView;
use crate::identity::LocalIdentity;
use crate::json;
use crate::json::Json;
use crate::json::Member;
use crate::json::Scalar;
use crate::text;
use crate::wire;
use vstd::prelude::*;

verus! {

/// The identity that three values make.
pub open spec fn identity_from(
    device_id: Option<Json>,
    device_name: Option<Json>,
    device_secret: Option<Json>,
) -> Option<IdentityView> {
    match (device_id, device_name, device_secret) {
        (Some(Json::Text(d)), Some(Json::Text(n)), Some(Json::Text(s))) => Some(
            IdentityView { device_id: d@, device_name: n@, device_secret: s@ },
        ),
        _ => None,
    }
}

/// The identity that a JSON value is: an object without repeated members, or a list of the three
/// values in their order.
pub open spec fn identity_of(j: Json) -> Option<IdentityView> {
    match j {
        Json::Object(ms) => if wire::at_most_once(ms@, "device_id"@) && wire::at_most_once(
            ms@,
            "device_name"@,
        ) && wire::at_most_once(ms@, "device_secret"@) {
            identity_from(
                json::lookup(ms@, "device_id"@),
                json::lookup(ms@, "device_name"@),
                json::lookup(ms@, "device_secret"@),
            )
        } else {
            None
        },
        Json::List(v) => if v@.len() == 3 {
            identity_from(Some(v@[0]), Some(v@[1]), Some(v@[2]))
        } else {
            None
        },
        _ => None,
    }
}

/// A flag; where it is missing, its default.
pub open spec fn flag(j: Option<Json>, default_value: bool) -> Option<bool> {
    match j {
        None => Some(default_value),
        Some(Json::Bool(b)) => Some(b),
        _ => None,
    }
}

/// A port; where it is missing, the default one.
pub open spec fn port(j: Option<Json>) -> Option<u16> {
    match j {
        None => Some(config::DEFAULT_LISTEN_PORT),
        Some(Json::Unsigned(n)) => if n <= u16::MAX {
            Some(n as u16)
        } else {
            None
        },
        _ => None,
    }
}

/// A text that may be missing or null.
pub open spec fn optional_text(j: Option<Json>) -> Option<Option<Seq<char>>> {
    match j {
        None => Some(None),
        Some(Json::Null) => Some(None),
        Some(Json::Text(s)) => Some(Some(s@)),
        _ => None,
    }
}

/// The configuration that seven values make. The schema version and the identity have to be there;
/// the others have defaults.
pub open spec fn config_from(
    schema_version: Option<Json>,
    listen_port: Option<Json>,
    autostart: Option<Json>,
    auto_reconnect: Option<Json>,
    sync_paused: Option<Json>,
    last_peer_ip: Option<Json>,
    identity: Option<Json>,
) -> Option<ConfigView> {
    match (schema_version, identity) {
        (Some(Json::Unsigned(v)), Some(id)) => match (
            port(listen_port),
            flag(autostart, false),
            flag(auto_reconnect, true),
            flag(sync_paused, false),
            optional_text(last_peer_ip),
            identity_of(id),
        ) {
            (Some(p), Some(a), Some(r), Some(s), Some(ip), Some(i)) => if v <= u32::MAX {
                Some(
                    ConfigView {
                        schema_version: v as u32,
                        listen_port: p,
                        autostart: a,
                        auto_reconnect: r,
                        sync_paused: s,
                        last_peer_ip: ip,
                        identity: i,
                    },
                )
            } else {
                None
            },
            _ => None,
        },
        _ => None,
    }
}

/// Whether no member of a configuration is given twice.
pub open spec fn config_members_once(ms: Seq<Member>) -> bool {
    &&& wire::at_most_once(ms, "schema_version"@)
    &&& wire::at_most_once(ms, "listen_port"@)
    &&& wire::at_most_once(ms, "autostart"@)
    &&& wire::at_most_once(ms, "auto_reconnect"@)
    &&& wire::at_most_once(ms, "sync_paused"@)
    &&& wire::at_most_once(ms, "last_peer_ip"@)
    &&& wire::at_most_once(ms, "identity"@)
}

/// The configuration that an object's members make. One that is given twice makes none; members of
/// other names do not count.
pub open spec fn config_of_members(ms: Seq<Member>) -> Option<ConfigView> {
    if config_members_once(ms) {
        config_from(
            json::lookup(ms, "schema_version"@),
            json::lookup(ms, "listen_port"@),
            json::lookup(ms, "autostart"@),
            json::lookup(ms, "auto_reconnect"@),
            json::lookup(ms, "sync_paused"@),
            json::lookup(ms, "last_peer_ip"@),
            json::lookup(ms, "identity"@),
        )
    } else {
        None
    }
}

/// Whether a name is that of a configuration's member.
pub open spec fn is_config_name(name: Seq<char>) -> bool {
    ||| name == "schema_version"@
    ||| name == "listen_port"@
    ||| name == "autostart"@
    ||| name == "auto_reconnect"@
    ||| name == "sync_paused"@
    ||| name == "last_peer_ip"@
    ||| name == "identity"@
}

/// The configuration that a JSON value is: an object, or a list of the seven values in their order.
pub open spec fn config_of(j: Json) -> Option<ConfigView> {
    match j {
        Json::Object(ms) => config_of_members(ms@),
        Json::List(v) => if v@.len() == 7 {
            config_from(
                Some(v@[0]),
                Some(v@[1]),
                Some(v@[2]),
                Some(v@[3]),
                Some(v@[4]),
                Some(v@[5]),
                Some(v@[6]),
            )
        } else {
            None
        },
        _ => None,
    }
}

/// The JSON of an identity.
pub open spec fn is_identity_json(j: Json, id: IdentityView) -> bool {
    j is Object && json::members(j) == seq![
        ("device_id"@, Scalar::Text(id.device_id)),
        ("device_name"@, Scalar::Text(id.device_name)),
        ("device_secret"@, Scalar::Text(id.device_secret)),
    ]
}

/// The JSON of a configuration: an object of seven members in their order.
pub open spec fn is_config_json(j: Json, c: ConfigView) -> bool {
    &&& j matches Json::Object(ms)
    &&& ms@.len() == 7
    &&& ms@[0].name@ == "schema_version"@ && ms@[0].value == Json::Unsigned(c.schema_version as u64)
    &&& ms@[1].name@ == "listen_port"@ && ms@[1].value == Json::Unsigned(c.listen_port as u64)
    &&& ms@[2].name@ == "autostart"@ && ms@[2].value == Json::Bool(c.autostart)
    &&& ms@[3].name@ == "auto_reconnect"@ && ms@[3].value == Json::Bool(c.auto_reconnect)
    &&& ms@[4].name@ == "sync_paused"@ && ms@[4].value == Json::Bool(c.sync_paused)
    &&& ms@[5].name@ == "last_peer_ip"@ && match c.last_peer_ip {
        None => ms@[5].value == Json::Null,
        Some(ip) => json::scalar(ms@[5].value) == Scalar::Text(ip),
    }
    &&& ms@[6].name@ == "identity"@ && is_identity_json(ms@[6].value, c.identity)
}

fn read_string(j: Option<&Json>) -> (r: Option<String>)
    ensures
        match r {
            Some(s) => j matches Some(Json::Text(t)) && t@ == s@,
            None => !(j matches Some(Json::Text(_))),
        },
{
    match j {
        Some(Json::Text(s)) => Some(s.clone()),
        _ => None,
    }
}

fn read_identity(j: &Json) -> (r: Option<LocalIdentity>)
    ensures
        match r {
            Some(id) => identity_of(*j) == Some(id@),
            None => identity_of(*j) is None,
        },
{
    let (d, n, s) = match j {
        Json::Object(ms) => {
            if !wire::given_once(ms, "device_id") || !wire::given_once(ms, "device_name")
                || !wire::given_once(ms, "device_secret") {
                return None;
            }
            (
                wire::value_of(ms, "device_id"),
                wire::value_of(ms, "device_name"),
                wire::value_of(ms, "device_secret"),
            )
        },
        Json::List(v) => {
            if v.len() != 3 {
                return None;
            }
            (Some(&v[0]), Some(&v[1]), Some(&v[2]))
        },
        _ => {
            return None;
        },
    };
    match (read_string(d), read_string(n), read_string(s)) {
        (Some(device_id), Some(device_name), Some(device_secret)) => Some(
            LocalIdentity { device_id, device_name, device_secret },
        ),
        _ => None,
    }
}

fn read_flag(j: Option<&Json>, default_value: bool) -> (r: Option<bool>)
    ensures
        r == flag(wire::found(j), default_value),
{
    match j {
        None => Some(default_value),
        Some(Json::Bool(b)) => Some(*b),
        Some(_) => None,
    }
}

fn read_port(j: Option<&Json>) -> (r: Option<u16>)
    ensures
        r == port(wire::found(j)),
{
    match j {
        None => Some(config::DEFAULT_LISTEN_PORT),
        Some(Json::Unsigned(n)) => if *n <= u16::MAX as u64 {
            Some(*n as u16)
        } else {
            None
        },
        Some(_) => None,
    }
}

fn read_optional(j: Option<&Json>) -> (r: Option<Option<String>>)
    ensures
        match r {
            Some(t) => optional_text(wire::found(j)) == Some(text::maybe(t)),
            None => optional_text(wire::found(j)) is None,
        },
{
    match j {
        None => Some(None),
        Some(Json::Null) => Some(None),
        Some(Json::Text(s)) => Some(Some(s.clone())),
        Some(_) => None,
    }
}

fn build(
    schema_version: Option<&Json>,
    listen_port: Option<&Json>,
    autostart: Option<&Json>,
    auto_reconnect: Option<&Json>,
    sync_paused: Option<&Json>,
    last_peer_ip: Option<&Json>,
    identity: Option<&Json>,
) -> (r: Option<AppConfig>)
    ensures
        ({
            let c = config_from(
                wire::found(schema_version),
                wire::found(listen_port),
                wire::found(autostart),
                wire::found(auto_reconnect),
                wire::found(sync_paused),
                wire::found(last_peer_ip),
                wire::found(identity),
            );
            match r {
                Some(x) => c == Some(x@),
                None => c is None,
            }
        }),
{
    let version: u32 = match schema_version {
        Some(Json::Unsigned(v)) => if *v <= u32::MAX as u64 {
            *v as u32
        } else {
            return None;
        },
        _ => {
            return None;
        },
    };
    let id = match identity {
        Some(j) => match read_identity(j) {
            Some(id) => id,
            None => {
                return None;
            },
        },
        None => {
            return None;
        },
    };
    match (
        read_port(listen_port),
        read_flag(autostart, false),
        read_flag(auto_reconnect, true),
        read_flag(sync_paused, false),
        read_optional(last_peer_ip),
    ) {
        (Some(p), Some(a), Some(r), Some(s), Some(ip)) => Some(
            AppConfig {
                schema_version: version,
                listen_port: p,
                autostart: a,
                auto_reconnect: r,
                sync_paused: s,
                last_peer_ip: ip,
                identity: id,
            },
        ),
        _ => None,
    }
}

fn members_once(ms: &Vec<Member>) -> (r: bool)
    ensures
        r == config_members_once(ms@),
{
    wire::given_once(ms, "schema_version") && wire::given_once(ms, "listen_port")
        && wire::given_once(ms, "autostart") && wire::given_once(ms, "auto_reconnect")
        && wire::given_once(ms, "sync_paused") && wire::given_once(ms, "last_peer_ip")
        && wire::given_once(ms, "identity")
}

impl AppConfig {
    /// The configuration that a JSON value is.
    pub fn from_json(j: &Json) -> (r: Option<AppConfig>)
        ensures
            match r {
                Some(c) => config_of(*j) == Some(c@),
                None => config_of(*j) is None,
            },
    {
        match j {
            Json::Object(ms) => if members_once(ms) {
                build(
                    wire::value_of(ms, "schema_version"),
                    wire::value_of(ms, "listen_port"),
                    wire::value_of(ms, "autostart"),
                    wire::value_of(ms, "auto_reconnect"),
                    wire::value_of(ms, "sync_paused"),
                    wire::value_of(ms, "last_peer_ip"),
                    wire::value_of(ms, "identity"),
                )
            } else {
                None
            },
            Json::List(v) => if v.len() == 7 {
                build(
                    Some(&v[0]),
                    Some(&v[1]),
                    Some(&v[2]),
                    Some(&v[3]),
                    Some(&v[4]),
                    Some(&v[5]),
                    Some(&v[6]),
                )
            } else {
                None
            },
            _ => None,
        }
    }

    /// The JSON of the configuration.
    pub fn to_json(&self) -> (r: Json)
        ensures
            is_config_json(r, self@),
    {
        let mut id: Vec<Member> = Vec::new();
        id.push(json::text_member("device_id", self.identity.device_id.as_str()));
        id.push(json::text_member("device_name", self.identity.device_name.as_str()));
        id.push(json::text_member("device_secret", self.identity.device_secret.as_str()));
        let identity = Json::Object(id);
        assert(json::members(identity) =~= seq![
            ("device_id"@, Scalar::Text(self.identity.device_id@)),
            ("device_name"@, Scalar::Text(self.identity.device_name@)),
            ("device_secret"@, Scalar::Text(self.identity.device_secret@)),
        ]);
        let ip = match &self.last_peer_ip {
            Some(s) => Json::Text(s.clone()),
            None => Json::Null,
        };
        let mut ms: Vec<Member> = Vec::new();
        ms.push(json::number_member("schema_version", self.schema_version as u64));
        ms.push(json::number_member("listen_port", self.listen_port as u64));
        ms.push(Member { name: "autostart".to_string(), value: Json::Bool(self.autostart) });
        ms.push(
            Member { name: "auto_reconnect".to_string(), value: Json::Bool(self.auto_reconnect) },
        );
        ms.push(Member { name: "sync_paused".to_string(), value: Json::Bool(self.sync_paused) });
        ms.push(Member { name: "last_peer_ip".to_string(), value: ip });
        ms.push(Member { name: "identity".to_string(), value: identity });
        Json::Object(ms)
    }
}

/// The configuration's member that is an identity.
pub const IDENTITY_NAME: &'static str = "identity";

/// A configuration's members in their order.
pub fn config_names() -> (r: [&'static str; 7])
    ensures
        r@[0]@ == "schema_version"@,
        r@[1]@ == "listen_port"@,
        r@[2]@ == "autostart"@,
        r@[3]@ == "auto_reconnect"@,
        r@[4]@ == "sync_paused"@,
        r@[5]@ == "last_peer_ip"@,
        r@[6]@ == "identity"@,
{
    [
        "schema_version",
        "listen_port",
        "autostart",
        "auto_reconnect",
        "sync_paused",
        "last_peer_ip",
        IDENTITY_NAME,
    ]
}

/// An identity's members in their order.
pub fn identity_names() -> (r: [&'static str; 3])
    ensures
        r@[0]@ == "device_id"@,
        r@[1]@ == "device_name"@,
        r@[2]@ == "device_secret"@,
{
    ["device_id", "device_name", "device_secret"]
}

/// What was found where the configuration is kept.
#[derive(Debug)]
pub enum Stored {
    Missing,
    NotJson,
    Parsed(Json),
}

/// What to do about what was found.
#[derive(Debug)]
pub enum LoadPlan {
    /// Make the default configuration and save it.
    Create,
    /// Use this one.
    Use(AppConfig),
    /// Keep a copy of the file, then make the default configuration and save it.
    Recover,
}

/// The configuration that is kept in a file, where it is one and passes its checks.
pub open spec fn sound_config(s: Stored) -> Option<ConfigView> {
    match s {
        Stored::Parsed(j) => match config_of(j) {
            Some(c) => if config::config_complaint(c) is None {
                Some(c)
            } else {
                None
            },
            None => None,
        },
        _ => None,
    }
}

/// Decides what a start does about the stored configuration: a missing one is made, a sound one is
/// used as it is, any other is kept aside and replaced.
pub fn plan_load(stored: Stored) -> (r: LoadPlan)
    ensures
        match r {
            LoadPlan::Create => stored is Missing,
            LoadPlan::Use(c) => sound_config(stored) == Some(c@),
            LoadPlan::Recover => !(stored is Missing) && sound_config(stored) is None,
        },
{
    match stored {
        Stored::Missing => LoadPlan::Create,
        Stored::NotJson => LoadPlan::Recover,
        Stored::Parsed(j) => match AppConfig::from_json(&j) {
            Some(c) => match c.validate() {
                Ok(()) => LoadPlan::Use(c),
                Err(_) => LoadPlan::Recover,
            },
            None => LoadPlan::Recover,
        },
    }
}

/// The names of an identity's members differ.
proof fn identity_names_differ()
    ensures
        "device_id"@.len() == 9,
        "device_name"@.len() == 11,
        "device_secret"@.len() == 13,
{
    reveal_strlit("device_id");
    reveal_strlit("device_name");
    reveal_strlit("device_secret");
}

/// The names of a configuration's members differ.
proof fn config_names_differ()
    ensures
        "schema_version"@.len() == 14,
        "auto_reconnect"@.len() == 14,
        "schema_version"@ != "auto_reconnect"@,
        "listen_port"@.len() == 11,
        "sync_paused"@.len() == 11,
        "listen_port"@ != "sync_paused"@,
        "autostart"@.len() == 9,
        "last_peer_ip"@.len() == 12,
        "identity"@.len() == 8,
{
    reveal_strlit("schema_version");
    reveal_strlit("auto_reconnect");
    reveal_strlit("listen_port");
    reveal_strlit("sync_paused");
    reveal_strlit("autostart");
    reveal_strlit("last_peer_ip");
    reveal_strlit("identity");
    assert("schema_version"@[0] != "auto_reconnect"@[0]);
    assert("listen_port"@[0] != "sync_paused"@[0]);
}

proof fn identity_round_trip(j: Json, id: IdentityView)
    requires
        is_identity_json(j, id),
    ensures
        identity_of(j) == Some(id),
{
    identity_names_differ();
    let ms = j->Object_0@;
    assert(json::members(j).len() == ms.len());
    assert(json::members(j)[0].0 == ms[0].name@ && json::members(j)[1].0 == ms[1].name@
        && json::members(j)[2].0 == ms[2].name@);
    assert(json::members(j)[0].1 == json::scalar(ms[0].value));
    assert(json::members(j)[1].1 == json::scalar(ms[1].value));
    assert(json::members(j)[2].1 == json::scalar(ms[2].value));
    json::lookup_single(ms, 0);
    json::lookup_single(ms, 1);
    json::lookup_single(ms, 2);
}

/// What is saved is loaded again: the JSON of a configuration that passes its checks is used as
/// it is, so that the identity stays the same from run to run.
pub proof fn saved_config_loads(j: Json, c: ConfigView)
    requires
        is_config_json(j, c),
    ensures
        config_of(j) == Some(c),
        config::config_complaint(c) is None ==> sound_config(Stored::Parsed(j)) == Some(c),
{
    config_names_differ();
    let ms = j->Object_0@;
    assert forall|a: int, b: int| 0 <= a < b < 7 implies (#[trigger] ms[a]).name@ != (
    #[trigger] ms[b]).name@ by {
        assert(a == 0 || a == 1 || a == 2 || a == 3 || a == 4 || a == 5);
        assert(b == 1 || b == 2 || b == 3 || b == 4 || b == 5 || b == 6);
    }
    json::lookup_single(ms, 0);
    json::lookup_single(ms, 1);
    json::lookup_single(ms, 2);
    json::lookup_single(ms, 3);
    json::lookup_single(ms, 4);
    json::lookup_single(ms, 5);
    json::lookup_single(ms, 6);
    identity_round_trip(ms[6].value, c.identity);
}

/// A configuration that has only the schema version and the identity, in whatever order, gets the
/// defaults.
pub proof fn missing_members_get_defaults(ms: Seq<Member>, version: int, identity: int)
    requires
        ms.len() == 2,
        version == 0 && identity == 1 || version == 1 && identity == 0,
        ms[version].name@ == "schema_version"@,
        ms[version].value == Json::Unsigned(config::SCHEMA_VERSION as u64),
        ms[identity].name@ == "identity"@,
        identity_of(ms[identity].value) is Some,
    ensures
        config_of_members(ms) == Some(
            config::default_config(identity_of(ms[identity].value)->0),
        ),
{
    config_names_differ();
    reveal_with_fuel(json::lookup, 3);
}

/// Members that are not known change nothing about a configuration, wherever they stand.
pub proof fn unknown_settings_ignored(ms: Seq<Member>, place: int, extra: Member)
    requires
        0 <= place <= ms.len(),
        !is_config_name(extra.name@),
    ensures
        config_of_members(ms.insert(place, extra)) == config_of_members(ms),
{
    wire::other_member_ignored(ms, place, extra, "schema_version"@);
    wire::other_member_ignored(ms, place, extra, "listen_port"@);
    wire::other_member_ignored(ms, place, extra, "autostart"@);
    wire::other_member_ignored(ms, place, extra, "auto_reconnect"@);
    wire::other_member_ignored(ms, place, extra, "sync_paused"@);
    wire::other_member_ignored(ms, place, extra, "last_peer_ip"@);
    wire::other_member_ignored(ms, place, extra, "identity"@);
}

/// What makes a configuration, member by member: a schema version that fits and an identity have to
/// be there; a port, a flag or a saved address that is missing has its default, and one of another
/// kind makes none. The configuration then says what the members say.
pub proof fn configuration_member_by_member(ms: Seq<Member>)
    requires
        wire::at_most_once(ms, "schema_version"@),
        wire::at_most_once(ms, "listen_port"@),
        wire::at_most_once(ms, "autostart"@),
        wire::at_most_once(ms, "auto_reconnect"@),
        wire::at_most_once(ms, "sync_paused"@),
        wire::at_most_once(ms, "last_peer_ip"@),
        wire::at_most_once(ms, "identity"@),
    ensures
        config_of_members(ms) matches Some(c) ==> {
            &&& json::lookup(ms, "schema_version"@) == Some(Json::Unsigned(c.schema_version as u64))
            &&& json::lookup(ms, "listen_port"@) == Some(Json::Unsigned(c.listen_port as u64)) || (
            json::lookup(ms, "listen_port"@) is None && c.listen_port == 45888)
            &&& json::lookup(ms, "autostart"@) == Some(Json::Bool(c.autostart)) || (json::lookup(
                ms,
                "autostart"@,
            ) is None && !c.autostart)
            &&& json::lookup(ms, "auto_reconnect"@) == Some(Json::Bool(c.auto_reconnect)) || (
            json::lookup(ms, "auto_reconnect"@) is None && c.auto_reconnect)
            &&& json::lookup(ms, "sync_paused"@) == Some(Json::Bool(c.sync_paused)) || (
            json::lookup(ms, "sync_paused"@) is None && !c.sync_paused)
            &&& c.last_peer_ip is None ==> json::lookup(ms, "last_peer_ip"@) is None
                || json::lookup(ms, "last_peer_ip"@) == Some(Json::Null)
            &&& c.last_peer_ip matches Some(ip) ==> (json::lookup(ms, "last_peer_ip"@) matches
                Some(v) && (v matches Json::Text(s) && s@ == ip))
            &&& json::lookup(ms, "identity"@) matches Some(v) && identity_of(v) == Some(c.identity)
        },
        ({
            &&& json::lookup(ms, "schema_version"@) matches Some(v) && (v matches Json::Unsigned(n)
                && n <= 0xffff_ffff)
            &&& json::lookup(ms, "listen_port"@) matches Some(v) ==> (v matches Json::Unsigned(n)
                && n <= 0xffff)
            &&& json::lookup(ms, "autostart"@) matches Some(v) ==> v is Bool
            &&& json::lookup(ms, "auto_reconnect"@) matches Some(v) ==> v is Bool
            &&& json::lookup(ms, "sync_paused"@) matches Some(v) ==> v is Bool
            &&& json::lookup(ms, "last_peer_ip"@) matches Some(v) ==> v is Text || v is Null
            &&& json::lookup(ms, "identity"@) matches Some(v) && identity_of(v) is Some
        }) ==> config_of_members(ms) is Some,
{
}

/// What makes an identity, member by member: three texts.
pub proof fn identity_member_by_member(j: Json, ms: Seq<Member>)
    requires
        j matches Json::Object(x) && x@ == ms,
        wire::at_most_once(ms, "device_id"@),
        wire::at_most_once(ms, "device_name"@),
        wire::at_most_once(ms, "device_secret"@),
    ensures
        identity_of(j) matches Some(id) ==> {
            &&& json::lookup(ms, "device_id"@) matches Some(v) && (v matches Json::Text(s) && s@
                == id.device_id)
            &&& json::lookup(ms, "device_name"@) matches Some(v) && (v matches Json::Text(s) && s@
                == id.device_name)
            &&& json::lookup(ms, "device_secret"@) matches Some(v) && (v matches Json::Text(s) && s@
                == id.device_secret)
        },
        ({
            &&& json::lookup(ms, "device_id"@) matches Some(v) && v is Text
            &&& json::lookup(ms, "device_name"@) matches Some(v) && v is Text
            &&& json::lookup(ms, "device_secret"@) matches Some(v) && v is Text
        }) ==> identity_of(j) is Some,
{
}

/// A configuration that gives one of its members twice is none, and neither is a value that is
/// neither an object nor a list of seven.
pub proof fn what_is_no_configuration(j: Json, name: Seq<char>, i: int, k: int)
    ensures
        j matches Json::Object(ms) ==> (0 <= i < k < ms@.len() && ms@[i].name@ == name
            && ms@[k].name@ == name && (name == "schema_version"@ || name == "listen_port"@ || name
            == "autostart"@ || name == "auto_reconnect"@ || name == "sync_paused"@ || name
            == "last_peer_ip"@ || name == "identity"@) ==> config_of(j) is None),
        j matches Json::List(v) ==> (v@.len() != 7 ==> config_of(j) is None),
        !(j is Object) && !(j is List) ==> config_of(j) is None,
{
    if let Json::Object(ms) = j {
        if 0 <= i < k < ms@.len() && ms@[i].name@ == name && ms@[k].name@ == name && is_config_name(
            name,
        ) {
            assert(!wire::at_most_once(ms@, name));
        }
    }
}

/// A stored configuration is used exactly where it is one and passes its checks; what is missing or
/// no JSON never is.
pub proof fn which_stored_configurations_are_used(s: Stored)
    ensures
        !(s is Parsed) ==> sound_config(s) is None,
        s matches Stored::Parsed(j) ==> {
            &&& config_of(j) is None ==> sound_config(s) is None
            &&& config_of(j) matches Some(c) ==> {
                &&& config::config_complaint(c) is None ==> sound_config(s) == Some(c)
                &&& config::config_complaint(c) is Some ==> sound_config(s) is None
            }
        },
{
}

/// A configuration has seven members and no others that count.
pub proof fn names_of_a_configuration(name: Seq<char>)
    ensures
        is_config_name(name) <==> name == "schema_version"@ || name == "listen_port"@ || name
            == "autostart"@ || name == "auto_reconnect"@ || name == "sync_paused"@ || name
            == "last_peer_ip"@ || name == "identity"@,
{
}

/// A list of the seven values is read as the object with these values under their names, and a list
/// of the three values of an identity likewise.
pub proof fn lists_read_like_the_objects(j: Json, v: Seq<Json>, ms: Seq<Member>)
    requires
        j matches Json::List(x) && x@ == v,
        ms.len() == v.len(),
        forall|i: int| 0 <= i < v.len() ==> (#[trigger] ms[i]).value == v[i],
    ensures
        v.len() == 7 && ms[0].name@ == "schema_version"@ && ms[1].name@ == "listen_port"@
            && ms[2].name@ == "autostart"@ && ms[3].name@ == "auto_reconnect"@ && ms[4].name@
            == "sync_paused"@ && ms[5].name@ == "last_peer_ip"@ && ms[6].name@ == "identity"@
            ==> config_of(j) == config_of_members(ms),
        v.len() == 3 && ms[0].name@ == "device_id"@ && ms[1].name@ == "device_name"@ && ms[2].name@
            == "device_secret"@ ==> identity_of(j) == identity_from(
            json::lookup(ms, "device_id"@),
            json::lookup(ms, "device_name"@),
            json::lookup(ms, "device_secret"@),
        ),
{
    config_names_differ();
    identity_names_differ();
    if v.len() == 7 && ms[0].name@ == "schema_version"@ && ms[1].name@ == "listen_port"@
        && ms[2].name@ == "autostart"@ && ms[3].name@ == "auto_reconnect"@ && ms[4].name@
        == "sync_paused"@ && ms[5].name@ == "last_peer_ip"@ && ms[6].name@ == "identity"@ {
        assert forall|a: int, b: int| 0 <= a < b < 7 implies (#[trigger] ms[a]).name@ != (
        #[trigger] ms[b]).name@ by {
            assert(a == 0 || a == 1 || a == 2 || a == 3 || a == 4 || a == 5);
            assert(b == 1 || b == 2 || b == 3 || b == 4 || b == 5 || b == 6);
        }
        json::lookup_single(ms, 0);
        json::lookup_single(ms, 1);
        json::lookup_single(ms, 2);
        json::lookup_single(ms, 3);
        json::lookup_single(ms, 4);
        json::lookup_single(ms, 5);
        json::lookup_single(ms, 6);
    }
    if v.len() == 3 && ms[0].name@ == "device_id"@ && ms[1].name@ == "device_name"@ && ms[2].name@
        == "device_secret"@ {
        json::lookup_single(ms, 0);
        json::lookup_single(ms, 1);
        json::lookup_single(ms, 2);
    }
}

} // verus!
