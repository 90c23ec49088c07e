use crate::error::AppError;
use crate::json;
use crate::json::Json;
use crate::json::Member;
use crate::protocol::Message;
use crate::text;
use vstd::prelude::*;

verus! {

/// All that a message says.
pub struct Letter {
    pub version: u32,
    pub msg_type: Seq<char>,
    pub message_id: Seq<char>,
    pub timestamp: u64,
    pub device_id: Seq<char>,
    pub payload: Json,
    pub auth: Option<Seq<char>>,
}

impl View for Message {
    type V = Letter;

    open spec fn view(&self) -> Letter {
        Letter {
            version: self.version,
            msg_type: self.msg_type@,
            message_id: self.message_id@,
            timestamp: self.timestamp,
            device_id: self.device_id@,
            payload: self.payload,
            auth: text::maybe(self.auth),
        }
    }
}

/// Whether a name is that of a message's member.
pub open spec fn is_message_name(name: Seq<char>) -> bool {
    ||| name == "version"@
    ||| name == "type"@
    ||| name == "message_id"@
    ||| name == "timestamp"@
    ||| name == "device_id"@
    ||| name == "payload"@
    ||| name == "auth"@
}

/// Whether at most one member has a name.
pub open spec fn at_most_once(ms: Seq<Member>, name: Seq<char>) -> bool {
    forall|i: int, k: int|
        0 <= i < k < ms.len() && (#[trigger] ms[i]).name@ == name ==> (#[trigger] ms[k]).name@
            != name
}

/// The message that seven values make: a version, a type, an id, a time, a device id, any
/// payload, and an authenticator that may be absent or null.
pub open spec fn letter(
    version: Option<Json>,
    msg_type: Option<Json>,
    message_id: Option<Json>,
    timestamp: Option<Json>,
    device_id: Option<Json>,
    payload: Option<Json>,
    auth: Option<Json>,
) -> Option<Letter> {
    match (version, msg_type, message_id, timestamp, device_id, payload) {
        (
            Some(Json::Unsigned(v)),
            Some(Json::Text(t)),
            Some(Json::Text(m)),
            Some(Json::Unsigned(at)),
            Some(Json::Text(d)),
            Some(p),
        ) => {
            let l = Letter {
                version: v as u32,
                msg_type: t@,
                message_id: m@,
                timestamp: at,
                device_id: d@,
                payload: p,
                auth: None,
            };
            if v > u32::MAX {
                None
            } else {
                match auth {
                    None => Some(l),
                    Some(Json::Null) => Some(l),
                    Some(Json::Text(a)) => Some(Letter { auth: Some(a@), ..l }),
                    _ => None,
                }
            }
        },
        _ => None,
    }
}

/// The message that an object's members make. A member of a message that is given twice makes
/// none; members of other names do not count.
pub open spec fn letter_of_members(ms: Seq<Member>) -> Option<Letter> {
    if forall|name: Seq<char>| #[trigger] is_message_name(name) ==> at_most_once(ms, name) {
        letter(
            json::lookup(ms, "version"@),
            json::lookup(ms, "type"@),
            json::lookup(ms, "message_id"@),
            json::lookup(ms, "timestamp"@),
            json::lookup(ms, "device_id"@),
            json::lookup(ms, "payload"@),
            json::lookup(ms, "auth"@),
        )
    } else {
        None
    }
}

/// The message that a JSON value is: an object, or a list of the seven values in their order.
pub open spec fn letter_of(j: Json) -> Option<Letter> {
    match j {
        Json::Object(ms) => letter_of_members(ms@),
        Json::List(v) => if v@.len() == 7 {
            letter(
                Some(v@[0]),
                Some(v@[1]),
                Some(v@[2]),
                Some(v@[3]),
                Some(v@[4]),
                Some(v@[5]),
                Some(v@[6]),
            )
        } else {
            None
        },
        _ => None,
    }
}

/// The JSON of a message: an object of seven members in their order.
pub open spec fn is_json_of(j: Json, m: Letter) -> bool {
    &&& j matches Json::Object(ms)
    &&& ms@.len() == 7
    &&& ms@[0].name@ == "version"@ && ms@[0].value == Json::Unsigned(m.version as u64)
    &&& ms@[1].name@ == "type"@ && json::scalar(ms@[1].value) == json::Scalar::Text(m.msg_type)
    &&& ms@[2].name@ == "message_id"@ && json::scalar(ms@[2].value) == json::Scalar::Text(
        m.message_id,
    )
    &&& ms@[3].name@ == "timestamp"@ && ms@[3].value == Json::Unsigned(m.timestamp)
    &&& ms@[4].name@ == "device_id"@ && json::scalar(ms@[4].value) == json::Scalar::Text(
        m.device_id,
    )
    &&& ms@[5].name@ == "payload"@ && ms@[5].value == m.payload
    &&& ms@[6].name@ == "auth"@ && match m.auth {
        None => ms@[6].value == Json::Null,
        Some(a) => json::scalar(ms@[6].value) == json::Scalar::Text(a),
    }
}

/// All of a message but its payload.
struct Head {
    version: u32,
    msg_type: String,
    message_id: String,
    timestamp: u64,
    device_id: String,
    auth: Option<String>,
}

pub open spec fn found(j: Option<&Json>) -> Option<Json> {
    match j {
        Some(v) => Some(*v),
        None => None,
    }
}

fn read_head(
    version: Option<&Json>,
    msg_type: Option<&Json>,
    message_id: Option<&Json>,
    timestamp: Option<&Json>,
    device_id: Option<&Json>,
    auth: Option<&Json>,
) -> (r: Option<Head>)
    ensures
        forall|p: Json|
            match r {
                Some(h) => #[trigger] letter(
                    found(version),
                    found(msg_type),
                    found(message_id),
                    found(timestamp),
                    found(device_id),
                    Some(p),
                    found(auth),
                ) == Some(
                    Letter {
                        version: h.version,
                        msg_type: h.msg_type@,
                        message_id: h.message_id@,
                        timestamp: h.timestamp,
                        device_id: h.device_id@,
                        payload: p,
                        auth: text::maybe(h.auth),
                    },
                ),
                None => letter(
                    found(version),
                    found(msg_type),
                    found(message_id),
                    found(timestamp),
                    found(device_id),
                    Some(p),
                    found(auth),
                ) is None,
            },
{
    let auth = match auth {
        None => None,
        Some(Json::Null) => None,
        Some(Json::Text(a)) => Some(a.clone()),
        Some(_) => {
            return None;
        },
    };
    match (version, msg_type, message_id, timestamp, device_id) {
        (
            Some(Json::Unsigned(v)),
            Some(Json::Text(t)),
            Some(Json::Text(m)),
            Some(Json::Unsigned(at)),
            Some(Json::Text(d)),
        ) => {
            if *v > u32::MAX as u64 {
                return None;
            }
            Some(
                Head {
                    version: *v as u32,
                    msg_type: t.clone(),
                    message_id: m.clone(),
                    timestamp: *at,
                    device_id: d.clone(),
                    auth,
                },
            )
        },
        _ => None,
    }
}

impl Head {
    fn with_payload(self, payload: Json) -> (r: Message)
        ensures
            r@ == (Letter {
                version: self.version,
                msg_type: self.msg_type@,
                message_id: self.message_id@,
                timestamp: self.timestamp,
                device_id: self.device_id@,
                payload,
                auth: text::maybe(self.auth),
            }),
    {
        Message {
            version: self.version,
            msg_type: self.msg_type,
            message_id: self.message_id,
            timestamp: self.timestamp,
            device_id: self.device_id,
            payload,
            auth: self.auth,
        }
    }
}

/// A message's members in their order.
pub fn message_names() -> (r: [&'static str; 7])
    ensures
        r@[0]@ == "version"@,
        r@[1]@ == "type"@,
        r@[2]@ == "message_id"@,
        r@[3]@ == "timestamp"@,
        r@[4]@ == "device_id"@,
        r@[5]@ == "payload"@,
        r@[6]@ == "auth"@,
{
    ["version", "type", "message_id", "timestamp", "device_id", "payload", "auth"]
}

pub(crate) fn given_once(ms: &Vec<Member>, name: &str) -> (r: bool)
    ensures
        r == at_most_once(ms@, name@),
{
    match json::find(ms, name) {
        None => true,
        Some(last) => {
            let mut i: usize = 0;
            while i < last
                invariant
                    i <= last < ms@.len(),
                    ms@[last as int].name@ == name@,
                    forall|k: int| 0 <= k < i ==> (#[trigger] ms@[k]).name@ != name@,
                    forall|k: int| last < k < ms@.len() ==> (#[trigger] ms@[k]).name@ != name@,
                decreases last - i,
            {
                if text::same_text(ms[i].name.as_str(), name) {
                    assert(ms@[i as int].name@ == name@ && ms@[last as int].name@ == name@);
                    return false;
                }
                i += 1;
            }
            true
        },
    }
}

fn all_given_once(ms: &Vec<Member>) -> (r: bool)
    ensures
        r == forall|name: Seq<char>| #[trigger]
            is_message_name(name) ==> at_most_once(ms@, name),
{
    let names = message_names();
    let mut i: usize = 0;
    while i < 7
        invariant
            i <= 7,
            names@[0]@ == "version"@,
            names@[1]@ == "type"@,
            names@[2]@ == "message_id"@,
            names@[3]@ == "timestamp"@,
            names@[4]@ == "device_id"@,
            names@[5]@ == "payload"@,
            names@[6]@ == "auth"@,
            forall|k: int| 0 <= k < i ==> at_most_once(ms@, #[trigger] names@[k]@),
        decreases 7 - i,
    {
        if !given_once(ms, names[i]) {
            assert(is_message_name(names@[i as int]@));
            return false;
        }
        i += 1;
    }
    assert(at_most_once(ms@, names@[0]@) && at_most_once(ms@, names@[1]@) && at_most_once(
        ms@,
        names@[2]@,
    ) && at_most_once(ms@, names@[3]@) && at_most_once(ms@, names@[4]@) && at_most_once(
        ms@,
        names@[5]@,
    ) && at_most_once(ms@, names@[6]@));
    true
}

pub(crate) fn value_of<'a>(ms: &'a Vec<Member>, name: &str) -> (r: Option<&'a Json>)
    ensures
        found(r) == json::lookup(ms@, name@),
{
    match json::find(ms, name) {
        Some(i) => Some(&ms[i].value),
        None => None,
    }
}

impl Message {
    /// The message that a JSON value is.
    pub fn from_json(j: Json) -> (r: Result<Message, AppError>)
        ensures
            match r {
                Ok(m) => letter_of(j) == Some(m@),
                Err(e) => letter_of(j) is None && e == AppError::ProtocolInvalidJson,
            },
    {
        match j {
            Json::Object(ms) => {
                let mut ms = ms;
                if !all_given_once(&ms) {
                    return Err(AppError::ProtocolInvalidJson);
                }
                let place: usize = match json::find(&ms, "payload") {
                    Some(i) => i,
                    None => {
                        return Err(AppError::ProtocolInvalidJson);
                    },
                };
                let head = read_head(
                    value_of(&ms, "version"),
                    value_of(&ms, "type"),
                    value_of(&ms, "message_id"),
                    value_of(&ms, "timestamp"),
                    value_of(&ms, "device_id"),
                    value_of(&ms, "auth"),
                );
                match head {
                    Some(h) => {
                        let member = ms.swap_remove(place);
                        Ok(h.with_payload(member.value))
                    },
                    None => Err(AppError::ProtocolInvalidJson),
                }
            },
            Json::List(v) => {
                let mut v = v;
                if v.len() != 7 {
                    return Err(AppError::ProtocolInvalidJson);
                }
                let head = read_head(
                    Some(&v[0]),
                    Some(&v[1]),
                    Some(&v[2]),
                    Some(&v[3]),
                    Some(&v[4]),
                    Some(&v[6]),
                );
                match head {
                    Some(h) => {
                        let payload = v.swap_remove(5);
                        Ok(h.with_payload(payload))
                    },
                    None => Err(AppError::ProtocolInvalidJson),
                }
            },
            _ => Err(AppError::ProtocolInvalidJson),
        }
    }

    /// The JSON of the message.
    pub fn into_json(self) -> (r: Json)
        ensures
            is_json_of(r, self@),
    {
        let mut ms: Vec<Member> = Vec::new();
        ms.push(json::number_member("version", self.version as u64));
        ms.push(Member { name: "type".to_string(), value: Json::Text(self.msg_type) });
        ms.push(Member { name: "message_id".to_string(), value: Json::Text(self.message_id) });
        ms.push(json::number_member("timestamp", self.timestamp));
        ms.push(Member { name: "device_id".to_string(), value: Json::Text(self.device_id) });
        ms.push(Member { name: "payload".to_string(), value: self.payload });
        let auth = match self.auth {
            Some(a) => Json::Text(a),
            None => Json::Null,
        };
        ms.push(Member { name: "auth".to_string(), value: auth });
        Json::Object(ms)
    }
}

/// The names of a message's members differ from each other.
proof fn names_differ()
    ensures
        "version"@ != "payload"@,
        "version"@.len() == 7,
        "payload"@.len() == 7,
        "type"@ != "auth"@,
        "type"@.len() == 4,
        "auth"@.len() == 4,
        "message_id"@.len() == 10,
        "timestamp"@ != "device_id"@,
        "timestamp"@.len() == 9,
        "device_id"@.len() == 9,
{
    reveal_strlit("version");
    reveal_strlit("type");
    reveal_strlit("message_id");
    reveal_strlit("timestamp");
    reveal_strlit("device_id");
    reveal_strlit("payload");
    reveal_strlit("auth");
    assert("version"@[0] != "payload"@[0]);
    assert("type"@[0] != "auth"@[0]);
    assert("timestamp"@[0] != "device_id"@[0]);
}

/// A message's JSON is read back as that message.
pub proof fn message_round_trip(j: Json, m: Letter)
    requires
        is_json_of(j, m),
    ensures
        letter_of(j) == Some(m),
{
    names_differ();
    let ms = j->Object_0@;
    assert forall|a: int, b: int| 0 <= a < b < 7 implies (#[trigger] ms[a]).name@ != (
    #[trigger] ms[b]).name@ by {
        assert(a == 0 || a == 1 || a == 2 || a == 3 || a == 4 || a == 5);
        assert(b == 1 || b == 2 || b == 3 || b == 4 || b == 5 || b == 6);
    }
    json::lookup_single(ms, 0);
    json::lookup_single(ms, 1);
    json::lookup_single(ms, 2);
    json::lookup_single(ms, 3);
    json::lookup_single(ms, 4);
    json::lookup_single(ms, 5);
    json::lookup_single(ms, 6);
}

/// A member of another name changes nothing about a name: neither its value nor whether it is given
/// twice.
pub proof fn other_member_ignored(ms: Seq<Member>, place: int, extra: Member, name: Seq<char>)
    requires
        0 <= place <= ms.len(),
        extra.name@ != name,
    ensures
        at_most_once(ms.insert(place, extra), name) == at_most_once(ms, name),
        json::lookup(ms.insert(place, extra), name) == json::lookup(ms, name),
{
    json::lookup_ignores_others(ms, place, extra, name);
    let more = ms.insert(place, extra);
    if at_most_once(ms, name) {
        assert forall|i: int, k: int|
            0 <= i < k < more.len() && (#[trigger] more[i]).name@ == name implies (
        #[trigger] more[k]).name@ != name by {
            let i0 = if i < place {
                i
            } else {
                i - 1
            };
            let k0 = if k < place {
                k
            } else {
                k - 1
            };
            if i != place && k != place {
                assert(more[i] == ms[i0] && more[k] == ms[k0]);
            }
        }
    } else {
        let (i, k) = choose|i: int, k: int|
            0 <= i < k < ms.len() && (#[trigger] ms[i]).name@ == name && (#[trigger] ms[k]).name@
                == name;
        let i1 = if i < place {
            i
        } else {
            i + 1
        };
        let k1 = if k < place {
            k
        } else {
            k + 1
        };
        assert(more[i1] == ms[i] && more[k1] == ms[k]);
    }
}

/// Members that are not known change nothing about a message, wherever they stand.
pub proof fn unknown_members_ignored(ms: Seq<Member>, place: int, extra: Member)
    requires
        0 <= place <= ms.len(),
        !is_message_name(extra.name@),
    ensures
        letter_of_members(ms.insert(place, extra)) == letter_of_members(ms),
{
    let more = ms.insert(place, extra);
    assert forall|name: Seq<char>| #[trigger] is_message_name(name) implies at_most_once(more, name)
        == at_most_once(ms, name) && json::lookup(more, name) == json::lookup(ms, name) by {
        other_member_ignored(ms, place, extra, name);
    }
    assert(is_message_name("version"@) && is_message_name("type"@) && is_message_name("message_id"@)
        && is_message_name("timestamp"@) && is_message_name("device_id"@) && is_message_name(
        "payload"@,
    ) && is_message_name("auth"@));
    assert((forall|name: Seq<char>| #[trigger] is_message_name(name) ==> at_most_once(more, name))
        == (forall|name: Seq<char>| #[trigger] is_message_name(name) ==> at_most_once(ms, name)));
}

/// What makes a message, member by member: each of the first five has a value of its kind, the
/// version fits, there is a payload of any kind, and an authenticator is a text, null or missing.
/// The message then says what the members say, and anything else makes none.
pub proof fn message_member_by_member(ms: Seq<Member>)
    requires
        at_most_once(ms, "version"@),
        at_most_once(ms, "type"@),
        at_most_once(ms, "message_id"@),
        at_most_once(ms, "timestamp"@),
        at_most_once(ms, "device_id"@),
        at_most_once(ms, "payload"@),
        at_most_once(ms, "auth"@),
    ensures
        letter_of_members(ms) matches Some(l) ==> {
            &&& json::lookup(ms, "version"@) == Some(Json::Unsigned(l.version as u64))
            &&& json::lookup(ms, "type"@) matches Some(v) && (v matches Json::Text(s) && s@
                == l.msg_type)
            &&& json::lookup(ms, "message_id"@) matches Some(v) && (v matches Json::Text(s) && s@
                == l.message_id)
            &&& json::lookup(ms, "timestamp"@) == Some(Json::Unsigned(l.timestamp))
            &&& json::lookup(ms, "device_id"@) matches Some(v) && (v matches Json::Text(s) && s@
                == l.device_id)
            &&& json::lookup(ms, "payload"@) == Some(l.payload)
            &&& l.auth is None ==> json::lookup(ms, "auth"@) is None || json::lookup(ms, "auth"@)
                == Some(Json::Null)
            &&& l.auth matches Some(a) ==> (json::lookup(ms, "auth"@) matches Some(v) && (
            v matches Json::Text(s) && s@ == a))
        },
        ({
            &&& json::lookup(ms, "version"@) matches Some(v) && (v matches Json::Unsigned(n) && n
                <= 0xffff_ffff)
            &&& json::lookup(ms, "type"@) matches Some(v) && v is Text
            &&& json::lookup(ms, "message_id"@) matches Some(v) && v is Text
            &&& json::lookup(ms, "timestamp"@) matches Some(v) && v is Unsigned
            &&& json::lookup(ms, "device_id"@) matches Some(v) && v is Text
            &&& json::lookup(ms, "payload"@) is Some
            &&& json::lookup(ms, "auth"@) matches Some(v) ==> v is Text || v is Null
        }) ==> letter_of_members(ms) is Some,
{
}

/// A message that gives one of its members twice is none, and neither is a value that is neither an
/// object nor a list of seven.
pub proof fn what_is_no_message(j: Json, name: Seq<char>, i: int, k: int)
    ensures
        j matches Json::Object(ms) ==> (0 <= i < k < ms@.len() && ms@[i].name@ == name
            && ms@[k].name@ == name && (name == "version"@ || name == "type"@ || name
            == "message_id"@ || name == "timestamp"@ || name == "device_id"@ || name == "payload"@
            || name == "auth"@) ==> letter_of(j) is None),
        j matches Json::List(v) ==> (v@.len() != 7 ==> letter_of(j) is None),
        !(j is Object) && !(j is List) ==> letter_of(j) is None,
{
    if let Json::Object(ms) = j {
        if 0 <= i < k < ms@.len() && ms@[i].name@ == name && ms@[k].name@ == name
            && is_message_name(name) {
            assert(!at_most_once(ms@, name));
        }
    }
}

/// A list of the seven values is read as the object with these values under their names.
pub proof fn list_reads_like_the_object(v: Seq<Json>, ms: Seq<Member>, j: Json)
    requires
        j matches Json::List(x) && x@ == v,
        v.len() == 7,
        ms.len() == 7,
        ms[0].name@ == "version"@,
        ms[1].name@ == "type"@,
        ms[2].name@ == "message_id"@,
        ms[3].name@ == "timestamp"@,
        ms[4].name@ == "device_id"@,
        ms[5].name@ == "payload"@,
        ms[6].name@ == "auth"@,
        forall|i: int| 0 <= i < 7 ==> (#[trigger] ms[i]).value == v[i],
    ensures
        letter_of(j) == letter_of_members(ms),
{
    reveal_strlit("version");
    reveal_strlit("type");
    reveal_strlit("message_id");
    reveal_strlit("timestamp");
    reveal_strlit("device_id");
    reveal_strlit("payload");
    reveal_strlit("auth");
    assert("version"@.len() == 7 && "payload"@.len() == 7);
    assert("type"@.len() == 4 && "auth"@.len() == 4);
    assert("message_id"@.len() == 10 && "timestamp"@.len() == 9 && "device_id"@.len() == 9);
    assert("version"@[0] != "payload"@[0]);
    assert("type"@[0] != "auth"@[0]);
    assert("timestamp"@[0] != "device_id"@[0]);
    assert forall|a: int, b: int| 0 <= a < b < 7 implies (#[trigger] ms[a]).name@ != (
    #[trigger] ms[b]).name@ by {
        assert(a == 0 || a == 1 || a == 2 || a == 3 || a == 4 || a == 5);
        assert(b == 1 || b == 2 || b == 3 || b == 4 || b == 5 || b == 6);
    }
    json::lookup_single(ms, 0);
    json::lookup_single(ms, 1);
    json::lookup_single(ms, 2);
    json::lookup_single(ms, 3);
    json::lookup_single(ms, 4);
    json::lookup_single(ms, 5);
    json::lookup_single(ms, 6);
}

/// A message shows what its fields hold.
pub proof fn message_shows_its_fields(m: Message)
    ensures
        m@.version == m.version,
        m@.msg_type == m.msg_type@,
        m@.message_id == m.message_id@,
        m@.timestamp == m.timestamp,
        m@.device_id == m.device_id@,
        m@.payload == m.payload,
        m@.auth == text::maybe(m.auth),
{
}

/// A name is given at most once exactly where no two members have it.
pub proof fn given_once_or_twice(ms: Seq<Member>, name: Seq<char>)
    ensures
        at_most_once(ms, name) <==> !(exists|i: int, k: int|
            0 <= i < k < ms.len() && (#[trigger] ms[i]).name@ == name && (#[trigger] ms[k]).name@
                == name),
{
}

/// A message has seven members and no others that count.
pub proof fn names_of_a_message(name: Seq<char>)
    ensures
        is_message_name(name) <==> name == "version"@ || name == "type"@ || name == "message_id"@
            || name == "timestamp"@ || name == "device_id"@ || name == "payload"@ || name
            == "auth"@,
{
}

} // verus!
