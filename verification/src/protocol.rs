use crate::error::AppError;
use crate::identity;
use crate::json;
use crate::json::Json;
use crate::json::Member;
use crate::json::Scalar;
use crate::system;
use crate::text;
use vstd::prelude::*;
use vstd::utf8::*;

pub use crate::frame::{encode, read_message, FrameReader, Progress, HEADER_LEN, MAX_MESSAGE_BYTES};

verus! {

pub const PROTOCOL_VERSION: u32 = 1;

pub const MSG_HELLO: &'static str = "hello";

pub const MSG_PING: &'static str = "ping";

pub const MSG_PONG: &'static str = "pong";

pub const MSG_DISCONNECT: &'static str = "disconnect";

pub const MSG_ERROR: &'static str = "error";

pub const MSG_CLIPBOARD_UPDATE: &'static str = "clipboard_update";

pub const REASON_USER_REQUESTED: &'static str = "user_requested";

pub const REASON_SHUTDOWN: &'static str = "shutdown";

pub const REASON_PROTOCOL_ERROR: &'static str = "protocol_error";

pub const REASON_VERSION_MISMATCH: &'static str = "version_mismatch";

/// What a hello says of its sender.
#[derive(Debug, Clone, PartialEq, Eq)]
pub struct HelloPayload {
    pub device_id: String,
    pub device_name: String,
    pub protocol_version: u32,
}

#[derive(Debug, Clone, PartialEq, Eq)]
pub struct PingPayload {
    pub ping_id: String,
    pub sent_at: u64,
}

#[derive(Debug, Clone, PartialEq, Eq)]
pub struct PongPayload {
    pub ping_id: String,
    pub sent_at: u64,
}

#[derive(Debug, Clone, PartialEq, Eq)]
pub struct DisconnectPayload {
    pub reason: String,
}

#[derive(Debug, Clone, PartialEq, Eq)]
pub struct ErrorPayload {
    pub reason: String,
}

#[derive(Debug, Clone, PartialEq, Eq)]
pub struct ClipboardPayload {
    pub text: String,
    /// SHA-256 of the text in hexadecimal.
    pub content_hash: String,
}

/// What can be the payload of a message.
pub trait Payload {
    /// The members of the payload's JSON object.
    spec fn members_of(&self) -> Seq<(Seq<char>, Scalar)>;

    fn to_json(&self) -> (r: Json)
        ensures
            r is Object,
            json::members(r) == self.members_of(),
    ;
}

fn object1(a: Member) -> (r: Json)
    ensures
        r matches Json::Object(ms) && ms@ == seq![a],
{
    let mut ms: Vec<Member> = Vec::new();
    ms.push(a);
    assert(ms@ =~= seq![a]);
    Json::Object(ms)
}

fn object2(a: Member, b: Member) -> (r: Json)
    ensures
        r matches Json::Object(ms) && ms@ == seq![a, b],
{
    let mut ms: Vec<Member> = Vec::new();
    ms.push(a);
    ms.push(b);
    assert(ms@ =~= seq![a, b]);
    Json::Object(ms)
}

fn object3(a: Member, b: Member, c: Member) -> (r: Json)
    ensures
        r matches Json::Object(ms) && ms@ == seq![a, b, c],
{
    let mut ms: Vec<Member> = Vec::new();
    ms.push(a);
    ms.push(b);
    ms.push(c);
    assert(ms@ =~= seq![a, b, c]);
    Json::Object(ms)
}

impl Payload for HelloPayload {
    open spec fn members_of(&self) -> Seq<(Seq<char>, Scalar)> {
        seq![
            ("device_id"@, Scalar::Text(self.device_id@)),
            ("device_name"@, Scalar::Text(self.device_name@)),
            ("protocol_version"@, Scalar::Unsigned(self.protocol_version as u64)),
        ]
    }

    fn to_json(&self) -> (r: Json) {
        let r = object3(
            json::text_member("device_id", self.device_id.as_str()),
            json::text_member("device_name", self.device_name.as_str()),
            json::number_member("protocol_version", self.protocol_version as u64),
        );
        assert(json::members(r) =~= self.members_of());
        r
    }
}

impl Payload for PingPayload {
    open spec fn members_of(&self) -> Seq<(Seq<char>, Scalar)> {
        seq![
            ("ping_id"@, Scalar::Text(self.ping_id@)),
            ("sent_at"@, Scalar::Unsigned(self.sent_at)),
        ]
    }

    fn to_json(&self) -> (r: Json) {
        let r = object2(
            json::text_member("ping_id", self.ping_id.as_str()),
            json::number_member("sent_at", self.sent_at),
        );
        assert(json::members(r) =~= self.members_of());
        r
    }
}

impl Payload for PongPayload {
    open spec fn members_of(&self) -> Seq<(Seq<char>, Scalar)> {
        seq![
            ("ping_id"@, Scalar::Text(self.ping_id@)),
            ("sent_at"@, Scalar::Unsigned(self.sent_at)),
        ]
    }

    fn to_json(&self) -> (r: Json) {
        let r = object2(
            json::text_member("ping_id", self.ping_id.as_str()),
            json::number_member("sent_at", self.sent_at),
        );
        assert(json::members(r) =~= self.members_of());
        r
    }
}

impl Payload for DisconnectPayload {
    open spec fn members_of(&self) -> Seq<(Seq<char>, Scalar)> {
        seq![("reason"@, Scalar::Text(self.reason@))]
    }

    fn to_json(&self) -> (r: Json) {
        let r = object1(json::text_member("reason", self.reason.as_str()));
        assert(json::members(r) =~= self.members_of());
        r
    }
}

impl Payload for ErrorPayload {
    open spec fn members_of(&self) -> Seq<(Seq<char>, Scalar)> {
        seq![("reason"@, Scalar::Text(self.reason@))]
    }

    fn to_json(&self) -> (r: Json) {
        let r = object1(json::text_member("reason", self.reason.as_str()));
        assert(json::members(r) =~= self.members_of());
        r
    }
}

impl Payload for ClipboardPayload {
    open spec fn members_of(&self) -> Seq<(Seq<char>, Scalar)> {
        seq![
            ("content_hash"@, Scalar::Text(self.content_hash@)),
            ("text"@, Scalar::Text(self.text@)),
        ]
    }

    fn to_json(&self) -> (r: Json) {
        let r = object2(
            json::text_member("content_hash", self.content_hash.as_str()),
            json::text_member("text", self.text.as_str()),
        );
        assert(json::members(r) =~= self.members_of());
        r
    }
}

/// The message that travels. Its type and payload are kept as they came, so that types that are
/// not known and members that are not known do no harm.
#[derive(Debug, PartialEq, Eq)]
pub struct Message {
    pub version: u32,
    /// Called `type` in JSON.
    pub msg_type: String,
    pub message_id: String,
    pub timestamp: u64,
    pub device_id: String,
    pub payload: Json,
    /// Not in use: always absent in messages of this library.
    pub auth: Option<String>,
}

/// What a message says, apart from its id and time.
pub struct Content {
    pub version: u32,
    pub msg_type: Seq<char>,
    pub device_id: Seq<char>,
    pub payload: Seq<(Seq<char>, Scalar)>,
    pub auth: Option<Seq<char>>,
}

pub open spec fn content(m: Message) -> Content {
    Content {
        version: m.version,
        msg_type: m.msg_type@,
        device_id: m.device_id@,
        payload: json::members(m.payload),
        auth: text::maybe(m.auth),
    }
}

/// What a message of this library says.
pub open spec fn own_content(
    msg_type: Seq<char>,
    device_id: Seq<char>,
    payload: Seq<(Seq<char>, Scalar)>,
) -> Content {
    Content { version: PROTOCOL_VERSION, msg_type, device_id, payload, auth: None }
}

/// The milliseconds of a clock reading, cut to 64 bits; 0 for a clock set before the epoch.
pub fn millis_or_zero(since_epoch: Option<u128>) -> (r: u64)
    ensures
        r == match since_epoch {
            Some(ms) => (ms % 0x1_0000_0000_0000_0000) as u64,
            None => 0u64,
        },
{
    match since_epoch {
        Some(ms) => (ms % 0x1_0000_0000_0000_0000) as u64,
        None => 0,
    }
}

/// The time in milliseconds since the Unix epoch, as `millis_or_zero` takes it from the clock. What
/// the clock reads is not stated.
pub fn now_millis() -> (r: u64) {
    let now = system::clock();
    let since: Option<u128> = match system::since_epoch(&now) {
        Some(d) => Some(system::whole_millis(&d)),
        None => None,
    };
    millis_or_zero(since)
}

impl Message {
    /// A message of this library with a given id and time.
    pub fn assemble(
        msg_type: &str,
        device_id: &str,
        payload: Json,
        message_id: String,
        timestamp: u64,
    ) -> (r: Message)
        ensures
            r.version == PROTOCOL_VERSION,
            r.msg_type@ == msg_type@,
            r.message_id == message_id,
            r.timestamp == timestamp,
            r.device_id@ == device_id@,
            r.payload == payload,
            r.auth is None,
            content(r) == own_content(msg_type@, device_id@, json::members(payload)),
    {
        Message {
            version: PROTOCOL_VERSION,
            msg_type: msg_type.to_string(),
            message_id,
            timestamp,
            device_id: device_id.to_string(),
            payload,
            auth: None,
        }
    }

    /// A message of this library with a fresh id and the current time. There is always one.
    pub fn new<P: Payload>(msg_type: &str, device_id: &str, payload: &P) -> (r: Result<
        Message,
        AppError,
    >)
        ensures
            r matches Ok(m) && {
                &&& content(m) == own_content(msg_type@, device_id@, payload.members_of())
                &&& m.payload is Object
                &&& system::is_v4_text(m.message_id@)
            },
    {
        Ok(Message::compose(msg_type, device_id, payload))
    }

    /// A message of this library with a fresh id and the current time.
    pub(crate) fn compose<P: Payload>(msg_type: &str, device_id: &str, payload: &P) -> (r: Message)
        ensures
            content(r) == own_content(msg_type@, device_id@, payload.members_of()),
            r.payload is Object,
            system::is_v4_text(r.message_id@),
    {
        Message::assemble(
            msg_type,
            device_id,
            payload.to_json(),
            system::random_uuid(),
            now_millis(),
        )
    }

    /// The same message under another id.
    pub fn with_message_id(self, id: String) -> (r: Message)
        ensures
            r == (Message { message_id: id, ..self }),
    {
        let mut m = self;
        m.message_id = id;
        m
    }
}

/// The id and time that a ping's payload gives.
pub open spec fn ping_of(j: Json) -> Option<(Seq<char>, u64)> {
    match (json::text_field(j, "ping_id"@, 0, 2), json::number_field(j, "sent_at"@, 1, 2)) {
        (Some(id), Some(at)) => Some((id, at)),
        _ => None,
    }
}

/// The device id, name and version that a hello's payload gives.
pub open spec fn hello_of(j: Json) -> Option<(Seq<char>, Seq<char>, u32)> {
    match (
        json::text_field(j, "device_id"@, 0, 3),
        json::text_field(j, "device_name"@, 1, 3),
        json::number_field(j, "protocol_version"@, 2, 3),
    ) {
        (Some(id), Some(name), Some(v)) => if v <= u32::MAX {
            Some((id, name, v as u32))
        } else {
            None
        },
        _ => None,
    }
}

/// The text and hash that a clipboard update's payload gives.
pub open spec fn clipboard_of(j: Json) -> Option<(Seq<char>, Seq<char>)> {
    match (json::text_field(j, "text"@, 0, 2), json::text_field(j, "content_hash"@, 1, 2)) {
        (Some(t), Some(h)) => Some((t, h)),
        _ => None,
    }
}

/// The reason that the payload of a disconnect or an error gives.
pub open spec fn reason_of(j: Json) -> Option<Seq<char>> {
    json::text_field(j, "reason"@, 0, 1)
}

pub fn parse_ping(msg: &Message) -> (r: Option<PingPayload>)
    ensures
        match r {
            Some(p) => ping_of(msg.payload) == Some((p.ping_id@, p.sent_at)),
            None => ping_of(msg.payload) is None,
        },
{
    match (
        json::read_text(&msg.payload, "ping_id", 0, 2),
        json::read_number(&msg.payload, "sent_at", 1, 2),
    ) {
        (Some(ping_id), Some(sent_at)) => Some(PingPayload { ping_id, sent_at }),
        _ => None,
    }
}

pub fn parse_pong(msg: &Message) -> (r: Option<PongPayload>)
    ensures
        match r {
            Some(p) => ping_of(msg.payload) == Some((p.ping_id@, p.sent_at)),
            None => ping_of(msg.payload) is None,
        },
{
    match parse_ping(msg) {
        Some(p) => Some(PongPayload { ping_id: p.ping_id, sent_at: p.sent_at }),
        None => None,
    }
}

pub fn parse_hello(msg: &Message) -> (r: Option<HelloPayload>)
    ensures
        match r {
            Some(p) => hello_of(msg.payload) == Some(
                (p.device_id@, p.device_name@, p.protocol_version),
            ),
            None => hello_of(msg.payload) is None,
        },
{
    match (
        json::read_text(&msg.payload, "device_id", 0, 3),
        json::read_text(&msg.payload, "device_name", 1, 3),
        json::read_number(&msg.payload, "protocol_version", 2, 3),
    ) {
        (Some(device_id), Some(device_name), Some(v)) => if v <= u32::MAX as u64 {
            Some(HelloPayload { device_id, device_name, protocol_version: v as u32 })
        } else {
            None
        },
        _ => None,
    }
}

pub fn parse_clipboard(msg: &Message) -> (r: Option<ClipboardPayload>)
    ensures
        match r {
            Some(p) => clipboard_of(msg.payload) == Some((p.text@, p.content_hash@)),
            None => clipboard_of(msg.payload) is None,
        },
{
    match (
        json::read_text(&msg.payload, "text", 0, 2),
        json::read_text(&msg.payload, "content_hash", 1, 2),
    ) {
        (Some(text), Some(content_hash)) => Some(ClipboardPayload { text, content_hash }),
        _ => None,
    }
}

pub fn parse_disconnect(msg: &Message) -> (r: Option<DisconnectPayload>)
    ensures
        match r {
            Some(p) => reason_of(msg.payload) == Some(p.reason@),
            None => reason_of(msg.payload) is None,
        },
{
    match json::read_text(&msg.payload, "reason", 0, 1) {
        Some(reason) => Some(DisconnectPayload { reason }),
        None => None,
    }
}

/// What a hello's payload has to be to a device with the given id: of this protocol version, from
/// a device with a UUID other than the device's own and a name that is neither blank nor too long.
pub open spec fn acceptable_hello(j: Json, local_device_id: Seq<char>) -> bool {
    &&& hello_of(j) matches Some((id, name, version))
    &&& version == PROTOCOL_VERSION
    &&& system::is_uuid_text(id)
    &&& !text::blank(name)
    &&& text::trimmed(name).len() <= identity::DEVICE_NAME_MAX_LEN
    &&& id != local_device_id
}

/// The checks on a hello. Another protocol version is told apart from the other failures.
pub fn validate_hello(msg: &Message, local_device_id: &str) -> (r: Result<HelloPayload, AppError>)
    ensures
        match r {
            Ok(p) => {
                &&& msg.version == PROTOCOL_VERSION
                &&& msg.msg_type@ == MSG_HELLO@
                &&& acceptable_hello(msg.payload, local_device_id@)
                &&& hello_of(msg.payload) == Some((p.device_id@, p.device_name@, p.protocol_version))
            },
            Err(AppError::ProtocolVersionMismatch) => msg.version != PROTOCOL_VERSION,
            Err(AppError::InvalidHello) => msg.version == PROTOCOL_VERSION && !(msg.msg_type@
                == MSG_HELLO@ && acceptable_hello(msg.payload, local_device_id@)),
            _ => false,
        },
{
    if msg.version != PROTOCOL_VERSION {
        return Err(AppError::ProtocolVersionMismatch);
    }
    if !text::same_text(msg.msg_type.as_str(), MSG_HELLO) {
        return Err(AppError::InvalidHello);
    }
    let payload = match parse_hello(msg) {
        Some(p) => p,
        None => {
            return Err(AppError::InvalidHello);
        },
    };
    if payload.protocol_version != PROTOCOL_VERSION {
        return Err(AppError::InvalidHello);
    }
    if !system::parses_as_uuid(payload.device_id.as_str()) {
        return Err(AppError::InvalidHello);
    }
    proof {
        text::trimmed_visible(payload.device_name@);
    }
    let name = text::trim(payload.device_name.as_str());
    let name_len: usize = text::chars_of(name.as_str()).len();
    if name_len == 0 || name_len > identity::DEVICE_NAME_MAX_LEN {
        return Err(AppError::InvalidHello);
    }
    if text::same_text(payload.device_id.as_str(), local_device_id) {
        return Err(AppError::InvalidHello);
    }
    Ok(payload)
}

/// The hash that belongs to a text.
pub open spec fn content_hash(text: Seq<char>) -> Seq<char> {
    identity::hex_text(system::sha256(encode_utf8(text)))
}

/// SHA-256 in lower-case hexadecimal.
pub fn sha256_hex(bytes: &[u8]) -> (r: String)
    requires
        bytes@.len() <= 0x1fff_ffff_ffff_ffff,
    ensures
        r@ == identity::hex_text(system::sha256(bytes@)),
        r@.len() == 64,
{
    let digest = system::sha256_digest(bytes);
    identity::hex_encode(digest.as_slice())
}

/// The checks on a clipboard update: a text that is not empty and not too long, with its own hash,
/// in whatever case.
pub fn validate_clipboard(msg: &Message) -> (r: Result<ClipboardPayload, AppError>)
    ensures
        clipboard_verdict(*msg, r),
{
    if msg.version != PROTOCOL_VERSION {
        return Err(AppError::ProtocolVersionMismatch);
    }
    if !text::same_text(msg.msg_type.as_str(), MSG_CLIPBOARD_UPDATE) {
        return Err(AppError::ProtocolInvalidJson);
    }
    let p = match parse_clipboard(msg) {
        Some(p) => p,
        None => {
            return Err(AppError::ProtocolInvalidJson);
        },
    };
    if p.text.as_str().is_empty() {
        return Err(AppError::ProtocolInvalidJson);
    }
    let bytes = p.text.as_str().as_bytes();
    if bytes.len() > MAX_MESSAGE_BYTES as usize {
        return Err(AppError::ProtocolMessageTooLarge);
    }
    let actual = sha256_hex(bytes);
    if !text::same_ignoring_case(p.content_hash.as_str(), actual.as_str()) {
        return Err(AppError::ProtocolInvalidJson);
    }
    Ok(p)
}

/// The text and hash of a clipboard update that passes the checks.
pub open spec fn accepted_clipboard(m: Message) -> Option<(Seq<char>, Seq<char>)> {
    match clipboard_of(m.payload) {
        Some((t, h)) => if m.version == PROTOCOL_VERSION && m.msg_type@ == MSG_CLIPBOARD_UPDATE@
            && t.len() > 0 && encode_utf8(t).len() <= MAX_MESSAGE_BYTES && text::lowered(h)
            == text::lowered(content_hash(t)) {
            Some((t, h))
        } else {
            None
        },
        None => None,
    }
}

/// What the checks on a clipboard update say of a message.
pub open spec fn clipboard_verdict(m: Message, r: Result<ClipboardPayload, AppError>) -> bool {
    if m.version != PROTOCOL_VERSION {
        r == Err::<ClipboardPayload, AppError>(AppError::ProtocolVersionMismatch)
    } else if m.msg_type@ != MSG_CLIPBOARD_UPDATE@ {
        r == Err::<ClipboardPayload, AppError>(AppError::ProtocolInvalidJson)
    } else {
        match clipboard_of(m.payload) {
            None => r == Err::<ClipboardPayload, AppError>(AppError::ProtocolInvalidJson),
            Some((t, h)) => if t.len() == 0 {
                r == Err::<ClipboardPayload, AppError>(AppError::ProtocolInvalidJson)
            } else if encode_utf8(t).len() > MAX_MESSAGE_BYTES {
                r == Err::<ClipboardPayload, AppError>(AppError::ProtocolMessageTooLarge)
            } else if text::lowered(h) != text::lowered(content_hash(t)) {
                r == Err::<ClipboardPayload, AppError>(AppError::ProtocolInvalidJson)
            } else {
                r matches Ok(p) && p.text@ == t && p.content_hash@ == h
            },
        }
    }
}

/// What the members of an object say of its fields, where their names differ.
proof fn field_of_member(j: Json, i: int)
    requires
        j is Object,
        0 <= i < json::members(j).len(),
        forall|k: int|
            i < k < json::members(j).len() ==> (#[trigger] json::members(j)[k]).0
                != json::members(j)[i].0,
    ensures
        json::lookup(j->Object_0@, json::members(j)[i].0) matches Some(v) && json::scalar(v)
            == json::members(j)[i].1,
{
    let ms = j->Object_0@;
    assert forall|k: int| i < k < ms.len() implies (#[trigger] ms[k]).name@ != ms[i].name@ by {
        assert(json::members(j)[k].0 == ms[k].name@);
    }
    json::lookup_single(ms, i);
}

/// A payload's JSON is read back as that payload: ping and pong.
pub proof fn ping_round_trip(p: PingPayload, j: Json)
    requires
        j is Object,
        json::members(j) == p.members_of(),
    ensures
        ping_of(j) == Some((p.ping_id@, p.sent_at)),
{
    reveal_strlit("ping_id");
    reveal_strlit("sent_at");
    assert("ping_id"@[0] != "sent_at"@[0]);
    field_of_member(j, 0);
    field_of_member(j, 1);
}

/// What the members of a ping's or pong's payload say.
pub proof fn ping_members_read(j: Json, id: Seq<char>, at: u64)
    requires
        j is Object,
        json::members(j) == seq![("ping_id"@, Scalar::Text(id)), ("sent_at"@, Scalar::Unsigned(at))],
    ensures
        ping_of(j) == Some((id, at)),
{
    reveal_strlit("ping_id");
    reveal_strlit("sent_at");
    assert("ping_id"@[0] != "sent_at"@[0]);
    field_of_member(j, 0);
    field_of_member(j, 1);
}

/// What the member of a payload with a reason says.
pub proof fn reason_members_read(j: Json, reason: Seq<char>)
    requires
        j is Object,
        json::members(j) == seq![("reason"@, Scalar::Text(reason))],
    ensures
        reason_of(j) == Some(reason),
{
    field_of_member(j, 0);
}

/// What the members of a hello's payload say.
pub proof fn hello_members_read(j: Json, id: Seq<char>, name: Seq<char>, version: u32)
    requires
        j is Object,
        json::members(j) == seq![
            ("device_id"@, Scalar::Text(id)),
            ("device_name"@, Scalar::Text(name)),
            ("protocol_version"@, Scalar::Unsigned(version as u64)),
        ],
    ensures
        hello_of(j) == Some((id, name, version)),
{
    reveal_strlit("device_id");
    reveal_strlit("device_name");
    reveal_strlit("protocol_version");
    assert("device_id"@.len() != "device_name"@.len());
    assert("device_id"@.len() != "protocol_version"@.len());
    assert("device_name"@.len() != "protocol_version"@.len());
    field_of_member(j, 0);
    field_of_member(j, 1);
    field_of_member(j, 2);
}

/// A payload's JSON is read back as that payload: hello.
pub proof fn hello_round_trip(p: HelloPayload, j: Json)
    requires
        j is Object,
        json::members(j) == p.members_of(),
    ensures
        hello_of(j) == Some((p.device_id@, p.device_name@, p.protocol_version)),
{
    hello_members_read(j, p.device_id@, p.device_name@, p.protocol_version);
}

/// What the members of a clipboard update's payload say.
pub proof fn clipboard_members_read(j: Json, t: Seq<char>, h: Seq<char>)
    requires
        j is Object,
        json::members(j) == seq![
            ("content_hash"@, Scalar::Text(h)),
            ("text"@, Scalar::Text(t)),
        ],
    ensures
        clipboard_of(j) == Some((t, h)),
{
    reveal_strlit("content_hash");
    reveal_strlit("text");
    assert("content_hash"@.len() != "text"@.len());
    field_of_member(j, 0);
    field_of_member(j, 1);
}

/// A payload's JSON is read back as that payload: clipboard update.
pub proof fn clipboard_round_trip(p: ClipboardPayload, j: Json)
    requires
        j is Object,
        json::members(j) == p.members_of(),
    ensures
        clipboard_of(j) == Some((p.text@, p.content_hash@)),
{
    clipboard_members_read(j, p.text@, p.content_hash@);
}

/// A payload's JSON is read back as that payload: disconnect.
pub proof fn disconnect_round_trip(p: DisconnectPayload, j: Json)
    requires
        j is Object,
        json::members(j) == p.members_of(),
    ensures
        reason_of(j) == Some(p.reason@),
{
    field_of_member(j, 0);
}

/// Two devices of this version, each with an id of its own and a presentable name, accept each
/// other's hello.
pub proof fn own_hello_accepted(m: Message, p: HelloPayload, other_device_id: Seq<char>)
    requires
        content(m) == own_content(MSG_HELLO@, p.device_id@, p.members_of()),
        m.payload is Object,
        p.protocol_version == PROTOCOL_VERSION,
        system::is_uuid_text(p.device_id@),
        identity::presentable_name(p.device_name@),
        p.device_id@ != other_device_id,
    ensures
        m.version == PROTOCOL_VERSION,
        m.msg_type@ == MSG_HELLO@,
        acceptable_hello(m.payload, other_device_id),
{
    hello_round_trip(p, m.payload);
    text::trimmed_no_longer(p.device_name@);
}

/// An update that carries a text of acceptable size with its hash passes the receiver's checks and
/// gives the receiver that text and hash.
pub proof fn own_clipboard_accepted(
    m: Message,
    p: ClipboardPayload,
    device_id: Seq<char>,
    r: Result<ClipboardPayload, AppError>,
)
    requires
        content(m) == own_content(MSG_CLIPBOARD_UPDATE@, device_id, p.members_of()),
        m.payload is Object,
        0 < p.text@.len(),
        encode_utf8(p.text@).len() <= MAX_MESSAGE_BYTES,
        p.content_hash@ == content_hash(p.text@),
        clipboard_verdict(m, r),
    ensures
        r matches Ok(q) && q.text@ == p.text@ && q.content_hash@ == p.content_hash@,
{
    clipboard_round_trip(p, m.payload);
}

/// A hash that passes for a text's, in whatever case, is the text's own once it is lower-case.
pub proof fn accepted_hash_is_own(t: Seq<char>, h: Seq<char>)
    requires
        text::lowered(h) == text::lowered(content_hash(t)),
    ensures
        text::lowered(h) == content_hash(t),
{
    identity::hex_is_lower(system::sha256(encode_utf8(t)));
}

/// A text whose hash is not the one that came with it is refused.
pub proof fn tampered_clipboard_refused(m: Message, r: Result<ClipboardPayload, AppError>)
    requires
        clipboard_of(m.payload) matches Some((t, h)) && text::lowered(h) != text::lowered(
            content_hash(t),
        ),
        clipboard_verdict(m, r),
    ensures
        r is Err,
{
}

/// A hello is acceptable exactly where its payload gives this protocol version, a UUID that is not
/// the receiver's own, and a name that has a visible character and, without the white space around
/// it, at most 64.
pub proof fn which_hellos_are_acceptable(j: Json, own: Seq<char>, id: Seq<char>, name: Seq<char>, v: u32)
    requires
        hello_of(j) == Some((id, name, v)),
    ensures
        acceptable_hello(j, own) <==> v == 1 && system::is_uuid_text(id) && id != own
            && text::trimmed(name).len() <= 64 && exists|i: int|
            0 <= i < name.len() && !text::white_space(#[trigger] name[i]),
{
}

/// A payload that gives no id, name and version is no acceptable hello.
pub proof fn unreadable_hellos_are_not_acceptable(j: Json, own: Seq<char>)
    requires
        hello_of(j) is None,
    ensures
        !acceptable_hello(j, own),
{
}

/// What payloads give, field by field: an object by its names, with the last value of a name.
pub proof fn payloads_field_by_field(j: Json, ms: Seq<Member>)
    requires
        j matches Json::Object(x) && x@ == ms,
    ensures
        ping_of(j) matches Some((id, at)) ==> (json::lookup(ms, "ping_id"@) matches Some(v) && (
        v matches Json::Text(s) && s@ == id)) && json::lookup(ms, "sent_at"@) == Some(
            Json::Unsigned(at),
        ),
        (json::lookup(ms, "ping_id"@) matches Some(v) && v is Text) && (json::lookup(ms, "sent_at"@)
            matches Some(v) && v is Unsigned) ==> ping_of(j) is Some,
        clipboard_of(j) matches Some((t, h)) ==> (json::lookup(ms, "text"@) matches Some(v) && (
        v matches Json::Text(s) && s@ == t)) && (json::lookup(ms, "content_hash"@) matches Some(v)
            && (v matches Json::Text(s) && s@ == h)),
        (json::lookup(ms, "text"@) matches Some(v) && v is Text) && (json::lookup(
            ms,
            "content_hash"@,
        ) matches Some(v) && v is Text) ==> clipboard_of(j) is Some,
        hello_of(j) matches Some((id, name, version)) ==> (json::lookup(ms, "device_id"@) matches
            Some(v) && (v matches Json::Text(s) && s@ == id)) && (json::lookup(ms, "device_name"@)
            matches Some(v) && (v matches Json::Text(s) && s@ == name)) && json::lookup(
            ms,
            "protocol_version"@,
        ) == Some(Json::Unsigned(version as u64)),
        (json::lookup(ms, "device_id"@) matches Some(v) && v is Text) && (json::lookup(
            ms,
            "device_name"@,
        ) matches Some(v) && v is Text) && (json::lookup(ms, "protocol_version"@) matches Some(v)
            && (v matches Json::Unsigned(n) && n <= 0xffff_ffff)) ==> hello_of(j) is Some,
        reason_of(j) matches Some(r) ==> (json::lookup(ms, "reason"@) matches Some(v) && (
        v matches Json::Text(s) && s@ == r)),
        (json::lookup(ms, "reason"@) matches Some(v) && v is Text) ==> reason_of(j) is Some,
{
}

/// What the checks on a clipboard update say, in plain terms. They pass exactly an update of this
/// version with a text of 1 to 1048576 bytes and the text's hash in whatever case, and hand text
/// and hash on as they came.
pub proof fn which_updates_pass(m: Message, r: Result<ClipboardPayload, AppError>)
    requires
        clipboard_verdict(m, r),
    ensures
        r is Ok <==> m.version == 1 && m.msg_type@ == "clipboard_update"@ && (clipboard_of(m.payload)
            matches Some((t, h)) && t.len() > 0 && encode_utf8(t).len() <= 1048576
            && text::lowered(h) == text::lowered(content_hash(t))),
        r matches Ok(p) ==> clipboard_of(m.payload) == Some((p.text@, p.content_hash@)),
        r is Ok <==> accepted_clipboard(m) is Some,
        r matches Ok(p) ==> accepted_clipboard(m) == Some((p.text@, p.content_hash@)),
        m.version != 1 ==> r == Err::<ClipboardPayload, AppError>(AppError::ProtocolVersionMismatch),
        r matches Err(AppError::ProtocolMessageTooLarge) ==> (clipboard_of(m.payload) matches Some(
            (t, h),
        ) && encode_utf8(t).len() > 1048576),
{
}

/// The hash of a text is SHA-256 of its UTF-8 bytes in hexadecimal.
pub proof fn hash_of_a_text(t: Seq<char>)
    ensures
        identity::decoded_hex(content_hash(t)) == Some(system::sha256(encode_utf8(t))),
        text::lowered(content_hash(t)) == content_hash(t),
{
    identity::hex_round_trip(system::sha256(encode_utf8(t)));
    identity::hex_is_lower(system::sha256(encode_utf8(t)));
}

/// A message of this library is of version 1 and without an authenticator, and says of type, device
/// and payload what it was made with.
pub proof fn own_messages(
    m: Message,
    msg_type: Seq<char>,
    device_id: Seq<char>,
    payload: Seq<(Seq<char>, Scalar)>,
)
    requires
        content(m) == own_content(msg_type, device_id, payload),
    ensures
        m.version == 1,
        m.auth is None,
        m.msg_type@ == msg_type,
        m.device_id@ == device_id,
        json::members(m.payload) == payload,
{
}

/// The members of an object are listed in their order, each with its name, and with its value where
/// that is a number or a text.
pub proof fn members_in_order(j: Json, i: int)
    requires
        j matches Json::Object(ms) && 0 <= i < ms@.len(),
    ensures
        j matches Json::Object(ms) && {
            &&& json::members(j).len() == ms@.len()
            &&& json::members(j)[i].0 == ms@[i].name@
            &&& ms@[i].value matches Json::Unsigned(n) ==> json::members(j)[i].1 == Scalar::Unsigned(
                n,
            )
            &&& ms@[i].value matches Json::Text(s) ==> json::members(j)[i].1 == Scalar::Text(s@)
        },
{
}

/// What payloads give that are lists: the values at their places, where the list is as long as the
/// payload has fields.
pub proof fn payloads_place_by_place(j: Json, v: Seq<Json>)
    requires
        j matches Json::List(x) && x@ == v,
    ensures
        ping_of(j) matches Some((id, at)) ==> v.len() == 2 && (v[0] matches Json::Text(s) && s@ == id)
            && v[1] == Json::Unsigned(at),
        v.len() == 2 && v[0] is Text && v[1] is Unsigned ==> ping_of(j) is Some,
        clipboard_of(j) matches Some((t, h)) ==> v.len() == 2 && (v[0] matches Json::Text(s) && s@
            == t) && (v[1] matches Json::Text(s) && s@ == h),
        v.len() == 2 && v[0] is Text && v[1] is Text ==> clipboard_of(j) is Some,
        hello_of(j) matches Some((id, name, version)) ==> v.len() == 3 && (v[0] matches Json::Text(s)
            && s@ == id) && (v[1] matches Json::Text(s) && s@ == name) && v[2] == Json::Unsigned(
            version as u64,
        ),
        v.len() == 3 && v[0] is Text && v[1] is Text && (v[2] matches Json::Unsigned(n) && n
            <= 0xffff_ffff) ==> hello_of(j) is Some,
        reason_of(j) matches Some(r) ==> v.len() == 1 && (v[0] matches Json::Text(s) && s@ == r),
        v.len() == 1 && v[0] is Text ==> reason_of(j) is Some,
{
}

/// A value that is neither an object nor a list gives nothing.
pub proof fn other_payloads_give_nothing(j: Json)
    requires
        !(j is Object) && !(j is List),
    ensures
        ping_of(j) is None && hello_of(j) is None && clipboard_of(j) is None && reason_of(j) is None,
{
}

} // verus!
