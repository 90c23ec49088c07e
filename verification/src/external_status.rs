use crate::json;
use crate::json::Json;
use crate::json::Member;
use crate::json::Scalar;
use crate::protocol;
use crate::system;
use crate::text;
use vstd::prelude::*;

verus! {

/// What is written for other programs about the connection. It holds nothing secret.
#[derive(Debug)]
pub struct StatusFile {
    pub version: u32,
    pub status: String,
    pub peer_name: Option<String>,
    pub peer_ip: Option<String>,
    pub latency_ms: Option<u64>,
    pub generation: u64,
    pub updated_at: u64,
}

/// What a status file says.
pub struct StatusFileView {
    pub version: u32,
    pub status: Seq<char>,
    pub peer_name: Option<Seq<char>>,
    pub peer_ip: Option<Seq<char>>,
    pub latency_ms: Option<u64>,
    pub generation: u64,
    pub updated_at: u64,
}

impl View for StatusFile {
    type V = StatusFileView;

    open spec fn view(&self) -> StatusFileView {
        StatusFileView {
            version: self.version,
            status: self.status@,
            peer_name: text::maybe(self.peer_name),
            peer_ip: text::maybe(self.peer_ip),
            latency_ms: self.latency_ms,
            generation: self.generation,
            updated_at: self.updated_at,
        }
    }
}

/// Whether a value is a text that may be absent.
pub open spec fn is_optional_text(j: Json, t: Option<Seq<char>>) -> bool {
    match t {
        Some(s) => json::scalar(j) == Scalar::Text(s),
        None => j == Json::Null,
    }
}

/// Whether a value is the JSON of a status file: seven members in their order.
pub open spec fn is_status_json(j: Json, f: StatusFileView) -> bool {
    &&& j matches Json::Object(ms)
    &&& ms@.len() == 7
    &&& ms@[0].name@ == "version"@ && ms@[0].value == Json::Unsigned(f.version as u64)
    &&& ms@[1].name@ == "status"@ && json::scalar(ms@[1].value) == Scalar::Text(f.status)
    &&& ms@[2].name@ == "peer_name"@ && is_optional_text(ms@[2].value, f.peer_name)
    &&& ms@[3].name@ == "peer_ip"@ && is_optional_text(ms@[3].value, f.peer_ip)
    &&& ms@[4].name@ == "latency_ms"@ && ms@[4].value == match f.latency_ms {
        Some(n) => Json::Unsigned(n),
        None => Json::Null,
    }
    &&& ms@[5].name@ == "generation"@ && ms@[5].value == Json::Unsigned(f.generation)
    &&& ms@[6].name@ == "updated_at"@ && ms@[6].value == Json::Unsigned(f.updated_at)
}

fn optional_text(t: Option<String>) -> (r: Json)
    ensures
        is_optional_text(r, text::maybe(t)),
{
    match t {
        Some(s) => Json::Text(s),
        None => Json::Null,
    }
}

impl StatusFile {
    pub fn into_json(self) -> (r: Json)
        ensures
            is_status_json(r, self@),
    {
        let latency = match self.latency_ms {
            Some(n) => Json::Unsigned(n),
            None => Json::Null,
        };
        let mut ms: Vec<Member> = Vec::new();
        ms.push(json::number_member("version", self.version as u64));
        ms.push(Member { name: "status".to_string(), value: Json::Text(self.status) });
        ms.push(Member { name: "peer_name".to_string(), value: optional_text(self.peer_name) });
        ms.push(Member { name: "peer_ip".to_string(), value: optional_text(self.peer_ip) });
        ms.push(Member { name: "latency_ms".to_string(), value: latency });
        ms.push(json::number_member("generation", self.generation));
        ms.push(json::number_member("updated_at", self.updated_at));
        Json::Object(ms)
    }
}

/// Decides what the status file says: it remembers the last round trip and the connection it was
/// measured on.
#[derive(Debug)]
pub struct ExternalStatusWriter {
    path: String,
    last_latency_ms: Option<u64>,
    last_latency_generation: u64,
}

/// The last round trip, and the generation of its connection.
pub struct WriterView {
    pub path: Seq<char>,
    pub last_latency_ms: Option<u64>,
    pub last_latency_generation: u64,
}

impl View for ExternalStatusWriter {
    type V = WriterView;

    closed spec fn view(&self) -> WriterView {
        WriterView {
            path: self.path@,
            last_latency_ms: self.last_latency_ms,
            last_latency_generation: self.last_latency_generation,
        }
    }
}

/// The round trip to show with a state: only while connected or paused, and only one that was
/// measured on the same connection.
pub open spec fn shown_latency(v: WriterView, connected_or_paused: bool, generation: u64) -> Option<
    u64,
> {
    if connected_or_paused && v.last_latency_generation == generation {
        v.last_latency_ms
    } else {
        None
    }
}

impl ExternalStatusWriter {
    pub fn new(path: String) -> (r: ExternalStatusWriter)
        ensures
            r@ == (WriterView {
                path: path@,
                last_latency_ms: None,
                last_latency_generation: 0,
            }),
    {
        ExternalStatusWriter { path, last_latency_ms: None, last_latency_generation: 0 }
    }

    /// Where the file is.
    pub fn path(&self) -> (r: &str)
        ensures
            r@ == self@.path,
    {
        self.path.as_str()
    }

    /// The file for a connection state at a given time.
    pub fn status_at(
        &self,
        status: &str,
        is_connected_or_paused: bool,
        peer_name: Option<&str>,
        peer_ip: Option<&str>,
        generation: u64,
        now: u64,
    ) -> (r: StatusFile)
        ensures
            r@ == (StatusFileView {
                version: 1,
                status: status@,
                peer_name: text::maybe_str(peer_name),
                peer_ip: text::maybe_str(peer_ip),
                latency_ms: shown_latency(self@, is_connected_or_paused, generation),
                generation,
                updated_at: now,
            }),
    {
        let latency_ms: Option<u64> = if is_connected_or_paused && self.last_latency_generation
            == generation {
            self.last_latency_ms
        } else {
            None
        };
        StatusFile {
            version: 1,
            status: status.to_string(),
            peer_name: text::own_maybe(peer_name),
            peer_ip: text::own_maybe(peer_ip),
            latency_ms,
            generation,
            updated_at: now,
        }
    }

    /// The file for a connection state now.
    pub fn record_status(
        &mut self,
        status: &str,
        is_connected_or_paused: bool,
        peer_name: Option<&str>,
        peer_ip: Option<&str>,
        generation: u64,
    ) -> (r: StatusFile)
        ensures
            final(self)@ == old(self)@,
            r@ == (StatusFileView {
                version: 1,
                status: status@,
                peer_name: text::maybe_str(peer_name),
                peer_ip: text::maybe_str(peer_ip),
                latency_ms: shown_latency(old(self)@, is_connected_or_paused, generation),
                generation,
                updated_at: r.updated_at,
            }),
    {
        let now: u64 = protocol::now_millis();
        self.status_at(status, is_connected_or_paused, peer_name, peer_ip, generation, now)
    }

    /// The file for a round trip measured at a given time. It is remembered.
    pub fn latency_at(
        &mut self,
        latency_ms: u64,
        status: &str,
        peer_name: Option<&str>,
        peer_ip: Option<&str>,
        generation: u64,
        now: u64,
    ) -> (r: StatusFile)
        ensures
            final(self)@ == (WriterView {
                path: old(self)@.path,
                last_latency_ms: Some(latency_ms),
                last_latency_generation: generation,
            }),
            r@ == (StatusFileView {
                version: 1,
                status: status@,
                peer_name: text::maybe_str(peer_name),
                peer_ip: text::maybe_str(peer_ip),
                latency_ms: Some(latency_ms),
                generation,
                updated_at: now,
            }),
    {
        self.last_latency_ms = Some(latency_ms);
        self.last_latency_generation = generation;
        StatusFile {
            version: 1,
            status: status.to_string(),
            peer_name: text::own_maybe(peer_name),
            peer_ip: text::own_maybe(peer_ip),
            latency_ms: Some(latency_ms),
            generation,
            updated_at: now,
        }
    }

    /// The file for a round trip measured now.
    pub fn record_latency(
        &mut self,
        latency_ms: u64,
        status: &str,
        peer_name: Option<&str>,
        peer_ip: Option<&str>,
        generation: u64,
    ) -> (r: StatusFile)
        ensures
            final(self)@ == (WriterView {
                path: old(self)@.path,
                last_latency_ms: Some(latency_ms),
                last_latency_generation: generation,
            }),
            r@ == (StatusFileView {
                version: 1,
                status: status@,
                peer_name: text::maybe_str(peer_name),
                peer_ip: text::maybe_str(peer_ip),
                latency_ms: Some(latency_ms),
                generation,
                updated_at: r.updated_at,
            }),
    {
        let now: u64 = protocol::now_millis();
        self.latency_at(latency_ms, status, peer_name, peer_ip, generation, now)
    }
}

/// What is written for other programs about a text that came from the peer.
#[derive(Debug)]
pub struct RemoteClipboardEvent {
    pub version: u32,
    /// Tells this arrival apart from others of the same text.
    pub event_id: String,
    pub text: String,
    pub content_hash: String,
    pub updated_at: u64,
}

/// Whether a value is the JSON of an arrival: five members in their order.
pub open spec fn is_event_json(j: Json, e: RemoteClipboardEvent) -> bool {
    j is Object && json::members(j) == seq![
        ("version"@, Scalar::Unsigned(e.version as u64)),
        ("event_id"@, Scalar::Text(e.event_id@)),
        ("text"@, Scalar::Text(e.text@)),
        ("content_hash"@, Scalar::Text(e.content_hash@)),
        ("updated_at"@, Scalar::Unsigned(e.updated_at)),
    ]
}

impl RemoteClipboardEvent {
    pub fn into_json(self) -> (r: Json)
        ensures
            is_event_json(r, self),
    {
        let mut ms: Vec<Member> = Vec::new();
        ms.push(json::number_member("version", self.version as u64));
        ms.push(json::text_member("event_id", self.event_id.as_str()));
        ms.push(json::text_member("text", self.text.as_str()));
        ms.push(json::text_member("content_hash", self.content_hash.as_str()));
        ms.push(json::number_member("updated_at", self.updated_at));
        let j = Json::Object(ms);
        assert(json::members(j) =~= seq![
            ("version"@, Scalar::Unsigned(self.version as u64)),
            ("event_id"@, Scalar::Text(self.event_id@)),
            ("text"@, Scalar::Text(self.text@)),
            ("content_hash"@, Scalar::Text(self.content_hash@)),
            ("updated_at"@, Scalar::Unsigned(self.updated_at)),
        ]);
        j
    }
}

/// Makes the files about texts that came from the peer.
#[derive(Debug)]
pub struct RemoteClipboardWriter {
    path: String,
}

impl View for RemoteClipboardWriter {
    type V = Seq<char>;

    closed spec fn view(&self) -> Seq<char> {
        self.path@
    }
}

/// The arrival of a text, with a given id and time. The text is kept as it is.
pub fn arrival(event_id: String, clip: &str, content_hash: &str, now: u64) -> (r:
    RemoteClipboardEvent)
    ensures
        r.version == 1,
        r.event_id == event_id,
        r.text@ == clip@,
        r.content_hash@ == content_hash@,
        r.updated_at == now,
{
    RemoteClipboardEvent {
        version: 1,
        event_id,
        text: clip.to_string(),
        content_hash: content_hash.to_string(),
        updated_at: now,
    }
}

impl RemoteClipboardWriter {
    pub fn new(path: String) -> (r: RemoteClipboardWriter)
        ensures
            r@ == path@,
    {
        RemoteClipboardWriter { path }
    }

    /// Where the file is.
    pub fn path(&self) -> (r: &str)
        ensures
            r@ == self@,
    {
        self.path.as_str()
    }

    /// The arrival of a text now, with a fresh id.
    pub fn record(&self, clip: &str, content_hash: &str) -> (r: RemoteClipboardEvent)
        ensures
            r.version == 1,
            system::is_v4_text(r.event_id@),
            r.text@ == clip@,
            r.content_hash@ == content_hash@,
    {
        arrival(system::random_uuid(), clip, content_hash, protocol::now_millis())
    }
}

/// A round trip is never shown with another connection than the one it was measured on, and never
/// with a connection that is not there.
pub proof fn latency_is_of_its_connection(v: WriterView, connected_or_paused: bool, generation: u64)
    requires
        generation != v.last_latency_generation || !connected_or_paused,
    ensures
        shown_latency(v, connected_or_paused, generation) is None,
{
}

/// A round trip is shown with its own connection while that is there or paused: the last one that
/// was measured.
pub proof fn latency_is_shown(v: WriterView, generation: u64)
    requires
        generation == v.last_latency_generation,
    ensures
        shown_latency(v, true, generation) == v.last_latency_ms,
{
}

/// A status file shows what its fields hold.
pub proof fn status_file_shows_its_fields(f: StatusFile)
    ensures
        f@.version == f.version,
        f@.status == f.status@,
        f@.peer_name == text::maybe(f.peer_name),
        f@.peer_ip == text::maybe(f.peer_ip),
        f@.latency_ms == f.latency_ms,
        f@.generation == f.generation,
        f@.updated_at == f.updated_at,
{
}

/// Who reads a status file by name finds each value under its own name, and null for what is
/// absent.
pub proof fn status_file_by_name(j: Json, f: StatusFileView)
    requires
        is_status_json(j, f),
    ensures
        j matches Json::Object(ms) && {
            &&& json::lookup(ms@, "version"@) == Some(Json::Unsigned(f.version as u64))
            &&& json::lookup(ms@, "status"@) matches Some(v) && (v matches Json::Text(s) && s@
                == f.status)
            &&& f.peer_name matches Some(n) ==> (json::lookup(ms@, "peer_name"@) matches Some(v) && (
            v matches Json::Text(s) && s@ == n))
            &&& f.peer_name is None ==> json::lookup(ms@, "peer_name"@) == Some(Json::Null)
            &&& f.peer_ip matches Some(n) ==> (json::lookup(ms@, "peer_ip"@) matches Some(v) && (
            v matches Json::Text(s) && s@ == n))
            &&& f.peer_ip is None ==> json::lookup(ms@, "peer_ip"@) == Some(Json::Null)
            &&& f.latency_ms matches Some(n) ==> json::lookup(ms@, "latency_ms"@) == Some(
                Json::Unsigned(n),
            )
            &&& f.latency_ms is None ==> json::lookup(ms@, "latency_ms"@) == Some(Json::Null)
            &&& json::lookup(ms@, "generation"@) == Some(Json::Unsigned(f.generation))
            &&& json::lookup(ms@, "updated_at"@) == Some(Json::Unsigned(f.updated_at))
        },
{
    reveal_strlit("version");
    reveal_strlit("status");
    reveal_strlit("peer_name");
    reveal_strlit("peer_ip");
    reveal_strlit("latency_ms");
    reveal_strlit("generation");
    reveal_strlit("updated_at");
    assert("version"@.len() == 7 && "peer_ip"@.len() == 7 && "status"@.len() == 6);
    assert("peer_name"@.len() == 9 && "latency_ms"@.len() == 10);
    assert("generation"@.len() == 10 && "updated_at"@.len() == 10);
    assert("version"@[0] != "peer_ip"@[0]);
    assert("latency_ms"@[0] != "generation"@[0]);
    assert("latency_ms"@[0] != "updated_at"@[0]);
    assert("generation"@[0] != "updated_at"@[0]);
    let ms = j->Object_0@;
    assert forall|a: int, b: int| 0 <= a < b < 7 implies (#[trigger] ms[a]).name@ != (
    #[trigger] ms[b]).name@ by {
        assert(a == 0 || a == 1 || a == 2 || a == 3 || a == 4 || a == 5);
        assert(b == 1 || b == 2 || b == 3 || b == 4 || b == 5 || b == 6);
    }
    json::lookup_single(ms, 0);
    json::lookup_single(ms, 1);
    json::lookup_single(ms, 2);
    json::lookup_single(ms, 3);
    json::lookup_single(ms, 4);
    json::lookup_single(ms, 5);
    json::lookup_single(ms, 6);
}

/// Who reads the file about an arrival by name finds each value under its own name.
pub proof fn arrival_by_name(j: Json, e: RemoteClipboardEvent)
    requires
        is_event_json(j, e),
    ensures
        j matches Json::Object(ms) && {
            &&& json::lookup(ms@, "version"@) == Some(Json::Unsigned(e.version as u64))
            &&& json::lookup(ms@, "event_id"@) matches Some(v) && (v matches Json::Text(s) && s@
                == e.event_id@)
            &&& json::lookup(ms@, "text"@) matches Some(v) && (v matches Json::Text(s) && s@
                == e.text@)
            &&& json::lookup(ms@, "content_hash"@) matches Some(v) && (v matches Json::Text(s) && s@
                == e.content_hash@)
            &&& json::lookup(ms@, "updated_at"@) == Some(Json::Unsigned(e.updated_at))
        },
{
    reveal_strlit("version");
    reveal_strlit("event_id");
    reveal_strlit("text");
    reveal_strlit("content_hash");
    reveal_strlit("updated_at");
    assert("version"@.len() == 7 && "event_id"@.len() == 8 && "text"@.len() == 4);
    assert("content_hash"@.len() == 12 && "updated_at"@.len() == 10);
    let ms = j->Object_0@;
    let seen = json::members(j);
    assert(seen.len() == ms.len());
    assert forall|k: int| 0 <= k < 5 implies seen[k].0 == (#[trigger] ms[k]).name@ && seen[k].1
        == json::scalar(ms[k].value) by {}
    assert(seen[0].0 == ms[0].name@ && seen[1].0 == ms[1].name@ && seen[2].0 == ms[2].name@
        && seen[3].0 == ms[3].name@ && seen[4].0 == ms[4].name@);
    json::lookup_single(ms, 0);
    json::lookup_single(ms, 1);
    json::lookup_single(ms, 2);
    json::lookup_single(ms, 3);
    json::lookup_single(ms, 4);
}

} // verus!
