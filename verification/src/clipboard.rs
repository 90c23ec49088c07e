use crate::network::laws;
use crate::network::model;
use crate::network::model::Deed;
use crate::network::model::NetView;
use crate::network::model::Reply;
use crate::network::model::SlotView;
use crate::protocol;
use crate::protocol::ClipboardPayload;
use crate::protocol::Message;
use crate::state::AppState;
use crate::state::ConnectionStatus;
use crate::state::Inner;
use crate::state::InnerView;
use crate::text;
use vstd::prelude::*;
use vstd::utf8::*;

pub use crate::protocol::sha256_hex;

verus! {

/// How often the clipboard is read, in milliseconds.
pub const POLL_INTERVAL_MS: u64 = 300;

/// The longest clipboard text that is handled, in bytes: 1 MiB.
pub const MAX_CLIPBOARD_BYTES: usize = 0x10_0000;

pub const ERROR_EVENT: &'static str = "app-error";

/// Tells the front end that a text came, and when.
pub const SYNCED_EVENT: &'static str = "clipboard-synced";

/// What the user is told of a text that is too long.
pub const TEXT_TOO_LONG: &'static str = "剪贴板文字超过 1 MiB，本次未同步。";

/// What a text that was read from the clipboard is.
#[derive(Debug, Clone, Copy, PartialEq, Eq, Structural)]
pub enum ChangeKind {
    /// The text that was seen last.
    Unchanged,
    /// A text of the peer that was just put there.
    RemoteEcho,
    /// A text of this device.
    LocalChange,
}

/// What a text is, by its hash and those of the text last seen and of the peer's text on its way.
pub open spec fn kind_of(
    prev: Option<Seq<char>>,
    remote: Option<Seq<char>>,
    hash: Seq<char>,
) -> ChangeKind {
    if prev == Some(hash) {
        ChangeKind::Unchanged
    } else if remote == Some(hash) {
        ChangeKind::RemoteEcho
    } else {
        ChangeKind::LocalChange
    }
}

pub fn classify_change(prev: Option<&str>, remote: Option<&str>, hash: &str) -> (r: ChangeKind)
    ensures
        r == kind_of(text::maybe_str(prev), text::maybe_str(remote), hash@),
{
    if let Some(p) = prev {
        if text::same_text(p, hash) {
            return ChangeKind::Unchanged;
        }
    }
    if let Some(m) = remote {
        if text::same_text(m, hash) {
            return ChangeKind::RemoteEcho;
        }
    }
    ChangeKind::LocalChange
}

/// Whether the clipboard is to be read now: not while synchronisation is paused.
pub fn wants_poll(inner: &Inner) -> (r: bool)
    ensures
        r == !inner.paused,
{
    !inner.paused
}

/// What is to be done about a text that was read.
#[derive(Debug)]
pub enum PollOutcome {
    Nothing,
    /// Tell the user that the text is too long.
    TooLong,
    /// Send this to the peer.
    Send(Message),
}

/// What is known behind a text that was read. An empty or too long text leaves no trace.
pub open spec fn observed(v: InnerView, t: Seq<char>) -> InnerView {
    if t.len() == 0 || encode_utf8(t).len() > MAX_CLIPBOARD_BYTES {
        v
    } else {
        let hash = protocol::content_hash(t);
        match kind_of(v.last_clipboard_hash, v.last_remote_hash, hash) {
            ChangeKind::Unchanged => v,
            ChangeKind::RemoteEcho => InnerView {
                last_clipboard_hash: Some(hash),
                last_clipboard_text: Some(t),
                last_remote_hash: None,
                ..v
            },
            ChangeKind::LocalChange => InnerView {
                last_clipboard_hash: Some(hash),
                last_clipboard_text: Some(t),
                ..v
            },
        }
    }
}

/// Whether a text that was read goes to the peer: a new one of this device, of acceptable length,
/// while connected.
pub open spec fn goes_out(v: InnerView, t: Seq<char>) -> bool {
    &&& t.len() > 0
    &&& encode_utf8(t).len() <= MAX_CLIPBOARD_BYTES
    &&& kind_of(v.last_clipboard_hash, v.last_remote_hash, protocol::content_hash(t))
        == ChangeKind::LocalChange
    &&& v.status == ConnectionStatus::Connected
}

/// Takes a text that was read from the clipboard.
pub fn observe(state: &mut AppState, clip: &str) -> (r: PollOutcome)
    ensures
        final(state).config == old(state).config,
        final(state).net == old(state).net,
        final(state).inner@ == observed(old(state).inner@, clip@),
        match r {
            PollOutcome::TooLong => clip@.len() > 0 && encode_utf8(clip@).len()
                > MAX_CLIPBOARD_BYTES,
            PollOutcome::Send(m) => {
                &&& goes_out(old(state).inner@, clip@)
                &&& model::well_made(m)
                &&& protocol::content(m) == update_content(
                    old(state).config@.identity.device_id,
                    clip@,
                )
            },
            PollOutcome::Nothing => !goes_out(old(state).inner@, clip@) && (clip@.len() == 0
                || encode_utf8(clip@).len() <= MAX_CLIPBOARD_BYTES),
        },
        r is Send <==> clip@.len() > 0 && encode_utf8(clip@).len() <= 1048576
            && old(state).inner.status == ConnectionStatus::Connected && text::maybe(
            old(state).inner.last_clipboard_hash,
        ) != Some(protocol::content_hash(clip@)) && text::maybe(old(state).inner.last_remote_hash)
            != Some(protocol::content_hash(clip@)),
        r is TooLong <==> encode_utf8(clip@).len() > 1048576,
        r matches PollOutcome::Send(m) ==> protocol::clipboard_of(m.payload) == Some(
            (clip@, protocol::content_hash(clip@)),
        ),
{
    if clip.is_empty() {
        return PollOutcome::Nothing;
    }
    let bytes = clip.as_bytes();
    if bytes.len() > MAX_CLIPBOARD_BYTES {
        return PollOutcome::TooLong;
    }
    let hash = sha256_hex(bytes);
    let prev: Option<&str> = match &state.inner.last_clipboard_hash {
        Some(h) => Some(h.as_str()),
        None => None,
    };
    let remote: Option<&str> = match &state.inner.last_remote_hash {
        Some(h) => Some(h.as_str()),
        None => None,
    };
    match classify_change(prev, remote, hash.as_str()) {
        ChangeKind::Unchanged => PollOutcome::Nothing,
        ChangeKind::RemoteEcho => {
            state.inner.last_clipboard_hash = Some(hash);
            state.inner.last_clipboard_text = Some(clip.to_string());
            state.inner.last_remote_hash = None;
            PollOutcome::Nothing
        },
        ChangeKind::LocalChange => {
            state.inner.last_clipboard_hash = Some(hash.clone());
            state.inner.last_clipboard_text = Some(clip.to_string());
            send_update(state, clip, hash.as_str())
        },
    }
}

/// The update that carries a text.
pub open spec fn update_content(device_id: Seq<char>, t: Seq<char>) -> protocol::Content {
    protocol::own_content(
        protocol::MSG_CLIPBOARD_UPDATE@,
        device_id,
        seq![
            ("content_hash"@, crate::json::Scalar::Text(protocol::content_hash(t))),
            ("text"@, crate::json::Scalar::Text(t)),
        ],
    )
}

/// The update for a text, where there is a peer to send it to. Texts are not kept for later.
fn send_update(state: &AppState, clip: &str, hash: &str) -> (r: PollOutcome)
    requires
        hash@ == protocol::content_hash(clip@),
    ensures
        match r {
            PollOutcome::Send(m) => {
                &&& state.inner.status == ConnectionStatus::Connected
                &&& model::well_made(m)
                &&& protocol::content(m) == update_content(
                    state.config@.identity.device_id,
                    clip@,
                )
                &&& protocol::clipboard_of(m.payload) == Some(
                    (clip@, protocol::content_hash(clip@)),
                )
            },
            PollOutcome::Nothing => state.inner.status != ConnectionStatus::Connected,
            PollOutcome::TooLong => false,
        },
{
    if state.inner.status != ConnectionStatus::Connected {
        return PollOutcome::Nothing;
    }
    let payload = ClipboardPayload { text: clip.to_string(), content_hash: hash.to_string() };
    let m = Message::compose(
        protocol::MSG_CLIPBOARD_UPDATE,
        state.config.identity.device_id.as_str(),
        &payload,
    );
    proof {
        protocol::clipboard_members_read(m.payload, clip@, hash@);
    }
    PollOutcome::Send(m)
}

/// What to do with a text of the peer.
#[derive(Debug, Clone, Copy, PartialEq, Eq, Structural)]
pub enum Landing {
    /// Nothing.
    Skip,
    /// Write it to the clipboard; go on with `finish_landing`.
    Write,
}

/// Whether a text of the peer is written to the clipboard: not while paused, and not where it is
/// the text last seen.
pub open spec fn is_written(v: InnerView, hash: Seq<char>) -> bool {
    !v.paused && v.last_clipboard_hash != Some(hash)
}

/// What is known before a text of the peer is written. The mark that it is the peer's comes before
/// the write, so that reading the clipboard meanwhile does not take it for this device's own.
pub open spec fn landing_begun(v: InnerView, hash: Seq<char>, now: u64) -> InnerView {
    if v.paused {
        v
    } else if v.last_clipboard_hash == Some(hash) {
        InnerView { last_sync: Some(text::decimal(now as nat)), ..v }
    } else {
        InnerView { last_remote_hash: Some(hash), ..v }
    }
}

/// Begins to put a text of the peer on the clipboard. The peer may write the hash in whatever case;
/// it is known in the lower case that this device gives hashes.
pub fn begin_landing(inner: &mut Inner, payload: &ClipboardPayload, now: u64) -> (r: Landing)
    ensures
        final(inner)@ == landing_begun(old(inner)@, text::lowered(payload.content_hash@), now),
        r == if is_written(old(inner)@, text::lowered(payload.content_hash@)) {
            Landing::Write
        } else {
            Landing::Skip
        },
        r == Landing::Write <==> !old(inner).paused && text::maybe(old(inner).last_clipboard_hash)
            != Some(text::lowered(payload.content_hash@)),
{
    if inner.paused {
        return Landing::Skip;
    }
    let hash = text::to_lower(payload.content_hash.as_str());
    if text::is_text(&inner.last_clipboard_hash, hash.as_str()) {
        inner.last_sync = Some(text::decimal_text(now));
        return Landing::Skip;
    }
    inner.last_remote_hash = Some(hash);
    Landing::Write
}

/// What is known once a text of the peer was written.
pub open spec fn landed(v: InnerView, t: Seq<char>, hash: Seq<char>, now: u64) -> InnerView {
    InnerView {
        last_clipboard_hash: Some(hash),
        last_clipboard_text: Some(t),
        last_remote_hash: None,
        last_sync: Some(text::decimal(now as nat)),
        ..v
    }
}

/// Ends putting a text of the peer on the clipboard, once it was written or could not be: the time
/// to tell the front end, if it was.
pub fn finish_landing(
    inner: &mut Inner,
    payload: &ClipboardPayload,
    written: bool,
    now: u64,
) -> (r: Option<String>)
    ensures
        final(inner)@ == if written {
            landed(old(inner)@, payload.text@, text::lowered(payload.content_hash@), now)
        } else {
            old(inner)@
        },
        text::maybe(r) == if written {
            Some(text::decimal(now as nat))
        } else {
            None
        },
{
    if !written {
        return None;
    }
    inner.last_clipboard_hash = Some(text::to_lower(payload.content_hash.as_str()));
    inner.last_clipboard_text = Some(payload.text.clone());
    inner.last_remote_hash = None;
    inner.last_sync = Some(text::decimal_text(now));
    Some(text::decimal_text(now))
}

/// A text that the peer sent does not go back to the peer when it is read from the clipboard,
/// whatever case the peer's hash is in: neither between mark and write nor afterwards, nor where
/// the text was there already. Once it was written it is known by its own hash.
pub proof fn remote_text_is_not_sent_back(
    v: InnerView,
    t: Seq<char>,
    h: Seq<char>,
    now: u64,
    later: u64,
)
    requires
        !v.paused,
        text::lowered(h) == text::lowered(protocol::content_hash(t)),
    ensures
        ({
            let hash = text::lowered(h);
            let begun = landing_begun(v, hash, now);
            let done = landed(begun, t, hash, later);
            &&& !goes_out(begun, t)
            &&& !goes_out(observed(begun, t), t)
            &&& !goes_out(done, t)
            &&& !goes_out(landed(observed(begun, t), t, hash, later), t)
            &&& done.last_clipboard_hash == Some(protocol::content_hash(t))
            &&& done.last_clipboard_text == Some(t)
            &&& done.last_remote_hash is None
            &&& observed(done, t) == done
        }),
{
    protocol::accepted_hash_is_own(t, h);
}

/// A text goes to the peer once: read again, it does not.
pub proof fn text_goes_out_once(v: InnerView, t: Seq<char>)
    ensures
        !goes_out(observed(v, t), t),
{
}

/// A text that goes out passes the checks of the peer that receives it, which gets the very text.
pub proof fn sent_text_arrives(
    v: InnerView,
    t: Seq<char>,
    device_id: Seq<char>,
    m: Message,
    r: Result<ClipboardPayload, crate::error::AppError>,
)
    requires
        goes_out(v, t),
        protocol::content(m) == update_content(device_id, t),
        m.payload is Object,
        protocol::clipboard_verdict(m, r),
    ensures
        r matches Ok(p) && p.text@ == t && p.content_hash@ == protocol::content_hash(t),
        protocol::accepted_clipboard(m) == Some((t, protocol::content_hash(t))),
{
    protocol::clipboard_members_read(m.payload, t, protocol::content_hash(t));
}

/// A text that goes out lands at the peer: its update, the first time it comes in on an open
/// connection there, puts that very text on the peer's clipboard.
pub proof fn text_lands_at_peer(
    v: InnerView,
    t: Seq<char>,
    device_id: Seq<char>,
    m: Message,
    peer: NetView,
    slot: SlotView,
    now: u64,
)
    requires
        goes_out(v, t),
        protocol::content(m) == update_content(device_id, t),
        m.payload is Object,
        !peer.recent.contains(m.message_id@),
    ensures
        model::handled(peer, slot, m, now) == Reply::Go(
            (NetView { recent: model::remembered(peer.recent, m.message_id@), ..peer }),
            seq![Deed::Land(t, protocol::content_hash(t))],
        ),
{
    protocol::clipboard_members_read(m.payload, t, protocol::content_hash(t));
    laws::message_types_differ();
}

/// While synchronisation is paused nothing of the peer lands, and nothing changes.
pub proof fn paused_lands_nothing(v: InnerView, hash: Seq<char>, now: u64)
    requires
        v.paused,
    ensures
        !is_written(v, hash),
        landing_begun(v, hash, now) == v,
{
}

/// Whether a text of the peer is written depends on nothing but the pause and the text last seen:
/// while not paused every text is written that is not the one last seen, however many came before
/// it, whoever it is from and whatever state the connection is in.
pub proof fn every_new_text_of_the_peer_is_written(v: InnerView, hash: Seq<char>)
    ensures
        !v.paused && v.last_clipboard_hash is None ==> is_written(v, hash),
        !v.paused && v.last_clipboard_hash is Some && v.last_clipboard_hash->0 != hash
            ==> is_written(v, hash),
        v.last_clipboard_hash == Some(hash) ==> !is_written(v, hash),
        v.paused ==> !is_written(v, hash),
{
}

/// One text of the peer after the other lands: behind a text that was written, any other text is
/// written, and so on, as long as synchronisation is not paused.
pub proof fn texts_land_one_after_the_other(
    v: InnerView,
    t: Seq<char>,
    hash: Seq<char>,
    next: Seq<char>,
    now: u64,
    later: u64,
)
    requires
        !v.paused,
        next != hash,
    ensures
        ({
            let done = landed(landing_begun(v, hash, now), t, hash, later);
            &&& is_written(done, next)
            &&& landing_begun(done, next, later).last_remote_hash == Some(next)
            &&& !is_written(done, hash)
        }),
{
}

/// Before a text of the peer is written nothing is noted but the mark that it is the peer's, and
/// where it is there already nothing but the time.
pub proof fn landing_notes_the_mark_first(v: InnerView, hash: Seq<char>, now: u64)
    ensures
        ({
            let w = landing_begun(v, hash, now);
            &&& w == (InnerView { last_remote_hash: w.last_remote_hash, last_sync: w.last_sync, ..v })
            &&& v.paused ==> w == v
            &&& !v.paused && v.last_clipboard_hash == Some(hash) ==> w.last_remote_hash
                == v.last_remote_hash && w.last_sync == Some(text::decimal(now as nat))
            &&& !v.paused && v.last_clipboard_hash != Some(hash) ==> w.last_remote_hash == Some(hash)
                && w.last_sync == v.last_sync
        }),
{
}

/// Once a text of the peer was written it is the text last seen, with its hash; the mark is gone,
/// the time is noted, and nothing else changes.
pub proof fn landing_ends_with_the_text_seen(v: InnerView, t: Seq<char>, hash: Seq<char>, now: u64)
    ensures
        ({
            let w = landed(v, t, hash, now);
            &&& w.last_clipboard_text == Some(t)
            &&& w.last_clipboard_hash == Some(hash)
            &&& w.last_remote_hash is None
            &&& w.last_sync == Some(text::decimal(now as nat))
            &&& w.zerotier_ip == v.zerotier_ip && w.zerotier_hint == v.zerotier_hint
            &&& w.hint_warn == v.hint_warn && w.status == v.status
            &&& w.status_text == v.status_text && w.peer == v.peer
            &&& w.paused == v.paused && w.last_peer_ip == v.last_peer_ip
        }),
{
}

/// Every new text of this device goes to the connected peer: any text of 1 to 1048576 bytes that is
/// neither the one last seen nor the peer's own. No other text does, and none while there is no
/// connection.
pub proof fn every_new_local_text_goes_out(v: InnerView, t: Seq<char>)
    ensures
        ({
            let hash = protocol::content_hash(t);
            let fits = t.len() > 0 && encode_utf8(t).len() <= 1048576;
            let known = v.last_clipboard_hash == Some(hash) || v.last_remote_hash == Some(hash);
            &&& fits && !known && v.status == ConnectionStatus::Connected ==> goes_out(v, t)
            &&& goes_out(v, t) ==> fits && !known && v.status == ConnectionStatus::Connected
        }),
{
}

/// A text that was read is the text last seen from then on, sent or not, unless it is empty or too
/// long; the mark of a text of the peer goes with the first sight of that text and not before.
pub proof fn what_was_read_is_known(v: InnerView, t: Seq<char>)
    ensures
        ({
            let hash = protocol::content_hash(t);
            let w = observed(v, t);
            let fits = t.len() > 0 && encode_utf8(t).len() <= 1048576;
            &&& !fits ==> w == v
            &&& fits ==> w.last_clipboard_hash == Some(hash)
            &&& fits && v.last_clipboard_hash != Some(hash) ==> w.last_clipboard_text == Some(t)
            &&& v.last_clipboard_hash == Some(hash) ==> w == v
            &&& fits && v.last_clipboard_hash != Some(hash) && v.last_remote_hash == Some(hash)
                ==> w.last_remote_hash is None
            &&& v.last_remote_hash != Some(hash) ==> w.last_remote_hash == v.last_remote_hash
            &&& w == (InnerView {
                last_clipboard_hash: w.last_clipboard_hash,
                last_clipboard_text: w.last_clipboard_text,
                last_remote_hash: w.last_remote_hash,
                ..v
            })
        }),
{
}

/// A text is the one last seen where the hashes are the same, else the peer's where it has the
/// mark, else this device's own.
pub proof fn kinds_by_hash(prev: Option<Seq<char>>, remote: Option<Seq<char>>, hash: Seq<char>)
    ensures
        prev == Some(hash) <==> kind_of(prev, remote, hash) == ChangeKind::Unchanged,
        prev != Some(hash) && remote == Some(hash) <==> kind_of(prev, remote, hash)
            == ChangeKind::RemoteEcho,
        prev != Some(hash) && remote != Some(hash) <==> kind_of(prev, remote, hash)
            == ChangeKind::LocalChange,
{
}

/// The update for a text is a message of this version and of the type for updates, from the device,
/// and it gives the text and the text's own hash.
pub proof fn update_carries_the_text(m: Message, device_id: Seq<char>, t: Seq<char>)
    requires
        protocol::content(m) == update_content(device_id, t),
        m.payload is Object,
    ensures
        m.version == 1,
        m.msg_type@ == "clipboard_update"@,
        m.device_id@ == device_id,
        m.auth is None,
        protocol::clipboard_of(m.payload) == Some((t, protocol::content_hash(t))),
{
    protocol::clipboard_members_read(m.payload, t, protocol::content_hash(t));
}

} // verus!
