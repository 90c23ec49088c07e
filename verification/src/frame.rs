use crate::error::AppError;
use crate::system;
use vstd::prelude::*;
use vstd::utf8::*;

verus! {

/// The longest message body in bytes: 1 MiB.
pub const MAX_MESSAGE_BYTES: u32 = 0x10_0000;

/// Length of the prefix that gives a body's length.
pub const HEADER_LEN: usize = 4;

/// A length as four bytes, the high one first.
pub open spec fn length_prefix(n: nat) -> Seq<u8> {
    seq![
        (n / 0x100_0000) as u8,
        ((n / 0x1_0000) % 256) as u8,
        ((n / 0x100) % 256) as u8,
        (n % 256) as u8,
    ]
}

/// The length that four bytes give, the high one first.
pub open spec fn announced(b: Seq<u8>) -> nat {
    (b[0] * 0x100_0000 + b[1] * 0x1_0000 + b[2] * 0x100 + b[3]) as nat
}

/// A body with its length in front.
pub open spec fn framed(body: Seq<u8>) -> Seq<u8> {
    length_prefix(body.len()) + body
}

/// A body as it goes on the wire. One that is over the limit is refused.
pub fn encode(json: &[u8]) -> (r: Result<Vec<u8>, AppError>)
    ensures
        match r {
            Ok(v) => json@.len() <= MAX_MESSAGE_BYTES && v@ == framed(json@),
            Err(e) => json@.len() > MAX_MESSAGE_BYTES && e == AppError::ProtocolMessageTooLarge,
        },
{
    if json.len() > MAX_MESSAGE_BYTES as usize {
        return Err(AppError::ProtocolMessageTooLarge);
    }
    let n: u32 = json.len() as u32;
    let mut out: Vec<u8> = Vec::new();
    out.push((n / 0x100_0000) as u8);
    out.push(((n / 0x1_0000) % 256) as u8);
    out.push(((n / 0x100) % 256) as u8);
    out.push((n % 256) as u8);
    assert(out@ =~= length_prefix(json@.len()));
    out.extend_from_slice(json);
    assert(out@ =~= framed(json@));
    Ok(out)
}

/// How far the bytes of a frame that have come in lead.
#[derive(Debug, Clone, PartialEq, Eq)]
pub enum Progress {
    /// More bytes are needed.
    Partial,
    /// The frame is complete; this is its body.
    Complete(String),
    /// The frame is not acceptable.
    Refused(AppError),
}

/// How far a frame's first bytes lead. A length of zero or over the limit is refused as soon as
/// the prefix is in, whatever follows; a complete body has to be UTF-8.
pub open spec fn leads_to(b: Seq<u8>, p: Progress) -> bool {
    if b.len() < HEADER_LEN {
        p is Partial
    } else if announced(b) == 0 {
        p == Progress::Refused(AppError::ProtocolInvalidLength)
    } else if announced(b) > MAX_MESSAGE_BYTES {
        p == Progress::Refused(AppError::ProtocolMessageTooLarge)
    } else if b.len() < HEADER_LEN + announced(b) {
        p is Partial
    } else {
        let body = b.subrange(HEADER_LEN as int, HEADER_LEN + announced(b) as int);
        if valid_utf8(body) {
            p matches Progress::Complete(s) && s@ == decode_utf8(body)
        } else {
            p == Progress::Refused(AppError::ProtocolInvalidUtf8)
        }
    }
}

/// Whether bytes are the beginning of an acceptable frame and not the whole of it.
pub open spec fn is_partial(b: Seq<u8>) -> bool {
    leads_to(b, Progress::Partial)
}

/// How many more bytes the beginning of a frame asks for: the rest of the prefix, or of the body.
pub open spec fn missing(b: Seq<u8>) -> int {
    if b.len() < HEADER_LEN {
        HEADER_LEN - b.len()
    } else {
        HEADER_LEN + announced(b) - b.len()
    }
}

/// Puts frames together from the pieces in which they arrive.
#[derive(Debug)]
pub struct FrameReader {
    buf: Vec<u8>,
}

fn announced_length(b: &Vec<u8>) -> (r: u32)
    requires
        b@.len() >= HEADER_LEN,
    ensures
        r == announced(b@),
{
    b[0] as u32 * 0x100_0000 + b[1] as u32 * 0x1_0000 + b[2] as u32 * 0x100 + b[3] as u32
}

impl FrameReader {
    /// The bytes of the current frame that have come in.
    pub closed spec fn received(&self) -> Seq<u8> {
        self.buf@
    }

    #[verifier::type_invariant]
    spec fn inv(self) -> bool {
        is_partial(self.buf@)
    }

    pub fn new() -> (r: FrameReader)
        ensures
            r.received() == Seq::<u8>::empty(),
    {
        FrameReader { buf: Vec::new() }
    }

    /// How many bytes to read next: at least one, and never more than the longest body has.
    pub fn wanted(&self) -> (r: usize)
        ensures
            r == missing(self.received()),
            0 < r <= MAX_MESSAGE_BYTES,
            is_partial(self.received()),
    {
        proof {
            use_type_invariant(self);
        }
        let n: usize = self.buf.len();
        if n < HEADER_LEN {
            HEADER_LEN - n
        } else {
            HEADER_LEN + announced_length(&self.buf) as usize - n
        }
    }

    /// Takes in the bytes that were read. Behind a complete or refused frame it starts over.
    pub fn feed(&mut self, chunk: &[u8]) -> (r: Progress)
        requires
            chunk@.len() <= missing(old(self).received()),
        ensures
            leads_to(old(self).received() + chunk@, r),
            final(self).received() == if r is Partial {
                old(self).received() + chunk@
            } else {
                Seq::<u8>::empty()
            },
    {
        let ghost before = self.buf@;
        proof {
            use_type_invariant(&*self);
        }
        let mut buf: Vec<u8> = Vec::new();
        std::mem::swap(&mut self.buf, &mut buf);
        buf.extend_from_slice(chunk);
        let ghost all = before + chunk@;
        assert(buf@ =~= all);
        if buf.len() < HEADER_LEN {
            self.buf = buf;
            return Progress::Partial;
        }
        let n: u32 = announced_length(&buf);
        if n == 0 {
            return Progress::Refused(AppError::ProtocolInvalidLength);
        }
        if n > MAX_MESSAGE_BYTES {
            return Progress::Refused(AppError::ProtocolMessageTooLarge);
        }
        if buf.len() < HEADER_LEN + n as usize {
            self.buf = buf;
            return Progress::Partial;
        }
        assert(buf@.len() == HEADER_LEN + n) by {
            if before.len() >= HEADER_LEN {
                assert(announced(before) == announced(all));
            }
        }
        let body = buf.split_off(HEADER_LEN);
        assert(body@ =~= all.subrange(HEADER_LEN as int, HEADER_LEN + n as int));
        match system::text_from_utf8(body) {
            Some(s) => Progress::Complete(s),
            None => Progress::Refused(AppError::ProtocolInvalidUtf8),
        }
    }
}

/// What reading one frame from a stream that holds `data` and then ends gives: the body's text
/// and the bytes taken, or what is wrong. A stream that ends within a frame is a closed one.
pub open spec fn reads_as(data: Seq<u8>, r: Result<(String, usize), AppError>) -> bool {
    if is_partial(data) {
        r == Err::<(String, usize), AppError>(AppError::ConnectionClosed)
    } else {
        match r {
            Ok((s, used)) => leads_to(data, Progress::Complete(s)) && used == HEADER_LEN
                + announced(data),
            Err(e) => leads_to(data, Progress::Refused(e)),
        }
    }
}

/// Reads the frame at the start of `data`.
pub fn read_message(data: &[u8]) -> (r: Result<(String, usize), AppError>)
    ensures
        reads_as(data@, r),
{
    let mut reader = FrameReader::new();
    let mut used: usize = 0;
    loop
        invariant
            used <= data@.len(),
            reader.received() == data@.take(used as int),
            is_partial(data@.take(used as int)),
        decreases data@.len() - used,
    {
        let n: usize = reader.wanted();
        if data.len() - used < n {
            proof {
                partial_when_short(data@, used as int);
            }
            return Err(AppError::ConnectionClosed);
        }
        let ghost before = data@.take(used as int);
        let next: usize = used + n;
        let step = reader.feed(&data[used..next]);
        assert(before + data@.subrange(used as int, next as int) =~= data@.take(next as int));
        proof {
            longer_leads_alike(data@, next as int);
        }
        match step {
            Progress::Partial => {
                used = next;
            },
            Progress::Complete(s) => {
                return Ok((s, next));
            },
            Progress::Refused(e) => {
                return Err(e);
            },
        }
    }
}

/// The bytes behind a frame that is complete or refused do not change what it leads to.
proof fn longer_leads_alike(data: Seq<u8>, used: int)
    requires
        0 <= used <= data.len(),
    ensures
        !is_partial(data.take(used)) ==> forall|p: Progress|
            leads_to(data, p) == leads_to(data.take(used), p),
        !is_partial(data.take(used)) ==> !is_partial(data) && announced(data) == announced(
            data.take(used),
        ),
{
    let b = data.take(used);
    if !is_partial(b) {
        assert(announced(b) == announced(data));
        if announced(b) != 0 && announced(b) <= MAX_MESSAGE_BYTES {
            let end = HEADER_LEN + announced(b) as int;
            assert(data.subrange(HEADER_LEN as int, end) =~= b.subrange(HEADER_LEN as int, end));
        }
    }
}

/// A stream that ends before what a partial frame asks for ends within that frame.
proof fn partial_when_short(data: Seq<u8>, used: int)
    requires
        0 <= used <= data.len(),
        is_partial(data.take(used)),
        data.len() - used < missing(data.take(used)),
    ensures
        is_partial(data),
{
    let b = data.take(used);
    if used >= HEADER_LEN {
        assert(announced(b) == announced(data));
    }
}

/// A length survives being written as a prefix.
pub proof fn prefix_gives_length(n: nat, rest: Seq<u8>)
    requires
        n <= u32::MAX,
    ensures
        announced(length_prefix(n) + rest) == n,
{
    let b = length_prefix(n) + rest;
    let m = n as u32;
    assert((m / 0x100_0000) * 0x100_0000 + ((m / 0x1_0000) % 256) * 0x1_0000 + ((m / 0x100) % 256)
        * 0x100 + m % 256 == m) by (bit_vector);
    assert(b[0] == (n / 0x100_0000) as u8);
    assert(b[1] == ((n / 0x1_0000) % 256) as u8);
    assert(b[2] == ((n / 0x100) % 256) as u8);
    assert(b[3] == (n % 256) as u8);
}

/// What `encode` frames, reading gives back, with whatever follows in the stream left untouched.
pub proof fn frame_round_trip(text: Seq<char>, rest: Seq<u8>, r: Result<(String, usize), AppError>)
    requires
        0 < encode_utf8(text).len() <= MAX_MESSAGE_BYTES,
        reads_as(framed(encode_utf8(text)) + rest, r),
    ensures
        r matches Ok((s, used)) && s@ == text && used == framed(encode_utf8(text)).len(),
{
    let body = encode_utf8(text);
    let data = framed(body) + rest;
    assert(data =~= length_prefix(body.len()) + (body + rest));
    prefix_gives_length(body.len(), body + rest);
    encode_utf8_valid_utf8(text);
    encode_utf8_decode_utf8(text);
    assert(data.subrange(HEADER_LEN as int, HEADER_LEN + body.len() as int) =~= body);
}

/// However a frame is cut into pieces, it is complete with its last byte and not before.
pub proof fn frame_complete_at_its_end(text: Seq<char>, cut: int)
    requires
        0 < encode_utf8(text).len() <= MAX_MESSAGE_BYTES,
        0 <= cut < framed(encode_utf8(text)).len(),
    ensures
        is_partial(framed(encode_utf8(text)).take(cut)),
        forall|p: Progress|
            leads_to(framed(encode_utf8(text)), p) ==> (p matches Progress::Complete(s) && s@
                == text),
{
    let body = encode_utf8(text);
    let data = framed(body);
    prefix_gives_length(body.len(), body);
    encode_utf8_valid_utf8(text);
    encode_utf8_decode_utf8(text);
    assert(data.subrange(HEADER_LEN as int, HEADER_LEN + body.len() as int) =~= body);
    if cut >= HEADER_LEN {
        assert(announced(data.take(cut)) == announced(data));
    }
}

/// A frame is a body behind four bytes, which give the body's length with the first one counting
/// most.
pub proof fn frame_in_bytes(body: Seq<u8>)
    requires
        body.len() <= u32::MAX,
    ensures
        framed(body).len() == body.len() + 4,
        framed(body).skip(4) == body,
        framed(body)[0] * 0x100_0000 + framed(body)[1] * 0x1_0000 + framed(body)[2] * 0x100 + framed(
            body,
        )[3] == body.len(),
{
    prefix_gives_length(body.len(), body);
    assert(framed(body).skip(4) =~= body);
}

/// What comes of the bytes of a stream that then ends, by their number and the length that the
/// first four give: fewer than four, or fewer than announced, is a closed stream; a length of 0 and
/// one above 1 MiB are refused, whatever follows; a whole body is given as the text that it encodes
/// and refused where it encodes none.
pub proof fn reading_in_bytes(data: Seq<u8>, r: Result<(String, usize), AppError>)
    requires
        reads_as(data, r),
    ensures
        data.len() < 4 ==> r == Err::<(String, usize), AppError>(AppError::ConnectionClosed),
        data.len() >= 4 ==> {
            let n = data[0] * 0x100_0000 + data[1] * 0x1_0000 + data[2] * 0x100 + data[3];
            &&& n == 0 ==> r == Err::<(String, usize), AppError>(AppError::ProtocolInvalidLength)
            &&& n > 1048576 ==> r == Err::<(String, usize), AppError>(
                AppError::ProtocolMessageTooLarge,
            )
            &&& 0 < n <= 1048576 && data.len() < 4 + n ==> r == Err::<(String, usize), AppError>(
                AppError::ConnectionClosed,
            )
            &&& 0 < n <= 1048576 && data.len() >= 4 + n && !valid_utf8(data.subrange(4, 4 + n))
                ==> r == Err::<(String, usize), AppError>(AppError::ProtocolInvalidUtf8)
            &&& 0 < n <= 1048576 && data.len() >= 4 + n && valid_utf8(data.subrange(4, 4 + n)) ==> (
            r matches Ok((s, used)) && s@ == decode_utf8(data.subrange(4, 4 + n)) && used == 4 + n)
        },
{
}

/// A reader asks for exactly what is missing: up to the fourth byte, then up to the end of the
/// announced body.
pub proof fn asks_for_what_is_missing(b: Seq<u8>)
    ensures
        b.len() < 4 ==> b.len() + missing(b) == 4,
        b.len() >= 4 ==> b.len() + missing(b) == 4 + b[0] * 0x100_0000 + b[1] * 0x1_0000 + b[2]
            * 0x100 + b[3],
{
}

/// What the bytes of a frame lead to so far does not depend on how they came: two readers that got
/// the same bytes say the same.
pub proof fn pieces_do_not_matter(b: Seq<u8>, p: Progress, q: Progress)
    requires
        leads_to(b, p),
        leads_to(b, q),
    ensures
        p is Partial <==> q is Partial,
        p is Refused ==> q == p,
        p matches Progress::Complete(s) ==> (q matches Progress::Complete(t) && t@ == s@),
{
}

} // verus!
