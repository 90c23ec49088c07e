use crate::error;
use crate::error::AppError;
use crate::system;
use crate::text;
use vstd::prelude::*;
use vstd::string::*;
use vstd::utf8::*;

verus! {

/// Length of a device secret in bytes.
pub const SECRET_LEN: usize = 32;

/// The device name where the machine's own cannot be read or is blank.
pub const DEVICE_NAME_FALLBACK: &'static str = "Windows-PC";

/// The longest device name, in characters.
pub const DEVICE_NAME_MAX_LEN: usize = 64;

/// Who this device is: made on the first start, then kept.
#[derive(Debug)]
pub struct LocalIdentity {
    /// A UUID of version 4.
    pub device_id: String,
    /// The machine's name.
    pub device_name: String,
    /// 32 random bytes in lower-case hexadecimal. They stay on the device: no log, event or
    /// front end sees them.
    pub device_secret: String,
}

/// What an identity says.
pub struct IdentityView {
    pub device_id: Seq<char>,
    pub device_name: Seq<char>,
    pub device_secret: Seq<char>,
}

impl View for LocalIdentity {
    type V = IdentityView;

    open spec fn view(&self) -> IdentityView {
        IdentityView {
            device_id: self.device_id@,
            device_name: self.device_name@,
            device_secret: self.device_secret@,
        }
    }
}

impl Clone for LocalIdentity {
    fn clone(&self) -> (r: LocalIdentity)
        ensures
            r@ == self@,
    {
        LocalIdentity {
            device_id: self.device_id.clone(),
            device_name: self.device_name.clone(),
            device_secret: self.device_secret.clone(),
        }
    }
}

/// The lower-case hexadecimal digit of a value below 16.
pub open spec fn hex_digit(n: int) -> char {
    if n < 10 {
        (48 + n) as char
    } else {
        (87 + n) as char
    }
}

/// The lower-case hexadecimal form of a byte sequence: two digits per byte, high one first.
pub open spec fn hex_text(bytes: Seq<u8>) -> Seq<char> {
    Seq::new(
        2 * bytes.len(),
        |i: int|
            if i % 2 == 0 {
                hex_digit(bytes[i / 2] as int / 16)
            } else {
                hex_digit(bytes[i / 2] as int % 16)
            },
    )
}

/// The value of a hexadecimal digit of either case, given in ASCII.
pub open spec fn nibble(b: u8) -> Option<u8> {
    if 48 <= b <= 57 {
        Some((b - 48) as u8)
    } else if 97 <= b <= 102 {
        Some((b - 87) as u8)
    } else if 65 <= b <= 70 {
        Some((b - 55) as u8)
    } else {
        None
    }
}

/// Whether every byte is a hexadecimal digit.
pub open spec fn all_hex(b: Seq<u8>) -> bool {
    forall|i: int| 0 <= i < b.len() ==> nibble(#[trigger] b[i]) is Some
}

/// The bytes that a row of hexadecimal digits stands for, two digits each.
pub open spec fn hex_bytes(b: Seq<u8>) -> Seq<u8> {
    Seq::new(
        b.len() / 2,
        |i: int| (16 * nibble(b[2 * i])->0 + nibble(b[2 * i + 1])->0) as u8,
    )
}

/// The bytes that a text stands for in hexadecimal, if it does.
pub open spec fn decoded_hex(s: Seq<char>) -> Option<Seq<u8>> {
    let b = encode_utf8(s);
    if b.len() % 2 == 0 && all_hex(b) {
        Some(hex_bytes(b))
    } else {
        None
    }
}

/// What is said of a text that is no hexadecimal.
pub open spec fn hex_complaint(s: Seq<char>) -> Seq<char> {
    if encode_utf8(s).len() % 2 != 0 {
        "十六进制编码长度为奇数"@
    } else {
        "十六进制编码含非十六进制字符"@
    }
}

fn hex_char(n: u8) -> (r: char)
    requires
        n < 16,
    ensures
        r == hex_digit(n as int),
{
    if n < 10 {
        (48 + n) as char
    } else {
        (87 + n) as char
    }
}

fn hex_value(b: u8) -> (r: Option<u8>)
    ensures
        r == nibble(b),
        r matches Some(v) ==> v < 16,
{
    if 48 <= b && b <= 57 {
        Some(b - 48)
    } else if 97 <= b && b <= 102 {
        Some(b - 87)
    } else if 65 <= b && b <= 70 {
        Some(b - 55)
    } else {
        None
    }
}

/// Lower-case hexadecimal.
pub fn hex_encode(bytes: &[u8]) -> (r: String)
    ensures
        r@ == hex_text(bytes@),
{
    let mut s = String::new();
    let mut i: usize = 0;
    while i < bytes.len()
        invariant
            i <= bytes@.len(),
            s@ == hex_text(bytes@.take(i as int)),
        decreases bytes@.len() - i,
    {
        let b: u8 = bytes[i];
        s.push(hex_char(b / 16));
        s.push(hex_char(b % 16));
        i += 1;
        assert(s@ =~= hex_text(bytes@.take(i as int)));
    }
    assert(bytes@.take(bytes@.len() as int) =~= bytes@);
    s
}

/// Hexadecimal of either case back to bytes.
pub fn hex_decode(s: &str) -> (r: Result<Vec<u8>, AppError>)
    ensures
        match decoded_hex(s@) {
            Some(b) => r matches Ok(v) && v@ == b,
            None => error::is_other(r, hex_complaint(s@)),
        },
{
    let b = s.as_bytes();
    let n: usize = b.len();
    if n % 2 != 0 {
        return Err(AppError::new("十六进制编码长度为奇数"));
    }
    let mut out: Vec<u8> = Vec::new();
    let mut i: usize = 0;
    while i < n
        invariant
            i <= n == b@.len(),
            n % 2 == 0,
            i % 2 == 0,
            b@ == encode_utf8(s@),
            out@.len() == i / 2,
            forall|k: int| 0 <= k < i ==> nibble(#[trigger] b@[k]) is Some,
            forall|k: int| 0 <= k < i / 2 ==> #[trigger] out@[k] == hex_bytes(b@)[k],
        decreases n - i,
    {
        match (hex_value(b[i]), hex_value(b[i + 1])) {
            (Some(high), Some(low)) => {
                out.push(high * 16 + low);
            },
            _ => {
                assert(nibble(b@[i as int]) is None || nibble(b@[i + 1]) is None);
                return Err(AppError::new("十六进制编码含非十六进制字符"));
            },
        }
        i += 2;
    }
    assert(out@ =~= hex_bytes(b@));
    Ok(out)
}

/// What a raw machine name becomes: without white space around it and at most
/// `DEVICE_NAME_MAX_LEN` characters long, or the fallback where nothing is left.
pub open spec fn normalized_name(raw: Seq<char>) -> Seq<char> {
    let t = text::trimmed(raw);
    if t.len() == 0 {
        DEVICE_NAME_FALLBACK@
    } else if t.len() <= DEVICE_NAME_MAX_LEN {
        t
    } else {
        t.take(DEVICE_NAME_MAX_LEN as int)
    }
}

pub fn normalize_device_name(raw: &str) -> (r: String)
    ensures
        r@ == normalized_name(raw@),
{
    let t = text::trim(raw);
    if t.as_str().is_empty() {
        return DEVICE_NAME_FALLBACK.to_string();
    }
    let chars = text::chars_of(t.as_str());
    if chars.len() <= DEVICE_NAME_MAX_LEN {
        t
    } else {
        let r = text::text_of(&chars, 0, DEVICE_NAME_MAX_LEN);
        assert(r@ =~= t@.take(DEVICE_NAME_MAX_LEN as int));
        r
    }
}

/// A name that may stand for a device: not blank, and not longer than a name may be.
pub open spec fn presentable_name(name: Seq<char>) -> bool {
    !text::blank(name) && name.len() <= DEVICE_NAME_MAX_LEN
}

/// The device name that follows from what was read as the machine's name.
pub fn device_name_from(raw: Option<String>) -> (r: String)
    ensures
        r@ == normalized_name(
            match raw {
                Some(s) => s@,
                None => seq![],
            },
        ),
        presentable_name(r@),
{
    let raw_text = match raw {
        Some(s) => s,
        None => String::new(),
    };
    proof {
        normalized_name_is_presentable(raw_text@);
    }
    normalize_device_name(raw_text.as_str())
}

/// The machine's name as a device name.
pub fn read_device_name() -> (r: String)
    ensures
        presentable_name(r@),
{
    device_name_from(system::host_name())
}

/// A device secret, as it is stored: `SECRET_LEN` bytes in lower-case hexadecimal.
pub open spec fn is_secret(s: Seq<char>) -> bool {
    decoded_hex(s) matches Some(b) && b.len() == SECRET_LEN
}

/// `SECRET_LEN` bytes of the operating system's random source in lower-case hexadecimal. Where
/// that source fails there is no secret.
pub fn generate_device_secret() -> (r: Result<String, AppError>)
    ensures
        match r {
            Ok(s) => is_secret(s@) && s@.len() == 2 * SECRET_LEN && exists|b: Seq<u8>|
                s@ == #[trigger] hex_text(b),
            Err(_) => error::is_other(r, "系统安全随机源不可用"@),
        },
{
    let mut buf: Vec<u8> = vec![0u8; SECRET_LEN];
    match getrandom::getrandom(buf.as_mut_slice()) {
        Ok(()) => {
            proof {
                hex_round_trip(buf@);
            }
            Ok(hex_encode(buf.as_slice()))
        },
        Err(_) => Err(AppError::new("系统安全随机源不可用")),
    }
}

/// What is wrong with an identity, if anything: the first of its checks that fails.
pub open spec fn identity_complaint(id: IdentityView) -> Option<Seq<char>> {
    if !system::is_uuid_text(id.device_id) {
        Some("identity.device_id 不是有效 UUID"@)
    } else {
        match decoded_hex(id.device_secret) {
            None => Some(hex_complaint(id.device_secret)),
            Some(b) => if b.len() != SECRET_LEN {
                Some("identity.device_secret 解码后应为 32 字节，实际 "@ + text::decimal(b.len()))
            } else if text::blank(id.device_name) {
                Some("identity.device_name 不能为空"@)
            } else {
                None
            },
        }
    }
}

/// The checks on an identity: the id is a UUID, the secret has its length, the name is not blank.
pub fn validate_identity(id: &LocalIdentity) -> (r: Result<(), AppError>)
    ensures
        match identity_complaint(id@) {
            None => r is Ok,
            Some(m) => error::is_other(r, m),
        },
{
    if !system::parses_as_uuid(id.device_id.as_str()) {
        return Err(AppError::new("identity.device_id 不是有效 UUID"));
    }
    let secret = match hex_decode(id.device_secret.as_str()) {
        Ok(b) => b,
        Err(e) => {
            return Err(e);
        },
    };
    if secret.len() != SECRET_LEN {
        let mut m = "identity.device_secret 解码后应为 32 字节，实际 ".to_string();
        m.append(text::decimal_text(secret.len() as u64).as_str());
        return Err(AppError::Other(m));
    }
    proof {
        text::trimmed_visible(id.device_name@);
    }
    if text::trim(id.device_name.as_str()).as_str().is_empty() {
        return Err(AppError::new("identity.device_name 不能为空"));
    }
    Ok(())
}

/// A new identity. It passes its own checks; where the random source fails there is none.
pub fn new_identity() -> (r: Result<LocalIdentity, AppError>)
    ensures
        match r {
            Ok(id) => identity_complaint(id@) is None && system::is_v4_text(id@.device_id)
                && presentable_name(id@.device_name),
            Err(_) => error::is_other(r, "系统安全随机源不可用"@),
        },
{
    let device_id = system::random_uuid();
    let device_name = read_device_name();
    match generate_device_secret() {
        Ok(device_secret) => Ok(LocalIdentity { device_id, device_name, device_secret }),
        Err(e) => Err(e),
    }
}

/// A hexadecimal form has no upper-case letters.
pub proof fn hex_is_lower(bytes: Seq<u8>)
    ensures
        text::lowered(hex_text(bytes)) == hex_text(bytes),
{
    let t = hex_text(bytes);
    assert forall|i: int| 0 <= i < t.len() implies text::lower(#[trigger] t[i]) == t[i] by {
        let n = if i % 2 == 0 {
            bytes[i / 2] as int / 16
        } else {
            bytes[i / 2] as int % 16
        };
        assert(t[i] == hex_digit(n));
    }
    assert(text::lowered(t) =~= t);
}

/// What `hex_encode` writes, `hex_decode` reads back.
pub proof fn hex_round_trip(bytes: Seq<u8>)
    ensures
        decoded_hex(hex_text(bytes)) == Some(bytes),
{
    let s = hex_text(bytes);
    assert forall|i: int| 0 <= i < s.len() implies 48 <= #[trigger] s[i] as u32 <= 102 by {
        assert(0 <= bytes[i / 2] as int / 16 < 16);
    }
    assert(is_ascii_chars(s));
    is_ascii_chars_encode_utf8(s);
    let b = encode_utf8(s);
    assert forall|i: int| 0 <= i < b.len() implies nibble(#[trigger] b[i]) is Some by {
        assert(b[i] == s[i] as u8);
    }
    assert forall|i: int| 0 <= i < bytes.len() implies #[trigger] hex_bytes(b)[i] == bytes[i] by {
        assert(b[2 * i] == s[2 * i] as u8);
        assert(b[2 * i + 1] == s[2 * i + 1] as u8);
        assert((2 * i) % 2 == 0 && (2 * i) / 2 == i);
        assert((2 * i + 1) % 2 == 1 && (2 * i + 1) / 2 == i);
    }
    assert(hex_bytes(b) =~= bytes);
}

/// A device name is never blank and never too long, whatever the machine is called.
pub proof fn normalized_name_is_presentable(raw: Seq<char>)
    ensures
        presentable_name(normalized_name(raw)),
{
    let t = text::trimmed(raw);
    text::trimmed_visible(raw);
    let name = normalized_name(raw);
    if t.len() == 0 {
        reveal_strlit("Windows-PC");
        assert(name[0] == 'W');
        assert(!text::white_space(name[0]));
    } else {
        assert(name[0] == t[0]);
        assert(!text::white_space(name[0]));
    }
}

/// A byte is written as two digits, the one for its sixteens first: 0 to 9 as those digits, 10 to
/// 15 as the letters a to f.
pub proof fn hex_digit_by_digit(bytes: Seq<u8>, i: int)
    requires
        0 <= i < bytes.len(),
    ensures
        hex_text(bytes).len() == 2 * bytes.len(),
        ({
            let high = hex_text(bytes)[2 * i] as u32;
            let low = hex_text(bytes)[2 * i + 1] as u32;
            let h = bytes[i] as int / 16;
            let l = bytes[i] as int % 16;
            &&& h < 10 ==> high == 48 + h
            &&& h >= 10 ==> high == 97 + (h - 10)
            &&& l < 10 ==> low == 48 + l
            &&& l >= 10 ==> low == 97 + (l - 10)
        }),
{
    assert((2 * i) % 2 == 0 && (2 * i) / 2 == i);
    assert((2 * i + 1) % 2 == 1 && (2 * i + 1) / 2 == i);
}

/// A text is read as hexadecimal exactly where it has an even number of bytes, each of them a digit
/// or a letter from a to f of either case.
pub proof fn hexadecimal_texts(s: Seq<char>)
    ensures
        decoded_hex(s) is Some <==> encode_utf8(s).len() % 2 == 0 && forall|i: int|
            0 <= i < encode_utf8(s).len() ==> {
                let b = #[trigger] encode_utf8(s)[i];
                48 <= b <= 57 || 65 <= b <= 70 || 97 <= b <= 102
            },
        decoded_hex(s) matches Some(v) ==> 2 * v.len() == encode_utf8(s).len(),
{
    let b = encode_utf8(s);
    if decoded_hex(s) is Some {
        assert forall|i: int| 0 <= i < b.len() implies 48 <= #[trigger] b[i] <= 57 || 65 <= b[i]
            <= 70 || 97 <= b[i] <= 102 by {
            assert(nibble(b[i]) is Some);
        }
    }
}

/// A device is called what its machine is called, without white space around it and cut at 64
/// characters; where nothing is left it has the fallback name.
pub proof fn device_name_is_the_machines(raw: Seq<char>)
    ensures
        text::blank(raw) ==> normalized_name(raw) == "Windows-PC"@,
        !text::blank(raw) ==> normalized_name(raw).is_prefix_of(text::trimmed(raw)),
        !text::blank(raw) && text::trimmed(raw).len() <= 64 ==> normalized_name(raw)
            == text::trimmed(raw),
        !text::blank(raw) && text::trimmed(raw).len() > 64 ==> normalized_name(raw).len() == 64,
{
    text::trimmed_visible(raw);
}

/// An identity passes its checks exactly where its id is a UUID, its secret is 64 hexadecimal
/// digits, and its name has a visible character. Nothing else about it matters.
pub proof fn checks_on_an_identity(id: IdentityView)
    ensures
        identity_complaint(id) is None <==> system::is_uuid_text(id.device_id) && decoded_hex(
            id.device_secret,
        ) is Some && encode_utf8(id.device_secret).len() == 64 && exists|i: int|
            0 <= i < id.device_name.len() && !text::white_space(#[trigger] id.device_name[i]),
{
    hexadecimal_texts(id.device_secret);
}

/// A name may stand for a device exactly where it has a visible character and at most 64 in all.
pub proof fn presentable_names(name: Seq<char>)
    ensures
        presentable_name(name) <==> name.len() <= 64 && exists|i: int|
            0 <= i < name.len() && !text::white_space(#[trigger] name[i]),
{
}

/// Hexadecimal digits are read two by two, the first one counting sixteen times: digits as
/// themselves, letters of either case from 10 up.
pub proof fn hexadecimal_values(s: Seq<char>, i: int, high: int, low: int)
    requires
        decoded_hex(s) is Some,
        0 <= i < encode_utf8(s).len() / 2,
        ({
            let b = encode_utf8(s);
            let h = b[2 * i] as int;
            let l = b[2 * i + 1] as int;
            &&& h <= 57 ==> high == h - 48
            &&& 65 <= h <= 70 ==> high == h - 65 + 10
            &&& 97 <= h ==> high == h - 97 + 10
            &&& l <= 57 ==> low == l - 48
            &&& 65 <= l <= 70 ==> low == l - 65 + 10
            &&& 97 <= l ==> low == l - 97 + 10
        }),
    ensures
        decoded_hex(s)->0[i] == 16 * high + low,
{
    let b = encode_utf8(s);
    assert(nibble(b[2 * i]) is Some);
    assert(nibble(b[2 * i + 1]) is Some);
}

/// A secret is 64 hexadecimal digits.
pub proof fn secrets_in_digits(s: Seq<char>)
    ensures
        is_secret(s) <==> decoded_hex(s) is Some && encode_utf8(s).len() == 64,
{
    hexadecimal_texts(s);
}

/// Which of the complaints about an identity comes: the id's before the secret's, and that before
/// the name's.
pub proof fn identity_complaints_in_order(id: IdentityView)
    ensures
        !system::is_uuid_text(id.device_id) ==> identity_complaint(id) == Some(
            "identity.device_id 不是有效 UUID"@,
        ),
        system::is_uuid_text(id.device_id) && decoded_hex(id.device_secret) is None
            ==> identity_complaint(id) == Some(hex_complaint(id.device_secret)),
        system::is_uuid_text(id.device_id) && is_secret(id.device_secret) && text::blank(
            id.device_name,
        ) ==> identity_complaint(id) == Some("identity.device_name 不能为空"@),
        encode_utf8(id.device_secret).len() % 2 == 1 ==> hex_complaint(id.device_secret)
            == "十六进制编码长度为奇数"@,
        encode_utf8(id.device_secret).len() % 2 == 0 ==> hex_complaint(id.device_secret)
            == "十六进制编码含非十六进制字符"@,
{
}

} // verus!
