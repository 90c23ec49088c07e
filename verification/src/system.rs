use sha2::Digest;
use vstd::prelude::*;
use vstd::utf8::*;

verus! {

/// The error of the operating system's random source.
#[verifier::external_type_specification]
#[verifier::external_body]
pub struct ExRandomError(getrandom::Error);

/// A point in time on the machine's clock.
#[verifier::external_type_specification]
#[verifier::external_body]
pub struct ExSystemTime(std::time::SystemTime);

/// `getrandom::getrandom` fills a buffer from the operating system's random source. Which bytes
/// come, and whether it succeeds, the machine decides; the length of the buffer stays.
pub assume_specification[ getrandom::getrandom ](dest: &mut [u8]) -> (r: Result<
    (),
    getrandom::Error,
>)
    ensures
        final(dest)@.len() == old(dest)@.len(),
;

/// A hexadecimal digit of either case.
pub open spec fn is_hex_char(c: char) -> bool {
    '0' <= c <= '9' || 'a' <= c <= 'f' || 'A' <= c <= 'F'
}

/// A hexadecimal digit that is no upper-case letter.
pub open spec fn is_lower_hex_char(c: char) -> bool {
    '0' <= c <= '9' || 'a' <= c <= 'f'
}

/// Where the hyphens of a hyphenated UUID stand.
pub open spec fn is_hyphen_place(i: int) -> bool {
    i == 8 || i == 13 || i == 18 || i == 23
}

/// A hyphenated UUID: 32 hexadecimal digits in groups of 8, 4, 4, 4 and 12.
pub open spec fn is_hyphenated(s: Seq<char>) -> bool {
    &&& s.len() == 36
    &&& forall|i: int|
        0 <= i < 36 ==> if is_hyphen_place(i) {
            #[trigger] s[i] == '-'
        } else {
            is_hex_char(s[i])
        }
}

/// A UUID in one of the four forms in use: 32 digits, hyphenated, hyphenated in braces, or
/// hyphenated behind `urn:uuid:`.
pub open spec fn is_uuid_text(s: Seq<char>) -> bool {
    ||| s.len() == 32 && forall|i: int| 0 <= i < 32 ==> is_hex_char(#[trigger] s[i])
    ||| is_hyphenated(s)
    ||| s.len() == 38 && s[0] == '{' && s[37] == '}' && is_hyphenated(s.subrange(1, 37))
    ||| s.len() == 45 && crate::text::lowered(s.subrange(0, 9)) == "urn:uuid:"@ && is_hyphenated(
        s.subrange(9, 45),
    )
}

/// A random UUID as it is printed: hyphenated, lower-case, of version 4 and the usual variant.
pub open spec fn is_v4_text(s: Seq<char>) -> bool {
    &&& is_hyphenated(s)
    &&& forall|i: int| 0 <= i < 36 && !is_hyphen_place(i) ==> is_lower_hex_char(#[trigger] s[i])
    &&& s[14] == '4'
    &&& s[19] == '8' || s[19] == '9' || s[19] == 'a' || s[19] == 'b'
}

/// `uuid::Uuid::parse_str` succeeds on the texts that `is_uuid_text` describes and on no other.
#[verifier::external_body]
pub(crate) fn parses_as_uuid(s: &str) -> (r: bool)
    ensures
        r == is_uuid_text(s@),
{
    uuid::Uuid::parse_str(s).is_ok()
}

/// `uuid::Uuid::new_v4`, printed: some random UUID. That it differs from the UUIDs made before is
/// left to chance and not stated. The call panics where the operating system has no random source.
#[verifier::external_body]
pub(crate) fn random_uuid() -> (r: String)
    ensures
        is_v4_text(r@),
{
    uuid::Uuid::new_v4().to_string()
}

/// The SHA-256 digest of a byte sequence.
pub uninterp spec fn sha256(data: Seq<u8>) -> Seq<u8>;

/// `sha2::Sha256::digest`: the digest of the data, which has 32 bytes. SHA-256 counts the bits of
/// its input in 64 bits.
#[verifier::external_body]
pub(crate) fn sha256_digest(data: &[u8]) -> (r: Vec<u8>)
    requires
        data@.len() <= 0x1fff_ffff_ffff_ffff,
    ensures
        r@ == sha256(data@),
        r@.len() == 32,
{
    sha2::Sha256::digest(data).to_vec()
}

/// `hostname::get`: the machine's name, where it can be read and is Unicode. Nothing is claimed of
/// it.
#[verifier::external_body]
pub(crate) fn host_name() -> (r: Option<String>) {
    hostname::get().ok().and_then(|h| h.to_str().map(|s| s.to_string()))
}

/// `String::from_utf8`: the text that the bytes encode, if they are UTF-8.
#[verifier::external_body]
pub(crate) fn text_from_utf8(bytes: Vec<u8>) -> (r: Option<String>)
    ensures
        r is Some <==> valid_utf8(bytes@),
        r matches Some(s) ==> s@ == decode_utf8(bytes@),
{
    String::from_utf8(bytes).ok()
}

/// `std::time::SystemTime::now`: nothing is claimed of the clock.
#[verifier::external_body]
pub(crate) fn clock() -> (r: std::time::SystemTime) {
    std::time::SystemTime::now()
}

/// `std::time::SystemTime::duration_since` the Unix epoch; `None` for a clock that is set before
/// it. Nothing is claimed of the duration.
#[verifier::external_body]
pub(crate) fn since_epoch(t: &std::time::SystemTime) -> (r: Option<core::time::Duration>) {
    t.duration_since(std::time::UNIX_EPOCH).ok()
}

/// `std::time::Duration::as_millis`: the whole milliseconds of a duration. What a duration holds
/// is not modelled, so nothing is claimed of the number.
#[verifier::external_body]
pub(crate) fn whole_millis(d: &core::time::Duration) -> (r: u128) {
    d.as_millis()
}

/// `std::time::Duration::as_secs`: the whole seconds of a duration. What a duration holds is not
/// modelled, so nothing is claimed of the number.
#[verifier::external_body]
pub(crate) fn whole_seconds(d: &core::time::Duration) -> (r: u64) {
    d.as_secs()
}

/// A random UUID in its places: 36 characters, four hyphens, a 4 for the version, and lower-case
/// hexadecimal digits everywhere else. It is a UUID like any other.
pub proof fn random_uuids_in_their_places(s: Seq<char>, i: int)
    requires
        is_v4_text(s),
        0 <= i < 36,
    ensures
        s.len() == 36,
        s[8] == '-' && s[13] == '-' && s[18] == '-' && s[23] == '-',
        s[14] == '4',
        i != 8 && i != 13 && i != 18 && i != 23 ==> 48 <= s[i] as u32 <= 57 || 97 <= s[i] as u32
            <= 102,
        is_uuid_text(s),
{
    assert(is_hyphen_place(8) && is_hyphen_place(13) && is_hyphen_place(18) && is_hyphen_place(23));
}

/// Texts that are UUIDs have 32, 36, 38 or 45 characters; of 36 they have hyphens at the four places
/// and hexadecimal digits elsewhere.
pub proof fn uuids_by_length(s: Seq<char>)
    ensures
        is_uuid_text(s) ==> s.len() == 32 || s.len() == 36 || s.len() == 38 || s.len() == 45,
        s.len() == 36 ==> (is_uuid_text(s) <==> is_hyphenated(s)),
        s.len() == 32 && (forall|i: int|
            0 <= i < 32 ==> ('0' <= #[trigger] s[i] <= '9' || 'a' <= s[i] <= 'f'))
            ==> is_uuid_text(s),
{
}

} // verus!
