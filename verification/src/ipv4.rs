use crate::text;
use vstd::prelude::*;
use vstd::string::*;

verus! {

/// The four parts of an address, from the left.
pub open spec fn octet(ip: u32, i: int) -> nat {
    if i == 0 {
        (ip as nat) / 0x100_0000
    } else if i == 1 {
        ((ip as nat) / 0x1_0000) % 256
    } else if i == 2 {
        ((ip as nat) / 0x100) % 256
    } else {
        (ip as nat) % 256
    }
}

/// An address in dotted decimal, without leading zeros.
pub open spec fn dotted(ip: u32) -> Seq<char> {
    text::decimal(octet(ip, 0)) + seq!['.'] + text::decimal(octet(ip, 1)) + seq!['.']
        + text::decimal(octet(ip, 2)) + seq!['.'] + text::decimal(octet(ip, 3))
}

/// An address that can be a peer's: not unspecified, not loopback (127/8), not link-local
/// (169.254/16), not multicast, reserved or broadcast (224/3).
pub open spec fn usable(ip: u32) -> bool {
    &&& ip != 0
    &&& octet(ip, 0) != 127
    &&& !(octet(ip, 0) == 169 && octet(ip, 1) == 254)
    &&& octet(ip, 0) < 224
}

pub fn is_usable(ip: u32) -> (r: bool)
    ensures
        r == usable(ip),
        r == (1 <= ip < 0xe000_0000 && !(0x7f00_0000 <= ip <= 0x7fff_ffff) && !(0xa9fe_0000 <= ip
            <= 0xa9fe_ffff)),
{
    let a: u32 = ip / 0x100_0000;
    let b: u32 = (ip / 0x1_0000) % 256;
    ip != 0 && a != 127 && !(a == 169 && b == 254) && a < 224
}

pub fn dotted_text(ip: u32) -> (r: String)
    ensures
        r@ == dotted(ip),
{
    let mut s = text::decimal_text((ip / 0x100_0000) as u64);
    s.push('.');
    s.append(text::decimal_text(((ip / 0x1_0000) % 256) as u64).as_str());
    s.push('.');
    s.append(text::decimal_text(((ip / 0x100) % 256) as u64).as_str());
    s.push('.');
    s.append(text::decimal_text((ip % 256) as u64).as_str());
    assert(s@ =~= dotted(ip));
    s
}

/// The value of the decimal digit at a place in a text, if there is one.
pub open spec fn digit_at(s: Seq<char>, p: int) -> Option<nat> {
    if 0 <= p < s.len() && '0' <= s[p] <= '9' {
        Some((s[p] as u32 - 48) as nat)
    } else {
        None
    }
}

/// The number below 256 that is written at a place in a text, without leading zeros and with no
/// further digit behind it, and the place behind it.
#[verifier::opaque]
spec fn octet_at(s: Seq<char>, p: int) -> Option<(nat, int)> {
    match (digit_at(s, p), digit_at(s, p + 1), digit_at(s, p + 2), digit_at(s, p + 3)) {
        (None, _, _, _) => None,
        (Some(a), None, _, _) => Some((a, p + 1)),
        (Some(a), Some(b), None, _) => if a == 0 {
            None
        } else {
            Some((10 * a + b, p + 2))
        },
        (Some(a), Some(b), Some(c), None) => if a == 0 || 100 * a + 10 * b + c > 255 {
            None
        } else {
            Some((100 * a + 10 * b + c, p + 3))
        },
        _ => None,
    }
}

fn read_digit(chars: &Vec<char>, p: usize) -> (r: Option<u32>)
    ensures
        match r {
            Some(d) => digit_at(chars@, p as int) == Some(d as nat) && d < 10,
            None => digit_at(chars@, p as int) is None,
        },
{
    if p < chars.len() && '0' <= chars[p] && chars[p] <= '9' {
        Some(chars[p] as u32 - 48)
    } else {
        None
    }
}

fn read_octet(chars: &Vec<char>, p: usize) -> (r: Option<(u32, usize)>)
    requires
        p <= chars@.len(),
    ensures
        match r {
            Some((v, q)) => octet_at(chars@, p as int) == Some((v as nat, q as int)) && v < 256
                && q <= chars@.len(),
            None => octet_at(chars@, p as int) is None,
        },
{
    reveal(octet_at);
    if p == chars.len() {
        return None;
    }
    let a: u32 = match read_digit(chars, p) {
        Some(d) => d,
        None => {
            return None;
        },
    };
    let b: u32 = match read_digit(chars, p + 1) {
        Some(d) => d,
        None => {
            return Some((a, p + 1));
        },
    };
    let c: u32 = match read_digit(chars, p + 2) {
        Some(d) => d,
        None => {
            if a == 0 {
                return None;
            }
            return Some((10 * a + b, p + 2));
        },
    };
    if read_digit(chars, p + 3).is_some() || a == 0 {
        return None;
    }
    let v: u32 = 100 * a + 10 * b + c;
    if v > 255 {
        None
    } else {
        Some((v, p + 3))
    }
}

/// The decimal form of a number below 256, digit by digit.
pub proof fn short_decimal(v: nat)
    requires
        v < 256,
    ensures
        v < 10 ==> text::decimal(v) == seq![text::digit(v)],
        10 <= v < 100 ==> text::decimal(v) == seq![text::digit(v / 10), text::digit(v % 10)],
        100 <= v ==> text::decimal(v) == seq![
            text::digit(v / 100),
            text::digit((v / 10) % 10),
            text::digit(v % 10),
        ],
{
    reveal_with_fuel(text::decimal, 4);
    assert((v / 10) / 10 == v / 100);
    if 10 <= v < 100 {
        assert(text::decimal(v) =~= seq![text::digit(v / 10), text::digit(v % 10)]);
    }
    if 100 <= v {
        assert(text::decimal(v) =~= seq![
            text::digit(v / 100),
            text::digit((v / 10) % 10),
            text::digit(v % 10),
        ]);
    }
}

/// What `octet_at` reads stands there in decimal.
proof fn octet_read(s: Seq<char>, p: int)
    requires
        0 <= p <= s.len(),
    ensures
        octet_at(s, p) matches Some((v, q)) ==> v < 256 && p < q <= s.len() && s.subrange(p, q)
            == text::decimal(v),
{
    reveal(octet_at);
    if let Some((v, q)) = octet_at(s, p) {
        assert(v < 256);
        short_decimal(v);
        assert(s.subrange(p, q) =~= text::decimal(v));
    }
}

/// What stands at a place in decimal, with no digit behind it, `octet_at` reads.
proof fn octet_found(s: Seq<char>, p: int, v: nat)
    requires
        v < 256,
        0 <= p,
        p + text::decimal(v).len() <= s.len(),
        s.subrange(p, p + text::decimal(v).len()) == text::decimal(v),
        digit_at(s, p + text::decimal(v).len()) is None,
    ensures
        octet_at(s, p) == Some((v, p + text::decimal(v).len())),
{
    reveal(octet_at);
    short_decimal(v);
    let d = text::decimal(v);
    let t = s.subrange(p, p + d.len());
    assert(t[0] == s[p]);
    if v >= 10 {
        assert(t[1] == s[p + 1]);
    }
    if v >= 100 {
        assert(t[2] == s[p + 2]);
    }
}

/// Where the parts of a dotted address stand.
proof fn dotted_read(s: Seq<char>, ip: u32)
    requires
        s == dotted(ip),
    ensures
        ({
            let p1 = text::decimal(octet(ip, 0)).len() as int;
            let p2 = p1 + 1 + text::decimal(octet(ip, 1)).len();
            let p3 = p2 + 1 + text::decimal(octet(ip, 2)).len();
            &&& octet_at(s, 0) == Some((octet(ip, 0), p1))
            &&& p1 < s.len() && s[p1] == '.'
            &&& octet_at(s, p1 + 1) == Some((octet(ip, 1), p2))
            &&& p2 < s.len() && s[p2] == '.'
            &&& octet_at(s, p2 + 1) == Some((octet(ip, 2), p3))
            &&& p3 < s.len() && s[p3] == '.'
            &&& octet_at(s, p3 + 1) == Some((octet(ip, 3), s.len() as int))
        }),
{
    let d0 = text::decimal(octet(ip, 0));
    let d1 = text::decimal(octet(ip, 1));
    let d2 = text::decimal(octet(ip, 2));
    let d3 = text::decimal(octet(ip, 3));
    let p1 = d0.len() as int;
    let p2 = p1 + 1 + d1.len();
    let p3 = p2 + 1 + d2.len();
    assert(s.subrange(0, p1) =~= d0);
    assert(s.subrange(p1 + 1, p2) =~= d1);
    assert(s.subrange(p2 + 1, p3) =~= d2);
    assert(s.subrange(p3 + 1, s.len() as int) =~= d3);
    octet_found(s, 0, octet(ip, 0));
    octet_found(s, p1 + 1, octet(ip, 1));
    octet_found(s, p2 + 1, octet(ip, 2));
    octet_found(s, p3 + 1, octet(ip, 3));
}

/// The parts of the address that four parts make.
proof fn octets_of(a: u32, b: u32, c: u32, d: u32)
    requires
        a < 256,
        b < 256,
        c < 256,
        d < 256,
    ensures
        ({
            let ip = (a * 0x100_0000 + b * 0x1_0000 + c * 0x100 + d) as u32;
            octet(ip, 0) == a && octet(ip, 1) == b && octet(ip, 2) == c && octet(ip, 3) == d
        }),
{
    let ip = (a * 0x100_0000 + b * 0x1_0000 + c * 0x100 + d) as u32;
    assert(ip / 0x100_0000 == a && (ip / 0x1_0000) % 256 == b && (ip / 0x100) % 256 == c && ip % 256
        == d) by (bit_vector)
        requires
            a < 256,
            b < 256,
            c < 256,
            d < 256,
            ip == a * 0x100_0000 + b * 0x1_0000 + c * 0x100 + d,
    ;
}

/// The address that four parts make.
pub fn from_parts(a: u32, b: u32, c: u32, d: u32) -> (r: u32)
    requires
        a < 256,
        b < 256,
        c < 256,
        d < 256,
    ensures
        octet(r, 0) == a,
        octet(r, 1) == b,
        octet(r, 2) == c,
        octet(r, 3) == d,
{
    proof {
        octets_of(a, b, c, d);
    }
    a * 0x100_0000 + b * 0x1_0000 + c * 0x100 + d
}

/// The address that a text gives in dotted decimal. Parts have no leading zeros.
pub fn parse(s: &str) -> (r: Option<u32>)
    ensures
        match r {
            Some(ip) => s@ == dotted(ip),
            None => forall|ip: u32| s@ != #[trigger] dotted(ip),
        },
{
    let chars = text::chars_of(s);
    match read_parts(&chars) {
        Some((a, b, c, d)) => Some(from_parts(a, b, c, d)),
        None => None,
    }
}

fn read_parts(chars: &Vec<char>) -> (r: Option<(u32, u32, u32, u32)>)
    ensures
        match r {
            Some((a, b, c, d)) => a < 256 && b < 256 && c < 256 && d < 256 && chars@
                == text::decimal(a as nat) + seq!['.'] + text::decimal(b as nat) + seq!['.']
                + text::decimal(c as nat) + seq!['.'] + text::decimal(d as nat),
            None => forall|ip: u32| chars@ != #[trigger] dotted(ip),
        },
{
    let ghost s = chars@;
    proof {
        assert forall|ip: u32| s == #[trigger] dotted(ip) implies ({
            &&& octet_at(s, 0) matches Some((_, p1))
            &&& p1 < s.len()
            &&& s[p1] == '.'
            &&& octet_at(s, p1 + 1) matches Some((_, p2))
            &&& p2 < s.len()
            &&& s[p2] == '.'
            &&& octet_at(s, p2 + 1) matches Some((_, p3))
            &&& p3 < s.len()
            &&& s[p3] == '.'
            &&& octet_at(s, p3 + 1) matches Some((_, p4))
            &&& p4 == s.len()
        }) by {
            dotted_read(s, ip);
        }
    }
    let n: usize = chars.len();
    let (a, p1): (u32, usize) = match read_octet(chars, 0) {
        Some(x) => x,
        None => {
            return None;
        },
    };
    if p1 == n || chars[p1] != '.' {
        return None;
    }
    let (b, p2): (u32, usize) = match read_octet(chars, p1 + 1) {
        Some(x) => x,
        None => {
            return None;
        },
    };
    if p2 == n || chars[p2] != '.' {
        return None;
    }
    let (c, p3): (u32, usize) = match read_octet(chars, p2 + 1) {
        Some(x) => x,
        None => {
            return None;
        },
    };
    if p3 == n || chars[p3] != '.' {
        return None;
    }
    let (d, p4): (u32, usize) = match read_octet(chars, p3 + 1) {
        Some(x) => x,
        None => {
            return None;
        },
    };
    if p4 != n {
        return None;
    }
    proof {
        octet_read(s, 0);
        octet_read(s, p1 + 1);
        octet_read(s, p2 + 1);
        octet_read(s, p3 + 1);
        assert(s =~= s.subrange(0, p1 as int) + seq!['.'] + s.subrange(p1 + 1, p2 as int)
            + seq!['.'] + s.subrange(p2 + 1, p3 as int) + seq!['.'] + s.subrange(
            p3 + 1,
            p4 as int,
        ));
    }
    Some((a, b, c, d))
}

/// No two addresses are written the same way.
pub proof fn dotted_is_unique(x: u32, y: u32)
    requires
        dotted(x) == dotted(y),
    ensures
        x == y,
{
    let s = dotted(x);
    dotted_read(s, x);
    dotted_read(s, y);
    assert(octet(x, 0) == octet(y, 0));
    assert(octet(x, 1) == octet(y, 1));
    assert(octet(x, 2) == octet(y, 2));
    assert(octet(x, 3) == octet(y, 3));
    assert(x == y) by (bit_vector)
        requires
            x / 0x100_0000 == y / 0x100_0000,
            (x / 0x1_0000) % 256 == (y / 0x1_0000) % 256,
            (x / 0x100) % 256 == (y / 0x100) % 256,
            x % 256 == y % 256,
    ;
}

/// Which addresses a peer can have, in numbers: all from 0.0.0.1 up to 223.255.255.255, but for
/// those from 127.0.0.0 to 127.255.255.255 and from 169.254.0.0 to 169.254.255.255.
pub proof fn usable_in_numbers(ip: u32)
    ensures
        1 <= ip <= 0x7eff_ffff ==> usable(ip),
        0x8000_0000 <= ip <= 0xa9fd_ffff ==> usable(ip),
        0xa9ff_0000 <= ip <= 0xdfff_ffff ==> usable(ip),
        ip == 0 ==> !usable(ip),
        0x7f00_0000 <= ip <= 0x7fff_ffff ==> !usable(ip),
        0xa9fe_0000 <= ip <= 0xa9fe_ffff ==> !usable(ip),
        ip >= 0xe000_0000 ==> !usable(ip),
{
}

/// An address is made of its four parts, each below 256, the first one counting most.
pub proof fn parts_make_the_address(ip: u32)
    ensures
        octet(ip, 0) < 256 && octet(ip, 1) < 256 && octet(ip, 2) < 256 && octet(ip, 3) < 256,
        ip == octet(ip, 0) * 0x100_0000 + octet(ip, 1) * 0x1_0000 + octet(ip, 2) * 0x100 + octet(
            ip,
            3,
        ),
{
    assert((ip / 0x100_0000) * 0x100_0000 + ((ip / 0x1_0000) % 256) * 0x1_0000 + ((ip / 0x100)
        % 256) * 0x100 + ip % 256 == ip) by (bit_vector);
}

/// Between its dots an address has its four parts in decimal, in their order, and nothing else.
pub proof fn dotted_has_four_numbers(ip: u32)
    ensures
        text::parts(dotted(ip)) == seq![
            text::decimal(octet(ip, 0)),
            text::decimal(octet(ip, 1)),
            text::decimal(octet(ip, 2)),
            text::decimal(octet(ip, 3)),
        ],
{
    text::decimal_digits(octet(ip, 0));
    text::decimal_digits(octet(ip, 1));
    text::decimal_digits(octet(ip, 2));
    text::decimal_digits(octet(ip, 3));
    text::four_words_are_four_parts(
        text::decimal(octet(ip, 0)),
        text::decimal(octet(ip, 1)),
        text::decimal(octet(ip, 2)),
        text::decimal(octet(ip, 3)),
    );
}

} // verus!
