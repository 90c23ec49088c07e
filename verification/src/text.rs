use vstd::prelude::*;
use vstd::utf8::*;
use vstd::string::*;

verus! {

/// `String::push`: the character is added behind the text.
pub assume_specification[ String::push ](s: &mut String, c: char)
    ensures
        final(s)@ == old(s)@.push(c),
;

/// Whether a character has the Unicode property White_Space.
pub open spec fn white_space(c: char) -> bool {
    let n = c as u32;
    ||| 0x09 <= n <= 0x0d
    ||| n == 0x20
    ||| n == 0x85
    ||| n == 0xa0
    ||| n == 0x1680
    ||| 0x2000 <= n <= 0x200a
    ||| n == 0x2028
    ||| n == 0x2029
    ||| n == 0x202f
    ||| n == 0x205f
    ||| n == 0x3000
}

/// A text without its leading white space.
pub open spec fn trim_start(s: Seq<char>) -> Seq<char>
    decreases s.len(),
{
    if s.len() > 0 && white_space(s[0]) {
        trim_start(s.drop_first())
    } else {
        s
    }
}

/// A text without its trailing white space.
pub open spec fn trim_end(s: Seq<char>) -> Seq<char>
    decreases s.len(),
{
    if s.len() > 0 && white_space(s.last()) {
        trim_end(s.drop_last())
    } else {
        s
    }
}

/// A text without the white space on either side of it.
pub open spec fn trimmed(s: Seq<char>) -> Seq<char> {
    trim_end(trim_start(s))
}

/// Whether a text is white space only.
pub open spec fn blank(s: Seq<char>) -> bool {
    forall|i: int| 0 <= i < s.len() ==> white_space(#[trigger] s[i])
}

/// What is left of a text after trimming at its start: nothing of a blank text, and otherwise a
/// text that starts with a visible character.
pub proof fn trim_start_visible(s: Seq<char>)
    ensures
        blank(s) ==> trim_start(s).len() == 0,
        !blank(s) ==> trim_start(s).len() > 0 && !white_space(trim_start(s)[0]),
        trim_start(s).len() <= s.len(),
    decreases s.len(),
{
    if s.len() > 0 && white_space(s[0]) {
        let rest = s.drop_first();
        trim_start_visible(rest);
        if blank(s) {
            assert forall|i: int| 0 <= i < rest.len() implies white_space(#[trigger] rest[i]) by {
                assert(rest[i] == s[i + 1]);
            }
        } else {
            let k = choose|k: int| 0 <= k < s.len() && !white_space(#[trigger] s[k]);
            assert(rest[k - 1] == s[k]);
        }
    }
}

/// Trimming at the end leaves a visible first character where it is.
pub proof fn trim_end_visible(s: Seq<char>)
    requires
        s.len() > 0,
        !white_space(s[0]),
    ensures
        trim_end(s).len() > 0,
        trim_end(s)[0] == s[0],
    decreases s.len(),
{
    if white_space(s.last()) {
        assert(s.len() > 1);
        trim_end_visible(s.drop_last());
    }
}

/// Trimming leaves nothing exactly of blank texts; what it leaves starts with a visible character.
pub proof fn trimmed_visible(s: Seq<char>)
    ensures
        trimmed(s).len() == 0 <==> blank(s),
        !blank(s) ==> !white_space(trimmed(s)[0]),
{
    trim_start_visible(s);
    if !blank(s) {
        trim_end_visible(trim_start(s));
    }
}

/// Trimming a trimmed text changes nothing.
pub proof fn trimmed_twice(s: Seq<char>)
    ensures
        trimmed(trimmed(s)) == trimmed(s),
{
    trimmed_visible(s);
    let t = trim_start(s);
    trim_end_twice(t);
    let u = trim_end(t);
    if blank(s) {
        trim_start_visible(s);
    } else {
        assert(trim_start(u) == u);
    }
}

proof fn trim_end_twice(s: Seq<char>)
    ensures
        trim_end(trim_end(s)) == trim_end(s),
    decreases s.len(),
{
    if s.len() > 0 && white_space(s.last()) {
        trim_end_twice(s.drop_last());
    }
}

/// Trimming makes no text longer.
pub proof fn trimmed_no_longer(s: Seq<char>)
    ensures
        trimmed(s).len() <= s.len(),
{
    trim_start_visible(s);
    trim_end_no_longer(trim_start(s));
}

proof fn trim_end_no_longer(s: Seq<char>)
    ensures
        trim_end(s).len() <= s.len(),
    decreases s.len(),
{
    if s.len() > 0 && white_space(s.last()) {
        trim_end_no_longer(s.drop_last());
    }
}

pub fn is_white_space(c: char) -> (r: bool)
    ensures
        r == white_space(c),
{
    let n: u32 = c as u32;
    (0x09 <= n && n <= 0x0d) || n == 0x20 || n == 0x85 || n == 0xa0 || n == 0x1680 || (0x2000 <= n
        && n <= 0x200a) || n == 0x2028 || n == 0x2029 || n == 0x202f || n == 0x205f || n == 0x3000
}

/// The characters of a text.
pub fn chars_of(s: &str) -> (r: Vec<char>)
    ensures
        r@ == s@,
{
    let mut out: Vec<char> = Vec::new();
    for c in it: s.chars()
        invariant
            it.seq() == s@,
            out@ == s@.take(it.index() as int),
    {
        out.push(c);
        assert(s@.take(it.index() as int + 1) =~= s@.take(it.index() as int).push(c));
    }
    assert(s@.take(s@.len() as int) =~= s@);
    out
}

/// The text made of the characters from `from` up to `to`.
pub fn text_of(chars: &Vec<char>, from: usize, to: usize) -> (r: String)
    requires
        from <= to <= chars@.len(),
    ensures
        r@ == chars@.subrange(from as int, to as int),
{
    let mut out = String::new();
    let mut i: usize = from;
    assert(out@ =~= chars@.subrange(from as int, from as int));
    while i < to
        invariant
            from <= i <= to <= chars@.len(),
            out@ == chars@.subrange(from as int, i as int),
        decreases to - i,
    {
        out.push(chars[i]);
        i += 1;
        assert(out@ =~= chars@.subrange(from as int, i as int));
    }
    out
}

pub fn trim(s: &str) -> (r: String)
    ensures
        r@ == trimmed(s@),
{
    let chars = chars_of(s);
    let n: usize = chars.len();
    let mut i: usize = 0;
    assert(s@.skip(0) =~= s@);
    while i < n && is_white_space(chars[i])
        invariant
            i <= n == chars@.len(),
            chars@ == s@,
            trim_start(s@) == trim_start(s@.skip(i as int)),
        decreases n - i,
    {
        assert(s@.skip(i as int).drop_first() =~= s@.skip(i as int + 1));
        i += 1;
    }
    let ghost rest = s@.skip(i as int);
    assert(trim_start(s@) == rest);
    let mut j: usize = n;
    assert(s@.subrange(i as int, n as int) =~= rest);
    while j > i && is_white_space(chars[j - 1])
        invariant
            i <= j <= n == chars@.len(),
            chars@ == s@,
            trim_end(rest) == trim_end(s@.subrange(i as int, j as int)),
        decreases j,
    {
        assert(s@.subrange(i as int, j as int).drop_last() =~= s@.subrange(i as int, j as int - 1));
        j -= 1;
    }
    text_of(&chars, i, j)
}

/// Whether two texts are the same.
pub fn same_text(a: &str, b: &str) -> (r: bool)
    ensures
        r == (a@ == b@),
{
    let x = a.as_bytes();
    let y = b.as_bytes();
    proof {
        encode_utf8_decode_utf8(a@);
        encode_utf8_decode_utf8(b@);
    }
    if x.len() != y.len() {
        return false;
    }
    let mut i: usize = 0;
    while i < x.len()
        invariant
            i <= x@.len() == y@.len(),
            x@ == encode_utf8(a@),
            y@ == encode_utf8(b@),
            forall|k: int| 0 <= k < i ==> x@[k] == y@[k],
        decreases x@.len() - i,
    {
        if x[i] != y[i] {
            return false;
        }
        i += 1;
    }
    assert(x@ =~= y@);
    true
}

/// The view of a text that may be absent.
pub open spec fn maybe(t: Option<String>) -> Option<Seq<char>> {
    match t {
        Some(s) => Some(s@),
        None => None,
    }
}

/// The view of a borrowed text that may be absent.
pub open spec fn maybe_str(t: Option<&str>) -> Option<Seq<char>> {
    match t {
        Some(s) => Some(s@),
        None => None,
    }
}

/// Whether a text that may be absent is the given one.
pub fn is_text(t: &Option<String>, want: &str) -> (r: bool)
    ensures
        r == (maybe(*t) == Some(want@)),
{
    match t {
        Some(s) => same_text(s.as_str(), want),
        None => false,
    }
}

/// Whether two texts that may be absent are the same.
pub fn same_maybe(a: &Option<String>, b: &Option<String>) -> (r: bool)
    ensures
        r == (maybe(*a) == maybe(*b)),
{
    match (a, b) {
        (Some(x), Some(y)) => same_text(x.as_str(), y.as_str()),
        (None, None) => true,
        _ => false,
    }
}

/// A copy of a text that may be absent.
pub fn copy_maybe(t: &Option<String>) -> (r: Option<String>)
    ensures
        maybe(r) == maybe(*t),
        r == *t,
{
    match t {
        Some(s) => Some(s.clone()),
        None => None,
    }
}

/// The owned form of a borrowed text that may be absent.
pub fn own_maybe(t: Option<&str>) -> (r: Option<String>)
    ensures
        maybe(r) == maybe_str(t),
{
    match t {
        Some(s) => Some(s.to_string()),
        None => None,
    }
}

/// The decimal digit of a number below ten.
pub open spec fn digit(n: nat) -> char {
    (48 + n) as char
}

/// The decimal form of a number, without leading zeros.
pub open spec fn decimal(n: nat) -> Seq<char>
    decreases n,
{
    if n < 10 {
        seq![digit(n)]
    } else {
        decimal(n / 10).push(digit(n % 10))
    }
}

pub fn decimal_text(n: u64) -> (r: String)
    ensures
        r@ == decimal(n as nat),
    decreases n,
{
    if n < 10 {
        let mut s = String::new();
        s.push((48 + n as u8) as char);
        assert(s@ =~= seq![digit(n as nat)]);
        s
    } else {
        let mut s = decimal_text(n / 10);
        s.push((48 + (n % 10) as u8) as char);
        s
    }
}

/// A character with an upper-case ASCII letter made lower-case.
pub open spec fn lower(c: char) -> char {
    if 'A' <= c <= 'Z' {
        (c as u32 + 32) as char
    } else {
        c
    }
}

/// A text with its upper-case ASCII letters made lower-case.
pub open spec fn lowered(s: Seq<char>) -> Seq<char> {
    s.map_values(|c: char| lower(c))
}

/// Whether `part` stands somewhere in `s`.
pub open spec fn contains_text(s: Seq<char>, part: Seq<char>) -> bool {
    exists|i: int|
        0 <= i <= s.len() - part.len() && #[trigger] s.subrange(i, i + part.len()) == part
}

pub fn lower_char(c: char) -> (r: char)
    ensures
        r == lower(c),
{
    if 'A' <= c && c <= 'Z' {
        (c as u8 + 32) as char
    } else {
        c
    }
}

/// A text with its upper-case ASCII letters made lower-case.
pub fn to_lower(s: &str) -> (r: String)
    ensures
        r@ == lowered(s@),
{
    let chars = chars_of(s);
    let mut r = String::new();
    let mut i: usize = 0;
    assert(r@ =~= lowered(s@).take(0));
    while i < chars.len()
        invariant
            i <= chars@.len(),
            chars@ == s@,
            r@ == lowered(s@).take(i as int),
        decreases chars@.len() - i,
    {
        r.push(lower_char(chars[i]));
        i += 1;
        assert(r@ =~= lowered(s@).take(i as int));
    }
    assert(lowered(s@).take(s@.len() as int) =~= lowered(s@));
    r
}

/// Whether two texts are the same but for the case of ASCII letters.
pub fn same_ignoring_case(a: &str, b: &str) -> (r: bool)
    ensures
        r == (lowered(a@) == lowered(b@)),
{
    let x = chars_of(a);
    let y = chars_of(b);
    if x.len() != y.len() {
        assert(lowered(a@).len() != lowered(b@).len());
        return false;
    }
    let mut i: usize = 0;
    while i < x.len()
        invariant
            i <= x@.len() == y@.len(),
            x@ == a@,
            y@ == b@,
            forall|k: int| 0 <= k < i ==> lower(#[trigger] a@[k]) == lower(b@[k]),
        decreases x@.len() - i,
    {
        if lower_char(x[i]) != lower_char(y[i]) {
            assert(lowered(a@)[i as int] != lowered(b@)[i as int]);
            return false;
        }
        i += 1;
    }
    assert(lowered(a@) =~= lowered(b@));
    true
}

/// Whether a text holds `part`, where the case of the text's ASCII letters does not count.
pub fn lowered_contains(s: &str, part: &str) -> (r: bool)
    ensures
        r == contains_text(lowered(s@), part@),
{
    let x = chars_of(s);
    let p = chars_of(part);
    let n: usize = x.len();
    let m: usize = p.len();
    if m > n {
        return false;
    }
    let ghost hay = lowered(s@);
    let mut i: usize = 0;
    while i <= n - m
        invariant
            i <= n - m + 1,
            m <= n,
            n == x@.len(),
            m == p@.len(),
            x@ == s@,
            p@ == part@,
            hay == lowered(s@),
            forall|k: int| 0 <= k < i ==> #[trigger] hay.subrange(k, k + m) != part@,
        decreases n - i,
    {
        let mut j: usize = 0;
        while j < m && lower_char(x[i + j]) == p[j]
            invariant
                j <= m,
                i + m <= n,
                n == x@.len(),
                m == p@.len(),
                x@ == s@,
                p@ == part@,
                hay == lowered(s@),
                forall|k: int| 0 <= k < j ==> #[trigger] hay[i + k] == part@[k],
            decreases m - j,
        {
            j += 1;
        }
        if j == m {
            assert(hay.subrange(i as int, i + m) =~= part@) by {
                assert forall|k: int| 0 <= k < m implies hay.subrange(i as int, i + m)[k]
                    == part@[k] by {
                    assert(hay[i + k] == part@[k]);
                }
            }
            return true;
        }
        assert(hay.subrange(i as int, i + m)[j as int] == hay[i + j]);
        i += 1;
    }
    false
}

/// The parts of a text between its dots.
pub open spec fn parts(s: Seq<char>) -> Seq<Seq<char>>
    decreases s.len(),
{
    if s.len() == 0 {
        seq![seq![]]
    } else {
        let before = parts(s.drop_last());
        if s.last() == '.' {
            before.push(seq![])
        } else {
            before.drop_last().push(before.last().push(s.last()))
        }
    }
}

/// There is at least one part.
pub proof fn parts_not_empty(s: Seq<char>)
    ensures
        parts(s).len() > 0,
    decreases s.len(),
{
    if s.len() > 0 {
        parts_not_empty(s.drop_last());
    }
}

/// A word without dots behind a text joins the text's last part.
pub proof fn parts_of_word(s: Seq<char>, word: Seq<char>)
    requires
        forall|i: int| 0 <= i < word.len() ==> #[trigger] word[i] != '.',
    ensures
        parts(s + word) == parts(s).drop_last().push(parts(s).last() + word),
    decreases word.len(),
{
    parts_not_empty(s);
    if word.len() == 0 {
        assert(s + word =~= s);
        assert(parts(s).last() + word =~= parts(s).last());
        assert(parts(s).drop_last().push(parts(s).last()) =~= parts(s));
    } else {
        let w = word.drop_last();
        parts_of_word(s, w);
        assert((s + word).drop_last() =~= s + w);
        assert((s + word).last() == word.last());
        assert(parts(s).last() + word =~= (parts(s).last() + w).push(word.last()));
        assert(parts(s).drop_last().push(parts(s).last() + w).drop_last() =~= parts(s).drop_last());
    }
}

/// The parts of a text between its dots.
pub fn split_dots(s: &str) -> (r: Vec<Vec<char>>)
    ensures
        r@.len() == parts(s@).len(),
        forall|i: int| 0 <= i < r@.len() ==> (#[trigger] r@[i])@ == parts(s@)[i],
{
    let chars = chars_of(s);
    let mut done: Vec<Vec<char>> = Vec::new();
    let mut current: Vec<char> = Vec::new();
    let mut i: usize = 0;
    assert(s@.take(0) =~= seq![]);
    assert(current@ =~= seq![]);
    while i < chars.len()
        invariant
            i <= chars@.len(),
            chars@ == s@,
            parts(s@.take(i as int)).len() == done@.len() + 1,
            forall|k: int|
                0 <= k < done@.len() ==> (#[trigger] done@[k])@ == parts(s@.take(i as int))[k],
            current@ == parts(s@.take(i as int)).last(),
        decreases chars@.len() - i,
    {
        let ghost head = s@.take(i as int);
        let ghost next = s@.take(i as int + 1);
        assert(next.drop_last() =~= head);
        let c: char = chars[i];
        if c == '.' {
            done.push(current);
            current = Vec::new();
            assert(current@ =~= seq![]);
        } else {
            current.push(c);
        }
        i += 1;
    }
    assert(s@.take(s@.len() as int) =~= s@);
    done.push(current);
    done
}

/// Different numbers have different decimal forms.
pub proof fn decimal_is_unique(a: nat, b: nat)
    requires
        decimal(a) == decimal(b),
    ensures
        a == b,
    decreases a + b,
{
    decimal_not_empty(a / 10);
    decimal_not_empty(b / 10);
    assert(decimal(a).last() == digit(a % 10)) by {
        assert(a < 10 ==> a % 10 == a);
    }
    assert(decimal(b).last() == digit(b % 10)) by {
        assert(b < 10 ==> b % 10 == b);
    }
    assert(a % 10 == b % 10);
    if a >= 10 && b >= 10 {
        assert(decimal(a).drop_last() =~= decimal(a / 10));
        assert(decimal(b).drop_last() =~= decimal(b / 10));
        decimal_is_unique(a / 10, b / 10);
    } else if a >= 10 {
        assert(decimal(a).len() == decimal(a / 10).len() + 1);
    } else if b >= 10 {
        assert(decimal(b).len() == decimal(b / 10).len() + 1);
    }
}

/// A decimal form is made of digits.
pub proof fn decimal_digits(n: nat)
    ensures
        forall|i: int| 0 <= i < decimal(n).len() ==> '0' <= #[trigger] decimal(n)[i] <= '9',
    decreases n,
{
    if n >= 10 {
        let head = decimal(n / 10);
        decimal_digits(n / 10);
        assert forall|i: int| 0 <= i < decimal(n).len() implies '0' <= #[trigger] decimal(n)[i]
            <= '9' by {
            if i < head.len() {
                assert(decimal(n)[i] == head[i]);
            } else {
                assert(decimal(n)[i] == digit(n % 10));
            }
        }
    }
}

/// A decimal form has at least one digit.
pub proof fn decimal_not_empty(n: nat)
    ensures
        decimal(n).len() > 0,
    decreases n,
{
    if n >= 10 {
        decimal_not_empty(n / 10);
    }
}

/// White space is the tabulators and line ends from 9 to 13, the space, the next-line character,
/// and the blanks that Unicode has besides them; no other character is.
pub proof fn white_space_in_numbers(c: char)
    ensures
        (c as u32) < 128 ==> (white_space(c) <==> c == ' ' || 9 <= c as u32 <= 13),
        (c as u32) >= 128 ==> (white_space(c) <==> c as u32 == 133 || c as u32 == 160 || c as u32
            == 5760 || 8192 <= c as u32 <= 8202 || 8232 <= c as u32 <= 8233 || c as u32 == 8239
            || c as u32 == 8287 || c as u32 == 12288),
{
}

/// Trimming cuts off the white space on both sides of a text and nothing else: what is left stands
/// in the text as it is, only white space stands around it, and it neither starts nor ends with
/// white space.
pub proof fn trimmed_is_the_middle(s: Seq<char>)
    ensures
        exists|i: int, j: int|
            #![trigger s.subrange(i, j)]
            {
                &&& 0 <= i <= j <= s.len()
                &&& trimmed(s) == s.subrange(i, j)
                &&& forall|k: int| 0 <= k < i || j <= k < s.len() ==> white_space(#[trigger] s[k])
                &&& i < j ==> !white_space(s[i]) && !white_space(s[j - 1])
            },
{
    let i = trim_start_cut(s);
    let t = s.skip(i);
    let n = trim_end_cut(t);
    let j = i + n;
    assert(trimmed(s) =~= s.subrange(i, j));
    assert forall|k: int| j <= k < s.len() implies white_space(#[trigger] s[k]) by {
        assert(t[k - i] == s[k]);
    }
    if i < j {
        assert(t[n - 1] == s[j - 1]);
        assert(i < s.len());
    }
}

/// Where trimming at the start cuts.
proof fn trim_start_cut(s: Seq<char>) -> (i: int)
    ensures
        0 <= i <= s.len(),
        trim_start(s) == s.skip(i),
        forall|k: int| 0 <= k < i ==> white_space(#[trigger] s[k]),
        i < s.len() ==> !white_space(s[i]),
    decreases s.len(),
{
    if s.len() > 0 && white_space(s[0]) {
        let rest = s.drop_first();
        let i = trim_start_cut(rest);
        assert(rest.skip(i) =~= s.skip(i + 1));
        assert forall|k: int| 0 <= k < i + 1 implies white_space(#[trigger] s[k]) by {
            if k > 0 {
                assert(rest[k - 1] == s[k]);
            }
        }
        if i < rest.len() {
            assert(rest[i] == s[i + 1]);
        }
        i + 1
    } else {
        assert(s.skip(0) =~= s);
        0
    }
}

/// Where trimming at the end cuts.
proof fn trim_end_cut(s: Seq<char>) -> (n: int)
    ensures
        0 <= n <= s.len(),
        trim_end(s) == s.take(n),
        forall|k: int| n <= k < s.len() ==> white_space(#[trigger] s[k]),
        n > 0 ==> !white_space(s[n - 1]),
    decreases s.len(),
{
    if s.len() > 0 && white_space(s.last()) {
        let rest = s.drop_last();
        let n = trim_end_cut(rest);
        assert(rest.take(n) =~= s.take(n));
        assert forall|k: int| n <= k < s.len() implies white_space(#[trigger] s[k]) by {
            if k < rest.len() {
                assert(rest[k] == s[k]);
            }
        }
        if n > 0 {
            assert(rest[n - 1] == s[n - 1]);
        }
        n
    } else {
        assert(s.take(s.len() as int) =~= s);
        s.len() as int
    }
}

/// Making a text lower-case keeps its length, moves the letters from A to Z by 32 places and
/// leaves every other character as it is.
pub proof fn lowered_letter_by_letter(s: Seq<char>, i: int)
    requires
        0 <= i < s.len(),
    ensures
        lowered(s).len() == s.len(),
        65 <= s[i] as u32 <= 90 ==> lowered(s)[i] as u32 == s[i] as u32 + 32,
        (s[i] as u32) < 65 || s[i] as u32 > 90 ==> lowered(s)[i] == s[i],
{
}

/// A text is found wherever it stands, and it is found only where it stands.
pub proof fn contained_means_in_between(s: Seq<char>, part: Seq<char>)
    ensures
        contains_text(s, part) <==> exists|before: Seq<char>, behind: Seq<char>|
            s == #[trigger] (before + part + behind),
{
    if contains_text(s, part) {
        let i = choose|i: int|
            0 <= i <= s.len() - part.len() && #[trigger] s.subrange(i, i + part.len()) == part;
        let before = s.take(i);
        let behind = s.skip(i + part.len() as int);
        assert(s =~= before + part + behind);
    }
    if exists|before: Seq<char>, behind: Seq<char>| s == #[trigger] (before + part + behind) {
        let (before, behind) = choose|before: Seq<char>, behind: Seq<char>|
            s == #[trigger] (before + part + behind);
        let i = before.len() as int;
        assert(s.subrange(i, i + part.len() as int) =~= part);
    }
}

/// Four words without dots, with dots between them, are the parts of the text that they make.
pub proof fn four_words_are_four_parts(
    a: Seq<char>,
    b: Seq<char>,
    c: Seq<char>,
    d: Seq<char>,
)
    requires
        forall|i: int| 0 <= i < a.len() ==> #[trigger] a[i] != '.',
        forall|i: int| 0 <= i < b.len() ==> #[trigger] b[i] != '.',
        forall|i: int| 0 <= i < c.len() ==> #[trigger] c[i] != '.',
        forall|i: int| 0 <= i < d.len() ==> #[trigger] d[i] != '.',
    ensures
        parts(a + seq!['.'] + b + seq!['.'] + c + seq!['.'] + d) == seq![a, b, c, d],
{
    let s1 = a + seq!['.'];
    let s2 = s1 + b + seq!['.'];
    let s3 = s2 + c + seq!['.'];
    parts_of_word(seq![], a);
    assert(seq![] + a =~= a);
    assert(s1.drop_last() =~= a);
    parts_of_word(s1, b);
    assert(s2.drop_last() =~= s1 + b);
    parts_of_word(s2, c);
    assert(s3.drop_last() =~= s2 + c);
    parts_of_word(s3, d);
    assert(parts(s3 + d) =~= seq![a, b, c, d]);
}

/// A text is made of its parts, put together with dots: the last part, behind a dot the one before
/// it, and so on. No part has a dot in it.
pub proof fn parts_make_the_text(s: Seq<char>)
    ensures
        parts(s).len() > 0,
        forall|k: int, i: int|
            0 <= k < parts(s).len() && 0 <= i < parts(s)[k].len() ==> #[trigger] parts(s)[k][i]
                != '.',
        parts(s).len() == 1 ==> s == parts(s)[0],
        parts(s).len() > 1 ==> exists|head: Seq<char>|
            s == #[trigger] (head + seq!['.'] + parts(s).last()) && parts(head)
                == parts(s).drop_last(),
    decreases s.len(),
{
    if s.len() > 0 {
        let rest = s.drop_last();
        parts_make_the_text(rest);
        assert(s =~= rest.push(s.last()));
        let before = parts(rest);
        if s.last() == '.' {
            assert(s =~= rest + seq!['.'] + parts(s).last());
            assert(parts(s).drop_last() =~= before);
        } else {
            assert forall|k: int, i: int|
                0 <= k < parts(s).len() && 0 <= i < parts(s)[k].len() implies
                #[trigger] parts(s)[k][i] != '.' by {
                if k < before.len() - 1 {
                    assert(parts(s)[k] == before[k]);
                } else if i < before.last().len() {
                    assert(parts(s)[k][i] == before[k][i]);
                }
            }
            if before.len() == 1 {
                assert(s =~= parts(s)[0]);
            } else {
                let head = choose|head: Seq<char>|
                    rest == #[trigger] (head + seq!['.'] + before.last()) && parts(head)
                        == before.drop_last();
                assert(s =~= head + seq!['.'] + parts(s).last());
                assert(parts(s).drop_last() =~= before.drop_last());
            }
        }
    }
}

/// The last digit of a number in decimal is what is left of it by ten, and the digits before it
/// are those of its tenth; a number below ten has no other digit.
pub proof fn decimal_by_its_last_digit(n: nat)
    ensures
        decimal(n).last() as u32 == 48 + n % 10,
        n < 10 ==> decimal(n).len() == 1,
        n >= 10 ==> decimal(n).drop_last() == decimal(n / 10),
{
    if n >= 10 {
        assert(decimal(n).drop_last() =~= decimal(n / 10));
    }
}

/// What texts that may be absent show is the text itself, where there is one.
pub proof fn texts_show_themselves(t: Option<String>)
    ensures
        t is None <==> maybe(t) is None,
        t matches Some(s) ==> maybe(t) == Some(s@),
{
}

} // verus!
