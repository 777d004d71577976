use vstd::prelude::*;
use vstd::string::*;

verus! {

broadcast use vstd::string::group_string_axioms;

/// Whether a character carries the Unicode `White_Space` property,
/// which is what `char::is_whitespace` and `str::trim` go by.
pub open spec fn is_white_space(c: char) -> bool {
    ||| ('\u{9}' <= c && c <= '\u{d}')
    ||| c == ' '
    ||| c == '\u{85}'
    ||| c == '\u{a0}'
    ||| c == '\u{1680}'
    ||| ('\u{2000}' <= c && c <= '\u{200a}')
    ||| c == '\u{2028}'
    ||| c == '\u{2029}'
    ||| c == '\u{202f}'
    ||| c == '\u{205f}'
    ||| c == '\u{3000}'
}

/// `char::is_whitespace`.
pub fn char_is_white_space(c: char) -> (b: bool)
    ensures
        b == is_white_space(c),
{
    ('\u{9}' <= c && c <= '\u{d}') || c == ' ' || c == '\u{85}' || c == '\u{a0}' || c == '\u{1680}'
        || ('\u{2000}' <= c && c <= '\u{200a}') || c == '\u{2028}' || c == '\u{2029}' || c
        == '\u{202f}' || c == '\u{205f}' || c == '\u{3000}'
}

/// `s` with its leading white space removed.
pub open spec fn trim_start(s: Seq<char>) -> Seq<char>
    decreases s.len(),
{
    if s.len() > 0 && is_white_space(s[0]) {
        trim_start(s.drop_first())
    } else {
        s
    }
}

/// `s` with its trailing white space removed.
pub open spec fn trim_end(s: Seq<char>) -> Seq<char>
    decreases s.len(),
{
    if s.len() > 0 && is_white_space(s.last()) {
        trim_end(s.drop_last())
    } else {
        s
    }
}

/// `s` with white space removed from both ends, as `str::trim` gives it.
pub open spec fn trimmed(s: Seq<char>) -> Seq<char> {
    trim_end(trim_start(s))
}

proof fn lemma_trim_start_at(s: Seq<char>, a: int)
    requires
        0 <= a <= s.len(),
        forall|k: int| 0 <= k < a ==> is_white_space(#[trigger] s[k]),
        a < s.len() ==> !is_white_space(s[a]),
    ensures
        trim_start(s) == s.subrange(a, s.len() as int),
    decreases a,
{
    if a == 0 {
        assert(s.subrange(0, s.len() as int) =~= s);
    } else {
        let t = s.drop_first();
        assert forall|k: int| 0 <= k < a - 1 implies is_white_space(#[trigger] t[k]) by {
            assert(t[k] == s[k + 1]);
        }
        lemma_trim_start_at(t, a - 1);
        assert(t.subrange(a - 1, t.len() as int) =~= s.subrange(a, s.len() as int));
    }
}

proof fn lemma_trim_end_at(s: Seq<char>, b: int)
    requires
        0 <= b <= s.len(),
        forall|k: int| b <= k < s.len() ==> is_white_space(#[trigger] s[k]),
        b > 0 ==> !is_white_space(s[b - 1]),
    ensures
        trim_end(s) == s.subrange(0, b),
    decreases s.len() - b,
{
    if b == s.len() {
        assert(s.subrange(0, b) =~= s);
    } else {
        let t = s.drop_last();
        assert forall|k: int| b <= k < t.len() implies is_white_space(#[trigger] t[k]) by {
            assert(t[k] == s[k]);
        }
        if b > 0 {
            assert(t[b - 1] == s[b - 1]);
        }
        lemma_trim_end_at(t, b);
        assert(t.subrange(0, b) =~= s.subrange(0, b));
    }
}

/// Characterises the trimmed text by the positions where it starts and ends.
pub proof fn lemma_trim_bounds(s: Seq<char>, a: int, b: int)
    requires
        0 <= a <= b <= s.len(),
        forall|k: int| 0 <= k < a ==> is_white_space(#[trigger] s[k]),
        forall|k: int| b <= k < s.len() ==> is_white_space(#[trigger] s[k]),
        a < b ==> !is_white_space(s[a]) && !is_white_space(s[b - 1]),
        a == b ==> b == s.len(),
    ensures
        trimmed(s) == s.subrange(a, b),
{
    lemma_trim_start_at(s, a);
    let t = s.subrange(a, s.len() as int);
    assert forall|k: int| b - a <= k < t.len() implies is_white_space(#[trigger] t[k]) by {
        assert(t[k] == s[k + a]);
    }
    if b - a > 0 {
        assert(t[b - a - 1] == s[b - 1]);
    }
    lemma_trim_end_at(t, b - a);
    assert(t.subrange(0, b - a) =~= s.subrange(a, b));
}

/// `str::trim`: the text without leading and trailing white space.
pub fn trim(s: &str) -> (t: &str)
    ensures
        t@ == trimmed(s@),
{
    let len = s.unicode_len();
    let mut n: usize = 0;
    let mut first: usize = 0;
    let mut end: usize = 0;
    let mut seen = false;
    for c in it: s.chars()
        invariant
            it.seq() == s@,
            n == it.index(),
            len == s@.len(),
            n <= s@.len(),
            first <= end <= n,
            seen <==> exists|k: int| 0 <= k < n && !is_white_space(#[trigger] s@[k]),
            !seen ==> end == 0 && first == 0,
            forall|k: int| 0 <= k < first ==> is_white_space(#[trigger] s@[k]),
            forall|k: int| end <= k < n ==> is_white_space(#[trigger] s@[k]),
            seen ==> first < end && !is_white_space(s@[first as int]) && !is_white_space(
                s@[end - 1],
            ),
    {
        assert(c == s@[n as int]);
        if !char_is_white_space(c) {
            if !seen {
                first = n;
                seen = true;
            }
            end = n + 1;
        }
        n = n + 1;
    }
    if !seen {
        first = n;
        end = n;
    }
    proof {
        lemma_trim_bounds(s@, first as int, end as int);
    }
    s.substring_char(first, end)
}

/// `s` without the prefix `p`, as `str::strip_prefix` gives it.
pub open spec fn without_prefix(s: Seq<char>, p: Seq<char>) -> Option<Seq<char>> {
    if p.is_prefix_of(s) {
        Some(s.subrange(p.len() as int, s.len() as int))
    } else {
        None
    }
}

/// `str::strip_prefix` with a text pattern.
pub fn strip_prefix<'a>(s: &'a str, p: &str) -> (r: Option<&'a str>)
    ensures
        r matches Some(rest) ==> without_prefix(s@, p@) == Some(rest@),
        r is None ==> without_prefix(s@, p@) is None,
{
    let n = s.unicode_len();
    let m = p.unicode_len();
    if m > n {
        return None;
    }
    let mut i: usize = 0;
    while i < m
        invariant
            n == s@.len(),
            m == p@.len(),
            m <= n,
            i <= m,
            forall|k: int| 0 <= k < i ==> s@[k] == p@[k],
        decreases m - i,
    {
        if s.get_char(i) != p.get_char(i) {
            assert(!p@.is_prefix_of(s@)) by {
                assert(s@.subrange(0, m as int)[i as int] == s@[i as int]);
            }
            return None;
        }
        i = i + 1;
    }
    assert(p@.is_prefix_of(s@)) by {
        assert(s@.subrange(0, m as int) =~= p@);
    }
    Some(s.substring_char(m, n))
}

/// Whether two texts hold the same characters (`==` on `str`).
pub fn same_text(a: &str, b: &str) -> (same: bool)
    ensures
        same == (a@ == b@),
{
    a.to_owned() == b.to_owned()
}

pub open spec fn is_ascii_digit(c: char) -> bool {
    '0' <= c && c <= '9'
}

pub open spec fn digit_value(c: char) -> int {
    c as int - '0' as int
}

/// Why `str::parse` refuses a text as an integer, as `std::num::IntErrorKind` says it.
#[derive(Clone, Copy, Debug, PartialEq, Eq)]
pub enum IntErrorKind {
    Empty,
    InvalidDigit,
    PosOverflow,
}

/// Reading decimal digits left to right into a `u16`: the first character
/// that is no digit, or the first digit that overflows, ends the reading.
pub open spec fn scan_u16(d: Seq<char>) -> Result<u16, IntErrorKind>
    decreases d.len(),
{
    if d.len() == 0 {
        Ok(0)
    } else {
        match scan_u16(d.drop_last()) {
            Err(e) => Err(e),
            Ok(v) => if !is_ascii_digit(d.last()) {
                Err(IntErrorKind::InvalidDigit)
            } else if v * 10 + digit_value(d.last()) > u16::MAX {
                Err(IntErrorKind::PosOverflow)
            } else {
                Ok((v * 10 + digit_value(d.last())) as u16)
            },
        }
    }
}

/// What `str::parse::<u16>` gives: an empty text is `Empty`, a lone sign is an
/// invalid digit, one leading `+` is skipped, and the rest is read as digits.
pub open spec fn parsed_u16(s: Seq<char>) -> Result<u16, IntErrorKind> {
    if s.len() == 0 {
        Err(IntErrorKind::Empty)
    } else if s.len() == 1 && (s[0] == '+' || s[0] == '-') {
        Err(IntErrorKind::InvalidDigit)
    } else if s[0] == '+' {
        scan_u16(s.drop_first())
    } else {
        scan_u16(s)
    }
}

/// `str::parse::<u16>`.
pub fn parse_u16(s: &str) -> (r: Result<u16, IntErrorKind>)
    ensures
        r == parsed_u16(s@),
{
    let len = s.unicode_len();
    if len == 0 {
        return Err(IntErrorKind::Empty);
    }
    let first = s.get_char(0);
    if len == 1 && (first == '+' || first == '-') {
        return Err(IntErrorKind::InvalidDigit);
    }
    let start: usize = if first == '+' { 1 } else { 0 };
    let ghost d = if s@[0] == '+' { s@.drop_first() } else { s@ };
    assert(d =~= s@.subrange(start as int, len as int));
    let mut acc: u16 = 0;
    let mut n: usize = 0;
    for c in it: s.chars()
        invariant
            it.seq() == s@,
            n == it.index(),
            len == s@.len(),
            start <= 1,
            start < len,
            d =~= s@.subrange(start as int, len as int),
            parsed_u16(s@) == scan_u16(d),
            n <= len,
            n <= start ==> acc == 0,
            n > start ==> scan_u16(s@.subrange(start as int, n as int)) == Ok::<u16, IntErrorKind>(acc),
    {
        assert(c == s@[n as int]);
        if n >= start {
            let ghost prev = s@.subrange(start as int, n as int);
            let ghost next = s@.subrange(start as int, n + 1);
            assert(next.drop_last() =~= prev);
            assert(next.last() == c);
            if n == start {
                assert(prev.len() == 0);
                assert(scan_u16(prev) == Ok::<u16, IntErrorKind>(0));
            }
            if !('0' <= c && c <= '9') {
                proof {
                    assert(scan_u16(next) == Err::<u16, IntErrorKind>(IntErrorKind::InvalidDigit));
                    assert(d.subrange(0, n - start + 1) =~= next);
                    lemma_scan_stops(d, (n - start) as int);
                }
                return Err(IntErrorKind::InvalidDigit);
            }
            let digit: u32 = (c as u32) - ('0' as u32);
            assert(digit == digit_value(c));
            let wide: u32 = (acc as u32) * 10 + digit;
            if wide > 65535 {
                proof {
                    assert(scan_u16(next) == Err::<u16, IntErrorKind>(IntErrorKind::PosOverflow));
                    assert(d.subrange(0, n - start + 1) =~= next);
                    lemma_scan_stops(d, (n - start) as int);
                }
                return Err(IntErrorKind::PosOverflow);
            }
            acc = wide as u16;
        }
        n = n + 1;
    }
    assert(s@.subrange(start as int, n as int) =~= d);
    Ok(acc)
}

/// Once the reading of a prefix ends in an error, the whole text ends in it too.
proof fn lemma_scan_stops(d: Seq<char>, k: int)
    requires
        0 <= k < d.len(),
        scan_u16(d.subrange(0, k + 1)) is Err,
    ensures
        scan_u16(d) == scan_u16(d.subrange(0, k + 1)),
    decreases d.len(),
{
    if k + 1 == d.len() {
        assert(d.subrange(0, k + 1) =~= d);
    } else {
        assert(d.drop_last().subrange(0, k + 1) =~= d.subrange(0, k + 1));
        lemma_scan_stops(d.drop_last(), k);
    }
}

/// The decimal digit character for `d < 10`.
pub open spec fn digit_char(d: nat) -> char {
    (d + '0' as nat) as char
}

/// The shortest decimal spelling of `n`, as `Display` writes an unsigned integer.
pub open spec fn decimal(n: nat) -> Seq<char>
    decreases n,
{
    if n < 10 {
        seq![digit_char(n)]
    } else {
        decimal(n / 10).push(digit_char(n % 10))
    }
}

/// Reading the decimal spelling of a number that fits a `u16` gives it back.
pub proof fn lemma_decimal_scans_back(n: nat)
    requires
        n <= u16::MAX,
    ensures
        decimal(n).len() > 0,
        is_ascii_digit(decimal(n)[0]),
        scan_u16(decimal(n)) == Ok::<u16, IntErrorKind>(n as u16),
    decreases n,
{
    assert(digit_value(digit_char(n % 10)) == n % 10);
    if n < 10 {
        assert(n % 10 == n);
        assert(decimal(n).drop_last() =~= Seq::<char>::empty());
        assert(scan_u16(decimal(n).drop_last()) == Ok::<u16, IntErrorKind>(0));
        assert(decimal(n).last() == digit_char(n));
    } else {
        lemma_decimal_scans_back(n / 10);
        let d = decimal(n);
        assert(n == (n / 10) * 10 + n % 10);
        assert(d.drop_last() =~= decimal(n / 10));
        assert(d[0] == decimal(n / 10)[0]);
        assert(d.last() == digit_char(n % 10));
    }
}

/// Reading back the decimal spelling of a `u16` gives the same `u16`.
pub proof fn lemma_parse_decimal_u16(n: u16)
    ensures
        parsed_u16(decimal(n as nat)) == Ok::<u16, IntErrorKind>(n),
{
    lemma_decimal_scans_back(n as nat);
}

fn digit_text(d: u64) -> (t: &'static str)
    requires
        d < 10,
    ensures
        t@ == seq![digit_char(d as nat)],
{
    proof {
        reveal_strlit("0");
        reveal_strlit("1");
        reveal_strlit("2");
        reveal_strlit("3");
        reveal_strlit("4");
        reveal_strlit("5");
        reveal_strlit("6");
        reveal_strlit("7");
        reveal_strlit("8");
        reveal_strlit("9");
    }
    match d {
        0 => "0",
        1 => "1",
        2 => "2",
        3 => "3",
        4 => "4",
        5 => "5",
        6 => "6",
        7 => "7",
        8 => "8",
        _ => "9",
    }
}

/// The decimal text of `n`, as `n.to_string()` gives it.
pub fn u64_to_decimal(n: u64) -> (t: String)
    ensures
        t@ == decimal(n as nat),
    decreases n,
{
    if n < 10 {
        digit_text(n).to_owned()
    } else {
        let mut t = u64_to_decimal(n / 10);
        t.append(digit_text(n % 10));
        assert(t@ =~= decimal(n as nat));
        t
    }
}

/// The decimal text of `n`, as `n.to_string()` gives it.
pub fn u16_to_decimal(n: u16) -> (t: String)
    ensures
        t@ == decimal(n as nat),
{
    u64_to_decimal(n as u64)
}

/// The decimal text of a signed number, as `Display` and `Debug` write it:
/// a minus sign before the digits of a negative number.
pub open spec fn signed_decimal(v: int) -> Seq<char> {
    if v < 0 {
        "-"@ + decimal((-v) as nat)
    } else {
        decimal(v as nat)
    }
}

/// The decimal text of `v`, as `v.to_string()` gives it.
pub fn i32_to_decimal(v: i32) -> (t: String)
    ensures
        t@ == signed_decimal(v as int),
{
    if v < 0 {
        let magnitude: u64 = (0i64 - (v as i64)) as u64;
        joined("-", u64_to_decimal(magnitude).as_str())
    } else {
        u64_to_decimal(v as u64)
    }
}

/// The text that `Debug` writes for a string: the string in double quotes,
/// with quotes, backslashes and control characters escaped.
pub uninterp spec fn debug_text(s: Seq<char>) -> Seq<char>;

/// `<str as Debug>::fmt`, through `format!("{:?}", ..)`. Its result is named,
/// not described: it depends on the text alone.
#[verifier::external_body]
pub(crate) fn debug_quoted(s: &str) -> (q: String)
    ensures
        q@ == debug_text(s@),
{
    format!("{:?}", s)
}

/// `p`, then `s`.
pub fn joined(p: &str, s: &str) -> (t: String)
    ensures
        t@ == p@ + s@,
{
    let mut t = p.to_owned();
    t.append(s);
    t
}

} // verus!
