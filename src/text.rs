use vstd::prelude::*;
use vstd::std_specs::iter::IteratorSpec;

verus! {

broadcast use vstd::string::group_string_axioms;

/// Why a text is not an unsigned 32-bit decimal number.
#[derive(Clone, Copy, Debug, PartialEq, Eq, Structural)]
pub enum ParseError {
    /// Nothing to parse.
    Empty,
    /// A character that is not a decimal digit (a lone sign included).
    InvalidDigit,
    /// The number does not fit in 32 bits.
    PosOverflow,
}

/// The characters with the Unicode `White_Space` property.
pub open spec fn is_whitespace(c: char) -> bool {
    let u = c as u32;
    ||| 0x09 <= u <= 0x0d
    ||| u == 0x20
    ||| u == 0x85
    ||| u == 0xa0
    ||| u == 0x1680
    ||| 0x2000 <= u <= 0x200a
    ||| u == 0x2028
    ||| u == 0x2029
    ||| u == 0x202f
    ||| u == 0x205f
    ||| u == 0x3000
}

/// `s` without its leading whitespace.
pub open spec fn trim_start(s: Seq<char>) -> Seq<char>
    decreases s.len(),
{
    if s.len() > 0 && is_whitespace(s[0]) {
        trim_start(s.drop_first())
    } else {
        s
    }
}

/// `s` without its trailing whitespace.
pub open spec fn trim_end(s: Seq<char>) -> Seq<char>
    decreases s.len(),
{
    if s.len() > 0 && is_whitespace(s.last()) {
        trim_end(s.drop_last())
    } else {
        s
    }
}

pub open spec fn is_digit(c: char) -> bool {
    '0' <= c <= '9'
}

pub open spec fn digit_value(c: char) -> int {
    c as int - '0' as int
}

/// Reads `d` as decimal digits from left to right; the first character
/// that is no digit, or the first digit that takes the value past `u32::MAX`,
/// decides the error.
pub open spec fn scan_digits(d: Seq<char>) -> Result<u32, ParseError>
    decreases d.len(),
{
    if d.len() == 0 {
        Ok(0)
    } else {
        match scan_digits(d.drop_last()) {
            Err(e) => Err(e),
            Ok(v) => if !is_digit(d.last()) {
                Err(ParseError::InvalidDigit)
            } else if v * 10 + digit_value(d.last()) > u32::MAX {
                Err(ParseError::PosOverflow)
            } else {
                Ok((v * 10 + digit_value(d.last())) as u32)
            },
        }
    }
}

/// An unsigned decimal number with an optional leading `+`.
pub open spec fn parse_u32(s: Seq<char>) -> Result<u32, ParseError> {
    if s.len() == 0 {
        Err(ParseError::Empty)
    } else if s.len() == 1 && (s[0] == '+' || s[0] == '-') {
        Err(ParseError::InvalidDigit)
    } else if s[0] == '+' {
        scan_digits(s.drop_first())
    } else {
        scan_digits(s)
    }
}

/// The decimal digits of `n` in ASCII, without leading zeros.
pub open spec fn decimal(n: nat) -> Seq<u8>
    decreases n,
{
    if n < 10 {
        seq![(48 + n) as u8]
    } else {
        decimal(n / 10).push((48 + n % 10) as u8)
    }
}

pub fn encode_decimal(n: u32) -> (r: Vec<u8>)
    ensures
        r@ == decimal(n as nat),
    decreases n,
{
    if n < 10 {
        vec![48 + n as u8]
    } else {
        let mut r = encode_decimal(n / 10);
        r.push(48 + (n % 10) as u8);
        r
    }
}

fn whitespace(c: char) -> (r: bool)
    ensures
        r == is_whitespace(c),
{
    let u = c as u32;
    (0x09 <= u && u <= 0x0d) || u == 0x20 || u == 0x85 || u == 0xa0 || u == 0x1680
        || (0x2000 <= u && u <= 0x200a) || u == 0x2028 || u == 0x2029 || u == 0x202f
        || u == 0x205f || u == 0x3000
}

fn chars_of(s: &str) -> (r: Vec<char>)
    ensures
        r@ == s@,
{
    let mut r: Vec<char> = Vec::new();
    for c in it: s.chars()
        invariant
            r@ == it.seq().take(it.index() as int),
            it.seq() == s@,
    {
        r.push(c);
    }
    r
}

/// Index of the first character of `s` that `trim_start` keeps.
fn skip_leading_whitespace(s: &Vec<char>) -> (lo: usize)
    ensures
        lo <= s.len(),
        trim_start(s@) == s@.subrange(lo as int, s.len() as int),
{
    let mut lo: usize = 0;
    assert(s@.subrange(0, s.len() as int) =~= s@);
    while lo < s.len() && whitespace(s[lo])
        invariant
            lo <= s.len(),
            trim_start(s@) == trim_start(s@.subrange(lo as int, s.len() as int)),
        decreases s.len() - lo,
    {
        assert(s@.subrange(lo as int, s.len() as int).drop_first() =~= s@.subrange(lo + 1, s.len() as int));
        lo = lo + 1;
    }
    lo
}

/// End of the characters of `s[lo..]` that `trim_end` keeps.
fn skip_trailing_whitespace(s: &Vec<char>, lo: usize) -> (hi: usize)
    requires
        lo <= s.len(),
    ensures
        lo <= hi <= s.len(),
        trim_end(s@.subrange(lo as int, s.len() as int)) == s@.subrange(lo as int, hi as int),
{
    let mut hi: usize = s.len();
    while hi > lo && whitespace(s[hi - 1])
        invariant
            lo <= hi <= s.len(),
            trim_end(s@.subrange(lo as int, s.len() as int)) == trim_end(s@.subrange(lo as int, hi as int)),
        decreases hi,
    {
        assert(s@.subrange(lo as int, hi as int).drop_last() =~= s@.subrange(lo as int, hi - 1));
        hi = hi - 1;
    }
    hi
}

/// Reads `s[lo..hi]` as decimal digits.
fn scan_range(s: &Vec<char>, lo: usize, hi: usize) -> (r: Result<u32, ParseError>)
    requires
        lo <= hi <= s.len(),
    ensures
        r == scan_digits(s@.subrange(lo as int, hi as int)),
{
    let mut v: u32 = 0;
    let mut i: usize = lo;
    assert(s@.subrange(lo as int, lo as int) =~= Seq::<char>::empty());
    while i < hi
        invariant
            lo <= i <= hi <= s.len(),
            scan_digits(s@.subrange(lo as int, i as int)) == Ok::<u32, ParseError>(v),
        decreases hi - i,
    {
        let c = s[i];
        assert(s@.subrange(lo as int, i + 1).drop_last() =~= s@.subrange(lo as int, i as int));
        assert(s@.subrange(lo as int, hi as int).subrange(0, i + 1 - lo) =~= s@.subrange(lo as int, i + 1));
        if !('0' <= c && c <= '9') {
            proof { lemma_scan_error_stays(s@.subrange(lo as int, i + 1), s@.subrange(lo as int, hi as int)); }
            return Err(ParseError::InvalidDigit);
        }
        let d = (c as u32) - ('0' as u32);
        if v > 429_496_729 || (v == 429_496_729 && d > 5) {
            proof { lemma_scan_error_stays(s@.subrange(lo as int, i + 1), s@.subrange(lo as int, hi as int)); }
            return Err(ParseError::PosOverflow);
        }
        v = v * 10 + d;
        i = i + 1;
    }
    Ok(v)
}

/// Once a prefix fails, every longer text fails the same way.
proof fn lemma_scan_error_stays(p: Seq<char>, d: Seq<char>)
    requires
        p.len() <= d.len(),
        p == d.subrange(0, p.len() as int),
        scan_digits(p) is Err,
    ensures
        scan_digits(d) == scan_digits(p),
    decreases d.len() - p.len(),
{
    if p.len() < d.len() {
        assert(d.drop_last().subrange(0, p.len() as int) =~= p);
        lemma_scan_error_stays(p, d.drop_last());
    } else {
        assert(d =~= p);
    }
}

/// Parses `s[lo..hi]` as an unsigned decimal number.
fn parse_range(s: &Vec<char>, lo: usize, hi: usize) -> (r: Result<u32, ParseError>)
    requires
        lo <= hi <= s.len(),
    ensures
        r == parse_u32(s@.subrange(lo as int, hi as int)),
{
    let ghost t = s@.subrange(lo as int, hi as int);
    if lo == hi {
        Err(ParseError::Empty)
    } else if hi - lo == 1 && (s[lo] == '+' || s[lo] == '-') {
        Err(ParseError::InvalidDigit)
    } else if s[lo] == '+' {
        assert(t.drop_first() =~= s@.subrange(lo + 1, hi as int));
        scan_range(s, lo + 1, hi)
    } else {
        scan_range(s, lo, hi)
    }
}

/// Parses `text` as an unsigned decimal number after removing whitespace
/// from both of its ends, or from its end alone.
pub fn parse_trimmed(text: &str, trim_leading: bool) -> (r: Result<u32, ParseError>)
    ensures
        r == parse_u32(if trim_leading { trim_end(trim_start(text@)) } else { trim_end(text@) }),
{
    let s = chars_of(text);
    let lo: usize = if trim_leading { skip_leading_whitespace(&s) } else { 0 };
    assert(s@.subrange(0, s.len() as int) =~= s@);
    let hi = skip_trailing_whitespace(&s, lo);
    parse_range(&s, lo, hi)
}

} // verus!
