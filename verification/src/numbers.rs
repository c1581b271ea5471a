//! Numbers as the project file and the command line write them.

use vstd::prelude::*;
use crate::strings::chars_of;

verus! {

/// Why a text could not be read as an unsigned integer; the same cases as std's
/// `ParseIntError` has for unsigned targets.
#[derive(Clone, Copy, PartialEq, Eq, Structural, Debug)]
pub enum IntParseError {
    /// The text was empty.
    Empty,
    /// A character other than a decimal digit was found (a lone `+` counts too).
    InvalidDigit,
    /// The value does not fit into the target type.
    PosOverflow,
}

impl IntParseError {
    /// The message that std gives for the same case.
    pub fn message(&self) -> (s: String)
        ensures
            s@ == self.spec_message(),
    {
        match self {
            IntParseError::Empty => "cannot parse integer from empty string".to_string(),
            IntParseError::InvalidDigit => "invalid digit found in string".to_string(),
            IntParseError::PosOverflow => "number too large to fit in target type".to_string(),
        }
    }

    pub open spec fn spec_message(&self) -> Seq<char> {
        match self {
            IntParseError::Empty => "cannot parse integer from empty string"@,
            IntParseError::InvalidDigit => "invalid digit found in string"@,
            IntParseError::PosOverflow => "number too large to fit in target type"@,
        }
    }
}

pub open spec fn is_digit(c: char) -> bool {
    '0' <= c && c <= '9'
}

pub open spec fn digit_value(c: char) -> int {
    c as int - '0' as int
}

/// Reads decimal digits left to right onto the value `acc`, stopping at the first
/// character that is no digit or at the first digit that takes the value above `max`.
pub open spec fn scan_digits(d: Seq<char>, acc: int, max: int) -> Result<int, IntParseError>
    decreases d.len(),
{
    if d.len() == 0 {
        Ok(acc)
    } else if !is_digit(d[0]) {
        Err(IntParseError::InvalidDigit)
    } else if acc * 10 + digit_value(d[0]) > max {
        Err(IntParseError::PosOverflow)
    } else {
        scan_digits(d.drop_first(), acc * 10 + digit_value(d[0]), max)
    }
}

/// The value of `s` read as an unsigned decimal integer of at most `max`: an optional
/// `+` followed by at least one digit.
pub open spec fn decimal_value(s: Seq<char>, max: int) -> Result<int, IntParseError> {
    if s.len() == 0 {
        Err(IntParseError::Empty)
    } else if s.len() == 1 && (s[0] == '+' || s[0] == '-') {
        Err(IntParseError::InvalidDigit)
    } else if s[0] == '+' {
        scan_digits(s.drop_first(), 0, max)
    } else {
        scan_digits(s, 0, max)
    }
}

pub proof fn lemma_scan_digits_bound(d: Seq<char>, acc: int, max: int)
    requires
        0 <= acc <= max,
    ensures
        scan_digits(d, acc, max) matches Ok(v) ==> 0 <= v <= max,
    decreases d.len(),
{
    if d.len() > 0 && is_digit(d[0]) && acc * 10 + digit_value(d[0]) <= max {
        lemma_scan_digits_bound(d.drop_first(), acc * 10 + digit_value(d[0]), max);
    }
}

pub proof fn lemma_decimal_value_bound(s: Seq<char>, max: int)
    requires
        0 <= max,
    ensures
        decimal_value(s, max) matches Ok(v) ==> 0 <= v <= max,
{
    if s.len() > 0 {
        lemma_scan_digits_bound(s.drop_first(), 0, max);
        lemma_scan_digits_bound(s, 0, max);
    }
}

/// Reads `s` as an unsigned decimal integer of at most `max`.
pub fn parse_decimal(s: &str, max: u64) -> (r: Result<u64, IntParseError>)
    ensures
        match decimal_value(s@, max as int) {
            Ok(v) => r == Ok::<u64, IntParseError>(v as u64),
            Err(e) => r == Err::<u64, IntParseError>(e),
        },
{
    let v = chars_of(s);
    proof { lemma_decimal_value_bound(s@, max as int); }
    if v.len() == 0 {
        return Err(IntParseError::Empty);
    }
    if v.len() == 1 && (v[0] == '+' || v[0] == '-') {
        return Err(IntParseError::InvalidDigit);
    }
    let mut i: usize = if v[0] == '+' { 1 } else { 0 };
    let ghost digits = if v@[0] == '+' { v@.drop_first() } else { v@ };
    assert(digits =~= v@.skip(i as int));
    assert(decimal_value(s@, max as int) == scan_digits(v@.skip(i as int), 0, max as int));
    let mut acc: u64 = 0;
    while i < v.len()
        invariant
            i <= v.len(),
            acc <= max,
            decimal_value(s@, max as int) == scan_digits(v@.skip(i as int), acc as int, max as int),
        decreases v.len() - i,
    {
        let c = v[i];
        assert(v@.skip(i as int)[0] == c);
        assert(v@.skip(i as int).drop_first() =~= v@.skip(i + 1));
        if !('0' <= c && c <= '9') {
            return Err(IntParseError::InvalidDigit);
        }
        let d: u64 = (c as u32 - '0' as u32) as u64;
        if (acc as u128) * 10 + (d as u128) > max as u128 {
            return Err(IntParseError::PosOverflow);
        }
        acc = acc * 10 + d;
        i = i + 1;
    }
    assert(v@.skip(i as int).len() == 0);
    Ok(acc)
}

/// An unsigned integer type that decimal text can be read into.
pub trait DecimalTarget: Sized {
    /// The largest value of the type.
    spec fn max_value() -> int;

    /// The value as an integer.
    spec fn to_int(&self) -> int;

    fn largest() -> (m: u64)
        ensures
            m == Self::max_value(),
    ;

    fn from_u64(v: u64) -> (r: Self)
        requires
            v <= Self::max_value(),
        ensures
            r.to_int() == v,
    ;
}

impl DecimalTarget for u8 {
    open spec fn max_value() -> int {
        u8::MAX as int
    }

    open spec fn to_int(&self) -> int {
        *self as int
    }

    fn largest() -> (m: u64) {
        255
    }

    fn from_u64(v: u64) -> (r: u8) {
        v as u8
    }
}

impl DecimalTarget for u32 {
    open spec fn max_value() -> int {
        u32::MAX as int
    }

    open spec fn to_int(&self) -> int {
        *self as int
    }

    fn largest() -> (m: u64) {
        4294967295
    }

    fn from_u64(v: u64) -> (r: u32) {
        v as u32
    }
}

impl DecimalTarget for u64 {
    open spec fn max_value() -> int {
        u64::MAX as int
    }

    open spec fn to_int(&self) -> int {
        *self as int
    }

    fn largest() -> (m: u64) {
        u64::MAX
    }

    fn from_u64(v: u64) -> (r: u64) {
        v
    }
}

/// Reads `s` as a decimal value of type `T`, as `str::parse` does for unsigned types.
pub fn parse_uint<T: DecimalTarget>(s: &str) -> (r: Result<T, IntParseError>)
    requires
        0 <= T::max_value() <= u64::MAX,
    ensures
        match decimal_value(s@, T::max_value()) {
            Ok(v) => r matches Ok(x) && x.to_int() == v,
            Err(e) => r == Err::<T, IntParseError>(e),
        },
{
    let max = T::largest();
    proof { lemma_decimal_value_bound(s@, max as int); }
    match parse_decimal(s, max) {
        Ok(v) => Ok(T::from_u64(v)),
        Err(e) => Err(e),
    }
}

/// The character of the decimal digit `d` (below 10).
pub open spec fn digit_char(d: nat) -> char {
    if d == 0 {
        '0'
    } else if d == 1 {
        '1'
    } else if d == 2 {
        '2'
    } else if d == 3 {
        '3'
    } else if d == 4 {
        '4'
    } else if d == 5 {
        '5'
    } else if d == 6 {
        '6'
    } else if d == 7 {
        '7'
    } else if d == 8 {
        '8'
    } else {
        '9'
    }
}

/// `n` written in decimal, most significant digit first, without leading zeros.
pub open spec fn decimal_text(n: nat) -> Seq<char>
    decreases n,
{
    if n < 10 {
        seq![digit_char(n)]
    } else {
        decimal_text(n / 10).push(digit_char(n % 10))
    }
}

/// The character of the decimal digit `d`.
fn digit_of(d: u32) -> (c: char)
    requires
        d < 10,
    ensures
        c == digit_char(d as nat),
{
    if d == 0 {
        '0'
    } else if d == 1 {
        '1'
    } else if d == 2 {
        '2'
    } else if d == 3 {
        '3'
    } else if d == 4 {
        '4'
    } else if d == 5 {
        '5'
    } else if d == 6 {
        '6'
    } else if d == 7 {
        '7'
    } else if d == 8 {
        '8'
    } else {
        '9'
    }
}

/// `n` written in decimal, as `Display` writes it.
pub fn decimal_string(n: u32) -> (s: String)
    ensures
        s@ == decimal_text(n as nat),
    decreases n,
{
    if n < 10 {
        let mut s = String::new();
        s.push(digit_of(n));
        assert(s@ =~= seq![digit_char(n as nat)]);
        s
    } else {
        let mut s = decimal_string(n / 10);
        s.push(digit_of(n % 10));
        s
    }
}

} // verus!
