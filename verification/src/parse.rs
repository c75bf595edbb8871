//! Verified base-10 integer parsing.
//!
//! `parse_number` accepts an optional `+` or `-` sign followed by at least
//! one decimal digit and yields the `i32` the text denotes, or the exact
//! failure: empty input, a non-digit character, or a value outside the `i32`
//! range.  The whole behaviour is pinned by the spec function [`parse_i32`],
//! which scans left to right exactly as the executable code does, so that
//! the error reported for mixed bad inputs (an overflow before an invalid
//! digit, say) is part of the contract.

use vstd::prelude::*;
use vstd::string::StrSliceExecFns;
use vstd::string::StringExecFns;

verus! {

/// The ways parsing an integer out of text can fail.
#[derive(Clone, Copy, Debug, PartialEq, Eq, Structural)]
pub enum IntParseError {
    /// The input was empty.
    Empty,
    /// A character that is not a decimal digit was found (a bare sign counts).
    InvalidDigit,
    /// The digits denote a value above `i32::MAX`.
    PosOverflow,
    /// The digits denote a value below `i32::MIN`.
    NegOverflow,
}

/// The display text of each parse failure.
pub open spec fn int_parse_error_text(e: IntParseError) -> Seq<char> {
    match e {
        IntParseError::Empty => "cannot parse integer from empty string"@,
        IntParseError::InvalidDigit => "invalid digit found in string"@,
        IntParseError::PosOverflow => "number too large to fit in target type"@,
        IntParseError::NegOverflow => "number too small to fit in target type"@,
    }
}

impl IntParseError {
    /// A human-readable description of the failure.
    pub fn to_display_string(&self) -> (r: String)
        ensures
            r@ == int_parse_error_text(*self),
    {
        match self {
            IntParseError::Empty => String::from_str("cannot parse integer from empty string"),
            IntParseError::InvalidDigit => String::from_str("invalid digit found in string"),
            IntParseError::PosOverflow => String::from_str("number too large to fit in target type"),
            IntParseError::NegOverflow => String::from_str("number too small to fit in target type"),
        }
    }
}

/// Whether `c` is a decimal digit.
pub open spec fn is_digit(c: char) -> bool {
    '0' as u32 <= c as u32 && c as u32 <= '9' as u32
}

/// The numeric value of a decimal digit.
pub open spec fn digit_value(c: char) -> int {
    c as u32 - '0' as u32
}

/// Left-to-right accumulation of the digits of `s` from position `i`
/// onwards, starting from the partial value `acc` (non-positive when `neg`).
/// Each step first demands a digit, then checks that the extended value
/// still fits in `i32`, mirroring the order of the executable scan.
pub open spec fn parse_digits(s: Seq<char>, i: int, acc: int, neg: bool) -> Result<
    i32,
    IntParseError,
>
    decreases s.len() - i,
{
    if i >= s.len() {
        Ok(acc as i32)
    } else if !is_digit(s[i]) {
        Err(IntParseError::InvalidDigit)
    } else {
        let next = if neg {
            acc * 10 - digit_value(s[i])
        } else {
            acc * 10 + digit_value(s[i])
        };
        if neg && next < i32::MIN {
            Err(IntParseError::NegOverflow)
        } else if !neg && next > i32::MAX {
            Err(IntParseError::PosOverflow)
        } else {
            parse_digits(s, i + 1, next, neg)
        }
    }
}

/// What parsing the text `s` as a base-10 `i32` yields.
pub open spec fn parse_i32(s: Seq<char>) -> Result<i32, IntParseError> {
    if s.len() == 0 {
        Err(IntParseError::Empty)
    } else {
        let neg = s[0] == '-';
        let start: int = if neg || s[0] == '+' {
            1
        } else {
            0
        };
        if s.len() == start {
            Err(IntParseError::InvalidDigit)
        } else {
            parse_digits(s, start, 0, neg)
        }
    }
}

/// Parses `s` as a base-10 `i32`.
pub fn parse_number(s: &str) -> (r: Result<i32, IntParseError>)
    ensures
        r == parse_i32(s@),
{
    let n = s.unicode_len();
    if n == 0 {
        return Err(IntParseError::Empty);
    }
    let c0 = s.get_char(0);
    let neg = c0 == '-';
    let mut i: usize = if neg || c0 == '+' {
        1
    } else {
        0
    };
    if i == n {
        return Err(IntParseError::InvalidDigit);
    }
    let mut acc: i64 = 0;
    while i < n
        invariant
            i <= n,
            n == s@.len(),
            neg ==> i32::MIN <= acc <= 0,
            !neg ==> 0 <= acc <= i32::MAX,
            parse_i32(s@) == parse_digits(s@, i as int, acc as int, neg),
        decreases n - i,
    {
        let c = s.get_char(i);
        let cv = c as u32;
        if cv < '0' as u32 || cv > '9' as u32 {
            return Err(IntParseError::InvalidDigit);
        }
        let d = cv - '0' as u32;
        let next: i64 = if neg {
            acc * 10 - d as i64
        } else {
            acc * 10 + d as i64
        };
        if neg && next < i32::MIN as i64 {
            return Err(IntParseError::NegOverflow);
        }
        if !neg && next > i32::MAX as i64 {
            return Err(IntParseError::PosOverflow);
        }
        acc = next;
        i = i + 1;
    }
    Ok(acc as i32)
}

/// Parses both arguments and returns their sum, stopping at the first
/// argument that does not parse.
pub fn add_numbers(a: &str, b: &str) -> (r: Result<i32, IntParseError>)
    requires
        parse_i32(a@) matches Ok(x) && parse_i32(b@) matches Ok(y) ==> i32::MIN <= x + y
            <= i32::MAX,
    ensures
        match (parse_i32(a@), parse_i32(b@)) {
            (Ok(x), Ok(y)) => r == Ok::<i32, IntParseError>((x + y) as i32),
            (Err(e), _) => r == Err::<i32, IntParseError>(e),
            (_, Err(e)) => r == Err::<i32, IntParseError>(e),
        },
{
    let num_a = match parse_number(a) {
        Ok(v) => v,
        Err(e) => return Err(e),
    };
    let num_b = match parse_number(b) {
        Ok(v) => v,
        Err(e) => return Err(e),
    };
    Ok(num_a + num_b)
}

} // verus!
