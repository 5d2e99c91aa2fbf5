//! Numeric value parsing: integers and plain decimal numerals.
//!
//! Every numeric field of the model is read from a source token by one of
//! these parsers. Their meaning is given by the spec functions in this
//! module; the executable parsers return exactly what the spec functions
//! say, error cases included.

use vstd::prelude::*;
use vstd::arithmetic::div_mod::lemma_fundamental_div_mod;
use vstd::string::StrSliceExecFns;

verus! {

/// Why a numeric token failed to parse.
#[derive(Clone, Copy, Debug, PartialEq, Eq, Structural)]
pub enum IntParseError {
    /// The token was empty.
    Empty,
    /// A character was not a decimal digit where one was required.
    InvalidDigit,
    /// The value does not fit in the target type.
    OutOfRange,
}

/// A plain decimal numeral, kept exactly as written: sign, integer part,
/// and fraction digits. `"5.000000"` is `neg: false, units: 5, frac: 0,
/// frac_len: 6`.
///
/// The model stores movement constants this way rather than as binary
/// floating point, so that every stored value is exactly the numeral in the
/// source text.
#[derive(Clone, Copy, Debug, PartialEq, Eq, Structural)]
pub struct Decimal {
    /// Whether the numeral begins with `-`.
    pub neg: bool,
    /// Value of the digits before the decimal point.
    pub units: u64,
    /// Value of the digits after the decimal point, as an integer.
    pub frac: u64,
    /// How many digits follow the decimal point.
    pub frac_len: usize,
}

impl Decimal {
    /// The numeral `0`.
    pub fn zero() -> (r: Decimal)
        ensures
            r == (Decimal { neg: false, units: 0, frac: 0, frac_len: 0 }),
    {
        Decimal { neg: false, units: 0, frac: 0, frac_len: 0 }
    }
}

/// Whether `c` is a decimal digit.
pub open spec fn is_dec_digit(c: char) -> bool {
    48 <= c as int && c as int <= 57
}

/// Value of the digit `c`.
pub open spec fn digit_val(c: char) -> int {
    c as int - 48
}

/// Sign prefix of a numeric token: whether it denotes a negative value, and
/// where its digits start.
pub open spec fn spec_sign(s: Seq<char>) -> (bool, int) {
    if s.len() > 0 && s[0] == '-' {
        (true, 1)
    } else if s.len() > 0 && s[0] == '+' {
        (false, 1)
    } else {
        (false, 0)
    }
}

/// Reads digits from position `i` to the end of `s`, accumulating onto
/// `mag`, exactly as the executable loop does: the first offending
/// character decides the error.
pub open spec fn spec_digits_loop(s: Seq<char>, i: int, mag: u64) -> Result<u64, IntParseError>
    decreases s.len() - i,
{
    if i < 0 || i >= s.len() {
        Ok(mag)
    } else if !is_dec_digit(s[i]) {
        Err(IntParseError::InvalidDigit)
    } else if mag as int * 10 + digit_val(s[i]) > u64::MAX as int {
        Err(IntParseError::OutOfRange)
    } else {
        spec_digits_loop(s, i + 1, (mag * 10 + digit_val(s[i])) as u64)
    }
}

/// Meaning of an integer token: an optional sign, then one or more digits.
/// The result is the denoted value, unbounded.
pub open spec fn spec_parse_core(s: Seq<char>) -> Result<int, IntParseError> {
    if s.len() == 0 {
        Err(IntParseError::Empty)
    } else {
        let (neg, start) = spec_sign(s);
        if start >= s.len() {
            Err(IntParseError::InvalidDigit)
        } else {
            match spec_digits_loop(s, start, 0) {
                Ok(mag) => Ok(if neg { -(mag as int) } else { mag as int }),
                Err(e) => Err(e),
            }
        }
    }
}

/// Meaning of an integer token bounded to `[min, max]`.
pub open spec fn spec_parse_ranged(s: Seq<char>, min: int, max: int) -> Result<
    int,
    IntParseError,
> {
    match spec_parse_core(s) {
        Ok(v) => if min <= v && v <= max {
            Ok(v)
        } else {
            Err(IntParseError::OutOfRange)
        },
        Err(e) => Err(e),
    }
}

/// Reads the sign and unbounded magnitude of the integer token `s`.
fn parse_core(s: &str) -> (r: Result<(bool, u64), IntParseError>)
    ensures
        match r {
            Ok((neg, mag)) => spec_parse_core(s@) == Ok::<int, IntParseError>(
                if neg {
                    -(mag as int)
                } else {
                    mag as int
                },
            ),
            Err(e) => spec_parse_core(s@) == Err::<int, IntParseError>(e),
        },
{
    let n = s.unicode_len();
    if n == 0 {
        return Err(IntParseError::Empty);
    }
    let first = s.get_char(0);
    let (neg, start): (bool, usize) = if first == '-' {
        (true, 1)
    } else if first == '+' {
        (false, 1)
    } else {
        (false, 0)
    };
    if start >= n {
        return Err(IntParseError::InvalidDigit);
    }
    let mut mag: u64 = 0;
    let mut i: usize = start;
    while i < n
        invariant
            start <= i <= n,
            n == s@.len(),
            n > 0,
            start < n,
            spec_sign(s@) == (neg, start as int),
            spec_digits_loop(s@, start as int, 0) == spec_digits_loop(s@, i as int, mag),
        decreases n - i,
    {
        let c = s.get_char(i);
        let d = c as u32;
        if d < 48 || d > 57 {
            return Err(IntParseError::InvalidDigit);
        }
        let dv = (d - 48) as u64;
        if mag > (u64::MAX - dv) / 10 {
            proof {
                assert(mag as int * 10 + digit_val(s@[i as int]) > u64::MAX as int) by (nonlinear_arith)
                    requires
                        mag as int > (u64::MAX as int - dv as int) / 10,
                        dv == digit_val(s@[i as int]),
                        0 <= dv <= 9,
                {
                    lemma_fundamental_div_mod(u64::MAX as int - dv as int, 10);
                }
            }
            return Err(IntParseError::OutOfRange);
        }
        proof {
            assert(mag as int * 10 + dv as int <= u64::MAX as int) by (nonlinear_arith)
                requires
                    mag as int <= (u64::MAX as int - dv as int) / 10,
                    0 <= dv <= 9,
                    0 <= mag,
            {
                lemma_fundamental_div_mod(u64::MAX as int - dv as int, 10);
            }
        }
        mag = mag * 10 + dv;
        i = i + 1;
    }
    Ok((neg, mag))
}

/// Meaning of an unsigned token: a minus sign is rejected outright, even
/// on `-0`, as unsigned integer parsing does; otherwise the ranged
/// meaning applies.
pub open spec fn spec_parse_unsigned(s: Seq<char>, max: int) -> Result<int, IntParseError> {
    if s.len() > 0 && s[0] == '-' {
        Err(IntParseError::InvalidDigit)
    } else {
        spec_parse_ranged(s, 0, max)
    }
}

/// Meaning of a `u32` field token.
pub open spec fn spec_parse_u32(s: Seq<char>) -> Result<u32, IntParseError> {
    match spec_parse_unsigned(s, u32::MAX as int) {
        Ok(v) => Ok(v as u32),
        Err(e) => Err(e),
    }
}

/// Parses a `u32` field token.
pub fn parse_u32(s: &str) -> (r: Result<u32, IntParseError>)
    ensures
        r == spec_parse_u32(s@),
{
    if s.unicode_len() > 0 && s.get_char(0) == '-' {
        return Err(IntParseError::InvalidDigit);
    }
    match parse_core(s) {
        Ok((neg, mag)) => {
            if mag > u32::MAX as u64 {
                Err(IntParseError::OutOfRange)
            } else {
                Ok(mag as u32)
            }
        },
        Err(e) => Err(e),
    }
}

/// Meaning of a `u64` field token.
pub open spec fn spec_parse_u64(s: Seq<char>) -> Result<u64, IntParseError> {
    match spec_parse_unsigned(s, u64::MAX as int) {
        Ok(v) => Ok(v as u64),
        Err(e) => Err(e),
    }
}

/// Parses a `u64` field token.
pub fn parse_u64(s: &str) -> (r: Result<u64, IntParseError>)
    ensures
        r == spec_parse_u64(s@),
{
    if s.unicode_len() > 0 && s.get_char(0) == '-' {
        return Err(IntParseError::InvalidDigit);
    }
    match parse_core(s) {
        Ok((neg, mag)) => Ok(mag),
        Err(e) => Err(e),
    }
}

/// Meaning of an `i32` field token.
pub open spec fn spec_parse_i32(s: Seq<char>) -> Result<i32, IntParseError> {
    match spec_parse_ranged(s, i32::MIN as int, i32::MAX as int) {
        Ok(v) => Ok(v as i32),
        Err(e) => Err(e),
    }
}

/// Parses an `i32` field token.
pub fn parse_i32(s: &str) -> (r: Result<i32, IntParseError>)
    ensures
        r == spec_parse_i32(s@),
{
    match parse_core(s) {
        Ok((neg, mag)) => {
            if neg {
                if mag > 0x8000_0000u64 {
                    Err(IntParseError::OutOfRange)
                } else if mag == 0x8000_0000u64 {
                    Ok(i32::MIN)
                } else {
                    Ok(-(mag as i32))
                }
            } else {
                if mag > i32::MAX as u64 {
                    Err(IntParseError::OutOfRange)
                } else {
                    Ok(mag as i32)
                }
            }
        },
        Err(e) => Err(e),
    }
}

/// Meaning of an `i64` field token.
pub open spec fn spec_parse_i64(s: Seq<char>) -> Result<i64, IntParseError> {
    match spec_parse_ranged(s, i64::MIN as int, i64::MAX as int) {
        Ok(v) => Ok(v as i64),
        Err(e) => Err(e),
    }
}

/// Parses an `i64` field token.
pub fn parse_i64(s: &str) -> (r: Result<i64, IntParseError>)
    ensures
        r == spec_parse_i64(s@),
{
    match parse_core(s) {
        Ok((neg, mag)) => {
            if neg {
                if mag > 0x8000_0000_0000_0000u64 {
                    Err(IntParseError::OutOfRange)
                } else if mag == 0x8000_0000_0000_0000u64 {
                    Ok(i64::MIN)
                } else {
                    Ok(-(mag as i64))
                }
            } else {
                if mag > i64::MAX as u64 {
                    Err(IntParseError::OutOfRange)
                } else {
                    Ok(mag as i64)
                }
            }
        },
        Err(e) => Err(e),
    }
}

/// Meaning of a `usize` field token.
pub open spec fn spec_parse_usize(s: Seq<char>) -> Result<usize, IntParseError> {
    match spec_parse_unsigned(s, usize::MAX as int) {
        Ok(v) => Ok(v as usize),
        Err(e) => Err(e),
    }
}

/// Parses a `usize` field token.
pub fn parse_usize(s: &str) -> (r: Result<usize, IntParseError>)
    ensures
        r == spec_parse_usize(s@),
{
    if s.unicode_len() > 0 && s.get_char(0) == '-' {
        return Err(IntParseError::InvalidDigit);
    }
    match parse_core(s) {
        Ok((neg, mag)) => {
            if mag > usize::MAX as u64 {
                Err(IntParseError::OutOfRange)
            } else {
                Ok(mag as usize)
            }
        },
        Err(e) => Err(e),
    }
}

/// Meaning of an `isize` field token.
pub open spec fn spec_parse_isize(s: Seq<char>) -> Result<isize, IntParseError> {
    match spec_parse_ranged(s, isize::MIN as int, isize::MAX as int) {
        Ok(v) => Ok(v as isize),
        Err(e) => Err(e),
    }
}

/// Parses an `isize` field token.
pub fn parse_isize(s: &str) -> (r: Result<isize, IntParseError>)
    ensures
        r == spec_parse_isize(s@),
{
    match parse_core(s) {
        Ok((neg, mag)) => {
            if neg {
                if mag > isize::MAX as u64 + 1 {
                    Err(IntParseError::OutOfRange)
                } else if mag == isize::MAX as u64 + 1 {
                    Ok(isize::MIN)
                } else {
                    Ok(-(mag as isize))
                }
            } else {
                if mag > isize::MAX as u64 {
                    Err(IntParseError::OutOfRange)
                } else {
                    Ok(mag as isize)
                }
            }
        },
        Err(e) => Err(e),
    }
}

/// Reads the integer part of a decimal numeral from position `i`: stops at
/// the decimal point or the end, as the executable loop does.
pub open spec fn spec_units_loop(s: Seq<char>, i: int, mag: u64) -> Result<
    (u64, int),
    IntParseError,
>
    decreases s.len() - i,
{
    if i < 0 || i >= s.len() {
        Ok((mag, i))
    } else if s[i] == '.' {
        Ok((mag, i))
    } else if !is_dec_digit(s[i]) {
        Err(IntParseError::InvalidDigit)
    } else if mag as int * 10 + digit_val(s[i]) > u64::MAX as int {
        Err(IntParseError::OutOfRange)
    } else {
        spec_units_loop(s, i + 1, (mag * 10 + digit_val(s[i])) as u64)
    }
}

/// Reads fraction digits from position `i` to the end, counting them.
pub open spec fn spec_frac_loop(s: Seq<char>, i: int, mag: u64, cnt: usize) -> Result<
    (u64, usize),
    IntParseError,
>
    decreases s.len() - i,
{
    if i < 0 || i >= s.len() {
        Ok((mag, cnt))
    } else if !is_dec_digit(s[i]) {
        Err(IntParseError::InvalidDigit)
    } else if mag as int * 10 + digit_val(s[i]) > u64::MAX as int || cnt as int + 1 > usize::MAX
        as int {
        Err(IntParseError::OutOfRange)
    } else {
        spec_frac_loop(s, i + 1, (mag * 10 + digit_val(s[i])) as u64, (cnt + 1) as usize)
    }
}

/// Meaning of a decimal numeral token: an optional sign, one or more
/// digits, then optionally a decimal point followed by one or more digits.
pub open spec fn spec_parse_decimal(s: Seq<char>) -> Result<Decimal, IntParseError> {
    if s.len() == 0 {
        Err(IntParseError::Empty)
    } else {
        let (neg, start) = spec_sign(s);
        if start >= s.len() || s[start] == '.' {
            Err(IntParseError::InvalidDigit)
        } else {
            match spec_units_loop(s, start, 0) {
                Err(e) => Err(e),
                Ok((units, stop)) => if stop >= s.len() {
                    Ok(Decimal { neg, units, frac: 0, frac_len: 0 })
                } else if stop + 1 >= s.len() {
                    // A decimal point with nothing after it.
                    Err(IntParseError::InvalidDigit)
                } else {
                    match spec_frac_loop(s, stop + 1, 0, 0) {
                        Err(e) => Err(e),
                        Ok((frac, frac_len)) => Ok(Decimal { neg, units, frac, frac_len }),
                    }
                },
            }
        }
    }
}

/// Parses a decimal numeral token.
pub fn parse_decimal(s: &str) -> (r: Result<Decimal, IntParseError>)
    ensures
        r == spec_parse_decimal(s@),
{
    let n = s.unicode_len();
    if n == 0 {
        return Err(IntParseError::Empty);
    }
    let first = s.get_char(0);
    let (neg, start): (bool, usize) = if first == '-' {
        (true, 1)
    } else if first == '+' {
        (false, 1)
    } else {
        (false, 0)
    };
    if start >= n || s.get_char(start) == '.' {
        return Err(IntParseError::InvalidDigit);
    }
    let mut units: u64 = 0;
    let mut i: usize = start;
    let mut at_point = false;
    while i < n && !at_point
        invariant
            start <= i <= n,
            n == s@.len(),
            n > 0,
            start < n,
            s@[start as int] != '.',
            spec_sign(s@) == (neg, start as int),
            at_point ==> i < n && s@[i as int] == '.',
            !at_point ==> spec_units_loop(s@, start as int, 0) == spec_units_loop(
                s@,
                i as int,
                units,
            ),
            at_point ==> spec_units_loop(s@, start as int, 0) == Ok::<(u64, int), IntParseError>(
                (units, i as int),
            ),
        decreases n - i, (if at_point { 0int } else { 1int }),
    {
        let c = s.get_char(i);
        if c == '.' {
            at_point = true;
        } else {
            let d = c as u32;
            if d < 48 || d > 57 {
                return Err(IntParseError::InvalidDigit);
            }
            let dv = (d - 48) as u64;
            if units > (u64::MAX - dv) / 10 {
                proof {
                    assert(units as int * 10 + digit_val(s@[i as int]) > u64::MAX as int)
                        by (nonlinear_arith)
                        requires
                            units as int > (u64::MAX as int - dv as int) / 10,
                            dv == digit_val(s@[i as int]),
                            0 <= dv <= 9,
                    {
                        lemma_fundamental_div_mod(u64::MAX as int - dv as int, 10);
                    }
                }
                return Err(IntParseError::OutOfRange);
            }
            proof {
                assert(units as int * 10 + dv as int <= u64::MAX as int) by (nonlinear_arith)
                    requires
                        units as int <= (u64::MAX as int - dv as int) / 10,
                        0 <= dv <= 9,
                        0 <= units,
                {
                    lemma_fundamental_div_mod(u64::MAX as int - dv as int, 10);
                }
            }
            units = units * 10 + dv;
            i = i + 1;
        }
    }
    if !at_point {
        return Ok(Decimal { neg, units, frac: 0, frac_len: 0 });
    }
    // Skip the decimal point; at least one digit must follow.
    let point = i;
    if point + 1 >= n {
        return Err(IntParseError::InvalidDigit);
    }
    let mut frac: u64 = 0;
    let mut cnt: usize = 0;
    let mut j: usize = point + 1;
    while j < n
        invariant
            point + 1 <= j <= n,
            n == s@.len(),
            n > 0,
            start < n,
            s@[start as int] != '.',
            spec_sign(s@) == (neg, start as int),
            start <= point < n,
            s@[point as int] == '.',
            point + 1 < n,
            spec_units_loop(s@, start as int, 0) == Ok::<(u64, int), IntParseError>(
                (units, point as int),
            ),
            spec_frac_loop(s@, point + 1, 0, 0) == spec_frac_loop(s@, j as int, frac, cnt),
            cnt <= j,
        decreases n - j,
    {
        let c = s.get_char(j);
        let d = c as u32;
        if d < 48 || d > 57 {
            return Err(IntParseError::InvalidDigit);
        }
        let dv = (d - 48) as u64;
        if frac > (u64::MAX - dv) / 10 {
            proof {
                assert(frac as int * 10 + digit_val(s@[j as int]) > u64::MAX as int)
                    by (nonlinear_arith)
                    requires
                        frac as int > (u64::MAX as int - dv as int) / 10,
                        dv == digit_val(s@[j as int]),
                        0 <= dv <= 9,
                {
                    lemma_fundamental_div_mod(u64::MAX as int - dv as int, 10);
                }
            }
            return Err(IntParseError::OutOfRange);
        }
        proof {
            assert(frac as int * 10 + dv as int <= u64::MAX as int) by (nonlinear_arith)
                requires
                    frac as int <= (u64::MAX as int - dv as int) / 10,
                    0 <= dv <= 9,
                    0 <= frac,
            {
                lemma_fundamental_div_mod(u64::MAX as int - dv as int, 10);
            }
        }
        frac = frac * 10 + dv;
        cnt = cnt + 1;
        j = j + 1;
    }
    Ok(Decimal { neg, units, frac, frac_len: cnt })
}

} // verus!

verus! {

impl IntParseError {
    /// The text of this failure's description.
    pub open spec fn spec_message(self) -> Seq<char> {
        match self {
            IntParseError::Empty => "cannot parse a number from an empty token"@,
            IntParseError::InvalidDigit => "invalid digit found in the token"@,
            IntParseError::OutOfRange => "the number does not fit in the target type"@,
        }
    }

    /// A human-readable description of the failure.
    pub fn message(&self) -> (r: String)
        ensures
            r@ == self.spec_message(),
    {
        let mut s = String::new();
        match self {
            IntParseError::Empty => {
                crate::text::push_str(&mut s, "cannot parse a number from an empty token");
                proof {
                    assert(s@ =~= "cannot parse a number from an empty token"@);
                }
            },
            IntParseError::InvalidDigit => {
                crate::text::push_str(&mut s, "invalid digit found in the token");
                proof {
                    assert(s@ =~= "invalid digit found in the token"@);
                }
            },
            IntParseError::OutOfRange => {
                crate::text::push_str(&mut s, "the number does not fit in the target type");
                proof {
                    assert(s@ =~= "the number does not fit in the target type"@);
                }
            },
        }
        s
    }
}

} // verus!
