//! Decimal numbers as they are written in request parameters, and the
//! values they stand for.

use vstd::prelude::*;
use crate::geo_transform::{coord_in_range, COORD_LIMIT, COORD_SCALE};

verus! {

/// Why a text is not a number that can be held.
#[derive(Debug, Clone, Copy, PartialEq, Eq, Structural)]
pub enum ParseNumberError {
    /// The text is not a decimal number.
    InvalidNumber,
    /// The number is beyond the range of its type.
    OutOfRange,
}

/// Whether `b` is an ASCII digit.
pub open spec fn is_digit(b: u8) -> bool {
    0x30 <= b <= 0x39
}

/// Whether `s` holds digits only.
pub open spec fn all_digits(s: Seq<u8>) -> bool {
    forall|i: int| 0 <= i < s.len() ==> is_digit(#[trigger] s[i])
}

/// Where the run of digits that starts at `from` ends: the index of the
/// first byte at or after `from` that is no digit, or the length of `s`.
pub open spec fn digit_run_end(s: Seq<u8>, from: int) -> int
    decreases s.len() - from,
{
    if from < 0 || from >= s.len() {
        s.len() as int
    } else if !is_digit(s[from]) {
        from
    } else {
        digit_run_end(s, from + 1)
    }
}

/// The number that the digits of `s` write in base ten.
pub open spec fn digits_value(s: Seq<u8>) -> nat
    decreases s.len(),
{
    if s.len() == 0 {
        0
    } else {
        digits_value(s.drop_last()) * 10 + (s.last() - 0x30) as nat
    }
}

/// The value of the digits of `s` from index `from` on, where the digit at
/// `from` weighs `weight`, the next one a tenth of it, and so on. Digits
/// whose weight would be below one count nothing.
pub open spec fn fraction_value(s: Seq<u8>, from: int, weight: nat) -> nat
    decreases s.len() - from,
{
    if from < 0 || from >= s.len() || weight == 0 {
        0
    } else {
        (s[from] - 0x30) as nat * weight + fraction_value(s, from + 1, weight / 10)
    }
}

/// The fixed-point coordinate that `t` writes.
///
/// Digits after the ninth decimal place are dropped. A magnitude above
/// `COORD_LIMIT` is out of range.
pub open spec fn coordinate_of(t: Seq<u8>) -> Result<i64, ParseNumberError> {
    let signed = t.len() > 0 && (t[0] == 0x2d || t[0] == 0x2b);
    let body = if signed {
        t.subrange(1, t.len() as int)
    } else {
        t
    };
    let split = digit_run_end(body, 0);
    let whole = body.subrange(0, split);
    let fraction = if split < body.len() {
        body.subrange(split + 1, body.len() as int)
    } else {
        Seq::<u8>::empty()
    };
    let shaped = split > 0 && (split == body.len() || (body[split] == 0x2e && fraction.len() > 0
        && all_digits(fraction)));
    let magnitude = digits_value(whole) * (COORD_SCALE as nat) + fraction_value(
        fraction,
        0,
        100_000_000,
    );
    if !shaped {
        Err(ParseNumberError::InvalidNumber)
    } else if magnitude > COORD_LIMIT {
        Err(ParseNumberError::OutOfRange)
    } else if t[0] == 0x2d {
        Ok((-(magnitude as int)) as i64)
    } else {
        Ok(magnitude as i64)
    }
}

proof fn lemma_digit_run(s: Seq<u8>, from: int, end: int)
    requires
        0 <= from <= end <= s.len(),
        forall|i: int| from <= i < end ==> is_digit(#[trigger] s[i]),
        end == s.len() || !is_digit(s[end]),
    ensures
        digit_run_end(s, from) == end,
    decreases end - from,
{
    if from < end {
        lemma_digit_run(s, from + 1, end);
    }
}

/// Parses one decimal number into a fixed-point coordinate.
pub fn parse_coordinate(t: &[u8]) -> (r: Result<i64, ParseNumberError>)
    ensures
        r == coordinate_of(t@),
        r matches Ok(v) ==> coord_in_range(v as int),
{
    let len = t.len();
    let negative = len > 0 && t[0] == 0x2d;
    let start: usize = if len > 0 && (t[0] == 0x2d || t[0] == 0x2b) {
        1
    } else {
        0
    };
    let ghost body = t@.subrange(start as int, len as int);
    proof {
        assert(t@.subrange(0, len as int) =~= t@);
    }
    // The whole part: digits up to the first byte that is none.
    let mut i: usize = start;
    let mut whole: u64 = 0;
    let mut over = false;
    while i < len && 0x30 <= t[i] && t[i] <= 0x39
        invariant
            start <= i <= len,
            len == t@.len(),
            body == t@.subrange(start as int, len as int),
            forall|k: int| 0 <= k < i - start ==> is_digit(#[trigger] body[k]),
            !over ==> whole == digits_value(body.take(i - start)) && whole <= 4_000_000_000,
            over ==> digits_value(body.take(i - start)) > 4_000_000_000,
        decreases len - i,
    {
        proof {
            assert(body.take(i - start + 1).drop_last() =~= body.take(i - start));
        }
        if !over {
            whole = whole * 10 + (t[i] - 0x30) as u64;
            if whole > 4_000_000_000 {
                over = true;
            }
        }
        i = i + 1;
    }
    let ghost split = i - start;
    proof {
        lemma_digit_run(body, 0, split);
    }
    if i == start {
        return Err(ParseNumberError::InvalidNumber);
    }
    let mut fraction: u64 = 0;
    if i < len {
        if t[i] != 0x2e || i + 1 == len {
            return Err(ParseNumberError::InvalidNumber);
        }
        let first: usize = i + 1;
        let ghost digits = body.subrange(split + 1, body.len() as int);
        // The fraction: digits to the end, of which nine places count.
        let mut j: usize = first;
        let mut weight: u64 = 100_000_000;
        while j < len && 0x30 <= t[j] && t[j] <= 0x39
            invariant
                first <= j <= len,
                len == t@.len(),
                start <= len,
                0 <= split,
                first == start + split + 1,
                digits.len() == len - first,
                body == t@.subrange(start as int, len as int),
                digits == body.subrange(split + 1, body.len() as int),
                forall|k: int| 0 <= k < j - first ==> is_digit(#[trigger] digits[k]),
                fraction + fraction_value(digits, j - first, weight as nat) == fraction_value(
                    digits,
                    0,
                    100_000_000,
                ),
                fraction + 10 * weight <= 1_000_000_000,
            decreases len - j,
        {
            let d: u64 = (t[j] - 0x30) as u64;
            proof {
                assert(d * weight <= 9 * weight) by (nonlinear_arith)
                    requires
                        d <= 9,
                        weight >= 0,
                ;
            }
            fraction = fraction + d * weight;
            weight = weight / 10;
            j = j + 1;
        }
        if j < len {
            return Err(ParseNumberError::InvalidNumber);
        }
    }
    if over {
        proof {
            assert(digits_value(body.subrange(0, split)) * (COORD_SCALE as nat)
                > 4_000_000_000 * 1_000_000_000) by (nonlinear_arith)
                requires
                    digits_value(body.subrange(0, split)) > 4_000_000_000,
                    COORD_SCALE == 1_000_000_000,
            ;
        }
        return Err(ParseNumberError::OutOfRange);
    }
    let magnitude: u64 = whole * 1_000_000_000 + fraction;
    if magnitude > 4_000_000_000_000_000_000 {
        return Err(ParseNumberError::OutOfRange);
    }
    if negative {
        Ok(-(magnitude as i64))
    } else {
        Ok(magnitude as i64)
    }
}

/// The unsigned number that `t` writes: an optional plus sign and one or
/// more digits, with a value that 32 bits can hold.
pub open spec fn unsigned_of(t: Seq<u8>) -> Result<u32, ParseNumberError> {
    let body = if t.len() > 0 && t[0] == 0x2b {
        t.subrange(1, t.len() as int)
    } else {
        t
    };
    if body.len() == 0 || !all_digits(body) {
        Err(ParseNumberError::InvalidNumber)
    } else if digits_value(body) > u32::MAX {
        Err(ParseNumberError::OutOfRange)
    } else {
        Ok(digits_value(body) as u32)
    }
}

/// Parses an unsigned decimal number.
pub fn parse_unsigned(t: &[u8]) -> (r: Result<u32, ParseNumberError>)
    ensures
        r == unsigned_of(t@),
{
    let len = t.len();
    let start: usize = if len > 0 && t[0] == 0x2b {
        1
    } else {
        0
    };
    let ghost body = t@.subrange(start as int, len as int);
    proof {
        assert(t@.subrange(0, len as int) =~= t@);
    }
    let mut i: usize = start;
    let mut value: u64 = 0;
    let mut over = false;
    while i < len && 0x30 <= t[i] && t[i] <= 0x39
        invariant
            start <= i <= len,
            len == t@.len(),
            body == t@.subrange(start as int, len as int),
            forall|k: int| 0 <= k < i - start ==> is_digit(#[trigger] body[k]),
            !over ==> value == digits_value(body.take(i - start)) && value <= u32::MAX,
            over ==> digits_value(body.take(i - start)) > u32::MAX,
        decreases len - i,
    {
        proof {
            assert(body.take(i - start + 1).drop_last() =~= body.take(i - start));
        }
        if !over {
            value = value * 10 + (t[i] - 0x30) as u64;
            if value > u32::MAX as u64 {
                over = true;
            }
        }
        i = i + 1;
    }
    if i < len {
        proof {
            assert(!is_digit(body[i - start]));
        }
        return Err(ParseNumberError::InvalidNumber);
    }
    if i == start {
        return Err(ParseNumberError::InvalidNumber);
    }
    proof {
        assert(body.take(i - start) =~= body);
    }
    if over {
        return Err(ParseNumberError::OutOfRange);
    }
    Ok(value as u32)
}

} // verus!
