//! Reading an id as an `i32`, with the grammar and the errors of
//! `str::parse::<i32>`: an optional `+` or `-`, then decimal digits.

use vstd::prelude::*;
use crate::text::{digit_value, is_digit};

verus! {

/// Why a text is not an id.
#[derive(Clone, Copy, Debug, PartialEq, Eq, Structural)]
pub enum IdError {
    /// The text is empty.
    Empty,
    /// A character that is not a digit, or a sign with nothing after it.
    InvalidDigit,
    /// The number is above `i32::MAX`.
    PosOverflow,
    /// The number is below `i32::MIN`.
    NegOverflow,
}

/// The largest magnitude that fits, for a negative number or not.
pub open spec fn magnitude_limit(negative: bool) -> nat {
    if negative {
        0x8000_0000
    } else {
        0x7fff_ffff
    }
}

/// The value of a run of decimal digits.
pub open spec fn digits_value(d: Seq<char>) -> nat
    decreases d.len(),
{
    if d.len() == 0 {
        0
    } else {
        10 * digits_value(d.drop_last()) + digit_value(d.last())
    }
}

/// The index of the first character at or after `i` that is not a digit, or
/// `d.len()`.
pub open spec fn digit_run_end(d: Seq<char>, i: int) -> int
    decreases d.len() - i,
{
    if 0 <= i < d.len() && is_digit(d[i]) {
        digit_run_end(d, i + 1)
    } else {
        i
    }
}

/// Whether `c` is a sign.
pub open spec fn is_sign(c: char) -> bool {
    c == '+' || c == '-'
}

/// What parsing `s` as an `i32` gives. Digits are read from the left and the
/// first fault met decides the error: a number that has grown past the limit
/// before the first character that is not a digit is an overflow.
pub open spec fn parse_id_spec(s: Seq<char>) -> Result<i32, IdError> {
    if s.len() == 0 {
        Err(IdError::Empty)
    } else if is_sign(s[0]) && s.len() == 1 {
        Err(IdError::InvalidDigit)
    } else {
        let negative = s[0] == '-';
        let d = if is_sign(s[0]) {
            s.drop_first()
        } else {
            s
        };
        let k = digit_run_end(d, 0);
        let v = digits_value(d.take(k));
        if v > magnitude_limit(negative) {
            if negative {
                Err(IdError::NegOverflow)
            } else {
                Err(IdError::PosOverflow)
            }
        } else if k < d.len() {
            Err(IdError::InvalidDigit)
        } else if negative {
            Ok((-v) as i32)
        } else {
            Ok(v as i32)
        }
    }
}

proof fn lemma_digits_value_grows(d: Seq<char>, j: int, i: int)
    requires
        0 <= j <= i <= d.len(),
        forall|k: int| 0 <= k < i ==> is_digit(#[trigger] d[k]),
    ensures
        digits_value(d.take(j)) <= digits_value(d.take(i)),
    decreases i - j,
{
    if j < i {
        lemma_digits_value_grows(d, j, i - 1);
        assert(d.take(i).drop_last() =~= d.take(i - 1));
    }
}

proof fn lemma_digit_run_end_bounds(d: Seq<char>, i: int)
    requires
        0 <= i <= d.len(),
    ensures
        i <= digit_run_end(d, i) <= d.len(),
        forall|k: int| i <= k < digit_run_end(d, i) ==> is_digit(#[trigger] d[k]),
    decreases d.len() - i,
{
    if i < d.len() && is_digit(d[i]) {
        lemma_digit_run_end_bounds(d, i + 1);
    }
}

impl IdError {
    /// The message that `ParseIntError` shows for this kind of error.
    pub fn message(&self) -> (r: &'static str)
        ensures
            r@ == id_error_message(*self),
    {
        match self {
            IdError::Empty => "cannot parse integer from empty string",
            IdError::InvalidDigit => "invalid digit found in string",
            IdError::PosOverflow => "number too large to fit in target type",
            IdError::NegOverflow => "number too small to fit in target type",
        }
    }
}

/// The message shown for each kind of error.
pub open spec fn id_error_message(e: IdError) -> Seq<char> {
    match e {
        IdError::Empty => "cannot parse integer from empty string"@,
        IdError::InvalidDigit => "invalid digit found in string"@,
        IdError::PosOverflow => "number too large to fit in target type"@,
        IdError::NegOverflow => "number too small to fit in target type"@,
    }
}

/// Parses an id as `str::parse::<i32>` does.
pub fn parse_id(text: &str) -> (r: Result<i32, IdError>)
    ensures
        r == parse_id_spec(text@),
{
    let n = text.unicode_len();
    if n == 0 {
        return Err(IdError::Empty);
    }
    let first = text.get_char(0);
    let negative = first == '-';
    let signed = first == '+' || first == '-';
    if signed && n == 1 {
        return Err(IdError::InvalidDigit);
    }
    let from: usize = if signed {
        1
    } else {
        0
    };
    let limit: u64 = if negative {
        0x8000_0000
    } else {
        0x7fff_ffff
    };
    let ghost s = text@;
    let ghost d = if signed {
        s.drop_first()
    } else {
        s
    };
    let mut i: usize = from;
    let mut acc: u64 = 0;
    while i < n
        invariant
            n == s.len(),
            s == text@,
            from <= i <= n,
            from == (if signed { 1int } else { 0 }),
            signed == is_sign(s[0]),
            negative == (s[0] == '-'),
            limit == magnitude_limit(negative),
            d == (if signed { s.drop_first() } else { s }),
            d.len() == n - from,
            forall|k: int| 0 <= k < i - from ==> is_digit(#[trigger] d[k]),
            digit_run_end(d, 0) == digit_run_end(d, i - from),
            acc == digits_value(d.take(i - from)),
            acc <= limit,
        decreases n - i,
    {
        let c = text.get_char(i);
        assert(c == d[i - from]);
        if !('0' <= c && c <= '9') {
            proof {
                lemma_digit_run_end_bounds(d, 0);
            }
            return Err(IdError::InvalidDigit);
        }
        let dv = (c as u32 - '0' as u32) as u64;
        assert(d.take(i + 1 - from).drop_last() =~= d.take(i - from));
        acc = acc * 10 + dv;
        proof {
            lemma_digit_run_end_bounds(d, i + 1 - from);
        }
        i = i + 1;
        if acc > limit {
            proof {
                lemma_digit_run_end_bounds(d, 0);
                lemma_digits_value_grows(d, i - from, digit_run_end(d, 0));
            }
            if negative {
                return Err(IdError::NegOverflow);
            } else {
                return Err(IdError::PosOverflow);
            }
        }
    }
    proof {
        assert(d.take(n - from) =~= d);
    }
    if negative {
        Ok((0 - acc as i64) as i32)
    } else {
        Ok(acc as i32)
    }
}

} // verus!
