//! Decimal integers as text: reading `u32` and `i32` values, with the
//! reason when a text is not one, and writing them.

use vstd::prelude::*;
use crate::text::{chars_of, string_of};

verus! {

/// Why a text is not a decimal integer of the wanted type.
#[derive(Clone, Copy, Debug, PartialEq, Eq, Structural)]
pub enum IntError {
    /// The text is empty.
    Empty,
    /// A character that is no digit stands where a digit is due; a lone
    /// sign is such a text too.
    InvalidDigit,
    /// The digits denote a value above the type's largest.
    PosOverflow,
    /// The digits, behind a minus sign, denote a value below the type's
    /// smallest.
    NegOverflow,
}

pub open spec fn is_digit(c: char) -> bool {
    0x30 <= c as u32 <= 0x39
}

pub open spec fn digit_value(c: char) -> nat {
    if is_digit(c) {
        (c as u32 - 0x30) as nat
    } else {
        0
    }
}

pub open spec fn all_digits(s: Seq<char>) -> bool {
    forall|i: int| 0 <= i < s.len() ==> is_digit(#[trigger] s[i])
}

/// The number that the digits of `s` denote in base ten.
pub open spec fn decimal_value(s: Seq<char>) -> nat
    decreases s.len(),
{
    if s.len() == 0 {
        0
    } else {
        decimal_value(s.drop_last()) * 10 + digit_value(s.last())
    }
}

/// The number of digits at the start of `s`.
pub open spec fn digit_prefix(s: Seq<char>) -> int
    decreases s.len(),
{
    if s.len() > 0 && is_digit(s[0]) {
        1 + digit_prefix(s.drop_first())
    } else {
        0
    }
}

/// The value of a run of digits that must not exceed `max`. Reading goes
/// from the left and stops at the first fault: a value that has grown past
/// `max` is an overflow even if a character that is no digit follows.
pub open spec fn magnitude(d: Seq<char>, max: nat) -> Result<nat, IntError> {
    let k = digit_prefix(d);
    if decimal_value(d.take(k)) > max {
        Err(IntError::PosOverflow)
    } else if k < d.len() {
        Err(IntError::InvalidDigit)
    } else {
        Ok(decimal_value(d))
    }
}

/// The `u32` that `s` denotes: an optional `+`, then digits only.
pub open spec fn parse_u32(s: Seq<char>) -> Result<u32, IntError> {
    if s.len() == 0 {
        Err(IntError::Empty)
    } else {
        let d = if s[0] == '+' {
            s.skip(1)
        } else {
            s
        };
        if d.len() == 0 {
            Err(IntError::InvalidDigit)
        } else {
            match magnitude(d, u32::MAX as nat) {
                Ok(n) => Ok(n as u32),
                Err(e) => Err(e),
            }
        }
    }
}

/// The `i32` that `s` denotes: an optional `+` or `-`, then digits only.
pub open spec fn parse_i32(s: Seq<char>) -> Result<i32, IntError> {
    if s.len() == 0 {
        Err(IntError::Empty)
    } else {
        let d = if s[0] == '+' || s[0] == '-' {
            s.skip(1)
        } else {
            s
        };
        if d.len() == 0 {
            Err(IntError::InvalidDigit)
        } else if s[0] == '-' {
            match magnitude(d, 0x8000_0000) {
                Ok(n) => Ok((-(n as int)) as i32),
                Err(IntError::PosOverflow) => Err(IntError::NegOverflow),
                Err(e) => Err(e),
            }
        } else {
            match magnitude(d, i32::MAX as nat) {
                Ok(n) => Ok(n as i32),
                Err(e) => Err(e),
            }
        }
    }
}

/// The index of the first character that is no digit, or the length where
/// all are digits, is `digit_prefix`.
pub proof fn lemma_digit_prefix_is(s: Seq<char>, k: int)
    requires
        0 <= k <= s.len(),
        forall|j: int| 0 <= j < k ==> is_digit(s[j]),
        k < s.len() ==> !is_digit(s[k]),
    ensures
        digit_prefix(s) == k,
    decreases s.len(),
{
    if k > 0 {
        let t = s.drop_first();
        assert forall|j: int| 0 <= j < k - 1 implies is_digit(t[j]) by {
            assert(t[j] == s[j + 1]);
        }
        lemma_digit_prefix_is(t, k - 1);
    }
}

/// `digit_prefix` is within bounds, and every character before it is a
/// digit.
pub proof fn lemma_digit_prefix_bounds(s: Seq<char>)
    ensures
        0 <= digit_prefix(s) <= s.len(),
        forall|j: int| 0 <= j < digit_prefix(s) ==> is_digit(s[j]),
    decreases s.len(),
{
    if s.len() > 0 && is_digit(s[0]) {
        let t = s.drop_first();
        lemma_digit_prefix_bounds(t);
        assert forall|j: int| 0 <= j < digit_prefix(s) implies is_digit(s[j]) by {
            if j > 0 {
                assert(t[j - 1] == s[j]);
            }
        }
    }
}

/// One more character multiplies the value by ten and adds its digit.
pub proof fn lemma_decimal_value_step(s: Seq<char>, i: int)
    requires
        0 <= i < s.len(),
    ensures
        decimal_value(s.take(i + 1)) == decimal_value(s.take(i)) * 10 + digit_value(s[i]),
{
    let t = s.take(i + 1);
    assert(t.drop_last() == s.take(i));
    assert(t.last() == s[i]);
}

/// A longer prefix has no smaller value.
pub proof fn lemma_decimal_value_grows(s: Seq<char>, i: int, j: int)
    requires
        0 <= i <= j <= s.len(),
    ensures
        decimal_value(s.take(i)) <= decimal_value(s.take(j)),
    decreases j - i,
{
    if i < j {
        lemma_decimal_value_grows(s, i, j - 1);
        lemma_decimal_value_step(s, j - 1);
    }
}

/// Reads `v[lo..hi]` as a run of digits whose value must not exceed `max`.
fn read_magnitude(v: &Vec<char>, lo: usize, hi: usize, max: u64) -> (r: Result<u64, IntError>)
    requires
        lo <= hi <= v.len(),
        max <= 0x1_0000_0000,
    ensures
        match magnitude(v@.subrange(lo as int, hi as int), max as nat) {
            Ok(n) => r == Ok::<u64, IntError>(n as u64) && n <= max,
            Err(e) => r == Err::<u64, IntError>(e),
        },
{
    let ghost d = v@.subrange(lo as int, hi as int);
    let mut acc: u64 = 0;
    let mut i: usize = lo;
    while i < hi
        invariant
            lo <= i <= hi <= v.len(),
            d == v@.subrange(lo as int, hi as int),
            max <= 0x1_0000_0000,
            acc <= max,
            acc == decimal_value(d.take(i - lo)),
            forall|j: int| 0 <= j < i - lo ==> is_digit(d[j]),
        decreases hi - i,
    {
        let n: u32 = v[i] as u32;
        if n < 0x30 || n > 0x39 {
            proof {
                lemma_digit_prefix_is(d, i - lo);
            }
            return Err(IntError::InvalidDigit);
        }
        let next: u64 = acc * 10 + (n - 0x30) as u64;
        proof {
            lemma_decimal_value_step(d, i - lo);
        }
        if next > max {
            proof {
                lemma_digit_prefix_bounds(d);
                lemma_digit_prefix_stops(d);
                let k = digit_prefix(d);
                assert(is_digit(d[i - lo]));
                if k <= i - lo {
                    assert(is_digit(d[k]));
                    assert(false);
                }
                lemma_decimal_value_grows(d, i - lo + 1, k);
            }
            return Err(IntError::PosOverflow);
        }
        acc = next;
        i += 1;
    }
    proof {
        lemma_digit_prefix_is(d, d.len() as int);
        assert(d.take(d.len() as int) == d);
    }
    Ok(acc)
}

/// What stands right behind the leading digits, if anything, is no digit.
pub proof fn lemma_digit_prefix_stops(s: Seq<char>)
    ensures
        0 <= digit_prefix(s) < s.len() ==> !is_digit(s[digit_prefix(s)]),
    decreases s.len(),
{
    if s.len() > 0 && is_digit(s[0]) {
        let t = s.drop_first();
        lemma_digit_prefix_stops(t);
        lemma_digit_prefix_bounds(t);
        if digit_prefix(s) < s.len() {
            assert(t[digit_prefix(t)] == s[digit_prefix(s)]);
        }
    }
}

/// Reads `v[lo..hi]` as a `u32`.
pub fn read_u32(v: &Vec<char>, lo: usize, hi: usize) -> (r: Result<u32, IntError>)
    requires
        lo <= hi <= v.len(),
    ensures
        r == parse_u32(v@.subrange(lo as int, hi as int)),
{
    let ghost s = v@.subrange(lo as int, hi as int);
    if lo == hi {
        return Err(IntError::Empty);
    }
    let start: usize = if v[lo] == '+' {
        lo + 1
    } else {
        lo
    };
    assert(s[0] == v@[lo as int]);
    assert(v@.subrange(start as int, hi as int) == if s[0] == '+' {
        s.skip(1)
    } else {
        s
    });
    if start == hi {
        return Err(IntError::InvalidDigit);
    }
    match read_magnitude(v, start, hi, 0xFFFF_FFFF) {
        Ok(n) => Ok(n as u32),
        Err(e) => Err(e),
    }
}

/// Reads `v[lo..hi]` as an `i32`.
pub fn read_i32(v: &Vec<char>, lo: usize, hi: usize) -> (r: Result<i32, IntError>)
    requires
        lo <= hi <= v.len(),
    ensures
        r == parse_i32(v@.subrange(lo as int, hi as int)),
{
    let ghost s = v@.subrange(lo as int, hi as int);
    if lo == hi {
        return Err(IntError::Empty);
    }
    let negative = v[lo] == '-';
    let start: usize = if v[lo] == '+' || negative {
        lo + 1
    } else {
        lo
    };
    assert(s[0] == v@[lo as int]);
    assert(v@.subrange(start as int, hi as int) == if s[0] == '+' || s[0] == '-' {
        s.skip(1)
    } else {
        s
    });
    if start == hi {
        return Err(IntError::InvalidDigit);
    }
    if negative {
        match read_magnitude(v, start, hi, 0x8000_0000) {
            Ok(n) => Ok((0 - (n as i64)) as i32),
            Err(IntError::PosOverflow) => Err(IntError::NegOverflow),
            Err(e) => Err(e),
        }
    } else {
        match read_magnitude(v, start, hi, 0x7FFF_FFFF) {
            Ok(n) => Ok(n as i32),
            Err(e) => Err(e),
        }
    }
}

/// The character of the digit `d`, for `d` below ten.
pub open spec fn digit_char(d: nat) -> char {
    (0x30 + d) as char
}

/// `n` in base ten, without leading zeros.
pub open spec fn decimal(n: nat) -> Seq<char>
    decreases n,
{
    if n < 10 {
        seq![digit_char(n)]
    } else {
        decimal(n / 10).push(digit_char(n % 10))
    }
}

/// `i` in base ten, with a minus sign before a negative value.
pub open spec fn decimal_int(i: int) -> Seq<char> {
    if i < 0 {
        seq!['-'] + decimal((-i) as nat)
    } else {
        decimal(i as nat)
    }
}

/// What `decimal` writes is a non-empty run of digits that denotes the
/// number written.
pub proof fn lemma_decimal_round_trip(n: nat)
    ensures
        decimal(n).len() > 0,
        all_digits(decimal(n)),
        decimal_value(decimal(n)) == n,
    decreases n,
{
    let s = decimal(n);
    if n < 10 {
        assert(s.drop_last().len() == 0);
        assert(s.last() == digit_char(n));
        assert(decimal_value(s.drop_last()) == 0);
    } else {
        lemma_decimal_round_trip(n / 10);
        assert(s.drop_last() == decimal(n / 10));
        assert(s.last() == digit_char(n % 10));
        assert forall|i: int| 0 <= i < s.len() implies is_digit(#[trigger] s[i]) by {
            if i < s.len() - 1 {
                assert(s[i] == decimal(n / 10)[i]);
            }
        }
    }
}

/// Reading back what was written gives the number written.
pub proof fn lemma_parse_u32_of_decimal(n: u32)
    ensures
        parse_u32(decimal(n as nat)) == Ok::<u32, IntError>(n),
{
    let d = decimal(n as nat);
    lemma_decimal_round_trip(n as nat);
    assert(is_digit(d[0]));
    lemma_digit_prefix_is(d, d.len() as int);
    assert(d.take(d.len() as int) == d);
}

/// Reading back what was written gives the number written.
pub proof fn lemma_parse_i32_of_decimal(n: i32)
    ensures
        parse_i32(decimal_int(n as int)) == Ok::<i32, IntError>(n),
{
    let s = decimal_int(n as int);
    let m: nat = if n < 0 {
        (-n) as nat
    } else {
        n as nat
    };
    let d = decimal(m);
    lemma_decimal_round_trip(m);
    assert(is_digit(d[0]));
    lemma_digit_prefix_is(d, d.len() as int);
    assert(d.take(d.len() as int) == d);
    if n < 0 {
        assert(s[0] == '-');
        assert(s.skip(1) == d);
    } else {
        assert(s == d);
    }
}

fn digit_of(d: u8) -> (c: char)
    requires
        d < 10,
    ensures
        c == digit_char(d as nat),
{
    match d {
        0 => '0',
        1 => '1',
        2 => '2',
        3 => '3',
        4 => '4',
        5 => '5',
        6 => '6',
        7 => '7',
        8 => '8',
        _ => '9',
    }
}

/// Appends `n` in base ten to `out`.
pub fn push_decimal(out: &mut Vec<char>, n: u64)
    ensures
        final(out)@ == old(out)@ + decimal(n as nat),
    decreases n,
{
    if n >= 10 {
        push_decimal(out, n / 10);
    }
    out.push(digit_of((n % 10) as u8));
}

/// Appends `i` in base ten to `out`, with a minus sign before a negative
/// value.
pub fn push_decimal_int(out: &mut Vec<char>, i: i32)
    ensures
        final(out)@ == old(out)@ + decimal_int(i as int),
{
    if i < 0 {
        out.push('-');
        push_decimal(out, (0 - (i as i64)) as u64);
        assert(old(out)@.push('-') + decimal((-i) as nat) == old(out)@ + (seq!['-'] + decimal(
            (-i) as nat,
        )));
    } else {
        push_decimal(out, i as u64);
    }
}

/// `n` in base ten, as a string.
pub fn decimal_string(n: u64) -> (s: String)
    ensures
        s@ == decimal(n as nat),
{
    let mut out: Vec<char> = Vec::new();
    push_decimal(&mut out, n);
    assert(Seq::<char>::empty() + decimal(n as nat) == decimal(n as nat));
    string_of(&out)
}

/// `i` in base ten, as a string.
pub fn decimal_int_string(i: i32) -> (s: String)
    ensures
        s@ == decimal_int(i as int),
{
    let mut out: Vec<char> = Vec::new();
    push_decimal_int(&mut out, i);
    assert(Seq::<char>::empty() + decimal_int(i as int) == decimal_int(i as int));
    string_of(&out)
}

/// Reads a text as an `i32`.
pub fn read_i32_text(s: &str) -> (r: Result<i32, IntError>)
    ensures
        r == parse_i32(s@),
{
    let v = chars_of(s);
    assert(v@.subrange(0, v.len() as int) == v@);
    read_i32(&v, 0, v.len())
}

/// What is wrong with a text, in words.
pub open spec fn int_error_text(e: IntError) -> Seq<char> {
    match e {
        IntError::Empty => "cannot parse integer from empty string"@,
        IntError::InvalidDigit => "invalid digit found in string"@,
        IntError::PosOverflow => "number too large to fit in target type"@,
        IntError::NegOverflow => "number too small to fit in target type"@,
    }
}

impl IntError {
    /// What is wrong with the text, in words.
    pub fn describe(&self) -> (text: &'static str)
        ensures
            text@ == int_error_text(*self),
    {
        match self {
            IntError::Empty => "cannot parse integer from empty string",
            IntError::InvalidDigit => "invalid digit found in string",
            IntError::PosOverflow => "number too large to fit in target type",
            IntError::NegOverflow => "number too small to fit in target type",
        }
    }
}

} // verus!
