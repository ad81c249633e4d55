//! Decimal integers read from text, as Rust's `str::parse` reads them: an
//! optional sign followed by decimal digits, read from left to right.

use vstd::prelude::*;

verus! {

/// Why a text is not an integer of the wanted type.
#[derive(Debug, Clone, Copy, PartialEq, Eq)]
pub enum IntErrorKind {
    /// The text is empty.
    Empty,
    /// A character is not a digit where a digit is due (a lone sign too).
    InvalidDigit,
    /// The value is above the type's maximum.
    PosOverflow,
    /// The value is below the type's minimum.
    NegOverflow,
}

impl IntErrorKind {
    pub open spec fn message_text(self) -> Seq<char> {
        match self {
            IntErrorKind::Empty => "cannot parse integer from empty string"@,
            IntErrorKind::InvalidDigit => "invalid digit found in string"@,
            IntErrorKind::PosOverflow => "number too large to fit in target type"@,
            IntErrorKind::NegOverflow => "number too small to fit in target type"@,
        }
    }

    /// The text of the error.
    pub fn message(&self) -> (res: String)
        ensures
            res@ == self.message_text(),
    {
        match self {
            IntErrorKind::Empty => String::from_str("cannot parse integer from empty string"),
            IntErrorKind::InvalidDigit => String::from_str("invalid digit found in string"),
            IntErrorKind::PosOverflow => String::from_str("number too large to fit in target type"),
            IntErrorKind::NegOverflow => String::from_str("number too small to fit in target type"),
        }
    }
}

pub open spec fn is_digit(c: char) -> bool {
    '0' <= c <= '9'
}

pub open spec fn digit_value(c: char) -> int {
    c as int - '0' as int
}

/// Reads the digits of `s` from index `i` on, upwards from `acc`, failing
/// at the first non-digit or as soon as the value passes `max`.
pub open spec fn scan_up(s: Seq<char>, i: int, acc: int, max: int) -> Result<int, IntErrorKind>
    decreases s.len() - i,
{
    if i >= s.len() {
        Ok(acc)
    } else if !is_digit(s[i]) {
        Err(IntErrorKind::InvalidDigit)
    } else if acc * 10 + digit_value(s[i]) > max {
        Err(IntErrorKind::PosOverflow)
    } else {
        scan_up(s, i + 1, acc * 10 + digit_value(s[i]), max)
    }
}

/// Reads the digits of `s` from index `i` on, downwards from `acc`, failing
/// at the first non-digit or as soon as the value passes `min`.
pub open spec fn scan_down(s: Seq<char>, i: int, acc: int, min: int) -> Result<int, IntErrorKind>
    decreases s.len() - i,
{
    if i >= s.len() {
        Ok(acc)
    } else if !is_digit(s[i]) {
        Err(IntErrorKind::InvalidDigit)
    } else if acc * 10 - digit_value(s[i]) < min {
        Err(IntErrorKind::NegOverflow)
    } else {
        scan_down(s, i + 1, acc * 10 - digit_value(s[i]), min)
    }
}

/// The value of `s` as an unsigned integer no larger than `max`.
pub open spec fn parse_unsigned(s: Seq<char>, max: int) -> Result<int, IntErrorKind> {
    if s.len() == 0 {
        Err(IntErrorKind::Empty)
    } else if s.len() == 1 && (s[0] == '+' || s[0] == '-') {
        Err(IntErrorKind::InvalidDigit)
    } else if s[0] == '+' {
        scan_up(s, 1, 0, max)
    } else {
        scan_up(s, 0, 0, max)
    }
}

/// The value of `s` as a signed integer between `min` and `max`.
pub open spec fn parse_signed(s: Seq<char>, min: int, max: int) -> Result<int, IntErrorKind> {
    if s.len() == 0 {
        Err(IntErrorKind::Empty)
    } else if s.len() == 1 && (s[0] == '+' || s[0] == '-') {
        Err(IntErrorKind::InvalidDigit)
    } else if s[0] == '+' {
        scan_up(s, 1, 0, max)
    } else if s[0] == '-' {
        scan_down(s, 1, 0, min)
    } else {
        scan_up(s, 0, 0, max)
    }
}

/// Reading upwards stays between the start value and `max`, and succeeds
/// only over digits.
pub proof fn lemma_scan_up_range(s: Seq<char>, i: int, acc: int, max: int)
    requires
        0 <= i,
        0 <= acc <= max,
    ensures
        scan_up(s, i, acc, max) matches Ok(v) ==> acc <= v <= max && forall|j: int|
            i <= j < s.len() ==> is_digit(#[trigger] s[j]),
        scan_up(s, i, acc, max) != Err::<int, IntErrorKind>(IntErrorKind::Empty),
    decreases s.len() - i,
{
    if i < s.len() && is_digit(s[i]) && acc * 10 + digit_value(s[i]) <= max {
        lemma_scan_up_range(s, i + 1, acc * 10 + digit_value(s[i]), max);
        assert(acc <= acc * 10 + digit_value(s[i]));
    }
}

/// Reading downwards stays between `min` and the start value, and succeeds
/// only over digits.
pub proof fn lemma_scan_down_range(s: Seq<char>, i: int, acc: int, min: int)
    requires
        0 <= i,
        min <= acc <= 0,
    ensures
        scan_down(s, i, acc, min) matches Ok(v) ==> min <= v <= acc && forall|j: int|
            i <= j < s.len() ==> is_digit(#[trigger] s[j]),
    decreases s.len() - i,
{
    if i < s.len() && is_digit(s[i]) && acc * 10 - digit_value(s[i]) >= min {
        lemma_scan_down_range(s, i + 1, acc * 10 - digit_value(s[i]), min);
        assert(acc * 10 - digit_value(s[i]) <= acc);
    }
}

/// One more digit read upwards: the value so far times ten plus the digit,
/// unless that passes `max`.
pub proof fn lemma_scan_up_push(s: Seq<char>, d: char, i: int, acc: int, max: int)
    requires
        0 <= i <= s.len(),
        is_digit(d),
        scan_up(s, i, acc, max) is Ok,
    ensures
        scan_up(s.push(d), i, acc, max) == (if scan_up(s, i, acc, max)->Ok_0 * 10 + digit_value(d) > max {
            Err::<int, IntErrorKind>(IntErrorKind::PosOverflow)
        } else {
            Ok::<int, IntErrorKind>(scan_up(s, i, acc, max)->Ok_0 * 10 + digit_value(d))
        }),
    decreases s.len() - i,
{
    let t = s.push(d);
    if i < s.len() {
        assert(t[i] == s[i]);
        lemma_scan_up_push(s, d, i + 1, acc * 10 + digit_value(s[i]), max);
    } else {
        assert(t[i] == d);
        assert(scan_up(t, i + 1, acc * 10 + digit_value(d), max) == Ok::<int, IntErrorKind>(
            acc * 10 + digit_value(d),
        ));
    }
}

/// One more digit read downwards: the value so far times ten minus the
/// digit, unless that passes `min`.
pub proof fn lemma_scan_down_push(s: Seq<char>, d: char, i: int, acc: int, min: int)
    requires
        0 <= i <= s.len(),
        is_digit(d),
        scan_down(s, i, acc, min) is Ok,
    ensures
        scan_down(s.push(d), i, acc, min) == (if scan_down(s, i, acc, min)->Ok_0 * 10 - digit_value(d) < min {
            Err::<int, IntErrorKind>(IntErrorKind::NegOverflow)
        } else {
            Ok::<int, IntErrorKind>(scan_down(s, i, acc, min)->Ok_0 * 10 - digit_value(d))
        }),
    decreases s.len() - i,
{
    let t = s.push(d);
    if i < s.len() {
        assert(t[i] == s[i]);
        lemma_scan_down_push(s, d, i + 1, acc * 10 - digit_value(s[i]), min);
    } else {
        assert(t[i] == d);
        assert(scan_down(t, i + 1, acc * 10 - digit_value(d), min) == Ok::<int, IntErrorKind>(
            acc * 10 - digit_value(d),
        ));
    }
}

/// A number text reads as its decimal value: one digit reads as itself,
/// and a digit appended to a number text multiplies its value by ten and
/// adds the digit (below zero: subtracts it), or overflows. A text that
/// reads at all is non-empty, within range, and digits after its sign.
pub proof fn lemma_parse_decimal(s: Seq<char>, d: char, min: int, max: int)
    requires
        is_digit(d),
        min <= 0 <= max,
        max >= 9,
    ensures
        parse_unsigned(seq![d], max) == Ok::<int, IntErrorKind>(digit_value(d)),
        parse_unsigned(s, max) is Ok ==> parse_unsigned(s.push(d), max) == (if parse_unsigned(s, max)->Ok_0 * 10
            + digit_value(d) > max {
            Err::<int, IntErrorKind>(IntErrorKind::PosOverflow)
        } else {
            Ok::<int, IntErrorKind>(parse_unsigned(s, max)->Ok_0 * 10 + digit_value(d))
        }),
        parse_signed(s, min, max) is Ok && s[0] == '-' ==> parse_signed(s.push(d), min, max) == (if parse_signed(
            s,
            min,
            max,
        )->Ok_0 * 10 - digit_value(d) < min {
            Err::<int, IntErrorKind>(IntErrorKind::NegOverflow)
        } else {
            Ok::<int, IntErrorKind>(parse_signed(s, min, max)->Ok_0 * 10 - digit_value(d))
        }),
        parse_unsigned(s, max) matches Ok(v) ==> 0 <= v <= max && s.len() > 0 && (s[0] == '+' || is_digit(s[0]))
            && forall|j: int| 1 <= j < s.len() ==> is_digit(#[trigger] s[j]),
        parse_signed(s, min, max) matches Ok(v) ==> min <= v <= max && (s[0] == '-' ==> v <= 0) && (s[0] != '-'
            ==> v >= 0),
        parse_unsigned(s, max) == Err::<int, IntErrorKind>(IntErrorKind::Empty) <==> s.len() == 0,
{
    reveal_with_fuel(scan_up, 2);
    assert(seq![d][0] == d);
    lemma_scan_up_range(s, 0, 0, max);
    lemma_scan_up_range(s, 1, 0, max);
    lemma_scan_down_range(s, 1, 0, min);
    if s.len() > 0 {
        let t = s.push(d);
        assert(t[0] == s[0]);
        assert(t.len() > 1);
        if parse_unsigned(s, max) is Ok {
            if s[0] == '+' {
                assert(s.len() > 1);
                lemma_scan_up_push(s, d, 1, 0, max);
            } else {
                lemma_scan_up_push(s, d, 0, 0, max);
            }
        }
        if parse_signed(s, min, max) is Ok && s[0] == '-' {
            assert(s.len() > 1);
            lemma_scan_down_push(s, d, 1, 0, min);
        }
        if parse_signed(s, min, max) is Ok && s[0] != '-' {
            if s[0] == '+' {
                assert(s.len() > 1);
            }
        }
    }
}

/// Reads the digits of `s` from `start` on upwards.
fn read_up(s: &str, start: usize, max: u64) -> (res: Result<u64, IntErrorKind>)
    requires
        start <= s@.len(),
    ensures
        match res {
            Ok(v) => scan_up(s@, start as int, 0, max as int) == Ok::<int, IntErrorKind>(v as int),
            Err(e) => scan_up(s@, start as int, 0, max as int) == Err::<int, IntErrorKind>(e),
        },
        res matches Ok(v) ==> v <= max,
{
    let n = s.unicode_len();
    let mut acc: u64 = 0;
    let mut i: usize = start;
    while i < n
        invariant
            n == s@.len(),
            start <= i <= n,
            acc <= max,
            scan_up(s@, start as int, 0, max as int) == scan_up(s@, i as int, acc as int, max as int),
        decreases n - i,
    {
        let c = s.get_char(i);
        let code = c as u32;
        if code < 48 || code > 57 {
            return Err(IntErrorKind::InvalidDigit);
        }
        let next: u128 = (acc as u128) * 10 + ((code - 48) as u128);
        if next > max as u128 {
            return Err(IntErrorKind::PosOverflow);
        }
        acc = next as u64;
        i = i + 1;
    }
    Ok(acc)
}

/// Reads the digits of `s` from `start` on downwards.
fn read_down(s: &str, start: usize, min: i64) -> (res: Result<i64, IntErrorKind>)
    requires
        start <= s@.len(),
        min <= 0,
    ensures
        match res {
            Ok(v) => scan_down(s@, start as int, 0, min as int) == Ok::<int, IntErrorKind>(v as int),
            Err(e) => scan_down(s@, start as int, 0, min as int) == Err::<int, IntErrorKind>(e),
        },
        res matches Ok(v) ==> min <= v <= 0,
{
    let n = s.unicode_len();
    let mut acc: i64 = 0;
    let mut i: usize = start;
    while i < n
        invariant
            n == s@.len(),
            start <= i <= n,
            min <= acc <= 0,
            scan_down(s@, start as int, 0, min as int) == scan_down(s@, i as int, acc as int, min as int),
        decreases n - i,
    {
        let c = s.get_char(i);
        let code = c as u32;
        if code < 48 || code > 57 {
            return Err(IntErrorKind::InvalidDigit);
        }
        let next: i128 = (acc as i128) * 10 - ((code - 48) as i128);
        if next < min as i128 {
            return Err(IntErrorKind::NegOverflow);
        }
        acc = next as i64;
        i = i + 1;
    }
    Ok(acc)
}

/// Reads a `u64` from text.
pub fn parse_u64(s: &str) -> (res: Result<u64, IntErrorKind>)
    ensures
        match res {
            Ok(v) => parse_unsigned(s@, u64::MAX as int) == Ok::<int, IntErrorKind>(v as int),
            Err(e) => parse_unsigned(s@, u64::MAX as int) == Err::<int, IntErrorKind>(e),
        },
{
    let n = s.unicode_len();
    if n == 0 {
        return Err(IntErrorKind::Empty);
    }
    let first = s.get_char(0);
    if n == 1 && (first == '+' || first == '-') {
        return Err(IntErrorKind::InvalidDigit);
    }
    if first == '+' {
        read_up(s, 1, u64::MAX)
    } else {
        read_up(s, 0, u64::MAX)
    }
}

/// Reads an `i32` from text.
pub fn parse_i32(s: &str) -> (res: Result<i32, IntErrorKind>)
    ensures
        match res {
            Ok(v) => parse_signed(s@, i32::MIN as int, i32::MAX as int) == Ok::<int, IntErrorKind>(v as int),
            Err(e) => parse_signed(s@, i32::MIN as int, i32::MAX as int) == Err::<int, IntErrorKind>(e),
        },
{
    let n = s.unicode_len();
    if n == 0 {
        return Err(IntErrorKind::Empty);
    }
    let first = s.get_char(0);
    if n == 1 && (first == '+' || first == '-') {
        return Err(IntErrorKind::InvalidDigit);
    }
    if first == '-' {
        match read_down(s, 1, i32::MIN as i64) {
            Ok(v) => Ok(v as i32),
            Err(e) => Err(e),
        }
    } else {
        let start: usize = if first == '+' { 1 } else { 0 };
        match read_up(s, start, i32::MAX as u64) {
            Ok(v) => Ok(v as i32),
            Err(e) => Err(e),
        }
    }
}

} // verus!
