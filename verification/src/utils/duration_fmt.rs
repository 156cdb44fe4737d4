//! How a length of time is written in a configuration file and read back.
//!
//! A whole number of hours, minutes or seconds is written as the number
//! followed by `h`, `m` or `s`, in the largest of these units that leaves
//! no remainder; any other length is written as a bare number of
//! milliseconds. Reading accepts a bare number of milliseconds, and a text
//! made of decimal digits followed by one of `h`, `m`, `s` and `ms`, or by
//! nothing, which means milliseconds.

use crate::utils::decimal::decimal;
use crate::utils::decimal::decimal_value;
use crate::utils::decimal::is_digit;
use crate::utils::decimal::lemma_decimal_is_all_digits;
use crate::utils::decimal::lemma_decimal_value_of_decimal;
use crate::utils::decimal::to_decimal;
use crate::utils::time::TimeSpan;
use vstd::prelude::*;
use vstd::string::StrSliceExecFns;
use vstd::string::StringExecFns;

verus! {

/// What a reader of the format expects to find.
pub const EXPECTING: &'static str = "integer (ms) or string \"<integer>[h|m|s|ms]\"";

/// A length of time as it is written.
#[derive(Debug)]
pub enum Written {
    /// A number and its unit.
    Text(String),
    /// A bare number of milliseconds.
    Millis(u128),
}

/// A `Written` with its text as a sequence of characters.
pub enum WrittenView {
    Text(Seq<char>),
    Millis(u128),
}

impl View for Written {
    type V = WrittenView;

    open spec fn view(&self) -> WrittenView {
        match self {
            Written::Text(t) => WrittenView::Text(t@),
            Written::Millis(m) => WrittenView::Millis(*m),
        }
    }
}

/// Why a text is no length of time.
#[derive(Debug, Clone, Copy, PartialEq, Eq, Structural)]
pub enum DurationError {
    /// No digit stands before the unit.
    Empty,
    /// The number is too large for 64 bits.
    Overflow,
    /// What follows the digits is none of the units.
    InvalidValue,
}

/// How `value` is written.
pub open spec fn spec_serialize(value: TimeSpan) -> WrittenView {
    if value.millis % 1000 == 0 {
        let s = (value.millis / 1000) as nat;
        if s % 60 == 0 {
            let m = s / 60;
            if m % 60 == 0 {
                WrittenView::Text(decimal(m / 60).push('h'))
            } else {
                WrittenView::Text(decimal(m).push('m'))
            }
        } else {
            WrittenView::Text(decimal(s).push('s'))
        }
    } else {
        WrittenView::Millis(value.millis)
    }
}

/// Writes `value`.
pub fn serialize(value: &TimeSpan) -> (written: Written)
    ensures
        written@ == spec_serialize(*value),
{
    proof {
        reveal_strlit("h");
        reveal_strlit("m");
        reveal_strlit("s");
    }
    if value.subsec_millis() == 0 {
        let s: u128 = value.as_secs();
        let m: u128 = s / 60;
        if s % 60 == 0 {
            let h: u128 = m / 60;
            if m % 60 == 0 {
                let mut text = to_decimal(h);
                text.append("h");
                assert(text@ =~= decimal(h as nat).push('h'));
                return Written::Text(text);
            }
            let mut text = to_decimal(m);
            text.append("m");
            assert(text@ =~= decimal(m as nat).push('m'));
            return Written::Text(text);
        }
        let mut text = to_decimal(s);
        text.append("s");
        assert(text@ =~= decimal(s as nat).push('s'));
        return Written::Text(text);
    }
    Written::Millis(value.as_millis())
}

/// The length of time that a bare number stands for: that many
/// milliseconds.
pub fn visit_u64(v: u64) -> (span: TimeSpan)
    ensures
        span.millis == v,
{
    TimeSpan::from_millis(v)
}

/// The 64 bits of `v` read as a number without sign.
pub open spec fn spec_reinterpret(v: i64) -> u64 {
    if v >= 0 {
        v as u64
    } else {
        (v + 0x1_0000_0000_0000_0000) as u64
    }
}

/// The length of time that a bare number with a sign stands for: the 64
/// bits of the number, read as a number without sign, in milliseconds.
pub fn visit_i64(v: i64) -> (span: TimeSpan)
    ensures
        span.millis == spec_reinterpret(v),
{
    let bits: u64 = if v >= 0 {
        v as u64
    } else {
        (v + i64::MAX + 1) as u64 + 0x8000_0000_0000_0000u64
    };
    TimeSpan::from_millis(bits)
}

/// A value of one of the kinds in which a length of time may be written.
#[derive(Debug)]
pub enum Scalar<'a> {
    /// A bare number without sign.
    U64(u64),
    /// A bare number with a sign.
    I64(i64),
    /// A text.
    Str(&'a str),
}

/// The length of time that a written value stands for.
pub open spec fn spec_deserialize(input: Scalar) -> Result<TimeSpan, DurationError> {
    match input {
        Scalar::U64(v) => Ok(TimeSpan { millis: v as u128 }),
        Scalar::I64(v) => Ok(TimeSpan { millis: spec_reinterpret(v) as u128 }),
        Scalar::Str(v) => spec_visit_str(v@),
    }
}

/// Reads a length of time from a written value of any of the three kinds.
pub fn deserialize(input: Scalar) -> (span: Result<TimeSpan, DurationError>)
    ensures
        span == spec_deserialize(input),
{
    match input {
        Scalar::U64(v) => Ok(visit_u64(v)),
        Scalar::I64(v) => Ok(visit_i64(v)),
        Scalar::Str(v) => visit_str(v),
    }
}

/// The number of digits with which `s` begins.
pub open spec fn digits_len(s: Seq<char>) -> nat
    decreases s.len(),
{
    if s.len() == 0 || !is_digit(s[0]) {
        0
    } else {
        1 + digits_len(s.drop_first())
    }
}

/// The milliseconds in one of the unit `unit`; `None` for what is no unit.
pub open spec fn unit_millis(unit: Seq<char>) -> Option<nat> {
    if unit.len() == 2 && unit[0] == 'm' && unit[1] == 's' {
        Some(1)
    } else if unit.len() == 1 && unit[0] == 's' {
        Some(1000)
    } else if unit.len() == 1 && unit[0] == 'm' {
        Some(60_000)
    } else if unit.len() == 1 && unit[0] == 'h' {
        Some(3_600_000)
    } else {
        None
    }
}

/// The length of time that the text `v` stands for.
///
/// The text is cut before its first character that is no digit. What
/// follows is the unit, milliseconds if nothing follows. The unit is
/// looked at first: a text with an unknown unit is refused for that,
/// whatever stands before it. Then the digits have to be there and have to
/// fit 64 bits.
pub open spec fn spec_visit_str(v: Seq<char>) -> Result<TimeSpan, DurationError> {
    let n = digits_len(v) as int;
    let value = v.subrange(0, n);
    let unit = if n == v.len() {
        seq!['m', 's']
    } else {
        v.subrange(n, v.len() as int)
    };
    match unit_millis(unit) {
        None => Err(DurationError::InvalidValue),
        Some(factor) => if value.len() == 0 {
            Err(DurationError::Empty)
        } else if decimal_value(value) > u64::MAX {
            Err(DurationError::Overflow)
        } else {
            Ok(TimeSpan { millis: (decimal_value(value) * factor) as u128 })
        },
    }
}

/// A text that has digits up to `n`, and none at `n`, begins with exactly
/// `n` digits.
proof fn lemma_digits_len(s: Seq<char>, n: int)
    requires
        0 <= n <= s.len(),
        forall|j: int| 0 <= j < n ==> is_digit(#[trigger] s[j]),
        n < s.len() ==> !is_digit(s[n]),
    ensures
        digits_len(s) == n,
    decreases n,
{
    if n > 0 {
        let rest = s.drop_first();
        lemma_digits_len(rest, n - 1);
    }
}

/// Digits that are added to a number do not make it smaller.
proof fn lemma_decimal_value_grows(s: Seq<char>, n: int)
    requires
        0 <= n <= s.len(),
    ensures
        decimal_value(s.subrange(0, n)) <= decimal_value(s),
    decreases s.len(),
{
    if n < s.len() {
        lemma_decimal_value_grows(s.drop_last(), n);
        assert(s.drop_last().subrange(0, n) =~= s.subrange(0, n));
    } else {
        assert(s.subrange(0, n) =~= s);
    }
}

fn count_digits(v: &str) -> (n: usize)
    ensures
        n == digits_len(v@),
{
    let len = v.unicode_len();
    let mut n: usize = 0;
    while n < len
        invariant
            len == v@.len(),
            n <= len,
            forall|j: int| 0 <= j < n ==> is_digit(#[trigger] v@[j]),
        decreases len - n,
    {
        let c = v.get_char(n);
        if !('0' <= c && c <= '9') {
            proof {
                lemma_digits_len(v@, n as int);
            }
            return n;
        }
        n = n + 1;
    }
    proof {
        lemma_digits_len(v@, n as int);
    }
    n
}

fn unit_factor(v: &str, n: usize) -> (factor: Option<u32>)
    requires
        n <= v@.len(),
    ensures
        ({
            let unit = if n == v@.len() {
                seq!['m', 's']
            } else {
                v@.subrange(n as int, v@.len() as int)
            };
            match factor {
                Some(f) => unit_millis(unit) == Some(f as nat),
                None => unit_millis(unit).is_none(),
            }
        }),
{
    let len = v.unicode_len();
    if n == len {
        Some(1)
    } else if len - n == 1 {
        let c = v.get_char(n);
        if c == 's' {
            Some(1000)
        } else if c == 'm' {
            Some(60_000)
        } else if c == 'h' {
            Some(3_600_000)
        } else {
            None
        }
    } else if len - n == 2 {
        let c = v.get_char(n);
        let d = v.get_char(n + 1);
        if c == 'm' && d == 's' {
            Some(1)
        } else {
            None
        }
    } else {
        None
    }
}

fn parse_digits(v: &str, n: usize) -> (number: Option<u64>)
    requires
        n <= v@.len(),
        forall|j: int| 0 <= j < n ==> is_digit(#[trigger] v@[j]),
    ensures
        match number {
            Some(x) => decimal_value(v@.subrange(0, n as int)) == x,
            None => decimal_value(v@.subrange(0, n as int)) > u64::MAX,
        },
{
    let mut number: u64 = 0;
    let mut i: usize = 0;
    while i < n
        invariant
            i <= n <= v@.len(),
            forall|j: int| 0 <= j < n ==> is_digit(#[trigger] v@[j]),
            number == decimal_value(v@.subrange(0, i as int)),
        decreases n - i,
    {
        let c = v.get_char(i);
        let d: u64 = (c as u32 - '0' as u32) as u64;
        assert(v@.subrange(0, i + 1).drop_last() =~= v@.subrange(0, i as int));
        if number > (u64::MAX - d) / 10 {
            proof {
                lemma_decimal_value_grows(v@.subrange(0, n as int), i + 1);
                assert(v@.subrange(0, n as int).subrange(0, i + 1) =~= v@.subrange(0, i + 1));
            }
            return None;
        }
        number = number * 10 + d;
        i = i + 1;
    }
    Some(number)
}

/// The length of time that the text `v` stands for.
pub fn visit_str(v: &str) -> (span: Result<TimeSpan, DurationError>)
    ensures
        span == spec_visit_str(v@),
{
    let n = count_digits(v);
    proof {
        lemma_digits_prefix(v@);
    }
    match unit_factor(v, n) {
        None => Err(DurationError::InvalidValue),
        Some(factor) => {
            if n == 0 {
                Err(DurationError::Empty)
            } else {
                match parse_digits(v, n) {
                    None => Err(DurationError::Overflow),
                    Some(number) => {
                        assert(number * factor <= 0xffff_ffff_ffff_ffff * 0xffff_ffff)
                            by (nonlinear_arith)
                            requires
                                number <= 0xffff_ffff_ffff_ffff,
                                factor <= 0xffff_ffff,
                        ;
                        Ok(TimeSpan { millis: number as u128 * factor as u128 })
                    },
                }
            }
        },
    }
}

/// A text begins with as many digits as `digits_len` says: all characters
/// before that place are digits, and the one at that place, if there is
/// one, is none.
pub proof fn lemma_digits_prefix(s: Seq<char>)
    ensures
        digits_len(s) <= s.len(),
        forall|j: int| 0 <= j < digits_len(s) ==> is_digit(#[trigger] s[j]),
        digits_len(s) < s.len() ==> !is_digit(s[digits_len(s) as int]),
    decreases s.len(),
{
    if s.len() > 0 && is_digit(s[0]) {
        let rest = s.drop_first();
        lemma_digits_prefix(rest);
        assert forall|j: int| 0 <= j < digits_len(s) implies is_digit(#[trigger] s[j]) by {
            if j > 0 {
                assert(s[j] == rest[j - 1]);
            }
        }
    }
}

proof fn lemma_number_with_unit(x: nat, unit: char)
    requires
        !is_digit(unit),
    ensures
        digits_len(decimal(x).push(unit)) == decimal(x).len(),
        decimal(x).push(unit).subrange(0, decimal(x).len() as int) == decimal(x),
        decimal(x).push(unit).subrange(
            decimal(x).len() as int,
            decimal(x).push(unit).len() as int,
        ) == seq![unit],
        decimal(x).len() > 0,
        decimal_value(decimal(x)) == x,
{
    let digits = decimal(x);
    let text = digits.push(unit);
    lemma_decimal_is_all_digits(x);
    lemma_decimal_value_of_decimal(x);
    lemma_digits_len(text, digits.len() as int);
}

/// What is written for a length of time is read back as that length: a
/// text by `visit_str`, and a bare number is the length's own
/// milliseconds. This holds of every length whose milliseconds fit 64 bits.
pub proof fn lemma_written_span_reads_back(value: TimeSpan)
    requires
        value.millis <= u64::MAX,
    ensures
        match spec_serialize(value) {
            WrittenView::Text(text) => spec_visit_str(text) == Ok::<_, DurationError>(value),
            WrittenView::Millis(millis) => millis == value.millis,
        },
{
    if value.millis % 1000 == 0 {
        let s = (value.millis / 1000) as nat;
        assert(s * 1000 == value.millis);
        if s % 60 == 0 {
            let m = s / 60;
            assert(m * 60_000 == value.millis);
            if m % 60 == 0 {
                let h = m / 60;
                assert(h * 3_600_000 == value.millis);
                lemma_number_with_unit(h, 'h');
            } else {
                lemma_number_with_unit(m, 'm');
            }
        } else {
            lemma_number_with_unit(s, 's');
        }
    }
}

} // verus!
