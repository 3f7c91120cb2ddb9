//! Decimal integers as text.
use vstd::prelude::*;
use crate::text::{str_chars, string_push};

verus! {

/// Whether `c` is an ASCII digit.
pub open spec fn is_digit(c: char) -> bool {
    '0' <= c <= '9'
}

/// The value of a run of decimal digits.
pub open spec fn digits_value(d: Seq<char>) -> int
    decreases d.len(),
{
    if d.len() == 0 {
        0
    } else {
        digits_value(d.drop_last()) * 10 + (d.last() as int - '0' as int)
    }
}

/// Whether every character of `d` is an ASCII digit.
pub open spec fn all_digits(d: Seq<char>) -> bool {
    forall|i: int| 0 <= i < d.len() ==> is_digit(#[trigger] d[i])
}

/// `s` without its leading sign, if it has one.
pub open spec fn unsigned_part(s: Seq<char>) -> Seq<char> {
    if s.len() > 0 && (s[0] == '-' || s[0] == '+') {
        s.drop_first()
    } else {
        s
    }
}

/// What `i64::from_str` accepts: an optional sign (`+` or `-`) and at least
/// one ASCII digit, nothing else, with a value in range.
pub open spec fn spec_parse_i64(s: Seq<char>) -> Option<i64> {
    let d = unsigned_part(s);
    if d.len() == 0 || !all_digits(d) {
        None
    } else {
        let v = if s.len() > 0 && s[0] == '-' {
            -digits_value(d)
        } else {
            digits_value(d)
        };
        if i64::MIN <= v <= i64::MAX {
            Some(v as i64)
        } else {
            None
        }
    }
}

proof fn lemma_digits_nonneg(d: Seq<char>)
    requires
        forall|i: int| 0 <= i < d.len() ==> is_digit(#[trigger] d[i]),
    ensures
        digits_value(d) >= 0,
    decreases d.len(),
{
    if d.len() > 0 {
        assert forall|i: int| 0 <= i < d.drop_last().len() implies is_digit(#[trigger] d.drop_last()[i]) by {
            assert(d.drop_last()[i] == d[i]);
        }
        lemma_digits_nonneg(d.drop_last());
        assert(is_digit(d[d.len() - 1]));
    }
}

proof fn lemma_digits_monotone(d: Seq<char>, k: int)
    requires
        0 <= k <= d.len(),
        forall|i: int| 0 <= i < d.len() ==> is_digit(#[trigger] d[i]),
    ensures
        digits_value(d) >= digits_value(d.take(k)),
    decreases d.len() - k,
{
    if k < d.len() {
        let t = d.take(k + 1);
        assert(t.drop_last() =~= d.take(k));
        assert forall|i: int| 0 <= i < d.take(k).len() implies is_digit(#[trigger] d.take(k)[i]) by {
            assert(d.take(k)[i] == d[i]);
        }
        lemma_digits_nonneg(d.take(k));
        assert(is_digit(t.last()));
        lemma_digits_monotone(d, k + 1);
    } else {
        assert(d.take(k) =~= d);
    }
}

/// Parses a decimal `i64` (as `str::parse::<i64>` does).
pub fn parse_i64(s: &str) -> (r: Option<i64>)
    ensures
        r == spec_parse_i64(s@),
{
    let cs = str_chars(s);
    let n = cs.len();
    let neg = n > 0 && cs[0] == '-';
    let start: usize = if n > 0 && (cs[0] == '-' || cs[0] == '+') {
        1
    } else {
        0
    };
    let ghost d = unsigned_part(s@);
    assert(d =~= cs@.skip(start as int));
    if start == n {
        return None;
    }
    let mut acc: i128 = 0;
    let mut i: usize = start;
    while i < n
        invariant
            cs@ == s@,
            n == cs@.len(),
            start <= i <= n,
            d == cs@.skip(start as int),
            d == unsigned_part(s@),
            neg == (s@.len() > 0 && s@[0] == '-'),
            start < n,
            forall|j: int| 0 <= j < i - start ==> is_digit(#[trigger] d[j]),
            acc == digits_value(d.take(i - start)),
            0 <= acc <= 9223372036854775808i128,
        decreases n - i,
    {
        let c = cs[i];
        assert(d[i - start] == c);
        if !('0' <= c && c <= '9') {
            assert(!is_digit(d[(i - start) as int]));
            assert(!all_digits(d));
            assert(spec_parse_i64(s@) is None);
            return None;
        }
        assert(d.take(i - start + 1).drop_last() =~= d.take(i - start));
        let next = acc * 10 + ((c as u32) - ('0' as u32)) as i128;
        if next > 9223372036854775808i128 {
            proof {
                let k: int = i - start + 1;
                assert(digits_value(d.take(k)) == next);
                if all_digits(d) {
                    lemma_digits_monotone(d, k);
                    assert(digits_value(d) > 9223372036854775807);
                }
                assert(spec_parse_i64(s@) is None);
            }
            return None;
        }
        acc = next;
        i = i + 1;
    }
    assert(d.take(n - start) =~= d);
    if neg {
        Some((0 - acc) as i64)
    } else if acc > 9223372036854775807i128 {
        None
    } else {
        Some(acc as i64)
    }
}

/// The decimal text of a non-negative value, most significant digit first.
pub open spec fn decimal(v: nat) -> Seq<char>
    decreases v,
{
    if v < 10 {
        seq![(v + '0' as nat) as char]
    } else {
        decimal(v / 10).push(((v % 10) + '0' as nat) as char)
    }
}

/// The decimal text of an `i64`, as `Display` writes it.
pub open spec fn i64_text(v: i64) -> Seq<char> {
    if v < 0 {
        seq!['-'] + decimal((-(v as int)) as nat)
    } else {
        decimal(v as nat)
    }
}

fn push_decimal(s: &mut String, v: u64)
    ensures
        final(s)@ == old(s)@ + decimal(v as nat),
    decreases v,
{
    if v < 10 {
        string_push(s, (v as u8 + 48u8) as char);
    } else {
        push_decimal(s, v / 10);
        string_push(s, ((v % 10) as u8 + 48u8) as char);
        assert(final(s)@ =~= old(s)@ + decimal(v as nat));
    }
}

/// Appends the decimal text of `v` to `s`.
pub fn push_u64(s: &mut String, v: u64)
    ensures
        final(s)@ == old(s)@ + decimal(v as nat),
{
    push_decimal(s, v);
}

/// Appends the decimal text of `v` to `s`.
pub fn push_i64(s: &mut String, v: i64)
    ensures
        final(s)@ == old(s)@ + i64_text(v),
{
    if v < 0 {
        string_push(s, '-');
        let m: u64 = if v == i64::MIN {
            9223372036854775808u64
        } else {
            (-v) as u64
        };
        push_decimal(s, m);
        assert(final(s)@ =~= old(s)@ + i64_text(v));
    } else {
        push_decimal(s, v as u64);
    }
}

/// Why a decimal `i64` does not parse, as std's `IntErrorKind` tells it.
#[derive(Clone, Copy, Debug, PartialEq, Eq, Structural)]
pub enum IntError {
    /// The text is empty.
    Empty,
    /// A character that is not a digit (or a sign with no digits).
    InvalidDigit,
    /// The value is above `i64::MAX`.
    PosOverflow,
    /// The value is below `i64::MIN`.
    NegOverflow,
}

impl IntError {
    /// The message std's `ParseIntError` shows for this kind.
    pub fn message(&self) -> (r: &'static str)
        ensures
            r@ == int_error_message(*self),
    {
        match self {
            IntError::Empty => "cannot parse integer from empty string",
            IntError::InvalidDigit => "invalid digit found in string",
            IntError::PosOverflow => "number too large to fit in target type",
            IntError::NegOverflow => "number too small to fit in target type",
        }
    }
}

/// The message of each kind of parse failure.
pub open spec fn int_error_message(e: IntError) -> Seq<char> {
    match e {
        IntError::Empty => "cannot parse integer from empty string"@,
        IntError::InvalidDigit => "invalid digit found in string"@,
        IntError::PosOverflow => "number too large to fit in target type"@,
        IntError::NegOverflow => "number too small to fit in target type"@,
    }
}

/// Reads the digits of `d` from position `i` on, with the magnitude `acc`
/// of those before: the first character that is not a digit, or the first
/// digit that takes the magnitude out of range, stops the reading.
pub open spec fn digit_scan(d: Seq<char>, i: nat, acc: int, neg: bool) -> Result<int, IntError>
    decreases d.len() - i,
{
    if i >= d.len() {
        Ok(acc)
    } else if !is_digit(d[i as int]) {
        Err(IntError::InvalidDigit)
    } else {
        let v = acc * 10 + (d[i as int] as int - '0' as int);
        if neg && v > 9223372036854775808 {
            Err(IntError::NegOverflow)
        } else if !neg && v > 9223372036854775807 {
            Err(IntError::PosOverflow)
        } else {
            digit_scan(d, i + 1, v, neg)
        }
    }
}

/// Why `s` does not parse as a decimal `i64`: empty text, a sign without
/// digits, or what reading the digits left to right meets first.
pub open spec fn int_error_kind(s: Seq<char>) -> IntError {
    if s.len() == 0 {
        IntError::Empty
    } else {
        let d = unsigned_part(s);
        if d.len() == 0 {
            IntError::InvalidDigit
        } else {
            match digit_scan(d, 0, 0, s[0] == '-') {
                Err(e) => e,
                Ok(_) => IntError::InvalidDigit,
            }
        }
    }
}

/// Why `s` does not parse as a decimal `i64` (see `int_error_kind`).
pub fn parse_i64_error(s: &str) -> (r: IntError)
    ensures
        r == int_error_kind(s@),
{
    let cs = str_chars(s);
    let n = cs.len();
    if n == 0 {
        return IntError::Empty;
    }
    let neg = cs[0] == '-';
    let start: usize = if cs[0] == '-' || cs[0] == '+' {
        1
    } else {
        0
    };
    let ghost d = unsigned_part(s@);
    assert(d =~= cs@.skip(start as int));
    if start == n {
        return IntError::InvalidDigit;
    }
    let mut acc: i128 = 0;
    let mut i: usize = start;
    while i < n
        invariant
            cs@ == s@,
            n == cs@.len(),
            0 < n,
            start <= i <= n,
            d == cs@.skip(start as int),
            d == unsigned_part(s@),
            d.len() == n - start,
            neg == (s@[0] == '-'),
            digit_scan(d, 0, 0, neg) == digit_scan(d, (i - start) as nat, acc as int, neg),
            0 <= acc <= 9223372036854775808i128,
        decreases n - i,
    {
        let c = cs[i];
        assert(d[i - start] == c);
        if !('0' <= c && c <= '9') {
            assert(digit_scan(d, (i - start) as nat, acc as int, neg) == Err::<int, IntError>(IntError::InvalidDigit));
            return IntError::InvalidDigit;
        }
        let v = acc * 10 + ((c as u32) - ('0' as u32)) as i128;
        if neg && v > 9223372036854775808i128 {
            return IntError::NegOverflow;
        }
        if !neg && v > 9223372036854775807i128 {
            return IntError::PosOverflow;
        }
        acc = v;
        i = i + 1;
    }
    IntError::InvalidDigit
}

} // verus!
