//! Decimal notation of integers: writing, and reading with the errors of a bounded integer type.

use vstd::prelude::*;

use crate::text::chars_of;

verus! {

/// Why a text is not the decimal notation of an integer of a bounded type.
#[derive(Clone, Copy, Debug, PartialEq, Eq, Structural)]
pub enum IntError {
    /// The text is empty.
    Empty,
    /// A character is not a digit where one is needed.
    InvalidDigit,
    /// The number is above the type's largest.
    PosOverflow,
    /// The number is below the type's smallest.
    NegOverflow,
}

impl IntError {
    /// The message shown for the error.
    pub open spec fn message_spec(self) -> Seq<char> {
        match self {
            IntError::Empty => "cannot parse integer from empty string"@,
            IntError::InvalidDigit => "invalid digit found in string"@,
            IntError::PosOverflow => "number too large to fit in target type"@,
            IntError::NegOverflow => "number too small to fit in target type"@,
        }
    }

    /// The message shown for the error.
    pub fn message(&self) -> (r: &'static str)
        ensures
            r@ == self.message_spec(),
    {
        match self {
            IntError::Empty => "cannot parse integer from empty string",
            IntError::InvalidDigit => "invalid digit found in string",
            IntError::PosOverflow => "number too large to fit in target type",
            IntError::NegOverflow => "number too small to fit in target type",
        }
    }
}

/// Whether `c` is an ASCII digit.
pub open spec fn is_digit(c: char) -> bool {
    '0' <= c <= '9'
}

/// The digit for a value below ten.
pub open spec fn digit_char(value: int) -> char
    recommends
        0 <= value < 10,
{
    if value == 0 {
        '0'
    } else if value == 1 {
        '1'
    } else if value == 2 {
        '2'
    } else if value == 3 {
        '3'
    } else if value == 4 {
        '4'
    } else if value == 5 {
        '5'
    } else if value == 6 {
        '6'
    } else if value == 7 {
        '7'
    } else if value == 8 {
        '8'
    } else {
        '9'
    }
}

/// The value of an ASCII digit.
pub open spec fn digit_value(c: char) -> int {
    c as int - '0' as int
}

/// The decimal notation of a natural number, without leading zeros.
pub open spec fn decimal_nat(n: nat) -> Seq<char>
    decreases n,
{
    if n < 10 {
        seq![digit_char(n as int)]
    } else {
        decimal_nat(n / 10).push(digit_char((n % 10) as int))
    }
}

/// The decimal notation of an integer.
pub open spec fn decimal(n: int) -> Seq<char> {
    if n < 0 {
        seq!['-'] + decimal_nat((-n) as nat)
    } else {
        decimal_nat(n as nat)
    }
}

/// Reads digits from left to right, keeping the value within `min..=max`; the first character
/// that is no digit or that takes the value out of bounds decides the error.
pub open spec fn read_digits(digits: Seq<char>, negative: bool, min: int, max: int) -> Result<
    int,
    IntError,
>
    decreases digits.len(),
{
    if digits.len() == 0 {
        Ok(0)
    } else {
        match read_digits(digits.drop_last(), negative, min, max) {
            Err(error) => Err(error),
            Ok(value) => {
                let c = digits.last();
                if !is_digit(c) {
                    Err(IntError::InvalidDigit)
                } else if negative {
                    if 10 * value - digit_value(c) < min {
                        Err(IntError::NegOverflow)
                    } else {
                        Ok(10 * value - digit_value(c))
                    }
                } else if 10 * value + digit_value(c) > max {
                    Err(IntError::PosOverflow)
                } else {
                    Ok(10 * value + digit_value(c))
                }
            },
        }
    }
}

/// Reads an integer within `min..=max`: an optional sign (a minus sign only where `min` is
/// negative), then digits.
pub open spec fn parse_int_spec(s: Seq<char>, min: int, max: int) -> Result<int, IntError> {
    if s.len() == 0 {
        Err(IntError::Empty)
    } else if s.len() == 1 && (s[0] == '+' || s[0] == '-') {
        Err(IntError::InvalidDigit)
    } else if s[0] == '+' {
        read_digits(s.skip(1), false, min, max)
    } else if s[0] == '-' && min < 0 {
        read_digits(s.skip(1), true, min, max)
    } else {
        read_digits(s, false, min, max)
    }
}

/// The digit for a value below ten.
fn digit_of(value: u8) -> (c: char)
    requires
        value < 10,
    ensures
        c == digit_char(value as int),
{
    match value {
        0 => '0',
        1 => '1',
        2 => '2',
        3 => '3',
        4 => '4',
        5 => '5',
        6 => '6',
        7 => '7',
        8 => '8',
        _ => '9',
    }
}

/// The decimal notation of `n`.
pub fn decimal_u64(n: u64) -> (r: String)
    ensures
        r@ == decimal(n as int),
    decreases n,
{
    if n < 10 {
        let mut r = String::new();
        r.push(digit_of(n as u8));
        assert(r@ =~= decimal_nat(n as nat));
        r
    } else {
        let mut r = decimal_u64(n / 10);
        r.push(digit_of((n % 10) as u8));
        r
    }
}

/// The decimal notation of `n`.
pub fn decimal_i64(n: i64) -> (r: String)
    ensures
        r@ == decimal(n as int),
{
    if n < 0 {
        let mut r = String::new();
        r.push('-');
        let magnitude: u64 = (-(n as i128)) as u64;
        let digits = decimal_u64(magnitude);
        r.append(digits.as_str());
        assert(r@ =~= seq!['-'] + decimal_nat(magnitude as nat));
        r
    } else {
        decimal_u64(n as u64)
    }
}

/// Reads an integer within `min..=max`.
pub fn parse_int(s: &str, min: i128, max: i128) -> (r: Result<i128, IntError>)
    requires
        -0x8000_0000_0000_0000 <= min <= 0 <= max <= 0xffff_ffff_ffff_ffff,
    ensures
        match r {
            Ok(value) => parse_int_spec(s@, min as int, max as int) == Ok::<int, IntError>(
                value as int,
            ) && min <= value <= max,
            Err(error) => parse_int_spec(s@, min as int, max as int) == Err::<int, IntError>(error),
        },
{
    let chars = chars_of(s);
    let n: usize = chars.len();
    if n == 0 {
        return Err(IntError::Empty);
    }
    if n == 1 && (chars[0] == '+' || chars[0] == '-') {
        return Err(IntError::InvalidDigit);
    }
    let negative: bool = chars[0] == '-' && min < 0;
    let start: usize = if chars[0] == '+' || negative {
        1
    } else {
        0
    };
    let ghost digits = s@.skip(start as int);
    assert(start == 0 ==> digits =~= s@);
    let mut value: i128 = 0;
    for i in start..n
        invariant
            -0x8000_0000_0000_0000 <= min <= 0 <= max <= 0xffff_ffff_ffff_ffff,
            chars@ == s@,
            n == s@.len(),
            start <= i <= n,
            start <= 1,
            digits == s@.skip(start as int),
            parse_int_spec(s@, min as int, max as int) == read_digits(
                digits,
                negative,
                min as int,
                max as int,
            ),
            read_digits(digits.take(i - start), negative, min as int, max as int) == Ok::<
                int,
                IntError,
            >(value as int),
            min <= value <= max,
            negative ==> value <= 0,
            !negative ==> value >= 0,
    {
        let c = chars[i];
        let ghost done = digits.take(i - start + 1);
        proof {
            assert(done.drop_last() =~= digits.take(i - start));
            assert(done.last() == c);
            lemma_read_digits_error(digits, i - start + 1, negative, min as int, max as int);
        }
        if !(c >= '0' && c <= '9') {
            return Err(IntError::InvalidDigit);
        }
        let digit: i128 = (c as u32 - '0' as u32) as i128;
        if negative {
            if 10 * value - digit < min {
                return Err(IntError::NegOverflow);
            }
            value = 10 * value - digit;
        } else {
            if 10 * value + digit > max {
                return Err(IntError::PosOverflow);
            }
            value = 10 * value + digit;
        }
    }
    assert(digits.take(n - start) =~= digits);
    Ok(value)
}

/// An error in a prefix of the digits is the error of the whole.
proof fn lemma_read_digits_error(digits: Seq<char>, k: int, negative: bool, min: int, max: int)
    requires
        0 <= k <= digits.len(),
    ensures
        read_digits(digits.take(k), negative, min, max) is Err ==> read_digits(
            digits,
            negative,
            min,
            max,
        ) == read_digits(digits.take(k), negative, min, max),
    decreases digits.len(),
{
    if k == digits.len() {
        assert(digits.take(k) =~= digits);
    } else {
        lemma_read_digits_error(digits.drop_last(), k, negative, min, max);
        assert(digits.drop_last().take(k) =~= digits.take(k));
    }
}

/// Reads an unsigned 64-bit integer.
pub fn parse_u64(s: &str) -> (r: Result<u64, IntError>)
    ensures
        match r {
            Ok(value) => parse_int_spec(s@, 0, u64::MAX as int) == Ok::<int, IntError>(value as int),
            Err(error) => parse_int_spec(s@, 0, u64::MAX as int) == Err::<int, IntError>(error),
        },
{
    match parse_int(s, 0, 0xffff_ffff_ffff_ffff) {
        Ok(value) => Ok(value as u64),
        Err(error) => Err(error),
    }
}

/// Reads a signed 64-bit integer.
pub fn parse_i64(s: &str) -> (r: Result<i64, IntError>)
    ensures
        match r {
            Ok(value) => parse_int_spec(s@, i64::MIN as int, i64::MAX as int) == Ok::<
                int,
                IntError,
            >(value as int),
            Err(error) => parse_int_spec(s@, i64::MIN as int, i64::MAX as int) == Err::<
                int,
                IntError,
            >(error),
        },
{
    match parse_int(s, -0x8000_0000_0000_0000, 0x7fff_ffff_ffff_ffff) {
        Ok(value) => Ok(value as i64),
        Err(error) => Err(error),
    }
}

/// Reads an unsigned 8-bit integer.
pub fn parse_u8(s: &str) -> (r: Result<u8, IntError>)
    ensures
        match r {
            Ok(value) => parse_int_spec(s@, 0, u8::MAX as int) == Ok::<int, IntError>(value as int),
            Err(error) => parse_int_spec(s@, 0, u8::MAX as int) == Err::<int, IntError>(error),
        },
{
    match parse_int(s, 0, 0xff) {
        Ok(value) => Ok(value as u8),
        Err(error) => Err(error),
    }
}

/// Reads an unsigned 16-bit integer.
pub fn parse_u16(s: &str) -> (r: Result<u16, IntError>)
    ensures
        match r {
            Ok(value) => parse_int_spec(s@, 0, u16::MAX as int) == Ok::<int, IntError>(value as int),
            Err(error) => parse_int_spec(s@, 0, u16::MAX as int) == Err::<int, IntError>(error),
        },
{
    match parse_int(s, 0, 0xffff) {
        Ok(value) => Ok(value as u16),
        Err(error) => Err(error),
    }
}

/// The digits of a decimal notation.
pub proof fn lemma_decimal_nat_digits(n: nat)
    ensures
        decimal_nat(n).len() > 0,
        forall|i: int| 0 <= i < decimal_nat(n).len() ==> is_digit(#[trigger] decimal_nat(n)[i]),
    decreases n,
{
    if n >= 10 {
        lemma_decimal_nat_digits(n / 10);
    }
}

/// What is read without a sign lies between zero and the bound.
pub proof fn lemma_read_digits_bounds(digits: Seq<char>, max: int)
    requires
        0 <= max,
    ensures
        read_digits(digits, false, 0, max) matches Ok(n) ==> 0 <= n <= max,
    decreases digits.len(),
{
    if digits.len() > 0 {
        lemma_read_digits_bounds(digits.drop_last(), max);
    }
}

/// Reading the digits of a decimal notation gives the number back.
proof fn lemma_read_decimal_nat(n: nat, max: int)
    requires
        n <= max,
    ensures
        read_digits(decimal_nat(n), false, 0, max) == Ok::<int, IntError>(n as int),
    decreases n,
{
    if n < 10 {
        let one = seq![digit_char(n as int)];
        assert(one.drop_last() =~= Seq::<char>::empty());
        assert(read_digits(one.drop_last(), false, 0, max) == Ok::<int, IntError>(0));
    } else {
        lemma_read_decimal_nat(n / 10, max);
        let whole = decimal_nat(n);
        assert(whole.drop_last() =~= decimal_nat(n / 10));
        assert(whole.last() == digit_char((n % 10) as int));
    }
}

/// Writing a natural number and reading it back gives the number.
pub proof fn law_decimal_round_trip(n: nat, max: int)
    requires
        n <= max,
    ensures
        parse_int_spec(decimal(n as int), 0, max) == Ok::<int, IntError>(n as int),
{
    lemma_decimal_nat_digits(n);
    lemma_read_decimal_nat(n, max);
    let s = decimal_nat(n);
    assert(is_digit(s[0]));
}

/// Writing a natural number and reading it back as a signed number gives the number.
pub proof fn law_decimal_round_trip_signed(n: nat, min: int, max: int)
    requires
        n <= max,
        min <= 0,
    ensures
        parse_int_spec(decimal(n as int), min, max) == Ok::<int, IntError>(n as int),
{
    law_decimal_round_trip(n, max);
    lemma_decimal_nat_digits(n);
    assert(is_digit(decimal_nat(n)[0]));
    lemma_read_ignores_min(decimal_nat(n), 0, min, max);
}

/// Without a sign, the lower bound plays no part.
proof fn lemma_read_ignores_min(digits: Seq<char>, a: int, b: int, max: int)
    ensures
        read_digits(digits, false, a, max) == read_digits(digits, false, b, max),
    decreases digits.len(),
{
    if digits.len() > 0 {
        lemma_read_ignores_min(digits.drop_last(), a, b, max);
    }
}

/// How numbers are written: a digit below ten, else the notation of the tenth part and the last
/// digit; a minus sign before the notation of a negative number's magnitude.
pub proof fn law_decimal_notation(n: nat)
    ensures
        n < 10 ==> decimal(n as int) == seq!["0123456789"@[n as int]],
        n >= 10 ==> decimal(n as int) == decimal((n / 10) as int) + decimal((n % 10) as int),
        n > 0 ==> decimal(-n) == seq!['-'] + decimal(n as int),
{
    reveal_strlit("0123456789");
    if n >= 10 {
        assert(decimal(n as int) =~= decimal((n / 10) as int) + decimal((n % 10) as int));
    }
}

/// What is no number is refused for what it is: an empty text, a character that is no digit, a
/// number above the largest.
pub proof fn law_numbers_that_are_refused(s: Seq<char>, n: nat, max: int)
    requires
        0 <= max,
    ensures
        parse_int_spec(Seq::empty(), 0, max) == Err::<int, IntError>(IntError::Empty),
        s.len() > 0 && s[0] != '+' && !is_digit(s[0]) ==> parse_int_spec(s, 0, max) == Err::<
            int,
            IntError,
        >(IntError::InvalidDigit),
        parse_int_spec(s, 0, max) matches Ok(value) ==> 0 <= value <= max,
        IntError::Empty.message_spec() == "cannot parse integer from empty string"@,
        IntError::InvalidDigit.message_spec() == "invalid digit found in string"@,
        IntError::PosOverflow.message_spec() == "number too large to fit in target type"@,
        IntError::NegOverflow.message_spec() == "number too small to fit in target type"@,
{
    if s.len() > 0 {
        let digits = if s[0] == '+' {
            s.skip(1)
        } else {
            s
        };
        lemma_read_digits_bounds(digits, max);
        if s[0] != '+' && !is_digit(s[0]) {
            lemma_bad_start(s, max);
        }
    }
}

/// A text that starts with no digit is refused for it.
proof fn lemma_bad_start(s: Seq<char>, max: int)
    requires
        s.len() > 0,
        !is_digit(s[0]),
        0 <= max,
    ensures
        read_digits(s, false, 0, max) == Err::<int, IntError>(IntError::InvalidDigit),
    decreases s.len(),
{
    if s.len() == 1 {
        assert(s.drop_last() =~= Seq::<char>::empty());
    } else {
        assert(s.drop_last()[0] == s[0]);
        lemma_bad_start(s.drop_last(), max);
    }
}

} // verus!
