//! Numbers as text: decimal notation, padding, and the reading of
//! decimal integers.

use crate::text::chars_of;
use vstd::prelude::*;
use vstd::string::StringExecFns;

verus! {

broadcast use vstd::seq::group_seq_axioms;

/// The character of the digit `d`.
pub open spec fn digit_char(d: int) -> char {
    if d == 0 {
        '0'
    } else if d == 1 {
        '1'
    } else if d == 2 {
        '2'
    } else if d == 3 {
        '3'
    } else if d == 4 {
        '4'
    } else if d == 5 {
        '5'
    } else if d == 6 {
        '6'
    } else if d == 7 {
        '7'
    } else if d == 8 {
        '8'
    } else {
        '9'
    }
}

/// The decimal notation of `n`, without leading zeros.
pub open spec fn decimal(n: nat) -> Seq<char>
    decreases n,
{
    if n < 10 {
        seq![digit_char(n as int)]
    } else {
        decimal(n / 10).push(digit_char((n % 10) as int))
    }
}

/// The decimal notation of `n`, with a minus sign where it is negative.
pub open spec fn signed_decimal(n: int) -> Seq<char> {
    if n < 0 {
        seq!['-'] + decimal((-n) as nat)
    } else {
        decimal(n as nat)
    }
}

/// `text` with spaces put before it until it has `width` characters.
pub open spec fn padded(text: Seq<char>, width: nat) -> Seq<char> {
    if text.len() >= width {
        text
    } else {
        Seq::new((width - text.len()) as nat, |i: int| ' ') + text
    }
}

/// The quotient of `a` by `b`, rounded towards zero.
pub open spec fn quotient(a: int, b: int) -> int {
    if a >= 0 {
        if b > 0 {
            a / b
        } else {
            -(a / (-b))
        }
    } else {
        if b > 0 {
            -((-a) / b)
        } else {
            (-a) / (-b)
        }
    }
}

/// A number as a percentage: at least three characters wide, and then
/// a percent sign.
pub open spec fn percent_text(n: int) -> Seq<char> {
    padded(signed_decimal(n), 3).push('%')
}

/// A number divided by a positive number is at most the number, and
/// at most its half where the divisor is at least two.
proof fn lemma_quotient_bound(x: int, y: int)
    requires
        x >= 0,
        y >= 1,
    ensures
        0 <= x / y <= x,
        y >= 2 ==> 2 * (x / y) <= x,
{
    assert(0 <= x / y <= x && (y >= 2 ==> 2 * (x / y) <= x)) by (nonlinear_arith)
        requires
            x >= 0,
            y >= 1,
    ;
}

/// The quotient of `a` by `b`, rounded towards zero.
pub fn divide(a: i32, b: i32) -> (r: i32)
    requires
        b != 0,
        !(a == i32::MIN && b == -1),
    ensures
        r == quotient(a as int, b as int),
{
    if b > 0 {
        a / b
    } else {
        let x: i64 = -(a as i64);
        let y: i64 = -(b as i64);
        proof {
            lemma_quotient_bound(if x >= 0 {
                x as int
            } else {
                -x
            }, y as int);
        }
        (x / y) as i32
    }
}

/// An `i32` read as a `u32` of the same bits.
pub open spec fn as_unsigned(n: i32) -> int {
    if n < 0 {
        n + 0x1_0000_0000
    } else {
        n as int
    }
}

/// An `i32` read as a `u32` of the same bits.
pub fn to_unsigned(n: i32) -> (r: u32)
    ensures
        r == as_unsigned(n),
{
    if n < 0 {
        ((n as i64) + 0x1_0000_0000) as u32
    } else {
        n as u32
    }
}

/// A `u32` read as an `i32` of the same bits.
pub open spec fn as_signed(n: u32) -> int {
    if n > i32::MAX {
        n - 0x1_0000_0000
    } else {
        n as int
    }
}

/// A `u32` read as an `i32` of the same bits.
pub fn to_signed(n: u32) -> (r: i32)
    ensures
        r == as_signed(n),
{
    if n > 0x7fff_ffff {
        ((n as i64) - 0x1_0000_0000) as i32
    } else {
        n as i32
    }
}

/// The sum of the numbers.
pub open spec fn sum(numbers: Seq<i32>) -> int
    decreases numbers.len(),
{
    if numbers.len() == 0 {
        0
    } else {
        sum(numbers.drop_last()) + numbers.last()
    }
}

/// Whether the numbers can be added up from the first on in `i32`.
pub open spec fn sums_fit(numbers: Seq<i32>) -> bool {
    forall|k: int|
        0 <= k <= numbers.len() ==> i32::MIN <= #[trigger] sum(numbers.take(k)) <= i32::MAX
}

/// The sum of the numbers, where they can be added up from the first
/// on in `i32`.
pub fn checked_sum(numbers: &Vec<i32>) -> (r: Option<i32>)
    ensures
        r is Some <==> sums_fit(numbers@),
        r matches Some(total) ==> total == sum(numbers@),
{
    let mut total: i32 = 0;
    let n = numbers.len();
    let mut i: usize = 0;
    while i < n
        invariant
            i <= n,
            n == numbers@.len(),
            total == sum(numbers@.take(i as int)),
            forall|k: int|
                0 <= k <= i ==> i32::MIN <= #[trigger] sum(numbers@.take(k)) <= i32::MAX,
        decreases n - i,
    {
        assert(numbers@.take(i + 1).drop_last() =~= numbers@.take(i as int));
        assert(numbers@.take(i + 1).last() == numbers@[i as int]);
        match total.checked_add(numbers[i]) {
            Some(next) => {
                total = next;
            },
            None => {
                assert(!(i32::MIN <= sum(numbers@.take(i + 1)) <= i32::MAX));
                return None;
            },
        }
        i += 1;
    }
    assert(numbers@.take(n as int) =~= numbers@);
    Some(total)
}

/// The character of a digit.
pub fn digit(d: u8) -> (c: char)
    requires
        d < 10,
    ensures
        c == digit_char(d as int),
{
    match d {
        0 => '0',
        1 => '1',
        2 => '2',
        3 => '3',
        4 => '4',
        5 => '5',
        6 => '6',
        7 => '7',
        8 => '8',
        _ => '9',
    }
}

/// Appends the decimal notation of `n` to `out`.
pub fn push_decimal(out: &mut String, n: u64)
    ensures
        final(out)@ == old(out)@ + decimal(n as nat),
    decreases n,
{
    if n >= 10 {
        push_decimal(out, n / 10);
    }
    out.push(digit((n % 10) as u8));
    assert(out@ =~= old(out)@ + decimal(n as nat));
}

/// The decimal notation of `n`, with a minus sign where it is negative.
pub fn signed_decimal_string(n: i64) -> (r: String)
    ensures
        r@ == signed_decimal(n as int),
{
    let mut out = String::new();
    if n < 0 {
        out.push('-');
        let magnitude: u64 = ((-(n + 1)) as u64) + 1;
        push_decimal(&mut out, magnitude);
    } else {
        push_decimal(&mut out, n as u64);
    }
    assert(out@ =~= signed_decimal(n as int));
    out
}

/// `text` with spaces put before it until it has `width` characters.
pub fn pad_left(text: &str, width: usize) -> (r: String)
    ensures
        r@ == padded(text@, width as nat),
{
    let len = chars_of(text).len();
    let mut out = String::new();
    if len < width {
        let fill = width - len;
        let mut i: usize = 0;
        while i < fill
            invariant
                i <= fill,
                out@ == Seq::new(i as nat, |k: int| ' '),
            decreases fill - i,
        {
            out.push(' ');
            assert(out@ =~= Seq::new((i + 1) as nat, |k: int| ' '));
            i += 1;
        }
    }
    out.append(text);
    assert(out@ =~= padded(text@, width as nat));
    out
}

/// The decimal notation of `n`, at least `width` characters wide.
pub fn padded_decimal(n: i64, width: usize) -> (r: String)
    ensures
        r@ == padded(signed_decimal(n as int), width as nat),
{
    let number = signed_decimal_string(n);
    pad_left(number.as_str(), width)
}

/// A number as a percentage: at least three characters wide, and then
/// a percent sign.
pub fn percent(n: i64) -> (r: String)
    ensures
        r@ == percent_text(n as int),
{
    let number = signed_decimal_string(n);
    let mut out = pad_left(number.as_str(), 3);
    out.push('%');
    out
}

/// Why a text is not the decimal notation of an integer of a given type.
#[derive(Debug, Clone, Copy, PartialEq, Eq)]
pub enum IntError {
    /// The text is empty.
    Empty,
    /// The text holds a character that is no digit, or a sign alone.
    InvalidDigit,
    /// The number is too large for the type.
    PosOverflow,
    /// The number is too small for the type.
    NegOverflow,
}

/// Whether `c` is a decimal digit.
pub open spec fn is_digit(c: char) -> bool {
    '0' <= c && c <= '9'
}

/// The value of the digit `c`.
pub open spec fn digit_value(c: char) -> int {
    c as int - '0' as int
}

/// The number that the digits of `s` denote.
pub open spec fn digits_value(s: Seq<char>) -> int
    decreases s.len(),
{
    if s.len() == 0 {
        0
    } else {
        digits_value(s.drop_last()) * 10 + digit_value(s.last())
    }
}

/// How many digits `s` starts with.
pub open spec fn leading_digits(s: Seq<char>) -> nat
    decreases s.len(),
{
    if s.len() == 0 || !is_digit(s[0]) {
        0
    } else {
        1 + leading_digits(s.skip(1))
    }
}

/// The integer between `min` and `max` that `s` denotes: an optional
/// sign (a plus sign, or for a signed type a minus sign) and then
/// digits only. The text is read from the left: where the digits read
/// so far leave the range before a character that is no digit is met,
/// the error is the overflow.
pub open spec fn parsed(s: Seq<char>, signed: bool, min: int, max: int) -> Result<int, IntError> {
    if s.len() == 0 {
        Err(IntError::Empty)
    } else {
        let negative = signed && s[0] == '-';
        let body = if s[0] == '+' || negative {
            s.skip(1)
        } else {
            s
        };
        let k = leading_digits(body);
        let value = digits_value(body.take(k as int));
        if body.len() == 0 {
            Err(IntError::InvalidDigit)
        } else if negative && -value < min {
            Err(IntError::NegOverflow)
        } else if !negative && value > max {
            Err(IntError::PosOverflow)
        } else if k < body.len() {
            Err(IntError::InvalidDigit)
        } else if negative {
            Ok(-value)
        } else {
            Ok(value)
        }
    }
}

/// What `s` denotes as an `i32`.
pub open spec fn parsed_i32(s: Seq<char>) -> Result<int, IntError> {
    parsed(s, true, i32::MIN as int, i32::MAX as int)
}

/// What `s` denotes as a `u32`.
pub open spec fn parsed_u32(s: Seq<char>) -> Result<int, IntError> {
    parsed(s, false, 0, u32::MAX as int)
}

/// The digits of a text that starts with `i` digits, followed by the
/// end or by a character that is no digit, are those `i`.
proof fn lemma_leading_digits(s: Seq<char>, i: int)
    requires
        0 <= i <= s.len(),
        forall|j: int| 0 <= j < i ==> is_digit(#[trigger] s[j]),
        i == s.len() || !is_digit(s[i]),
    ensures
        leading_digits(s) == i,
    decreases i,
{
    if i > 0 {
        assert(is_digit(s[0]));
        assert forall|j: int| 0 <= j < i - 1 implies is_digit(#[trigger] s.skip(1)[j]) by {
            assert(s.skip(1)[j] == s[j + 1]);
        }
        lemma_leading_digits(s.skip(1), i - 1);
    }
}

/// Digits denote a number that is not negative.
proof fn lemma_digits_value_nonnegative(s: Seq<char>)
    requires
        forall|j: int| 0 <= j < s.len() ==> is_digit(#[trigger] s[j]),
    ensures
        0 <= digits_value(s),
    decreases s.len(),
{
    if s.len() > 0 {
        assert forall|j: int| 0 <= j < s.drop_last().len() implies is_digit(
            #[trigger] s.drop_last()[j],
        ) by {
            assert(s.drop_last()[j] == s[j]);
        }
        lemma_digits_value_nonnegative(s.drop_last());
        assert(is_digit(s[s.len() - 1]));
    }
}

/// More digits denote no smaller a number.
proof fn lemma_digits_value_grows(s: Seq<char>, i: int, k: int)
    requires
        0 <= i <= k <= s.len(),
        forall|j: int| 0 <= j < k ==> is_digit(#[trigger] s[j]),
    ensures
        0 <= digits_value(s.take(i)) <= digits_value(s.take(k)),
    decreases k - i,
{
    assert forall|j: int| 0 <= j < s.take(i).len() implies is_digit(#[trigger] s.take(i)[j]) by {
        assert(s.take(i)[j] == s[j]);
    }
    lemma_digits_value_nonnegative(s.take(i));
    if i < k {
        lemma_digits_value_grows(s, i, k - 1);
        assert(s.take(k).drop_last() =~= s.take(k - 1));
        assert(s.take(k).last() == s[k - 1]);
        assert(is_digit(s[k - 1]));
    }
}

/// Reads the integer between `min` and `max` that `s` denotes.
fn parse_int(s: &str, signed: bool, min: i64, max: i64) -> (r: Result<i64, IntError>)
    requires
        -0x1_0000_0000 <= min <= 0 <= max <= 0x1_0000_0000,
    ensures
        match r {
            Ok(v) => min <= v <= max && parsed(s@, signed, min as int, max as int) == Ok::<
                int,
                IntError,
            >(v as int),
            Err(e) => parsed(s@, signed, min as int, max as int) == Err::<int, IntError>(e),
        },
{
    let chars = chars_of(s);
    let n = chars.len();
    if n == 0 {
        return Err(IntError::Empty);
    }
    let negative = signed && chars[0] == '-';
    let start: usize = if chars[0] == '+' || negative {
        1
    } else {
        0
    };
    let ghost body = if start == 1 {
        s@.skip(1)
    } else {
        s@
    };
    assert(body =~= s@.skip(start as int));
    if start == n {
        return Err(IntError::InvalidDigit);
    }
    let limit: i64 = if negative {
        -min
    } else {
        max
    };
    let mut value: i64 = 0;
    let mut i: usize = start;
    while i < n
        invariant
            start <= i <= n,
            n == chars@.len(),
            chars@ == s@,
            body == s@.skip(start as int),
            0 <= limit <= 0x1_0000_0000,
            limit == if negative {
                -min
            } else {
                max as int
            },
            negative == (signed && s@[0] == '-'),
            body == if s@[0] == '+' || negative {
                s@.skip(1)
            } else {
                s@
            },
            s@.len() > 0,
            body.len() == n - start,
            body.len() > 0,
            forall|j: int| 0 <= j < i - start ==> is_digit(#[trigger] body[j]),
            value == digits_value(body.take(i - start)),
            0 <= value <= limit,
        decreases n - i,
    {
        let c = chars[i];
        assert(body[i - start] == c);
        if !(c >= '0' && c <= '9') {
            proof {
                lemma_leading_digits(body, i - start);
            }
            return Err(IntError::InvalidDigit);
        }
        let d: i64 = (c as u32 - '0' as u32) as i64;
        assert(d == digit_value(c));
        assert(body.take(i - start + 1).drop_last() =~= body.take(i - start));
        assert(body.take(i - start + 1).last() == c);
        value = value * 10 + d;
        assert(value == digits_value(body.take(i - start + 1)));
        if value > limit {
            proof {
                let k = leading_digits(body) as int;
                lemma_leading_digits_are_digits(body);
                assert(k >= i - start + 1) by {
                    if k < i - start + 1 {
                        assert(is_digit(body[k]));
                    }
                }
                lemma_digits_value_grows(body, i - start + 1, k);
                assert(digits_value(body.take(k)) > limit);
            }
            if negative {
                return Err(IntError::NegOverflow);
            } else {
                return Err(IntError::PosOverflow);
            }
        }
        i += 1;
    }
    proof {
        lemma_leading_digits(body, n - start);
        assert(body.take(n - start) =~= body);
    }
    if negative {
        Ok(-value)
    } else {
        Ok(value)
    }
}

/// The leading digits of a text are digits, and what follows them is
/// the end or a character that is no digit.
proof fn lemma_leading_digits_are_digits(s: Seq<char>)
    ensures
        leading_digits(s) <= s.len(),
        forall|j: int| 0 <= j < leading_digits(s) ==> is_digit(#[trigger] s[j]),
        leading_digits(s) == s.len() || !is_digit(s[leading_digits(s) as int]),
    decreases s.len(),
{
    if s.len() > 0 && is_digit(s[0]) {
        lemma_leading_digits_are_digits(s.skip(1));
        assert forall|j: int| 0 <= j < leading_digits(s) implies is_digit(#[trigger] s[j]) by {
            if j > 0 {
                assert(s.skip(1)[j - 1] == s[j]);
            }
        }
        if leading_digits(s) < s.len() {
            assert(s.skip(1)[leading_digits(s.skip(1)) as int] == s[leading_digits(s) as int]);
        }
    }
}

/// Reads an `i32` in decimal notation: an optional sign and digits.
pub fn parse_i32(s: &str) -> (r: Result<i32, IntError>)
    ensures
        match r {
            Ok(v) => parsed_i32(s@) == Ok::<int, IntError>(v as int),
            Err(e) => parsed_i32(s@) == Err::<int, IntError>(e),
        },
{
    match parse_int(s, true, -0x8000_0000, 0x7fff_ffff) {
        Ok(v) => Ok(v as i32),
        Err(e) => Err(e),
    }
}

/// Reads a `u32` in decimal notation: an optional plus sign and digits.
pub fn parse_u32(s: &str) -> (r: Result<u32, IntError>)
    ensures
        match r {
            Ok(v) => parsed_u32(s@) == Ok::<int, IntError>(v as int),
            Err(e) => parsed_u32(s@) == Err::<int, IntError>(e),
        },
{
    match parse_int(s, false, 0, 0xffff_ffff) {
        Ok(v) => Ok(v as u32),
        Err(e) => Err(e),
    }
}

/// The message of each error.
pub open spec fn int_error_text(e: IntError) -> Seq<char> {
    match e {
        IntError::Empty => "cannot parse integer from empty string"@,
        IntError::InvalidDigit => "invalid digit found in string"@,
        IntError::PosOverflow => "number too large to fit in target type"@,
        IntError::NegOverflow => "number too small to fit in target type"@,
    }
}

impl IntError {
    /// The message of the error.
    pub fn message(&self) -> (r: &'static str)
        ensures
            r@ == int_error_text(*self),
    {
        match self {
            IntError::Empty => "cannot parse integer from empty string",
            IntError::InvalidDigit => "invalid digit found in string",
            IntError::PosOverflow => "number too large to fit in target type",
            IntError::NegOverflow => "number too small to fit in target type",
        }
    }
}

} // verus!
