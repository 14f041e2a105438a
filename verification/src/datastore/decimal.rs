//! Decimal text of integers: what it denotes, how it is written and read.

use vstd::prelude::*;
use vstd::string::is_ascii_spec_bytes;

use crate::serde_ds::error::{Error, ErrorModel};

verus! {

/// Whether `c` is one of the ten decimal digits.
pub open spec fn is_digit(c: char) -> bool {
    '0' <= c && c <= '9'
}

/// The number that the digit `c` stands for.
pub open spec fn digit_value(c: char) -> nat
    recommends
        is_digit(c),
{
    (c as int - '0' as int) as nat
}

/// The digit that stands for `d`.
pub open spec fn digit_char(d: nat) -> char
    recommends
        d < 10,
{
    (d + '0' as u8) as u8 as char
}

/// Whether `digits` consists of decimal digits only.
pub open spec fn all_digits(digits: Seq<char>) -> bool {
    forall|i: int| 0 <= i < digits.len() ==> is_digit(#[trigger] digits[i])
}

/// The number that a run of digits denotes, most significant digit first.
pub open spec fn digits_value(digits: Seq<char>) -> nat
    decreases digits.len(),
{
    if digits.len() == 0 {
        0
    } else {
        10 * digits_value(digits.drop_last()) + digit_value(digits.last())
    }
}

/// Whether `text` starts with a sign.
pub open spec fn has_sign(text: Seq<char>) -> bool {
    text.len() > 0 && (text[0] == '-' || text[0] == '+')
}

/// `text` without its sign, if it has one.
pub open spec fn unsigned_part(text: Seq<char>) -> Seq<char> {
    if has_sign(text) {
        text.subrange(1, text.len() as int)
    } else {
        text
    }
}

/// Whether `text` is a decimal literal: an optional sign, then one digit or
/// more.
pub open spec fn is_decimal(text: Seq<char>) -> bool {
    unsigned_part(text).len() > 0 && all_digits(unsigned_part(text))
}

/// The integer that a decimal literal denotes.
pub open spec fn decimal_value(text: Seq<char>) -> int
    recommends
        is_decimal(text),
{
    if text.len() > 0 && text[0] == '-' {
        -(digits_value(unsigned_part(text)) as int)
    } else {
        digits_value(unsigned_part(text)) as int
    }
}

/// The digits of `n`, most significant first, without leading zeros.
pub open spec fn digits_of(n: nat) -> Seq<char>
    decreases n,
{
    if n < 10 {
        seq![digit_char(n)]
    } else {
        digits_of(n / 10).push(digit_char(n % 10))
    }
}

/// The decimal text of `v`: a minus sign if `v` is negative, then the digits
/// of its magnitude.
pub open spec fn decimal_text(v: int) -> Seq<char> {
    if v < 0 {
        seq!['-'] + digits_of((-v) as nat)
    } else {
        digits_of(v as nat)
    }
}

/// Whether `text` is the one way to write its value: a minus sign only
/// before a magnitude that is not zero, and no zero before another digit.
pub open spec fn is_canonical(text: Seq<char>) -> bool {
    &&& is_decimal(text)
    &&& text[0] != '+'
    &&& unsigned_part(text).len() > 1 ==> unsigned_part(text)[0] != '0'
    &&& text[0] == '-' ==> unsigned_part(text)[0] != '0'
}

/// A digit character reads back as the number it was made from.
pub proof fn lemma_digit_char(d: nat)
    requires
        d < 10,
    ensures
        is_digit(digit_char(d)),
        digit_value(digit_char(d)) == d,
        digit_char(d) == '0' <==> d == 0,
{
}

/// The digits of a number are digits, begin with a zero only for zero
/// itself, and denote the number.
pub proof fn lemma_digits_of(n: nat)
    ensures
        digits_of(n).len() >= 1,
        all_digits(digits_of(n)),
        digits_of(n)[0] == '0' <==> n == 0,
        n < 10 <==> digits_of(n).len() == 1,
        digits_value(digits_of(n)) == n,
    decreases n,
{
    lemma_digit_char(n % 10);
    if n < 10 {
        let one = digits_of(n);
        assert(one.drop_last() =~= Seq::<char>::empty());
        assert(digits_value(one.drop_last()) == 0);
    } else {
        lemma_digits_of(n / 10);
        let front = digits_of(n / 10);
        let whole = front.push(digit_char(n % 10));
        assert(whole.drop_last() =~= front);
        assert(whole.last() == digit_char(n % 10));
        assert(whole[0] == front[0]);
    }
}

/// The decimal text of an integer is canonical and denotes that integer.
pub proof fn lemma_decimal_text(v: int)
    ensures
        is_canonical(decimal_text(v)),
        decimal_value(decimal_text(v)) == v,
{
    if v < 0 {
        let n = (-v) as nat;
        lemma_digits_of(n);
        let text = decimal_text(v);
        assert(text[0] == '-');
        assert(unsigned_part(text) =~= digits_of(n));
    } else {
        lemma_digits_of(v as nat);
        let text = decimal_text(v);
        assert(is_digit(text[0]));
        assert(!has_sign(text));
    }
}

/// Digits that do not begin with a zero denote a number that is not zero.
proof fn lemma_leading_digit(digits: Seq<char>)
    requires
        digits.len() >= 1,
        all_digits(digits),
        digits[0] != '0',
    ensures
        digits_value(digits) >= 1,
    decreases digits.len(),
{
    if digits.len() > 1 {
        let front = digits.drop_last();
        assert(front[0] == digits[0]);
        assert forall|i: int| 0 <= i < front.len() implies is_digit(#[trigger] front[i]) by {
            assert(front[i] == digits[i]);
        }
        lemma_leading_digit(front);
    } else {
        assert(digits.drop_last() =~= Seq::<char>::empty());
        assert(is_digit(digits[0]));
    }
}

/// Digits without a zero before another digit are the digits of the number
/// they denote.
pub proof fn lemma_digits_canonical(digits: Seq<char>)
    requires
        digits.len() >= 1,
        all_digits(digits),
        digits.len() > 1 ==> digits[0] != '0',
    ensures
        digits_of(digits_value(digits)) == digits,
    decreases digits.len(),
{
    let front = digits.drop_last();
    let last = digits.last();
    assert(is_digit(last));
    lemma_digit_char(digit_value(last));
    assert(digit_char(digit_value(last)) == last);
    if digits.len() == 1 {
        assert(front =~= Seq::<char>::empty());
        assert(digits_value(front) == 0);
        assert(digits_of(digits_value(digits)) =~= digits);
    } else {
        assert(front[0] == digits[0]);
        assert forall|i: int| 0 <= i < front.len() implies is_digit(#[trigger] front[i]) by {
            assert(front[i] == digits[i]);
        }
        lemma_leading_digit(front);
        lemma_digits_canonical(front);
        let n = digits_value(digits);
        assert(n == 10 * digits_value(front) + digit_value(last));
        assert(n / 10 == digits_value(front));
        assert(n % 10 == digit_value(last));
        assert(digits_of(n) =~= front.push(last));
        assert(front.push(last) =~= digits);
    }
}

/// A canonical literal is the decimal text of the integer it denotes: no
/// integer is written in two canonical ways.
pub proof fn lemma_canonical_text(text: Seq<char>)
    requires
        is_canonical(text),
    ensures
        decimal_text(decimal_value(text)) == text,
{
    let digits = unsigned_part(text);
    lemma_digits_canonical(digits);
    if text[0] == '-' {
        lemma_leading_digit(digits);
        assert(text =~= seq!['-'] + digits);
    } else {
        assert(has_sign(text) ==> text[0] == '+');
    }
}

/// The byte of the digit zero.
const DIGIT_ZERO: u8 = 48;

/// The byte of the digit nine.
const DIGIT_NINE: u8 = 57;

/// The byte of the minus sign.
const MINUS: u8 = 45;

/// The byte of the plus sign.
const PLUS: u8 = 43;

/// `String::push` of std: it appends the one character to the end of the
/// string and changes nothing else.
pub assume_specification[ std::string::String::push ](text: &mut std::string::String, c: char)
    ensures
        final(text)@ == old(text)@.push(c),
;

/// Appends the digits of `n` to `text`.
fn push_digits(text: &mut String, n: u64)
    ensures
        final(text)@ == old(text)@ + digits_of(n as nat),
    decreases n,
{
    if n >= 10 {
        push_digits(text, n / 10);
    }
    let d: u8 = (n % 10) as u8;
    text.push((d + DIGIT_ZERO) as char);
}

/// Writes an integer, given by its sign and its magnitude, as decimal text.
pub fn write_decimal(negative: bool, magnitude: u64) -> (text: String)
    requires
        negative ==> magnitude > 0,
    ensures
        text@ == decimal_text(
            if negative {
                -(magnitude as int)
            } else {
                magnitude as int
            },
        ),
{
    let mut text = String::new();
    if negative {
        text.push('-');
    }
    push_digits(&mut text, magnitude);
    text
}

/// The largest magnitude that [`read_decimal`] tells apart.
pub open spec fn magnitude_limit() -> int {
    u64::MAX as int
}

/// Reads decimal text. The text is refused as malformed unless it is a
/// decimal literal; a literal whose magnitude is beyond that of every fixed
/// width is refused as too large; any other literal gives its value.
pub fn read_decimal(text: &str) -> (r: Result<i128, Error>)
    ensures
        match r {
            Ok(v) => is_decimal(text@) && v == decimal_value(text@),
            Err(e) => if is_decimal(text@) {
                e@ == ErrorModel::IntegerSizeMismatch && (decimal_value(text@) < -magnitude_limit()
                    || decimal_value(text@) > magnitude_limit())
            } else {
                e@ == ErrorModel::ParseIntError
            },
        },
{
    if !text.is_ascii() {
        proof {
            lemma_decimal_is_ascii(text@);
        }
        return Err(Error::ParseIntError());
    }
    proof {
        is_ascii_spec_bytes(text);
    }
    let bytes = text.as_bytes();
    let n = bytes.len();
    if n == 0 {
        return Err(Error::ParseIntError());
    }
    let negative = bytes[0] == MINUS;
    let start: usize = if bytes[0] == MINUS || bytes[0] == PLUS {
        1
    } else {
        0
    };
    assert(has_sign(text@) <==> start == 1);
    let ghost body = unsigned_part(text@);
    assert(body =~= text@.subrange(start as int, n as int));
    if start == n {
        return Err(Error::ParseIntError());
    }
    let mut i: usize = start;
    let mut acc: u64 = 0;
    let mut beyond = false;
    while i < n
        invariant
            start <= i <= n,
            n == bytes@.len(),
            n == text@.len(),
            body == unsigned_part(text@),
            body == text@.subrange(start as int, n as int),
            forall|k: int| 0 <= k < n ==> bytes@[k] == text@[k] as u8,
            forall|k: int| 0 <= k < n ==> '\0' <= #[trigger] text@[k] <= '\u{7f}',
            all_digits(body.subrange(0, i - start)),
            !beyond ==> acc == digits_value(body.subrange(0, i - start)),
            beyond ==> digits_value(body.subrange(0, i - start)) > u64::MAX,
        decreases n - i,
    {
        let b = bytes[i];
        assert(b == text@[i as int] as u8);
        assert(body[i - start] == text@[i as int]);
        if b < DIGIT_ZERO || b > DIGIT_NINE {
            assert(!is_digit(body[i - start]));
            return Err(Error::ParseIntError());
        }
        let d: u64 = (b - DIGIT_ZERO) as u64;
        proof {
            let seen = body.subrange(0, i - start);
            let next = body.subrange(0, i - start + 1);
            assert(next.drop_last() =~= seen);
            assert(next.last() == body[i - start]);
            assert(digit_value(body[i - start]) == d);
            assert(digits_value(next) == 10 * digits_value(seen) + d);
        }
        if !beyond {
            if acc > (u64::MAX - d) / 10 {
                beyond = true;
            } else {
                acc = acc * 10 + d;
            }
        }
        i = i + 1;
    }
    assert(body.subrange(0, n - start) =~= body);
    if beyond {
        Err(Error::IntegerSizeMismatch())
    } else if negative {
        Ok(-(acc as i128))
    } else {
        Ok(acc as i128)
    }
}

/// A decimal literal holds nothing but signs and digits, so every
/// character of it is ASCII.
proof fn lemma_decimal_is_ascii(text: Seq<char>)
    requires
        !vstd::utf8::is_ascii_chars(text),
    ensures
        !is_decimal(text),
{
    let i = choose|i: int| 0 <= i < text.len() && !('\0' <= #[trigger] text[i] <= '\u{7f}');
    if is_decimal(text) {
        if has_sign(text) {
            assert(i >= 1);
            assert(unsigned_part(text)[i - 1] == text[i]);
            assert(is_digit(unsigned_part(text)[i - 1]));
        } else {
            assert(is_digit(unsigned_part(text)[i]));
        }
    }
}

} // verus!
