//! Numbers as text: reading the digits of a literal, and writing a number
//! in decimal.

use vstd::prelude::*;
use vstd::string::{StrSliceExecFns, StringExecFns};

verus! {

/// The value of the digit `c`: `0`-`9`, then `a`-`f` in either case.
pub open spec fn digit_value(c: char) -> Option<nat> {
    if '0' <= c && c <= '9' {
        Some((c as int - '0' as int) as nat)
    } else if 'a' <= c && c <= 'f' {
        Some((c as int - 'a' as int + 10) as nat)
    } else if 'A' <= c && c <= 'F' {
        Some((c as int - 'A' as int + 10) as nat)
    } else {
        None
    }
}

/// `c` is a digit of the given base.
pub open spec fn is_digit(c: char, base: nat) -> bool {
    digit_value(c) matches Some(d) && d < base
}

/// All of `digits` are digits of the given base.
pub open spec fn all_digits(digits: Seq<char>, base: nat) -> bool {
    forall|i: int| 0 <= i < digits.len() ==> is_digit(#[trigger] digits[i], base)
}

/// The number that `digits` write in the given base, the first digit
/// counting most. Characters that are no digits count as zero.
pub open spec fn digits_value(digits: Seq<char>, base: nat) -> nat
    decreases digits.len(),
{
    if digits.len() == 0 {
        0
    } else {
        digits_value(digits.drop_last(), base) * base + match digit_value(digits.last()) {
            Some(d) => d,
            None => 0,
        }
    }
}

/// The digits of a literal: its text without the `0x` or `0b` that may
/// stand in front of hexadecimal and binary digits.
pub open spec fn literal_digits(text: Seq<char>, base: nat) -> Seq<char> {
    if text.len() >= 2 && text[0] == '0' && ((base == 16 && (text[1] == 'x' || text[1] == 'X'))
        || (base == 2 && (text[1] == 'b' || text[1] == 'B'))) {
        text.subrange(2, text.len() as int)
    } else {
        text
    }
}

/// The value of an integer literal, if its text is one or more digits of
/// its base and the number they write fits in 64 bits.
pub open spec fn literal_value(text: Seq<char>, base: nat) -> Option<u64> {
    let digits = literal_digits(text, base);
    if digits.len() > 0 && all_digits(digits, base) && digits_value(digits, base) <= u64::MAX {
        Some(digits_value(digits, base) as u64)
    } else {
        None
    }
}

/// Number of binary digits that it takes to write `n`; one for zero.
pub open spec fn bit_width(n: nat) -> nat
    decreases n,
{
    if n < 2 {
        1
    } else {
        1 + bit_width(n / 2)
    }
}

/// The character that writes the digit `d` in decimal.
pub open spec fn digit_char(d: nat) -> char {
    if d == 0 {
        '0'
    } else if d == 1 {
        '1'
    } else if d == 2 {
        '2'
    } else if d == 3 {
        '3'
    } else if d == 4 {
        '4'
    } else if d == 5 {
        '5'
    } else if d == 6 {
        '6'
    } else if d == 7 {
        '7'
    } else if d == 8 {
        '8'
    } else {
        '9'
    }
}

/// `n` written in decimal, without leading zeros.
pub open spec fn decimal(n: nat) -> Seq<char>
    decreases n,
{
    if n < 10 {
        seq![digit_char(n)]
    } else {
        decimal(n / 10).push(digit_char(n % 10))
    }
}

pub proof fn lemma_digits_value_push(digits: Seq<char>, c: char, base: nat)
    ensures
        digits_value(digits.push(c), base) == digits_value(digits, base) * base + match digit_value(
            c,
        ) {
            Some(d) => d,
            None => 0,
        },
{
    assert(digits.push(c).drop_last() =~= digits);
}

/// A number is at least what any beginning of its digits writes.
pub proof fn lemma_digits_value_grows(digits: Seq<char>, base: nat, upto: int)
    requires
        0 <= upto <= digits.len(),
        base >= 1,
    ensures
        digits_value(digits.take(upto), base) <= digits_value(digits, base),
    decreases digits.len(),
{
    if upto == digits.len() {
        assert(digits.take(upto) =~= digits);
    } else {
        lemma_digits_value_grows(digits.drop_last(), base, upto);
        assert(digits.drop_last().take(upto) =~= digits.take(upto));
        let rest = digits_value(digits.drop_last(), base);
        assert(rest * base >= rest) by (nonlinear_arith)
            requires
                base >= 1,
                rest >= 0,
        ;
    }
}

/// Reading back what was written in decimal gives the number that was
/// written: the digits are decimal digits, and their value is `n`.
pub proof fn lemma_decimal_round_trip(n: nat)
    ensures
        decimal(n).len() > 0,
        all_digits(decimal(n), 10),
        digits_value(decimal(n), 10) == n,
        literal_digits(decimal(n), 10) == decimal(n),
    decreases n,
{
    if n < 10 {
        let s = seq![digit_char(n)];
        assert(s.drop_last() =~= Seq::<char>::empty());
        assert(digits_value(s.drop_last(), 10) == 0);
        assert(digit_value(digit_char(n)) == Some(n));
    } else {
        lemma_decimal_round_trip(n / 10);
        lemma_digits_value_push(decimal(n / 10), digit_char(n % 10), 10);
        assert(digit_value(digit_char(n % 10)) == Some(n % 10));
        assert forall|i: int| 0 <= i < decimal(n).len() implies is_digit(
            #[trigger] decimal(n)[i],
            10,
        ) by {
            if i < decimal(n / 10).len() {
                assert(decimal(n)[i] == decimal(n / 10)[i]);
            }
        }
    }
}

/// The value of the digit `c`, if it is one.
pub fn digit_of(c: char) -> (r: Option<u8>)
    ensures
        match r {
            Some(d) => digit_value(c) == Some(d as nat),
            None => digit_value(c) is None,
        },
{
    if '0' <= c && c <= '9' {
        Some((c as u32 - '0' as u32) as u8)
    } else if 'a' <= c && c <= 'f' {
        Some((c as u32 - 'a' as u32 + 10) as u8)
    } else if 'A' <= c && c <= 'F' {
        Some((c as u32 - 'A' as u32 + 10) as u8)
    } else {
        None
    }
}

/// Reads an integer literal: see [`literal_value`].
pub fn parse_literal(text: &str, base: u8) -> (r: Option<u64>)
    ensures
        r == literal_value(text@, base as nat),
{
    let len = text.unicode_len();
    let mut start: usize = 0;
    if len >= 2 && text.get_char(0) == '0' {
        let marker = text.get_char(1);
        if (base == 16 && (marker == 'x' || marker == 'X')) || (base == 2 && (marker == 'b'
            || marker == 'B')) {
            start = 2;
        }
    }
    let ghost digits = literal_digits(text@, base as nat);
    assert(digits == text@.subrange(start as int, len as int)) by {
        if start == 0 {
            assert(text@.subrange(0, len as int) =~= text@);
        }
    }
    if start == len {
        return None;
    }
    if base == 0 {
        assert(!is_digit(digits[0], 0));
        return None;
    }
    let mut value: u64 = 0;
    let mut i: usize = start;
    while i < len
        invariant
            start <= i <= len,
            len == text@.len(),
            base >= 1,
            digits == text@.subrange(start as int, len as int),
            digits == literal_digits(text@, base as nat),
            all_digits(digits.take(i - start), base as nat),
            value == digits_value(digits.take(i - start), base as nat),
        decreases len - i,
    {
        let c = text.get_char(i);
        assert(c == digits[i - start]);
        let ghost upto = digits.take(i - start + 1);
        proof {
            assert(upto =~= digits.take(i - start).push(c));
            lemma_digits_value_push(digits.take(i - start), c, base as nat);
        }
        match digit_of(c) {
            Some(d) => {
                if d >= base {
                    assert(!is_digit(digits[i - start], base as nat));
                    return None;
                }
                let scaled = match value.checked_mul(base as u64) {
                    Some(scaled) => scaled,
                    None => {
                        proof {
                            lemma_digits_value_grows(digits, base as nat, i - start + 1);
                        }
                        return None;
                    },
                };
                let next = match scaled.checked_add(d as u64) {
                    Some(next) => next,
                    None => {
                        proof {
                            lemma_digits_value_grows(digits, base as nat, i - start + 1);
                        }
                        return None;
                    },
                };
                assert forall|j: int| 0 <= j < upto.len() implies is_digit(
                    #[trigger] upto[j],
                    base as nat,
                ) by {
                    if j < i - start {
                        assert(upto[j] == digits.take(i - start)[j]);
                    }
                }
                value = next;
            },
            None => {
                assert(!is_digit(digits[i - start], base as nat));
                return None;
            },
        }
        i += 1;
    }
    proof {
        assert(digits.take(i - start) =~= digits);
    }
    Some(value)
}

/// Number of binary digits of `n`: see [`bit_width`].
pub fn bits_of(n: u64) -> (r: u8)
    ensures
        r == bit_width(n as nat),
        1 <= r <= 64,
{
    let mut rest = n;
    let mut bits: u8 = 1;
    assert(pow2(0) == 1);
    assert((rest as nat) * 1 <= n);
    while rest >= 2
        invariant
            1 <= bits <= 64,
            bit_width(n as nat) == bit_width(rest as nat) + bits - 1,
            (rest as nat) * pow2((bits - 1) as nat) <= n,
        decreases rest,
    {
        proof {
            lemma_pow2_step(rest as nat, (bits - 1) as nat, n as nat);
            if bits == 64 {
                lemma_pow2_64();
                assert((rest as nat) * pow2(63) >= 0x1_0000_0000_0000_0000) by (nonlinear_arith)
                    requires
                        rest >= 2,
                        pow2(63) == 0x8000_0000_0000_0000,
                ;
            }
        }
        rest = rest / 2;
        bits = bits + 1;
    }
    bits
}

/// Two to the power `e`.
pub open spec fn pow2(e: nat) -> nat
    decreases e,
{
    if e == 0 {
        1
    } else {
        2 * pow2((e - 1) as nat)
    }
}

proof fn lemma_pow2_step(rest: nat, e: nat, n: nat)
    requires
        rest >= 2,
        rest * pow2(e) <= n,
    ensures
        (rest / 2) * pow2(e + 1) <= n,
{
    assert(pow2(e + 1) == 2 * pow2(e));
    assert((rest / 2) * (2 * pow2(e)) <= rest * pow2(e)) by (nonlinear_arith)
        requires
            (rest / 2) * 2 <= rest,
            pow2(e) >= 0,
    ;
}

proof fn lemma_pow2_64()
    ensures
        pow2(63) == 0x8000_0000_0000_0000,
{
    reveal_with_fuel(pow2, 64);
}

/// The one-character string that writes the decimal digit `d`.
fn digit_str(d: u64) -> (r: &'static str)
    requires
        d < 10,
    ensures
        r@ == seq![digit_char(d as nat)],
{
    proof {
        reveal_strlit("0");
        reveal_strlit("1");
        reveal_strlit("2");
        reveal_strlit("3");
        reveal_strlit("4");
        reveal_strlit("5");
        reveal_strlit("6");
        reveal_strlit("7");
        reveal_strlit("8");
        reveal_strlit("9");
    }
    let r = if d == 0 {
        "0"
    } else if d == 1 {
        "1"
    } else if d == 2 {
        "2"
    } else if d == 3 {
        "3"
    } else if d == 4 {
        "4"
    } else if d == 5 {
        "5"
    } else if d == 6 {
        "6"
    } else if d == 7 {
        "7"
    } else if d == 8 {
        "8"
    } else {
        "9"
    };
    assert(r@ =~= seq![digit_char(d as nat)]);
    r
}

/// Appends `n`, written in decimal, to `out`.
pub fn append_decimal(out: &mut String, n: u64)
    ensures
        final(out)@ == old(out)@ + decimal(n as nat),
    decreases n,
{
    if n >= 10 {
        append_decimal(out, n / 10);
        out.append(digit_str(n % 10));
        assert(out@ =~= old(out)@ + decimal(n as nat));
    } else {
        out.append(digit_str(n));
    }
}

/// `n` written in decimal.
pub fn decimal_string(n: u64) -> (r: String)
    ensures
        r@ == decimal(n as nat),
{
    let mut out = String::new();
    append_decimal(&mut out, n);
    assert(out@ =~= decimal(n as nat));
    out
}

} // verus!
