//! Numbers as text: reading a decimal number, and writing a ratio of two
//! numbers with a fixed number of decimal places.
use vstd::prelude::*;
use crate::chars::to_chars;
use crate::text::{decimal, digit_char, push_decimal};

verus! {

/// Whether `c` is one of the digits 0 to 9.
pub open spec fn is_digit(c: char) -> bool {
    '0' <= c && c <= '9'
}

/// The value of the digit `c`.
pub open spec fn digit_value(c: char) -> nat
    recommends
        is_digit(c),
{
    (c as nat - '0' as nat) as nat
}

/// Whether `s` is made of digits only.
pub open spec fn all_digits(s: Seq<char>) -> bool {
    forall|i: int| 0 <= i < s.len() ==> is_digit(#[trigger] s[i])
}

/// The number that the digits `s` write in decimal notation.
pub open spec fn digits_value(s: Seq<char>) -> nat
    decreases s.len(),
{
    if s.len() == 0 {
        0
    } else {
        digits_value(s.drop_last()) * 10 + digit_value(s.last())
    }
}

/// The digits of a decimal number: `s` without the plus sign that may
/// stand in front of them.
pub open spec fn unsigned_part(s: Seq<char>) -> Seq<char> {
    if s.len() > 0 && s[0] == '+' {
        s.skip(1)
    } else {
        s
    }
}

/// The number that `s` writes: at least one digit, with or without a plus
/// sign in front and with nothing else around. Any other text writes no
/// number.
pub open spec fn parse_decimal(s: Seq<char>) -> Option<nat> {
    let digits = unsigned_part(s);
    if digits.len() > 0 && all_digits(digits) {
        Some(digits_value(digits))
    } else {
        None
    }
}

/// `10` to the power of `n`.
pub open spec fn pow10(n: nat) -> nat
    decreases n,
{
    if n == 0 {
        1
    } else {
        10 * pow10((n - 1) as nat)
    }
}

/// The whole number nearest to `n / d`; of two that are equally near, the
/// even one.
pub open spec fn round_half_even(n: nat, d: nat) -> nat
    recommends
        d > 0,
{
    let q = n / d;
    let r = n % d;
    if 2 * r < d {
        q
    } else if 2 * r > d {
        q + 1
    } else if q % 2 == 0 {
        q
    } else {
        q + 1
    }
}

/// The last `width` decimal digits of `n`, with zeros in front where `n`
/// has fewer.
pub open spec fn zero_padded(n: nat, width: nat) -> Seq<char>
    decreases width,
{
    if width == 0 {
        Seq::empty()
    } else {
        zero_padded(n / 10, (width - 1) as nat).push(digit_char(n % 10))
    }
}

/// `scaled / 10^places` in decimal notation with exactly `places` digits
/// behind the point, and without a point where `places` is 0.
pub open spec fn point_notation(scaled: nat, places: nat) -> Seq<char> {
    if places == 0 {
        decimal(scaled)
    } else {
        decimal(scaled / pow10(places)) + seq!['.'] + zero_padded(scaled % pow10(places), places)
    }
}

/// The ratio `n / d` in decimal notation, rounded to `places` digits
/// behind the point; a ratio half-way between two such numbers is rounded
/// to the one whose last digit is even.
pub open spec fn fixed_point(n: nat, d: nat, places: nat) -> Seq<char>
    recommends
        d > 0,
{
    point_notation(round_half_even(n * pow10(places), d), places)
}

/// Reads the decimal number that `s` writes, if it writes one that a
/// `usize` can hold.
pub fn parse_usize(s: &str) -> (number: Option<usize>)
    ensures
        number == match parse_decimal(s@) {
            Some(n) => if n <= usize::MAX {
                Some(n as usize)
            } else {
                None
            },
            None => None,
        },
{
    let chars = to_chars(s);
    let start: usize = if chars.len() > 0 && chars[0] == '+' {
        1
    } else {
        0
    };
    let ghost digits = unsigned_part(chars@);
    assert(digits =~= chars@.skip(start as int));
    if start == chars.len() {
        return None;
    }
    let mut value: usize = 0;
    let mut overflow = false;
    let mut i: usize = start;
    assert(digits.take(0) =~= Seq::<char>::empty());
    while i < chars.len()
        invariant
            start <= i <= chars.len(),
            digits == chars@.skip(start as int),
            digits == unsigned_part(s@),
            all_digits(digits.take(i - start)),
            overflow ==> digits_value(digits.take(i - start)) > usize::MAX,
            !overflow ==> value == digits_value(digits.take(i - start)),
        decreases chars.len() - i,
    {
        let c = chars[i];
        assert(digits[i - start] == c);
        if !('0' <= c && c <= '9') {
            return None;
        }
        let d: usize = (c as u32 - '0' as u32) as usize;
        let ghost before = digits.take(i - start);
        let ghost now = digits.take(i - start + 1);
        assert(now.drop_last() =~= before);
        assert(now.last() == c);
        assert forall|k: int| 0 <= k < now.len() implies is_digit(#[trigger] now[k]) by {
            if k < before.len() {
                assert(now[k] == before[k]);
            }
        }
        if !overflow {
            match value.checked_mul(10) {
                Some(tens) => match tens.checked_add(d) {
                    Some(sum) => {
                        value = sum;
                    },
                    None => {
                        overflow = true;
                    },
                },
                None => {
                    overflow = true;
                },
            }
        }
        i = i + 1;
    }
    assert(digits.take(i - start) =~= digits);
    if overflow {
        None
    } else {
        Some(value)
    }
}

/// `10` to the power of `n`.
pub fn power_of_ten(n: u8) -> (power: u128)
    requires
        n <= 18,
    ensures
        power == pow10(n as nat),
        1 <= power <= 1_000_000_000_000_000_000,
{
    let mut power: u128 = 1;
    let mut i: u8 = 0;
    assert(pow10(18) == 1_000_000_000_000_000_000) by {
        reveal_with_fuel(pow10, 20);
    }
    while i < n
        invariant
            i <= n <= 18,
            power == pow10(i as nat),
            1 <= power,
            power * pow10((18 - i) as nat) == 1_000_000_000_000_000_000,
        decreases n - i,
    {
        assert(power * (10 * pow10((18 - i - 1) as nat)) == (power * 10) * pow10(
            (18 - i - 1) as nat,
        )) by (nonlinear_arith);
        assert(pow10((18 - i - 1) as nat) >= 1) by {
            lemma_pow10_positive((18 - i - 1) as nat);
        }
        assert(power * 10 <= 1_000_000_000_000_000_000) by (nonlinear_arith)
            requires
                (power * 10) * pow10((18 - i - 1) as nat) == 1_000_000_000_000_000_000,
                pow10((18 - i - 1) as nat) >= 1,
                power >= 1,
        ;
        power = power * 10;
        i = i + 1;
    }
    assert(pow10((18 - n) as nat) >= 1) by {
        lemma_pow10_positive((18 - n) as nat);
    }
    assert(power <= 1_000_000_000_000_000_000) by (nonlinear_arith)
        requires
            power * pow10((18 - n) as nat) == 1_000_000_000_000_000_000,
            pow10((18 - n) as nat) >= 1,
            power >= 1,
    ;
    power
}

/// A power of ten is at least 1.
pub proof fn lemma_pow10_positive(n: nat)
    ensures
        pow10(n) >= 1,
    decreases n,
{
    if n > 0 {
        lemma_pow10_positive((n - 1) as nat);
    }
}

/// Appends the last `width` decimal digits of `n` to `f`, with zeros in
/// front where `n` has fewer.
pub fn push_zero_padded(f: &mut String, n: u128, width: u8)
    ensures
        final(f)@ == old(f)@ + zero_padded(n as nat, width as nat),
    decreases width,
{
    if width > 0 {
        push_zero_padded(f, n / 10, width - 1);
        let d: u8 = (n % 10) as u8;
        f.push((48u8 + d) as char);
    }
}

/// Appends `n / d`, rounded to `places` digits behind the point, to `f`.
pub fn push_fixed_point(f: &mut String, n: u64, d: u64, places: u8)
    requires
        d > 0,
        places <= 18,
    ensures
        final(f)@ == old(f)@ + fixed_point(n as nat, d as nat, places as nat),
{
    let power = power_of_ten(places);
    assert(n * power <= 0xffff_ffff_ffff_ffff * 1_000_000_000_000_000_000) by (nonlinear_arith)
        requires
            n <= 0xffff_ffff_ffff_ffff,
            power <= 1_000_000_000_000_000_000,
    ;
    let scaled_up: u128 = (n as u128) * power;
    let q: u128 = scaled_up / (d as u128);
    let r: u128 = scaled_up % (d as u128);
    let scaled: u128 = if 2 * r < d as u128 {
        q
    } else if 2 * r > d as u128 {
        q + 1
    } else if q % 2 == 0 {
        q
    } else {
        q + 1
    };
    if places == 0 {
        push_decimal(f, scaled);
    } else {
        push_decimal(f, scaled / power);
        f.push('.');
        push_zero_padded(f, scaled % power, places);
    }
}

} // verus!
