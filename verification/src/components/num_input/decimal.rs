//! Integers as decimal text.

use vstd::prelude::*;
use vstd::arithmetic::div_mod::lemma_div_denominator;
use super::bounded::truncating_div;

verus! {

/// The character that writes the digit `d`.
pub open spec fn digit_char(d: int) -> char
    recommends
        0 <= d <= 9,
{
    ('0' as int + d) as char
}

/// The decimal digits of `n`, most significant first, without leading zeros.
/// Zero is written `0`.
pub open spec fn nat_text(n: nat) -> Seq<char>
    decreases n,
{
    if n < 10 {
        seq![digit_char(n as int)]
    } else {
        nat_text(n / 10).push(digit_char((n % 10) as int))
    }
}

/// The size of `v` without its sign.
pub open spec fn magnitude(v: int) -> nat {
    if v < 0 {
        (-v) as nat
    } else {
        v as nat
    }
}

/// `v` as decimal text: a minus sign if it is negative, then the digits of
/// its magnitude.
pub open spec fn int_text(v: int) -> Seq<char> {
    if v < 0 {
        "-"@ + nat_text(magnitude(v))
    } else {
        nat_text(magnitude(v))
    }
}

/// Ten to the power `n`.
pub open spec fn pow10(n: nat) -> nat
    decreases n,
{
    if n == 0 {
        1
    } else {
        10 * pow10((n - 1) as nat)
    }
}

/// `v` after its last decimal digit has been dropped `n` times, each time
/// by a division by ten that rounds toward zero.
pub open spec fn drop_digits(v: int, n: nat) -> int
    decreases n,
{
    if n == 0 {
        v
    } else {
        truncating_div(drop_digits(v, (n - 1) as nat), 10)
    }
}

/// Dropping the last digit `n` times is one division by the `n`-th power of
/// ten, rounded toward zero.
pub proof fn lemma_drop_digits_is_division(v: int, n: nat)
    ensures
        drop_digits(v, n) == truncating_div(v, pow10(n) as int),
        pow10(n) > 0,
        v >= 0 ==> 0 <= drop_digits(v, n) <= v,
        v <= 0 ==> v <= drop_digits(v, n) <= 0,
    decreases n,
{
    if n > 0 {
        let p = pow10((n - 1) as nat) as int;
        lemma_drop_digits_is_division(v, (n - 1) as nat);
        if v >= 0 {
            lemma_div_denominator(v, p, 10);
            assert(p * 10 == pow10(n));
        } else {
            lemma_div_denominator(-v, p, 10);
            assert(p * 10 == pow10(n));
        }
    }
}

/// Dropping the last digit of a number shortens its text by its last
/// character, as long as more than one digit is there.
pub proof fn lemma_drop_digit_shortens_text(m: nat)
    requires
        m >= 10,
    ensures
        nat_text(m / 10) == nat_text(m).drop_last(),
{
    assert(nat_text(m).drop_last() =~= nat_text(m / 10));
}

/// A number has at least one digit, and exactly one if it is below ten.
pub proof fn lemma_text_length(m: nat)
    ensures
        nat_text(m).len() >= 1,
        nat_text(m).len() == 1 <==> m < 10,
    decreases m,
{
    if m >= 10 {
        lemma_text_length(m / 10);
    }
}

/// Dropping the last digit `n` times from a number of more than `n` digits
/// leaves the number that its text without the last `n` characters writes.
pub proof fn lemma_drop_digits_shortens_text(v: int, n: nat)
    requires
        nat_text(magnitude(v)).len() > n,
    ensures
        nat_text(magnitude(drop_digits(v, n))) == nat_text(magnitude(v)).take(
            nat_text(magnitude(v)).len() - n,
        ),
    decreases n,
{
    let text = nat_text(magnitude(v));
    if n == 0 {
        assert(text.take(text.len() as int) =~= text);
    } else {
        let before = drop_digits(v, (n - 1) as nat);
        lemma_drop_digits_shortens_text(v, (n - 1) as nat);
        lemma_drop_digits_is_division(v, (n - 1) as nat);
        let shorter = nat_text(magnitude(before));
        assert(shorter == text.take(text.len() - (n - 1)));
        assert(shorter.len() >= 2);
        lemma_text_length(magnitude(before));
        assert(magnitude(truncating_div(before, 10)) == magnitude(before) / 10);
        lemma_drop_digit_shortens_text(magnitude(before));
        assert(shorter.drop_last() =~= text.take(text.len() - n));
    }
}

/// Scaling a number by ten and adding a digit writes that digit behind the
/// text of the number, or in place of it if the number is zero.
pub proof fn lemma_text_of_scaled(m: nat, d: nat)
    requires
        d <= 9,
    ensures
        m > 0 ==> nat_text(m * 10 + d) == nat_text(m).push(digit_char(d as int)),
        m == 0 ==> nat_text(m * 10 + d) == seq![digit_char(d as int)],
{
    if m > 0 {
        assert((m * 10 + d) / 10 == m);
        assert((m * 10 + d) % 10 == d);
    }
}

/// The digits written so far when `rest` is still to be written in front.
spec fn written_before(rest: nat) -> Seq<char> {
    if rest == 0 {
        Seq::empty()
    } else {
        nat_text(rest)
    }
}

/// The character that writes the last decimal digit of `n`.
fn last_digit(n: u128) -> (c: char)
    ensures
        c == digit_char((n % 10) as int),
{
    let d: u8 = (n % 10) as u8;
    (48u8 + d) as char
}

/// `n` as decimal text.
pub fn unsigned_text(n: u128) -> (text: String)
    ensures
        text@ == nat_text(n as nat),
{
    let mut text = String::new();
    text.push(last_digit(n));
    let mut rest: u128 = n / 10;
    assert(text@ =~= seq![digit_char((n % 10) as int)]);
    assert(nat_text(n as nat) =~= written_before(rest as nat) + text@);
    while rest > 0
        invariant
            nat_text(n as nat) == written_before(rest as nat) + text@,
        decreases rest,
    {
        let mut longer = String::new();
        longer.push(last_digit(rest));
        longer.append(text.as_str());
        assert(longer@ =~= seq![digit_char((rest % 10) as int)] + text@);
        assert(written_before(rest as nat) =~= written_before((rest / 10) as nat) + seq![
            digit_char((rest % 10) as int),
        ]);
        assert(nat_text(n as nat) =~= written_before((rest / 10) as nat) + longer@);
        text = longer;
        rest = rest / 10;
    }
    assert(written_before(0) + text@ =~= text@);
    text
}

/// `v` as decimal text.
pub fn signed_text(v: i128) -> (text: String)
    ensures
        text@ == int_text(v as int),
{
    if v < 0 {
        let size: u128 = (-(v + 1)) as u128 + 1;
        let mut text = String::from_str("-");
        let digits = unsigned_text(size);
        text.append(digits.as_str());
        text
    } else {
        unsigned_text(v as u128)
    }
}

} // verus!
