//! Decimal notation for natural numbers, of machine size and beyond it.

use vstd::prelude::*;
use vstd::arithmetic::power2::{pow2, lemma2_to64, lemma_pow2_unfold};

verus! {

/// The character for a digit below ten.
pub open spec fn digit_char(d: nat) -> char {
    (48 + d) as char
}

/// A number in decimal notation, without leading zeros.
pub open spec fn decimal(n: nat) -> Seq<char>
    decreases n,
{
    if n < 10 {
        seq![digit_char(n)]
    } else {
        decimal(n / 10).push(digit_char(n % 10))
    }
}

/// The digits of a number, least significant first.
pub open spec fn digits_le(n: nat) -> Seq<u8>
    decreases n,
{
    if n < 10 {
        seq![n as u8]
    } else {
        seq![(n % 10) as u8] + digits_le(n / 10)
    }
}

/// A signed number in decimal notation.
pub open spec fn decimal_signed(n: int) -> Seq<char> {
    if n < 0 {
        "-"@ + decimal((-n) as nat)
    } else {
        decimal(n as nat)
    }
}

/// A power of ten.
pub open spec fn pow10(places: nat) -> nat
    decreases places,
{
    if places == 0 {
        1
    } else {
        10 * pow10((places - 1) as nat)
    }
}

/// The last digits of a number, as many as there are places.
pub open spec fn fraction_digits(n: nat, places: nat) -> Seq<char>
    decreases places,
{
    if places == 0 {
        Seq::empty()
    } else {
        fraction_digits(n / 10, (places - 1) as nat).push(digit_char(n % 10))
    }
}

/// A number of units of the last place, with a decimal point before the places.
pub open spec fn fixed_decimal(n: nat, places: nat) -> Seq<char> {
    if places == 0 {
        decimal(n)
    } else {
        decimal(n / pow10(places)) + "."@ + fraction_digits(n, places)
    }
}

/// Appends one digit.
pub(crate) fn append_digit(out: &mut String, d: u8)
    requires
        d < 10,
    ensures
        final(out)@ == old(out)@.push(digit_char(d as nat)),
{
    let text: &str = match d {
        0 => "0",
        1 => "1",
        2 => "2",
        3 => "3",
        4 => "4",
        5 => "5",
        6 => "6",
        7 => "7",
        8 => "8",
        _ => "9",
    };
    proof {
        reveal_strlit("0");
        reveal_strlit("1");
        reveal_strlit("2");
        reveal_strlit("3");
        reveal_strlit("4");
        reveal_strlit("5");
        reveal_strlit("6");
        reveal_strlit("7");
        reveal_strlit("8");
        reveal_strlit("9");
        assert(text@ =~= seq![digit_char(d as nat)]);
    }
    out.append(text);
}

/// Appends a number in decimal notation.
pub(crate) fn append_decimal(out: &mut String, n: u64)
    ensures
        final(out)@ == old(out)@ + decimal(n as nat),
    decreases n,
{
    if n >= 10 {
        append_decimal(out, n / 10);
    }
    append_digit(out, (n % 10) as u8);
}

/// Appends a signed number in decimal notation.
pub(crate) fn append_decimal_signed(out: &mut String, n: i32)
    ensures
        final(out)@ == old(out)@ + decimal_signed(n as int),
{
    if n < 0 {
        out.append("-");
        append_decimal(out, (-(n as i64)) as u64);
    } else {
        append_decimal(out, n as u64);
    }
}

/// Appends a number of units of the last place, with a decimal point before the places.
pub(crate) fn append_fixed(out: &mut String, n: u64, places: u32)
    requires
        places <= 2,
    ensures
        final(out)@ == old(out)@ + fixed_decimal(n as nat, places as nat),
{
    proof {
        reveal_with_fuel(pow10, 3);
        reveal_with_fuel(fraction_digits, 3);
    }
    if places == 0 {
        append_decimal(out, n);
    } else if places == 1 {
        append_decimal(out, n / 10);
        out.append(".");
        append_digit(out, (n % 10) as u8);
    } else {
        append_decimal(out, n / 100);
        out.append(".");
        append_digit(out, ((n / 10) % 10) as u8);
        append_digit(out, (n % 10) as u8);
    }
    proof {
        assert(out@ =~= old(out)@ + fixed_decimal(n as nat, places as nat));
    }
}

/// The digits of a machine number, least significant first.
fn digits_of(n: u64) -> (digits: Vec<u8>)
    ensures
        digits@ == digits_le(n as nat),
{
    let mut digits: Vec<u8> = Vec::new();
    let mut rest: u64 = n;
    while rest >= 10
        invariant
            digits@ + digits_le(rest as nat) == digits_le(n as nat),
        decreases rest,
    {
        digits.push((rest % 10) as u8);
        rest = rest / 10;
    }
    digits.push(rest as u8);
    digits
}

proof fn lemma_digits_le_head(n: nat)
    ensures
        digits_le(n).len() > 0,
        digits_le(n)[0] == n % 10,
        digits_le(n).len() == 1 <==> n < 10,
        n >= 10 ==> digits_le(n).skip(1) == digits_le(n / 10),
    decreases n,
{
    if n >= 10 {
        lemma_digits_le_head(n / 10);
        assert(digits_le(n).skip(1) =~= digits_le(n / 10));
    }
}

/// Doubles a number written as digits.
fn double_digits(digits: &Vec<u8>, Ghost(n): Ghost<nat>) -> (doubled: Vec<u8>)
    requires
        digits@ == digits_le(n),
    ensures
        doubled@ == digits_le(2 * n),
{
    let mut doubled: Vec<u8> = Vec::new();
    let mut carry: u8 = 0;
    let mut i: usize = 0;
    let ghost mut rest: nat = n;
    proof {
        lemma_digits_le_head(n);
        assert(digits@.skip(0) =~= digits@);
    }
    while i + 1 < digits.len()
        invariant
            i < digits.len(),
            carry <= 1,
            digits@.skip(i as int) == digits_le(rest),
            doubled@ + digits_le((2 * rest + carry) as nat) == digits_le(2 * n),
        decreases digits.len() - i,
    {
        proof {
            lemma_digits_le_head(rest);
            assert(digits@[i as int] == digits@.skip(i as int)[0]);
            assert(digits@.skip(i as int).skip(1) =~= digits@.skip(i + 1));
        }
        let sum: u8 = 2 * digits[i] + carry;
        proof {
            let whole = (2 * rest + carry) as nat;
            assert(whole % 10 == sum % 10 && whole / 10 == 2 * (rest / 10) + sum / 10) by (nonlinear_arith)
                requires
                    whole == 2 * rest + carry,
                    sum == 2 * (rest % 10) + carry,
            ;
            assert(whole >= 10);
            assert(digits_le(whole) == seq![(whole % 10) as u8] + digits_le(whole / 10));
            assert(doubled@ + (seq![(whole % 10) as u8] + digits_le(whole / 10)) =~= doubled@.push(
                (whole % 10) as u8,
            ) + digits_le(whole / 10));
            rest = rest / 10;
        }
        doubled.push(sum % 10);
        carry = sum / 10;
        i = i + 1;
    }
    proof {
        lemma_digits_le_head(rest);
        assert(digits@[i as int] == digits@.skip(i as int)[0]);
    }
    let last: u8 = 2 * digits[i] + carry;
    if last >= 10 {
        doubled.push(last % 10);
        doubled.push(last / 10);
        proof {
            reveal_with_fuel(digits_le, 2);
            assert(doubled@ =~= digits_le(2 * n));
        }
    } else {
        doubled.push(last);
        proof {
            assert(doubled@ =~= digits_le(2 * n));
        }
    }
    doubled
}

/// Appends the number whose digits, least significant first, start at an index.
fn append_digits(out: &mut String, digits: &Vec<u8>, from: usize, Ghost(n): Ghost<nat>)
    requires
        from < digits.len(),
        digits@.skip(from as int) == digits_le(n),
    ensures
        final(out)@ == old(out)@ + decimal(n),
    decreases digits.len() - from,
{
    proof {
        lemma_digits_le_head(n);
        assert(digits@[from as int] == digits@.skip(from as int)[0]);
        assert(digits@.skip(from as int).skip(1) =~= digits@.skip(from + 1));
        assert(digits@.skip(from as int).len() == digits.len() - from);
    }
    if from + 1 < digits.len() {
        append_digits(out, digits, from + 1, Ghost(n / 10));
    }
    append_digit(out, digits[from]);
}

/// Appends `n * 2^shift` in decimal notation, however large it is.
pub(crate) fn append_shifted(out: &mut String, n: u64, shift: u32)
    ensures
        final(out)@ == old(out)@ + decimal(n as nat * pow2(shift as nat)),
{
    let mut digits: Vec<u8> = digits_of(n);
    let mut done: u32 = 0;
    proof {
        lemma2_to64();
    }
    while done < shift
        invariant
            done <= shift,
            digits@ == digits_le(n as nat * pow2(done as nat)),
        decreases shift - done,
    {
        digits = double_digits(&digits, Ghost(n as nat * pow2(done as nat)));
        proof {
            lemma_pow2_unfold((done + 1) as nat);
            assert(2 * (n as nat * pow2(done as nat)) == n as nat * (2 * pow2(done as nat)))
                by (nonlinear_arith);
        }
        done = done + 1;
    }
    proof {
        lemma_digits_le_head(n as nat * pow2(shift as nat));
        assert(digits@.skip(0) =~= digits@);
    }
    append_digits(out, &digits, 0, Ghost(n as nat * pow2(shift as nat)));
}

/// Different numbers have different decimal notations.
pub proof fn lemma_decimal_injective(a: nat, b: nat)
    requires
        decimal(a) == decimal(b),
    ensures
        a == b,
    decreases a,
{
    lemma_decimal_last(a);
    lemma_decimal_last(b);
    if a >= 10 && b >= 10 {
        lemma_decimal_injective(a / 10, b / 10);
    }
}

proof fn lemma_decimal_last(n: nat)
    ensures
        decimal(n).len() > 0,
        decimal(n).last() == digit_char(n % 10),
        decimal(n).len() == 1 <==> n < 10,
        n >= 10 ==> decimal(n).drop_last() == decimal(n / 10),
        0 <= n % 10 < 10,
    decreases n,
{
    if n >= 10 {
        lemma_decimal_last(n / 10);
        assert(decimal(n).drop_last() =~= decimal(n / 10));
    }
}

/// The length of a decimal notation follows the powers of ten.
pub proof fn lemma_decimal_length(n: nat, k: nat)
    requires
        k > 0,
        n < pow10(k),
    ensures
        0 < decimal(n).len() <= k,
    decreases k,
{
    if n >= 10 {
        if k == 1 {
            reveal_with_fuel(pow10, 2);
        } else {
            assert(n / 10 < pow10((k - 1) as nat));
            lemma_decimal_length(n / 10, (k - 1) as nat);
        }
    }
}

} // verus!
