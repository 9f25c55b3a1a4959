//! What the texts and the orders of numbers mean.

use vstd::prelude::*;
use vstd::arithmetic::div_mod::{lemma_fundamental_div_mod, lemma_mod_bound};
use vstd::arithmetic::power2::{pow2, lemma2_to64, lemma2_to64_rest, lemma_pow2_adds, lemma_pow2_pos, lemma_pow2_strictly_increases};
use crate::binary64::{lemma_scaled_at_most_units, lemma_scaled_nearest_units, Binary64, Number, scaled_nearest};
use crate::decimal::{decimal, decimal_signed, fixed_decimal, fraction_digits, pow10};
use crate::rounding::{bit_length, div_half_even, lemma_bit_length, lemma_div_half_even_exact, lemma_div_half_even_is_nearest, lemma_div_half_even_monotone, lemma_round_significant_monotone, lemma_round_significant_scales, round_significant};
use crate::size::{bytes_text, unit_tenths};

verus! {

/// The number that a row of digits reads as.
pub open spec fn reads_as(text: Seq<char>) -> int
    decreases text.len(),
{
    if text.len() == 0 {
        0
    } else {
        10 * reads_as(text.drop_last()) + (text.last() as int - 48)
    }
}

/// Whether a text is a row of digits.
pub open spec fn all_digits(text: Seq<char>) -> bool {
    forall|i: int| 0 <= i < text.len() ==> '0' <= #[trigger] text[i] <= '9'
}

/// A number reads back from its decimal notation, which is a row of digits that starts
/// with a zero only where it is the digit zero.
pub proof fn lemma_decimal_reads_back(n: nat)
    ensures
        all_digits(decimal(n)),
        reads_as(decimal(n)) == n,
        decimal(n).len() > 0,
        decimal(n).len() > 1 ==> decimal(n)[0] != '0',
        n > 0 ==> decimal(n)[0] != '0',
    decreases n,
{
    if n >= 10 {
        lemma_decimal_reads_back(n / 10);
        assert(decimal(n).drop_last() =~= decimal(n / 10));
    } else {
        assert(decimal(n).drop_last() =~= Seq::empty());
        assert(reads_as(Seq::empty()) == 0);
    }
}

/// A signed number reads back from its notation; only a negative one has a sign.
pub proof fn lemma_signed_reads_back(n: int)
    ensures
        n >= 0 ==> reads_as(decimal_signed(n)) == n && all_digits(decimal_signed(n)),
        n < 0 ==> decimal_signed(n)[0] == '-' && reads_as(decimal_signed(n).skip(1)) == -n
            && all_digits(decimal_signed(n).skip(1)),
{
    reveal_strlit("-");
    if n < 0 {
        lemma_decimal_reads_back((-n) as nat);
        assert(decimal_signed(n).skip(1) =~= decimal((-n) as nat));
    } else {
        lemma_decimal_reads_back(n as nat);
    }
}

/// The number of units of the last place that a text with a number of places reads as.
pub open spec fn fixed_reads_as(text: Seq<char>, places: nat) -> int {
    if places == 0 {
        reads_as(text)
    } else if places == 1 {
        10 * reads_as(text.take(text.len() - 2)) + reads_as(text.skip(text.len() - 1))
    } else {
        100 * reads_as(text.take(text.len() - 3)) + reads_as(text.skip(text.len() - 2))
    }
}

/// Whether a text is digits with a number of places behind a point.
pub open spec fn is_fixed(text: Seq<char>, places: nat) -> bool {
    if places == 0 {
        text.len() > 0 && all_digits(text)
    } else {
        let point = text.len() - places - 1;
        &&& point > 0
        &&& text[point] == '.'
        &&& all_digits(text.take(point))
        &&& all_digits(text.skip(point + 1))
    }
}

/// A text with up to two places reads back as the number it was made of.
pub proof fn lemma_fixed_reads_back(n: nat, places: nat)
    requires
        places <= 2,
    ensures
        is_fixed(fixed_decimal(n, places), places),
        fixed_reads_as(fixed_decimal(n, places), places) == n,
{
    reveal_strlit(".");
    reveal_with_fuel(pow10, 3);
    reveal_with_fuel(fraction_digits, 3);
    reveal_with_fuel(reads_as, 3);
    let text = fixed_decimal(n, places);
    if places == 0 {
        lemma_decimal_reads_back(n);
    } else if places == 1 {
        lemma_decimal_reads_back(n / 10);
        assert(text.take(text.len() - 2) =~= decimal(n / 10));
        assert(text.skip(text.len() - 1) =~= fraction_digits(n, 1));
        let f = fraction_digits(n, 1);
        assert(f.len() == 1);
        assert(f.drop_last() =~= Seq::empty());
        assert(reads_as(f) == n % 10);
    } else {
        lemma_decimal_reads_back(n / 100);
        assert(text.take(text.len() - 3) =~= decimal(n / 100));
        assert(text.skip(text.len() - 2) =~= fraction_digits(n, 2));
        let f = fraction_digits(n, 2);
        assert(f.len() == 2);
        assert(f.drop_last() =~= fraction_digits(n / 10, 1));
        assert(f.drop_last().drop_last() =~= Seq::empty());
        assert(reads_as(f) == n % 100);
    }
}

/// Of two integers that are equally near to a quotient, the even one is taken.
pub proof fn lemma_ties_to_even(n: nat, d: nat)
    requires
        d > 0,
    ensures
        2 * (div_half_even(n, d) * d) == 2 * n + d || 2 * n == 2 * (div_half_even(n, d) * d) + d
            ==> div_half_even(n, d) % 2 == 0,
{
    let q = n / d;
    lemma_fundamental_div_mod(n as int, d as int);
    lemma_mod_bound(n as int, d as int);
    assert((q + 1) * d == d * q + d) by (nonlinear_arith);
    assert(q * d == d * q) by (nonlinear_arith);
}

/// A number of at most `p` binary digits is kept; any other becomes the nearest multiple
/// of the power of two that leaves `p` digits, an even one where two are equally near.
pub proof fn lemma_round_significant_nearest(n: nat, p: nat, s: nat)
    requires
        p > 0,
        pow2((p + s) as nat) <= 2 * n,
        n < pow2((p + s) as nat),
    ensures
        s == 0 ==> round_significant(n, p) == n,
        round_significant(n, p) % pow2(s) == 0,
        2 * round_significant(n, p) <= 2 * n + pow2(s),
        2 * n <= 2 * round_significant(n, p) + pow2(s),
        s > 0 && (2 * round_significant(n, p) == 2 * n + pow2(s) || 2 * n == 2 * round_significant(
            n,
            p,
        ) + pow2(s)) ==> round_significant(n, p) % (2 * pow2(s)) == 0,
{
    lemma_bit_length(n);
    let k = (p + s) as nat;
    let length = bit_length(n);
    lemma2_to64();
    lemma_pow2_pos(k);
    vstd::arithmetic::power2::lemma_pow2_unfold(k);
    if length < k {
        if length < k - 1 {
            lemma_pow2_strictly_increases(length, (k - 1) as nat);
        }
    } else if length > k {
        if length - 1 > k {
            lemma_pow2_strictly_increases(k, (length - 1) as nat);
        }
    }
    assert(length == k);
    lemma_pow2_pos(s);
    if s > 0 {
        let q = div_half_even(n, pow2(s));
        lemma_div_half_even_is_nearest(n, pow2(s));
        vstd::arithmetic::div_mod::lemma_mod_multiples_basic(q as int, pow2(s) as int);
        lemma_ties_to_even(n, pow2(s));
        if q % 2 == 0 {
            let half = q / 2;
            let two_units = 2 * pow2(s);
            assert(q * pow2(s) == half * two_units) by (nonlinear_arith)
                requires
                    q == 2 * half,
                    two_units == 2 * pow2(s),
            ;
            vstd::arithmetic::div_mod::lemma_mod_multiples_basic(half as int, two_units as int);
        }
    }
}

/// The bits of a double are the sign, the exponent and the mantissa, in this order; an
/// exponent field of ones is an infinity or no number.
pub proof fn lemma_bits_of_number(x: Binary64)
    ensures
        x.number() == Number::Nan <==> x.bits % 0x8000_0000_0000_0000 > 0x7ff0_0000_0000_0000,
        x.number() is Infinite <==> x.bits % 0x8000_0000_0000_0000 == 0x7ff0_0000_0000_0000,
        x.number() matches Number::Infinite { negative } ==> negative == (x.bits
            >= 0x8000_0000_0000_0000),
        x.number() matches Number::Finite { negative, mantissa, exponent } ==> {
            &&& negative == (x.bits >= 0x8000_0000_0000_0000)
            &&& -1074 <= exponent <= 971
            &&& mantissa < 0x20_0000_0000_0000
            &&& mantissa < 0x10_0000_0000_0000 ==> exponent == -1074 && x.bits
                % 0x8000_0000_0000_0000 == mantissa
            &&& mantissa >= 0x10_0000_0000_0000 ==> x.bits % 0x8000_0000_0000_0000 == (exponent
                + 1074) * 0x10_0000_0000_0000 + mantissa
        },
{
    let low = x.bits as int % 0x8000_0000_0000_0000;
    assert(low == x.exponent_field() * 0x10_0000_0000_0000 + x.fraction_field());
}

/// A number is below zero exactly where its bits lie between those of negative zero and
/// those of negative infinity.
pub proof fn lemma_below_zero_by_bits(x: Binary64)
    ensures
        x.number().below_zero() <==> 0x8000_0000_0000_0000 < x.bits <= 0xfff0_0000_0000_0000,
{
    lemma_bits_of_number(x);
}

/// A finite number is at most a whole one where `mantissa * 2^exponent` is, in units of
/// 2^-1074. Of the rest, only negative infinity is; and above means not at most.
pub proof fn lemma_order_by_value(x: Binary64, c: nat)
    ensures
        x.number() == Number::Nan ==> !x.number().at_most(c) && !x.number().above(c),
        x.number() != Number::Nan ==> x.number().above(c) == !x.number().at_most(c),
        x.number() matches Number::Infinite { negative } ==> x.number().at_most(c) == negative,
        x.number() matches Number::Finite { negative, mantissa, exponent } ==> x.number().at_most(c)
            == (negative || mantissa * pow2((exponent + 1074) as nat) <= c * pow2(1074)),
{
    match x.number() {
        Number::Finite { negative, mantissa, exponent } => {
            lemma_scaled_at_most_units(mantissa as nat, exponent as int, c);
        },
        _ => {},
    }
}

/// Single precision makes no difference to a number that has no more than 24 significant
/// binary digits, nor to one that is no finite number or is negative. What is at most `c`
/// stays so, and what becomes so is at most one part in 2^24 above `c`.
pub proof fn lemma_narrowing_by_value(x: Binary64, c: nat)
    requires
        0 < c < 0x100_0000,
    ensures
        !(x.number() is Finite) ==> x.number().narrowed_at_most(c) == x.number().at_most(c),
        x.number() matches Number::Finite { negative, mantissa, exponent } ==> {
            &&& negative ==> x.number().narrowed_at_most(c)
            &&& mantissa % 0x2000_0000 == 0 ==> x.number().narrowed_at_most(c)
                == x.number().at_most(c)
            &&& x.number().at_most(c) ==> x.number().narrowed_at_most(c)
            &&& x.number().narrowed_at_most(c) && !negative ==> mantissa * pow2(
                (exponent + 1074) as nat,
            ) * 0x100_0000 <= c * pow2(1074) * 0x100_0001
        },
{
    match x.number() {
        Number::Finite { negative, mantissa, exponent } => {
            if !negative {
                lemma_bits_of_number(x);
                let m = mantissa as nat;
                let e = exponent as int;
                let u = pow2((e + 1074) as nat);
                let top = c * pow2(1074);
                let r = round_significant(m, 24);
                lemma_scaled_at_most_units(m, e, c);
                lemma_scaled_at_most_units(r, e, c);
                lemma_round_significant_scales(m, 24, (e + 1074) as nat);
                lemma_round_significant_scales(c, 24, 1074);
                lemma_few_digits_kept(c);
                if m * u <= top {
                    lemma_round_significant_monotone(m * u, top, 24);
                }
                lemma_narrowed_close(m);
                if m % 0x2000_0000 == 0 {
                    lemma_multiple_kept(m);
                }
                if r * u <= top {
                    assert(m * u * 0x100_0000 <= r * u * 0x100_0001) by (nonlinear_arith)
                        requires
                            m * 0x100_0000 <= r * 0x100_0001,
                            u >= 0,
                    ;
                }
            }
        },
        _ => {},
    }
}

/// At single precision a number that is not negative is at most `c` exactly where it is no
/// more than half a step of single precision above `c`. From 2^k on the step is 2^(k - 23).
pub proof fn lemma_narrowing_exact(x: Binary64, c: nat, k: nat)
    requires
        k <= 22,
        pow2(k) <= c < pow2(k + 1),
    ensures
        x.number() matches Number::Finite { negative: false, mantissa, exponent }
            ==> x.number().narrowed_at_most(c) == (mantissa * pow2((exponent + 1074) as nat) <= c
            * pow2(1074) + pow2(1050 + k)),
{
    match x.number() {
        Number::Finite { negative: false, mantissa, exponent } => {
            lemma_bits_of_number(x);
            let m = mantissa as nat;
            let e = exponent as int;
            let amount = m * pow2((e + 1074) as nat);
            let edge = c * pow2(1074) + pow2(1050 + k);
            lemma_scaled_at_most_units(round_significant(m, 24), e, c);
            lemma_round_significant_scales(m, 24, (e + 1074) as nat);
            lemma_half_step_is_dropped(c, k);
            if amount <= edge {
                lemma_round_significant_monotone(amount, edge, 24);
            } else {
                lemma_round_significant_monotone(edge + 1, amount, 24);
            }
        },
        _ => {},
    }
}

/// Half a step above `c`, rounding goes down to `c`; beyond that it goes up.
proof fn lemma_half_step_is_dropped(c: nat, k: nat)
    requires
        k <= 22,
        pow2(k) <= c < pow2(k + 1),
    ensures
        round_significant(c * pow2(1074) + pow2(1050 + k), 24) == c * pow2(1074),
        round_significant(c * pow2(1074) + pow2(1050 + k) + 1, 24) > c * pow2(1074),
{
    lemma2_to64();
    let a = pow2((23 - k) as nat);
    let h = pow2(1050 + k);
    lemma_pow2_pos((23 - k) as nat);
    lemma_pow2_pos(1050 + k);
    lemma_pow2_adds((23 - k) as nat, k);
    lemma_pow2_adds((23 - k) as nat, k + 1);
    lemma_pow2_adds(1, (22 - k) as nat);
    vstd::arithmetic::power2::lemma_pow2_unfold(24);
    vstd::arithmetic::power2::lemma_pow2_unfold(25);
    // One step is the unit of a number of 25 digits.
    let n = 2 * (c * a) + 1;
    assert(pow2(23) <= c * a) by (nonlinear_arith)
        requires
            pow2(k) <= c,
            a * pow2(k) == pow2(23),
            a > 0,
    ;
    assert(c * a + a <= pow2(24)) by (nonlinear_arith)
        requires
            c + 1 <= pow2(k + 1),
            a * pow2(k + 1) == pow2(24),
            a > 0,
    ;
    assert(c * a % 2 == 0) by {
        let b = pow2((22 - k) as nat);
        assert(c * a == 2 * (c * b)) by (nonlinear_arith)
            requires
                a == 2 * b,
        ;
    }
    lemma_bit_length(n);
    let length = bit_length(n);
    if length < 25 {
        if length < 24 {
            lemma_pow2_strictly_increases(length, 24);
        }
    } else if length > 25 {
        if length > 26 {
            lemma_pow2_strictly_increases(25, (length - 1) as nat);
        }
    }
    assert(length == 25);
    assert(round_significant(n, 24) == c * a * 2);
    lemma_round_significant_scales(n, 24, 1050 + k);
    lemma_pow2_adds((24 - k) as nat, 1050 + k);
    lemma_pow2_adds(1, (23 - k) as nat);
    let whole = c * pow2(1074);
    assert(c * a * 2 * h == whole && n * h == whole + h) by (nonlinear_arith)
        requires
            whole == c * (2 * a * h),
            n == 2 * (c * a) + 1,
    ;
    // Beyond the half step the next multiple is nearer.
    let beyond = whole + h + 1;
    lemma_pow2_adds(25, 1050 + k);
    vstd::arithmetic::power2::lemma_pow2_unfold(1075 + k);
    vstd::arithmetic::power2::lemma_pow2_unfold(1051 + k);
    assert(beyond < pow2(1075 + k)) by (nonlinear_arith)
        requires
            beyond == n * h + 1,
            n + 1 < pow2(25),
            pow2(1075 + k) == pow2(25) * h,
            h > 0,
    ;
    assert(pow2(1075 + k) <= 2 * beyond) by (nonlinear_arith)
        requires
            beyond == n * h + 1,
            2 * n >= pow2(25),
            pow2(1075 + k) == pow2(25) * h,
            h > 0,
    ;
    lemma_round_significant_nearest(beyond, 24, 1051 + k);
}

proof fn lemma_few_digits_kept(n: nat)
    requires
        n < 0x100_0000,
    ensures
        round_significant(n, 24) == n,
{
    lemma2_to64();
    lemma_bit_length(n);
    if bit_length(n) > 24 {
        if bit_length(n) > 25 {
            lemma_pow2_strictly_increases(24, (bit_length(n) - 1) as nat);
        }
    }
}

proof fn lemma_multiple_kept(m: nat)
    requires
        m < 0x20_0000_0000_0000,
        m % 0x2000_0000 == 0,
    ensures
        round_significant(m, 24) == m,
{
    lemma2_to64();
    let k = m / 0x2000_0000;
    lemma_few_digits_kept(k);
    lemma_round_significant_scales(k, 24, 29);
    assert(m == k * 0x2000_0000);
}

proof fn lemma_narrowed_close(m: nat)
    ensures
        m * 0x100_0000 <= round_significant(m, 24) * 0x100_0001,
{
    lemma_bit_length(m);
    let length = bit_length(m);
    if length > 24 {
        let s = (length - 24) as nat;
        let unit = pow2(s);
        lemma_pow2_pos(s);
        lemma2_to64();
        lemma_div_half_even_is_nearest(m, unit);
        lemma_pow2_adds(23, s);
        // The rounded number is at least 2^23 units, and the error half a unit.
        lemma_div_half_even_exact(pow2(23), unit);
        lemma_div_half_even_monotone(pow2((length - 1) as nat), m, unit);
        let q = div_half_even(m, unit);
        assert(q * unit >= 0x80_0000 * unit) by (nonlinear_arith)
            requires
                q >= 0x80_0000,
        ;
        assert(m * 0x100_0000 <= q * unit * 0x100_0001) by (nonlinear_arith)
            requires
                2 * m <= 2 * (q * unit) + unit,
                q * unit >= 0x80_0000 * unit,
        ;
    }
}

/// The text of a double with up to two places: what is no number and the infinities have
/// names; a finite number has its sign, and digits that read as the number of units of the
/// last place that is nearest to it, an even one where two are equally near.
pub proof fn lemma_fixed_text_reads_back(x: Binary64, places: nat)
    requires
        places <= 2,
    ensures
        x.number() == Number::Nan ==> x.number().fixed_text(places) == seq!['N', 'a', 'N'],
        x.number() matches Number::Infinite { negative } ==> x.number().fixed_text(places) == (
        if negative {
            seq!['-', 'i', 'n', 'f']
        } else {
            seq!['i', 'n', 'f']
        }),
        x.number() matches Number::Finite { negative, mantissa, exponent } ==> {
            let text = x.number().fixed_text(places);
            let digits = if negative {
                text.skip(1)
            } else {
                text
            };
            let scale: int = if places == 0 {
                1
            } else if places == 1 {
                10
            } else {
                100
            };
            let shown = fixed_reads_as(digits, places) * pow2(1074);
            let exact = mantissa * pow2((exponent + 1074) as nat) * scale;
            &&& negative ==> text[0] == '-'
            &&& is_fixed(digits, places)
            &&& 2 * shown <= 2 * exact + pow2(1074)
            &&& 2 * exact <= 2 * shown + pow2(1074)
            &&& 2 * shown == 2 * exact + pow2(1074) || 2 * exact == 2 * shown + pow2(1074)
                ==> fixed_reads_as(digits, places) % 2 == 0
        },
{
    reveal_strlit("NaN");
    reveal_strlit("inf");
    reveal_strlit("-inf");
    reveal_strlit("-");
    reveal_with_fuel(pow10, 3);
    match x.number() {
        Number::Nan => {
            assert("NaN"@ =~= seq!['N', 'a', 'N']);
        },
        Number::Infinite { .. } => {
            assert("inf"@ =~= seq!['i', 'n', 'f']);
            assert("-inf"@ =~= seq!['-', 'i', 'n', 'f']);
        },
        Number::Finite { negative, mantissa, exponent } => {
            let q = scaled_nearest(mantissa as nat, exponent as int, pow10(places));
            let text = x.number().fixed_text(places);
            if negative {
                assert(text.skip(1) =~= fixed_decimal(q, places));
            }
            lemma_fixed_reads_back(q, places);
            lemma_scaled_nearest_units(mantissa as nat, exponent as int, pow10(places));
            lemma_pow2_pos(1074);
            let exact = mantissa as nat * pow2((exponent + 1074) as nat) * pow10(places);
            lemma_div_half_even_is_nearest(exact, pow2(1074));
            lemma_ties_to_even(exact, pow2(1074));
        },
    }
}

/// Whether a text says an amount in a unit: one decimal place, nearest to the amount held
/// at 53 significant binary digits, an even one where two are equally near.
pub open spec fn says_amount(text: Seq<char>, bytes: nat, size: nat, name: Seq<char>) -> bool {
    let digits = text.take(text.len() - name.len());
    let shown = fixed_reads_as(digits, 1) * size;
    let exact = round_significant(bytes, 53) * 10;
    &&& text.len() > name.len()
    &&& text.skip(text.len() - name.len()) == name
    &&& is_fixed(digits, 1)
    &&& 2 * shown <= 2 * exact + size
    &&& 2 * exact <= 2 * shown + size
    &&& 2 * shown == 2 * exact + size || 2 * exact == 2 * shown + size ==> fixed_reads_as(
        digits,
        1,
    ) % 2 == 0
}

/// Below 1024 bytes an amount is said in bytes; from there on in units of 1024, of 1024
/// squared, cubed, and to the fourth, each as soon as the amount reaches it.
pub proof fn lemma_amount_is_said(bytes: nat)
    ensures
        bytes < 1024 ==> bytes_text(bytes) == decimal(bytes) + seq!['B'],
        1024 <= bytes < 1048576 ==> says_amount(bytes_text(bytes), bytes, 1024, seq!['K', 'B']),
        1048576 <= bytes < 1073741824 ==> says_amount(
            bytes_text(bytes),
            bytes,
            1048576,
            seq!['M', 'B'],
        ),
        1073741824 <= bytes < 1099511627776 ==> says_amount(
            bytes_text(bytes),
            bytes,
            1073741824,
            seq!['G', 'B'],
        ),
        1099511627776 <= bytes ==> says_amount(
            bytes_text(bytes),
            bytes,
            1099511627776,
            seq!['T', 'B'],
        ),
{
    reveal_strlit("B");
    reveal_strlit("KB");
    reveal_strlit("MB");
    reveal_strlit("GB");
    reveal_strlit("TB");
    assert("B"@ =~= seq!['B']);
    assert("KB"@ =~= seq!['K', 'B']);
    assert("MB"@ =~= seq!['M', 'B']);
    assert("GB"@ =~= seq!['G', 'B']);
    assert("TB"@ =~= seq!['T', 'B']);
    if bytes >= 1024 {
        let (size, name): (nat, Seq<char>) = if bytes < 1048576 {
            (1024, "KB"@)
        } else if bytes < 1073741824 {
            (1048576, "MB"@)
        } else if bytes < 1099511627776 {
            (1073741824, "GB"@)
        } else {
            (1099511627776, "TB"@)
        };
        let t = unit_tenths(bytes);
        let text = bytes_text(bytes);
        assert(text == fixed_decimal(t, 1) + name);
        assert(text.take(text.len() - name.len()) =~= fixed_decimal(t, 1));
        assert(text.skip(text.len() - name.len()) =~= name);
        lemma_fixed_reads_back(t, 1);
        lemma_div_half_even_is_nearest(round_significant(bytes, 53) * 10, size);
        lemma_ties_to_even(round_significant(bytes, 53) * 10, size);
    }
}

} // verus!
