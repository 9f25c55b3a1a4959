//! Double precision numbers, read from their IEEE 754 bits with integer arithmetic alone.

use vstd::prelude::*;
use vstd::arithmetic::power2::{pow2, lemma2_to64, lemma2_to64_rest, lemma_pow2_adds, lemma_pow2_pos, lemma_pow2_strictly_increases, lemma_pow2_unfold};
use crate::decimal::{append_digit, append_fixed, append_shifted, fixed_decimal, fraction_digits, pow10};
use crate::rounding::{div_half_even, divide_half_even, lemma_div_half_even_at_most, lemma_div_half_even_exact, lemma_div_half_even_is_nearest, lemma_div_half_even_monotone, lemma_div_half_even_scales, lemma_round_significant_monotone, lemma_round_significant_scales, power_of_two, round_significant, round_to_significant};

verus! {

/// A double precision number, held as its bits.
#[derive(Clone, Copy, PartialEq, Eq, Debug, Structural)]
pub struct Binary64 {
    pub bits: u64,
}

/// What the bits of a double stand for. A finite number is
/// `mantissa * 2^exponent`, negated where `negative` is set.
#[derive(Clone, Copy, PartialEq, Eq, Debug, Structural)]
pub enum Number {
    Nan,
    Infinite { negative: bool },
    Finite { negative: bool, mantissa: u64, exponent: i32 },
}

impl Binary64 {
    pub open spec fn is_negative(self) -> bool {
        self.bits >= 0x8000_0000_0000_0000
    }

    pub open spec fn exponent_field(self) -> int {
        (self.bits / 0x10_0000_0000_0000) as int % 2048
    }

    pub open spec fn fraction_field(self) -> int {
        self.bits as int % 0x10_0000_0000_0000
    }

    /// The number that the bits stand for.
    pub open spec fn number(self) -> Number {
        if self.exponent_field() == 2047 {
            if self.fraction_field() == 0 {
                Number::Infinite { negative: self.is_negative() }
            } else {
                Number::Nan
            }
        } else if self.exponent_field() == 0 {
            Number::Finite {
                negative: self.is_negative(),
                mantissa: self.fraction_field() as u64,
                exponent: (-1074) as i32,
            }
        } else {
            Number::Finite {
                negative: self.is_negative(),
                mantissa: (self.fraction_field() + 0x10_0000_0000_0000) as u64,
                exponent: (self.exponent_field() - 1075) as i32,
            }
        }
    }

    /// Decodes the bits.
    pub fn decode(self) -> (n: Number)
        ensures
            n == self.number(),
            n matches Number::Finite { negative, mantissa, exponent } ==> mantissa
                < 0x20_0000_0000_0000 && -1074 <= exponent <= 971,
    {
        let negative: bool = self.bits >= 0x8000_0000_0000_0000;
        let field: u64 = (self.bits / 0x10_0000_0000_0000) % 2048;
        let fraction: u64 = self.bits % 0x10_0000_0000_0000;
        if field == 2047 {
            if fraction == 0 {
                Number::Infinite { negative }
            } else {
                Number::Nan
            }
        } else if field == 0 {
            Number::Finite { negative, mantissa: fraction, exponent: -1074 }
        } else {
            Number::Finite {
                negative,
                mantissa: fraction + 0x10_0000_0000_0000,
                exponent: field as i32 - 1075,
            }
        }
    }
}

/// Whether `m * 2^e` is at most `c`.
pub open spec fn scaled_at_most(m: nat, e: int, c: nat) -> bool {
    if e >= 0 {
        m * pow2(e as nat) <= c
    } else {
        m <= c * pow2((-e) as nat)
    }
}

/// The integer nearest to `m * 2^e * scale`, with ties to even.
pub open spec fn scaled_nearest(m: nat, e: int, scale: nat) -> nat {
    if e >= 0 {
        m * scale * pow2(e as nat)
    } else {
        div_half_even(m * scale, pow2((-e) as nat))
    }
}

impl Number {
    /// The order of numbers against a whole number; a NaN is in no order to it.
    pub open spec fn at_most(self, c: nat) -> bool {
        match self {
            Number::Nan => false,
            Number::Infinite { negative } => negative,
            Number::Finite { negative, mantissa, exponent } => negative || scaled_at_most(
                mantissa as nat,
                exponent as int,
                c,
            ),
        }
    }

    /// The order of numbers against a whole number; a NaN is in no order to it.
    pub open spec fn above(self, c: nat) -> bool {
        self != Number::Nan && !self.at_most(c)
    }

    /// Whether the number, narrowed to single precision first, is at most `c`, for a
    /// positive `c`. Single precision keeps 24 significant binary digits; its smaller range
    /// makes no difference here, for what it cannot hold is far above or below `c`.
    pub open spec fn narrowed_at_most(self, c: nat) -> bool {
        match self {
            Number::Finite { negative: false, mantissa, exponent } => scaled_at_most(
                round_significant(mantissa as nat, 24),
                exponent as int,
                c,
            ),
            _ => self.at_most(c),
        }
    }

    /// Whether the number is below zero; neither zero nor a NaN is.
    pub open spec fn below_zero(self) -> bool {
        match self {
            Number::Nan => false,
            Number::Infinite { negative } => negative,
            Number::Finite { negative, mantissa, .. } => negative && mantissa > 0,
        }
    }

    /// The number in decimal notation with a fixed number of places, rounded to nearest
    /// with ties to even. The sign is kept where the digits round to zero.
    pub open spec fn fixed_text(self, places: nat) -> Seq<char> {
        match self {
            Number::Nan => "NaN"@,
            Number::Infinite { negative } => if negative {
                "-inf"@
            } else {
                "inf"@
            },
            Number::Finite { negative, mantissa, exponent } => {
                let q = scaled_nearest(mantissa as nat, exponent as int, pow10(places));
                if negative {
                    "-"@ + fixed_decimal(q, places)
                } else {
                    fixed_decimal(q, places)
                }
            },
        }
    }
}

/// Compares `m * 2^e` with a whole number.
fn compare_scaled(m: u128, e: i32, c: u32) -> (r: bool)
    requires
        m <= 0x2_0000_0000_0000_0000,
        -1074 <= e <= 971,
    ensures
        r == scaled_at_most(m as nat, e as int, c as nat),
{
    proof {
        lemma2_to64();
        lemma2_to64_rest();
    }
    if e >= 0 {
        if e > 32 {
            proof {
                lemma_pow2_strictly_increases(32, e as nat);
                assert(m > 0 ==> m * pow2(e as nat) > c) by (nonlinear_arith)
                    requires
                        pow2(e as nat) > c,
                ;
                assert(m == 0 ==> m * pow2(e as nat) == 0) by (nonlinear_arith);
            }
            m == 0
        } else {
            let p: u128 = power_of_two(e as u32);
            proof {
                if e < 32 {
                    lemma_pow2_strictly_increases(e as nat, 32);
                }
                assert(m * p <= 0x2_0000_0000_0000_0000 * 0x1_0000_0000) by (nonlinear_arith)
                    requires
                        m <= 0x2_0000_0000_0000_0000,
                        p <= 0x1_0000_0000,
                ;
            }
            m * p <= c as u128
        }
    } else if e < -64 {
        proof {
            lemma_pow2_unfold(65);
            if e < -65 {
                lemma_pow2_strictly_increases(65, (-e) as nat);
            }
            assert(c > 0 ==> c * pow2((-e) as nat) >= pow2((-e) as nat)) by (nonlinear_arith);
            assert(c == 0 ==> c * pow2((-e) as nat) == 0) by (nonlinear_arith);
        }
        c > 0 || m == 0
    } else {
        let p: u128 = power_of_two((-e) as u32);
        proof {
            assert(c * p <= 0x1_0000_0000 * 0x1_0000_0000_0000_0000) by (nonlinear_arith)
                requires
                    c <= 0x1_0000_0000,
                    p <= 0x1_0000_0000_0000_0000,
            ;
        }
        m <= c as u128 * p
    }
}

impl Binary64 {
    /// Whether the number is above a whole number.
    pub fn is_above(self, c: u32) -> (r: bool)
        ensures
            r == self.number().above(c as nat),
    {
        match self.decode() {
            Number::Nan => false,
            Number::Infinite { negative } => !negative,
            Number::Finite { negative, mantissa, exponent } => {
                if negative {
                    false
                } else {
                    !compare_scaled(mantissa as u128, exponent, c)
                }
            },
        }
    }

    /// Whether the number, narrowed to single precision, is at most a positive whole
    /// number.
    pub fn is_narrowed_at_most(self, c: u32) -> (r: bool)
        requires
            c > 0,
        ensures
            r == self.number().narrowed_at_most(c as nat),
    {
        match self.decode() {
            Number::Nan => false,
            Number::Infinite { negative } => negative,
            Number::Finite { negative, mantissa, exponent } => {
                if negative {
                    true
                } else {
                    compare_scaled(round_to_significant(mantissa, 24), exponent, c)
                }
            },
        }
    }

    /// Whether the number is below zero.
    pub fn is_below_zero(self) -> (r: bool)
        ensures
            r == self.number().below_zero(),
    {
        match self.decode() {
            Number::Nan => false,
            Number::Infinite { negative } => negative,
            Number::Finite { negative, mantissa, .. } => negative && mantissa > 0,
        }
    }

    /// The number in decimal notation with at most two places.
    pub fn to_fixed(self, places: u32) -> (text: String)
        requires
            places <= 2,
        ensures
            text@ == self.number().fixed_text(places as nat),
    {
        let mut text: String = String::new();
        match self.decode() {
            Number::Nan => {
                text.append("NaN");
            },
            Number::Infinite { negative } => {
                if negative {
                    text.append("-inf");
                } else {
                    text.append("inf");
                }
            },
            Number::Finite { negative, mantissa, exponent } => {
                if negative {
                    text.append("-");
                }
                append_scaled(&mut text, mantissa, exponent, places);
            },
        }
        proof {
            assert(Seq::<char>::empty() + "NaN"@ =~= "NaN"@);
            assert(Seq::<char>::empty() + "-inf"@ =~= "-inf"@);
            assert(Seq::<char>::empty() + "inf"@ =~= "inf"@);
            assert(Seq::<char>::empty() + "-"@ =~= "-"@);
        }
        text
    }
}

/// Appends `m * 2^e` in decimal notation with a fixed number of places.
fn append_scaled(out: &mut String, m: u64, e: i32, places: u32)
    requires
        m < 0x20_0000_0000_0000,
        -1074 <= e <= 971,
        places <= 2,
    ensures
        final(out)@ == old(out)@ + fixed_decimal(
            scaled_nearest(m as nat, e as int, pow10(places as nat)),
            places as nat,
        ),
{
    let scale: u64 = match places {
        0 => 1,
        1 => 10,
        _ => 100,
    };
    proof {
        reveal_with_fuel(pow10, 3);
        lemma2_to64();
        lemma2_to64_rest();
    }
    let ghost q = scaled_nearest(m as nat, e as int, pow10(places as nat));
    if e >= 0 {
        append_shifted(out, m, e as u32);
        let ghost whole = m as nat * pow2(e as nat);
        proof {
            assert(m as nat * scale as nat * pow2(e as nat) == whole * scale) by (nonlinear_arith)
                requires
                    whole == m as nat * pow2(e as nat),
            ;
            vstd::arithmetic::div_mod::lemma_div_by_multiple(whole as int, scale as int);
            assert(q / pow10(places as nat) == whole);
            reveal_with_fuel(fraction_digits, 3);
        }
        if places > 0 {
            out.append(".");
            append_digit(out, 0);
            if places > 1 {
                append_digit(out, 0);
            }
        }
        proof {
            assert(out@ =~= old(out)@ + fixed_decimal(q, places as nat));
        }
    } else if e < -64 {
        proof {
            lemma_pow2_strictly_increases(64, (-e) as nat);
            assert(m as nat * scale as nat <= 0x20_0000_0000_0000 * 100) by (nonlinear_arith)
                requires
                    m <= 0x20_0000_0000_0000,
                    scale <= 100,
            ;
            vstd::arithmetic::div_mod::lemma_basic_div(
                m as int * scale as int,
                pow2((-e) as nat) as int,
            );
            vstd::arithmetic::div_mod::lemma_small_mod(
                m as nat * scale as nat,
                pow2((-e) as nat),
            );
        }
        append_fixed(out, 0, places);
    } else {
        proof {
            assert(m as nat * scale as nat <= 0x20_0000_0000_0000 * 100) by (nonlinear_arith)
                requires
                    m <= 0x20_0000_0000_0000,
                    scale <= 100,
            ;
            lemma_pow2_pos((-e) as nat);
            lemma_div_half_even_at_most(m as nat * scale as nat, pow2((-e) as nat));
        }
        let rounded: u128 = divide_half_even((m * scale) as u128, power_of_two((-e) as u32));
        append_fixed(out, rounded as u64, places);
    }
}

impl Number {
    /// A finite number in units of 2^-1074, the smallest step of double precision.
    pub open spec fn units(self) -> int {
        match self {
            Number::Finite { negative, mantissa, exponent } => {
                let size = mantissa * pow2((exponent + 1074) as nat);
                if negative {
                    -size
                } else {
                    size as int
                }
            },
            _ => 0,
        }
    }

    /// The order of numbers; a NaN is in no order to any.
    pub open spec fn no_more_than(self, other: Number) -> bool {
        match (self, other) {
            (Number::Nan, _) => false,
            (_, Number::Nan) => false,
            (Number::Infinite { negative: true }, _) => true,
            (_, Number::Infinite { negative: false }) => true,
            (Number::Infinite { negative: false }, _) => false,
            (_, Number::Infinite { negative: true }) => false,
            _ => self.units() <= other.units(),
        }
    }
}

/// The comparison of `m * 2^e` with a whole number, in units of 2^-1074.
pub proof fn lemma_scaled_at_most_units(m: nat, e: int, c: nat)
    requires
        e >= -1074,
    ensures
        scaled_at_most(m, e, c) <==> m * pow2((e + 1074) as nat) <= c * pow2(1074),
{
    if e >= 0 {
        lemma_pow2_adds(e as nat, 1074);
        lemma_pow2_pos(1074);
        let x = m * pow2(e as nat);
        let u = pow2(1074);
        assert(m * (pow2(e as nat) * u) == x * u) by (nonlinear_arith)
            requires
                x == m * pow2(e as nat),
        ;
        assert(x <= c <==> x * u <= c * u) by (nonlinear_arith)
            requires
                u > 0,
        ;
    } else {
        lemma_pow2_adds((-e) as nat, (e + 1074) as nat);
        lemma_pow2_pos((e + 1074) as nat);
        let y = c * pow2((-e) as nat);
        let u = pow2((e + 1074) as nat);
        assert(c * (pow2((-e) as nat) * u) == y * u) by (nonlinear_arith)
            requires
                y == c * pow2((-e) as nat),
        ;
        assert(m <= y <==> m * u <= y * u) by (nonlinear_arith)
            requires
                u > 0,
        ;
    }
}

/// What holds of a number against a whole one holds of every smaller number, at double
/// precision and at single precision.
pub proof fn lemma_at_most_downward(a: Binary64, b: Binary64, c: nat)
    requires
        a.number().no_more_than(b.number()),
    ensures
        b.number().at_most(c) ==> a.number().at_most(c),
        b.number().narrowed_at_most(c) ==> a.number().narrowed_at_most(c),
{
    match (a.number(), b.number()) {
        (
            Number::Finite { negative: na, mantissa: ma, exponent: ea },
            Number::Finite { negative: nb, mantissa: mb, exponent: eb },
        ) => {
            let ua = pow2((ea + 1074) as nat);
            let ub = pow2((eb + 1074) as nat);
            if !na {
                lemma_scaled_at_most_units(ma as nat, ea as int, c);
                lemma_scaled_at_most_units(mb as nat, eb as int, c);
                lemma_scaled_at_most_units(round_significant(ma as nat, 24), ea as int, c);
                lemma_scaled_at_most_units(round_significant(mb as nat, 24), eb as int, c);
                lemma_round_significant_scales(ma as nat, 24, (ea + 1074) as nat);
                lemma_round_significant_scales(mb as nat, 24, (eb + 1074) as nat);
                assert(ma * ua >= 0 && mb * ub >= 0) by (nonlinear_arith)
                    requires
                        ua >= 0,
                        ub >= 0,
                        ma >= 0,
                        mb >= 0,
                ;
                assert(c * pow2(1074) >= 0) by (nonlinear_arith);
                if !nb {
                    lemma_round_significant_monotone(ma as nat * ua, mb as nat * ub, 24);
                } else {
                    assert(ma as nat * ua == 0);
                    assert(round_significant(0, 24) == 0);
                }
            }
        },
        _ => {},
    }
}

/// The nearest integer to `m * 2^e * scale`, from units of 2^-1074.
pub proof fn lemma_scaled_nearest_units(m: nat, e: int, scale: nat)
    requires
        e >= -1074,
    ensures
        scaled_nearest(m, e, scale) == div_half_even(
            m * pow2((e + 1074) as nat) * scale,
            pow2(1074),
        ),
{
    lemma_pow2_pos(1074);
    if e >= 0 {
        lemma_pow2_adds(e as nat, 1074);
        let q = m * scale * pow2(e as nat);
        assert(m * (pow2(e as nat) * pow2(1074)) * scale == q * pow2(1074)) by (nonlinear_arith)
            requires
                q == m * scale * pow2(e as nat),
        ;
        lemma_div_half_even_exact(q, pow2(1074));
    } else {
        let u = pow2((e + 1074) as nat);
        lemma_pow2_adds((-e) as nat, (e + 1074) as nat);
        lemma_pow2_pos((-e) as nat);
        lemma_pow2_pos((e + 1074) as nat);
        lemma_div_half_even_scales(m * scale, pow2((-e) as nat), u);
        assert(m * scale * u == m * u * scale) by (nonlinear_arith);
    }
}

/// The digits shown are those of the nearest number with that many places: they are no
/// more than half a unit of the last place away.
pub proof fn lemma_fixed_is_nearest(x: Binary64, places: nat)
    requires
        x.number() is Finite,
    ensures
        x.number() matches Number::Finite { mantissa, exponent, .. } ==> {
            let shown = scaled_nearest(mantissa as nat, exponent as int, pow10(places)) * pow2(1074);
            let exact = mantissa as nat * pow2((exponent + 1074) as nat) * pow10(places);
            2 * shown <= 2 * exact + pow2(1074) && 2 * exact <= 2 * shown + pow2(1074)
        },
{
    match x.number() {
        Number::Finite { mantissa, exponent, .. } => {
            lemma_scaled_nearest_units(mantissa as nat, exponent as int, pow10(places));
            lemma_pow2_pos(1074);
            lemma_div_half_even_is_nearest(
                mantissa as nat * pow2((exponent + 1074) as nat) * pow10(places),
                pow2(1074),
            );
        },
        _ => {},
    }
}

/// Of two numbers that are not negative, the larger one never shows smaller digits.
pub proof fn lemma_fixed_monotone(a: Binary64, b: Binary64, places: nat)
    requires
        a.number() is Finite,
        b.number() is Finite,
        !a.is_negative(),
        !b.is_negative(),
        a.number().no_more_than(b.number()),
    ensures
        (a.number(), b.number()) matches (
            Number::Finite { mantissa: ma, exponent: ea, .. },
            Number::Finite { mantissa: mb, exponent: eb, .. },
        ) ==> scaled_nearest(ma as nat, ea as int, pow10(places)) <= scaled_nearest(
            mb as nat,
            eb as int,
            pow10(places),
        ),
{
    match (a.number(), b.number()) {
        (
            Number::Finite { mantissa: ma, exponent: ea, .. },
            Number::Finite { mantissa: mb, exponent: eb, .. },
        ) => {
            lemma_scaled_nearest_units(ma as nat, ea as int, pow10(places));
            lemma_scaled_nearest_units(mb as nat, eb as int, pow10(places));
            lemma_pow2_pos(1074);
            let xa = ma as nat * pow2((ea + 1074) as nat);
            let xb = mb as nat * pow2((eb + 1074) as nat);
            assert(xa * pow10(places) <= xb * pow10(places)) by (nonlinear_arith)
                requires
                    xa <= xb,
            ;
            lemma_div_half_even_monotone(xa * pow10(places), xb * pow10(places), pow2(1074));
        },
        _ => {},
    }
}

} // verus!
