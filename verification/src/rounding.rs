//! Rounding of natural numbers to nearest, with ties to even.

use vstd::prelude::*;
use vstd::arithmetic::div_mod::{lemma_div_multiples_vanish, lemma_div_multiples_vanish_quotient, lemma_fundamental_div_mod, lemma_mod_bound, lemma_mod_multiples_basic, lemma_truncate_middle};
use vstd::arithmetic::power2::{pow2, lemma2_to64, lemma_pow2_adds, lemma_pow2_pos, lemma_pow2_strictly_increases, lemma_pow2_unfold};

verus! {

/// The integer nearest to `n / d`; of two that are equally near, the even one.
pub open spec fn div_half_even(n: nat, d: nat) -> nat
    recommends
        d > 0,
{
    let q = n / d;
    let r = n % d;
    if 2 * r < d || (2 * r == d && q % 2 == 0) {
        q
    } else {
        q + 1
    }
}

/// The number of binary digits of a number; zero has none.
pub open spec fn bit_length(n: nat) -> nat
    decreases n,
{
    if n == 0 {
        0
    } else {
        bit_length(n / 2) + 1
    }
}

/// The number nearest to `n` that has at most `p` significant binary digits; of two
/// that are equally near, the one whose last digit is zero.
pub open spec fn round_significant(n: nat, p: nat) -> nat {
    if bit_length(n) <= p {
        n
    } else {
        let unit = pow2((bit_length(n) - p) as nat);
        div_half_even(n, unit) * unit
    }
}

/// The nearest integer is at most half a unit away.
pub proof fn lemma_div_half_even_is_nearest(n: nat, d: nat)
    requires
        d > 0,
    ensures
        2 * (div_half_even(n, d) * d) <= 2 * n + d,
        2 * n <= 2 * (div_half_even(n, d) * d) + d,
{
    let q = n / d;
    lemma_fundamental_div_mod(n as int, d as int);
    lemma_mod_bound(n as int, d as int);
    assert((q + 1) * d == d * q + d) by (nonlinear_arith);
    assert(q * d == d * q) by (nonlinear_arith);
}

/// The nearest integer to a quotient is no more than the dividend.
pub proof fn lemma_div_half_even_at_most(n: nat, d: nat)
    requires
        d > 0,
    ensures
        div_half_even(n, d) <= n,
{
    let q = n / d;
    lemma_fundamental_div_mod(n as int, d as int);
    lemma_mod_bound(n as int, d as int);
    assert(d * q >= q) by (nonlinear_arith)
        requires
            d > 0,
            q >= 0,
    ;
}

/// Rounding keeps the order of what is rounded.
pub proof fn lemma_div_half_even_monotone(a: nat, b: nat, d: nat)
    requires
        a <= b,
        d > 0,
    ensures
        div_half_even(a, d) <= div_half_even(b, d),
{
    let qa = a / d;
    let qb = b / d;
    lemma_fundamental_div_mod(a as int, d as int);
    lemma_fundamental_div_mod(b as int, d as int);
    lemma_mod_bound(a as int, d as int);
    lemma_mod_bound(b as int, d as int);
    assert(qa <= qb) by (nonlinear_arith)
        requires
            a <= b,
            a == d * qa + a % d,
            b == d * qb + b % d,
            0 <= a % d < d,
            0 <= b % d < d,
    ;
    if qa == qb {
        assert(a % d <= b % d);
    }
}

/// A multiple of the unit rounds to itself.
pub proof fn lemma_div_half_even_exact(q: nat, d: nat)
    requires
        d > 0,
    ensures
        div_half_even(q * d, d) == q,
{
    lemma_div_multiples_vanish(q as int, d as int);
    lemma_mod_multiples_basic(q as int, d as int);
    assert(q * d == d * q) by (nonlinear_arith);
}

/// Rounding a quotient does not depend on the scale of its two parts.
pub proof fn lemma_div_half_even_scales(n: nat, d: nat, x: nat)
    requires
        d > 0,
        x > 0,
    ensures
        div_half_even(n * x, d * x) == div_half_even(n, d),
{
    let r = n % d;
    lemma_div_multiples_vanish_quotient(x as int, n as int, d as int);
    lemma_truncate_middle(n as int, x as int, d as int);
    assert(n * x == x * n && d * x == x * d) by (nonlinear_arith);
    assert((2 * (x * r) < x * d <==> 2 * r < d) && (2 * (x * r) == x * d <==> 2 * r == d))
        by (nonlinear_arith)
        requires
            x > 0,
    ;
}

/// Divides and rounds to nearest, with ties to even.
pub(crate) fn divide_half_even(n: u128, d: u128) -> (q: u128)
    requires
        0 < d <= u128::MAX / 2,
    ensures
        q == div_half_even(n as nat, d as nat),
{
    let q: u128 = n / d;
    let r: u128 = n % d;
    if 2 * r < d || (2 * r == d && q % 2 == 0) {
        q
    } else {
        proof {
            lemma_fundamental_div_mod(n as int, d as int);
            assert(q < u128::MAX) by (nonlinear_arith)
                requires
                    n as int == d * q + r,
                    2 * r >= d,
                    d > 0,
                    n <= u128::MAX,
            ;
        }
        q + 1
    }
}

/// A power of two.
pub(crate) fn power_of_two(k: u32) -> (p: u128)
    requires
        k <= 64,
    ensures
        p == pow2(k as nat),
        p <= 0x1_0000_0000_0000_0000,
{
    let mut p: u128 = 1;
    let mut i: u32 = 0;
    proof {
        lemma2_to64();
    }
    while i < k
        invariant
            i <= k <= 64,
            p == pow2(i as nat),
            pow2(64) == 0x1_0000_0000_0000_0000,
        decreases k - i,
    {
        proof {
            lemma_pow2_unfold((i + 1) as nat);
            if i + 1 < 64 {
                lemma_pow2_strictly_increases((i + 1) as nat, 64);
            }
        }
        p = 2 * p;
        i = i + 1;
    }
    proof {
        if k < 64 {
            lemma_pow2_strictly_increases(k as nat, 64);
        }
    }
    p
}

/// A number is below the power of two of its length.
pub proof fn lemma_bit_length(n: nat)
    ensures
        n < pow2(bit_length(n)),
        n > 0 ==> pow2((bit_length(n) - 1) as nat) <= n,
    decreases n,
{
    lemma2_to64();
    if n > 0 {
        lemma_bit_length(n / 2);
        lemma_pow2_unfold(bit_length(n));
        if n / 2 > 0 {
            lemma_pow2_unfold((bit_length(n) - 1) as nat);
        }
    }
}

proof fn lemma_bit_length_bound(n: nat, k: nat)
    requires
        n < pow2(k),
    ensures
        bit_length(n) <= k,
{
    if n > 0 && bit_length(n) > k {
        lemma_bit_length(n);
        if bit_length(n) - 1 > k {
            lemma_pow2_strictly_increases(k, (bit_length(n) - 1) as nat);
        }
    }
}

/// A rounded number lies between the powers of two around it.
pub proof fn lemma_round_significant_bounds(n: nat, p: nat)
    requires
        n > 0,
        p > 0,
    ensures
        pow2((bit_length(n) - 1) as nat) <= round_significant(n, p) <= pow2(bit_length(n)),
{
    lemma_bit_length(n);
    let length = bit_length(n);
    if length > p {
        let s = (length - p) as nat;
        lemma_pow2_pos(s);
        lemma_pow2_adds(p, s);
        lemma_pow2_adds((p - 1) as nat, s);
        lemma_div_half_even_monotone(n, pow2(length), pow2(s));
        lemma_div_half_even_monotone(pow2((length - 1) as nat), n, pow2(s));
        lemma_div_half_even_exact(pow2(p), pow2(s));
        lemma_div_half_even_exact(pow2((p - 1) as nat), pow2(s));
        let q = div_half_even(n, pow2(s));
        assert(pow2((p - 1) as nat) * pow2(s) <= q * pow2(s) <= pow2(p) * pow2(s)) by (nonlinear_arith)
            requires
                pow2((p - 1) as nat) <= q <= pow2(p),
        ;
    }
}

/// Rounding to a number of significant digits keeps the order of what is rounded.
pub proof fn lemma_round_significant_monotone(a: nat, b: nat, p: nat)
    requires
        a <= b,
        p > 0,
    ensures
        round_significant(a, p) <= round_significant(b, p),
{
    if a > 0 {
        lemma_bit_length(a);
        lemma_bit_length(b);
        let la = bit_length(a);
        let lb = bit_length(b);
        if la > lb {
            if lb < la - 1 {
                lemma_pow2_strictly_increases(lb, (la - 1) as nat);
            }
        } else if la == lb {
            if la > p {
                let unit = pow2((la - p) as nat);
                lemma_pow2_pos((la - p) as nat);
                lemma_div_half_even_monotone(a, b, unit);
                assert(div_half_even(a, unit) * unit <= div_half_even(b, unit) * unit) by (nonlinear_arith)
                    requires
                        div_half_even(a, unit) <= div_half_even(b, unit),
                ;
            }
        } else {
            lemma_round_significant_bounds(a, p);
            lemma_round_significant_bounds(b, p);
            if la < lb - 1 {
                lemma_pow2_strictly_increases(la, (lb - 1) as nat);
            }
        }
    } else {
        assert(bit_length(0) == 0);
    }
}

/// Rounding to significant digits does not depend on the scale.
pub proof fn lemma_round_significant_scales(n: nat, p: nat, k: nat)
    requires
        p > 0,
    ensures
        round_significant(n * pow2(k), p) == round_significant(n, p) * pow2(k),
    decreases k,
{
    lemma2_to64();
    if k > 0 {
        let below = (k - 1) as nat;
        lemma_round_significant_scales(n, p, below);
        lemma_pow2_unfold(k);
        let m = n * pow2(below);
        assert(n * (2 * pow2(below)) == 2 * (n * pow2(below))) by (nonlinear_arith);
        lemma_round_significant_doubles(m, p);
        assert(2 * (round_significant(n, p) * pow2(below)) == round_significant(n, p) * (2 * pow2(
            below,
        ))) by (nonlinear_arith);
        assert(n * pow2(k) == 2 * m);
    } else {
        assert(n * pow2(0) == n && round_significant(n, p) * pow2(0) == round_significant(n, p))
            by (nonlinear_arith)
            requires
                pow2(0) == 1,
        ;
    }
}

proof fn lemma_round_significant_doubles(n: nat, p: nat)
    requires
        p > 0,
    ensures
        round_significant(2 * n, p) == 2 * round_significant(n, p),
{
    if n > 0 {
        let length = bit_length(n);
        assert(bit_length(2 * n) == length + 1);
        if length == p {
            lemma2_to64();
            lemma_div_half_even_exact(n, 2);
        } else if length > p {
            let unit = pow2((length - p) as nat);
            lemma_pow2_pos((length - p) as nat);
            lemma_pow2_unfold((length + 1 - p) as nat);
            lemma_div_half_even_scales(n, unit, 2);
            let q = div_half_even(n, unit);
            assert(q * (2 * unit) == 2 * (q * unit)) by (nonlinear_arith);
        }
    }
}

/// Rounds to a number of significant binary digits.
pub(crate) fn round_to_significant(n: u64, p: u32) -> (r: u128)
    ensures
        r == round_significant(n as nat, p as nat),
        r <= 0x1_0000_0000_0000_0000 * 2,
{
    let mut length: u32 = 0;
    let mut rest: u64 = n;
    proof {
        lemma2_to64();
        lemma_bit_length_bound(n as nat, 64);
    }
    while rest > 0
        invariant
            length + bit_length(rest as nat) == bit_length(n as nat),
            bit_length(n as nat) <= 64,
        decreases rest,
    {
        rest = rest / 2;
        length = length + 1;
    }
    if length <= p {
        n as u128
    } else {
        let unit: u128 = power_of_two(length - p);
        proof {
            lemma_pow2_pos((length - p) as nat);
            lemma_div_half_even_is_nearest(n as nat, unit as nat);
        }
        let q: u128 = divide_half_even(n as u128, unit);
        q * unit
    }
}

} // verus!
