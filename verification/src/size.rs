//! Amounts of memory in words.

use vstd::prelude::*;
use vstd::arithmetic::power2::{pow2, lemma2_to64, lemma2_to64_rest, lemma_pow2_strictly_increases};
use crate::decimal::{append_decimal, append_fixed, decimal, fixed_decimal};
use crate::rounding::{bit_length, div_half_even, divide_half_even, lemma_bit_length, lemma_div_half_even_exact, lemma_div_half_even_is_nearest, lemma_div_half_even_monotone, lemma_round_significant_bounds, lemma_round_significant_monotone, round_significant, round_to_significant};

verus! {

/// The largest unit that is not larger than an amount; there is none beyond the terabyte.
pub open spec fn unit_index(bytes: nat) -> nat {
    if bytes < 0x400 {
        0
    } else if bytes < 0x10_0000 {
        1
    } else if bytes < 0x4000_0000 {
        2
    } else if bytes < 0x100_0000_0000 {
        3
    } else {
        4
    }
}

/// The size of a unit in bytes.
pub open spec fn unit_size(unit: nat) -> nat {
    if unit == 0 {
        1
    } else if unit == 1 {
        0x400
    } else if unit == 2 {
        0x10_0000
    } else if unit == 3 {
        0x4000_0000
    } else {
        0x100_0000_0000
    }
}

/// The name of a unit.
pub open spec fn unit_name(unit: nat) -> Seq<char> {
    if unit == 0 {
        "B"@
    } else if unit == 1 {
        "KB"@
    } else if unit == 2 {
        "MB"@
    } else if unit == 3 {
        "GB"@
    } else {
        "TB"@
    }
}

/// An amount in tenths of its unit. It is taken at the 53 significant binary digits of
/// double precision, and rounded to nearest with ties to even.
pub open spec fn unit_tenths(bytes: nat) -> nat {
    div_half_even(round_significant(bytes, 53) * 10, unit_size(unit_index(bytes)))
}

/// An amount in words: whole bytes, or one decimal place of a larger unit.
pub open spec fn bytes_text(bytes: nat) -> Seq<char> {
    if unit_index(bytes) == 0 {
        decimal(bytes) + unit_name(0)
    } else {
        fixed_decimal(unit_tenths(bytes), 1) + unit_name(unit_index(bytes))
    }
}

/// An amount of memory in words.
pub fn format_bytes(bytes: u64) -> (text: String)
    ensures
        text@ == bytes_text(bytes as nat),
{
    let mut text: String = String::new();
    if bytes < 0x400 {
        append_decimal(&mut text, bytes);
        text.append("B");
    } else {
        let (size, name): (u128, &str) = if bytes < 0x10_0000 {
            (0x400u128, "KB")
        } else if bytes < 0x4000_0000 {
            (0x10_0000u128, "MB")
        } else if bytes < 0x100_0000_0000 {
            (0x4000_0000u128, "GB")
        } else {
            (0x100_0000_0000u128, "TB")
        };
        let held: u128 = round_to_significant(bytes, 53);
        let tenths: u128 = divide_half_even(held * 10, size);
        proof {
            lemma_tenths_bounds(bytes as nat);
        }
        append_fixed(&mut text, tenths as u64, 1);
        text.append(name);
    }
    proof {
        assert(text@ =~= bytes_text(bytes as nat));
    }
    text
}

/// Amounts of up to 2^53 bytes are held exactly.
pub proof fn lemma_held_exactly(bytes: nat)
    requires
        bytes <= 0x20_0000_0000_0000,
    ensures
        round_significant(bytes, 53) == bytes,
{
    lemma2_to64_rest();
    lemma_bit_length(bytes);
    if bytes > 0 && bit_length(bytes) > 53 {
        if bit_length(bytes) > 54 {
            lemma_pow2_strictly_increases(53, (bit_length(bytes) - 1) as nat);
        }
        assert(bytes == pow2(53));
        lemma2_to64();
        assert(bit_length(bytes) == 54);
        lemma_div_half_even_exact(0x10_0000_0000_0000, 2);
    }
}

/// Within one unit, a larger amount never shows a smaller number.
pub proof fn lemma_tenths_monotone(a: nat, b: nat)
    requires
        a <= b,
        unit_index(a) == unit_index(b),
    ensures
        unit_tenths(a) <= unit_tenths(b),
{
    lemma_round_significant_monotone(a, b, 53);
    lemma_div_half_even_monotone(
        round_significant(a, 53) * 10,
        round_significant(b, 53) * 10,
        unit_size(unit_index(a)),
    );
}

/// The number shown is never below one, and below the terabyte never above 1024.
pub proof fn lemma_tenths_bounds(bytes: nat)
    requires
        0x400 <= bytes <= 0xffff_ffff_ffff_ffff,
    ensures
        10 <= unit_tenths(bytes),
        unit_index(bytes) < 4 ==> unit_tenths(bytes) <= 10240,
        unit_tenths(bytes) <= 167772160,
{
    let size = unit_size(unit_index(bytes));
    let held = round_significant(bytes, 53);
    lemma2_to64();
    lemma2_to64_rest();
    lemma_round_significant_monotone(size, bytes, 53);
    lemma_round_significant_monotone(bytes, 0xffff_ffff_ffff_ffff, 53);
    lemma_held_exactly(size);
    lemma_div_half_even_exact(10, size);
    lemma_div_half_even_monotone(size * 10, held * 10, size);
    assert(10 * size == size * 10);
    assert(held <= 0x1_0000_0000_0000_0000) by {
        let top: nat = 0xffff_ffff_ffff_ffff;
        lemma_bit_length(top);
        if bit_length(top) > 64 {
            if bit_length(top) > 65 {
                lemma_pow2_strictly_increases(64, (bit_length(top) - 1) as nat);
            }
        } else if bit_length(top) < 64 {
            lemma_pow2_strictly_increases(bit_length(top), 64);
        }
        lemma_round_significant_bounds(top, 53);
    }
    if unit_index(bytes) < 4 {
        let next = unit_size((unit_index(bytes) + 1) as nat);
        lemma_round_significant_monotone(bytes, next, 53);
        lemma_held_exactly(next);
        assert(next == 1024 * size);
        lemma_div_half_even_exact(10240, size);
        lemma_div_half_even_monotone(held * 10, next * 10, size);
    } else {
        lemma_div_half_even_exact(167772160, size);
        lemma_div_half_even_monotone(held * 10, 167772160 * size, size);
    }
}

/// The number shown is within half a tenth of a unit of the amount held.
pub proof fn lemma_tenths_near(bytes: nat)
    ensures
        2 * (unit_tenths(bytes) * unit_size(unit_index(bytes))) <= 20 * round_significant(bytes, 53)
            + unit_size(unit_index(bytes)),
        20 * round_significant(bytes, 53) <= 2 * (unit_tenths(bytes) * unit_size(unit_index(bytes)))
            + unit_size(unit_index(bytes)),
{
    lemma_div_half_even_is_nearest(
        round_significant(bytes, 53) * 10,
        unit_size(unit_index(bytes)),
    );
}

} // verus!
