//! Durations as short text for display.

use vstd::prelude::*;
use vstd::string::StringExecFns;
use crate::numbers::{format_u64, spec_decimal};

verus! {

/// The number of binary digits behind the point that the quotient of `ms` by
/// 1000 has as a double-precision number, for `ms` from 1000 to 59999.
pub open spec fn spec_fraction_bits(ms: u64) -> nat {
    if ms >= 32_000 {
        47
    } else if ms >= 16_000 {
        48
    } else if ms >= 8_000 {
        49
    } else if ms >= 4_000 {
        50
    } else if ms >= 2_000 {
        51
    } else {
        52
    }
}

/// Two to the power of `bits`.
pub open spec fn spec_pow2(bits: nat) -> nat
    decreases bits,
{
    if bits == 0 {
        1
    } else {
        2 * spec_pow2((bits - 1) as nat)
    }
}

/// Whether the double-precision quotient of `ms` by 1000 lies above the exact
/// quotient, or is the exact quotient with an odd last digit before the
/// point of rounding. The quotient is rounded to the nearest number with 53
/// binary digits, a tie going to the even one.
pub open spec fn spec_quotient_rounds_up(ms: u64) -> bool {
    let scaled = ms * spec_pow2(spec_fraction_bits(ms));
    let below = scaled / 1000;
    let rest = scaled % 1000;
    rest * 2 > 1000 || (rest * 2 == 1000 && below % 2 == 1)
}

/// The tenths of seconds shown for `ms` milliseconds: the nearest tenth.
/// Where `ms` lies exactly between two tenths, the double-precision quotient
/// decides: above the exact quotient the larger tenth is shown, below it the
/// smaller, and where the quotient is exact, the even tenth.
pub open spec fn spec_shown_tenths(ms: u64) -> nat {
    let tenths = (ms / 100) as nat;
    let rest = ms % 100;
    if rest < 50 {
        tenths
    } else if rest > 50 {
        tenths + 1
    } else if ms % 500 == 250 {
        if tenths % 2 == 0 {
            tenths
        } else {
            tenths + 1
        }
    } else if spec_quotient_rounds_up(ms) {
        tenths + 1
    } else {
        tenths
    }
}

/// A duration as text: milliseconds below one second, seconds with one
/// decimal below one minute, minutes and whole seconds from there on.
pub open spec fn spec_format_duration(ms: u64) -> Seq<char> {
    if ms < 1000 {
        spec_decimal(ms as nat) + "ms"@
    } else if ms < 60_000 {
        spec_decimal(spec_shown_tenths(ms) / 10) + "."@ + spec_decimal(spec_shown_tenths(ms) % 10)
            + "s"@
    } else {
        spec_decimal((ms / 1000 / 60) as nat) + "m"@ + spec_decimal((ms / 1000 % 60) as nat)
            + "s"@
    }
}

fn fraction_scale(ms: u64) -> (scale: u128)
    requires
        1000 <= ms < 60_000,
    ensures
        scale == spec_pow2(spec_fraction_bits(ms)),
        scale <= 0x10_0000_0000_0000,
{
    proof {
        lemma_pow2_values();
    }
    if ms >= 32_000 {
        0x8000_0000_0000
    } else if ms >= 16_000 {
        0x1_0000_0000_0000
    } else if ms >= 8_000 {
        0x2_0000_0000_0000
    } else if ms >= 4_000 {
        0x4_0000_0000_0000
    } else if ms >= 2_000 {
        0x8_0000_0000_0000
    } else {
        0x10_0000_0000_0000
    }
}

proof fn lemma_pow2_step(bits: nat)
    ensures
        spec_pow2(bits + 8) == 256 * spec_pow2(bits),
{
    reveal_with_fuel(spec_pow2, 9);
}

proof fn lemma_pow2_values()
    ensures
        spec_pow2(47) == 0x8000_0000_0000,
        spec_pow2(48) == 0x1_0000_0000_0000,
        spec_pow2(49) == 0x2_0000_0000_0000,
        spec_pow2(50) == 0x4_0000_0000_0000,
        spec_pow2(51) == 0x8_0000_0000_0000,
        spec_pow2(52) == 0x10_0000_0000_0000,
{
    reveal_with_fuel(spec_pow2, 8);
    assert(spec_pow2(7) == 128);
    lemma_pow2_step(7);
    lemma_pow2_step(15);
    lemma_pow2_step(23);
    lemma_pow2_step(31);
    lemma_pow2_step(39);
    assert(spec_pow2(47) == 0x8000_0000_0000);
}

fn shown_tenths(ms: u64) -> (tenths: u64)
    requires
        1000 <= ms < 60_000,
    ensures
        tenths == spec_shown_tenths(ms),
        10 <= tenths <= 600,
{
    let tenths = ms / 100;
    let rest = ms % 100;
    if rest < 50 {
        tenths
    } else if rest > 50 {
        tenths + 1
    } else if ms % 500 == 250 {
        if tenths % 2 == 0 {
            tenths
        } else {
            tenths + 1
        }
    } else {
        let scale = fraction_scale(ms);
        assert(ms as u128 * scale <= 60_000 * 0x10_0000_0000_0000) by (nonlinear_arith)
            requires
                ms < 60_000,
                scale <= 0x10_0000_0000_0000,
        ;
        let scaled: u128 = ms as u128 * scale;
        let below = scaled / 1000;
        let remainder = scaled % 1000;
        if remainder * 2 > 1000 || (remainder * 2 == 1000 && below % 2 == 1) {
            tenths + 1
        } else {
            tenths
        }
    }
}

/// Writes a duration of `ms` milliseconds for display.
pub fn format_duration(ms: u64) -> (text: String)
    ensures
        text@ == spec_format_duration(ms),
{
    if ms < 1000 {
        let mut text = format_u64(ms);
        text.append("ms");
        text
    } else if ms < 60_000 {
        let tenths = shown_tenths(ms);
        let mut text = format_u64(tenths / 10);
        text.append(".");
        let fraction = format_u64(tenths % 10);
        text.append(fraction.as_str());
        text.append("s");
        text
    } else {
        let seconds = ms / 1000;
        let mut text = format_u64(seconds / 60);
        text.append("m");
        let rest = format_u64(seconds % 60);
        text.append(rest.as_str());
        text.append("s");
        text
    }
}

} // verus!
