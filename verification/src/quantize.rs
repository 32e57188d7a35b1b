//! Saturating conversion of 32-bit float channels to 8-bit channels.
//!
//! A channel is carried as the IEEE-754 bit pattern of a single-precision
//! number (what `f32::to_bits` gives), so that the conversion is exact integer
//! arithmetic: the channel is multiplied by 255 with the rounding of a
//! single-precision multiplication, clamped to `0..=255`, and truncated.

use rayon::iter::{IntoParallelRefIterator, ParallelIterator};
use vstd::prelude::*;

verus! {

/// `2^k`.
pub open spec fn two_to(k: nat) -> nat
    decreases k,
{
    if k == 0 {
        1
    } else {
        2 * two_to((k - 1) as nat)
    }
}

/// The sign bit of a bit pattern.
pub open spec fn sign_of(bits: u32) -> bool {
    bits >= 0x8000_0000
}

/// The biased exponent field of a bit pattern, `0..=255`.
pub open spec fn exponent_of(bits: u32) -> nat {
    ((bits as nat) / 0x80_0000) % 256
}

/// The fraction field of a bit pattern, `0..2^23`.
pub open spec fn fraction_of(bits: u32) -> nat {
    (bits as nat) % 0x80_0000
}

/// `value / 2^drop`, rounded to the nearest integer, ties to the even one.
pub open spec fn round_half_even(value: nat, drop: nat) -> nat {
    let unit = two_to(drop);
    let whole = value / unit;
    let rest = value % unit;
    if 2 * rest > unit || (2 * rest == unit && whole % 2 == 1) {
        whole + 1
    } else {
        whole
    }
}

/// The number of low bits that a single-precision multiplication drops from
/// the exact product `255 * significand` of a normal number: the product has
/// 31 or 32 bits, the result keeps 24.
pub open spec fn dropped_bits(product: nat) -> nat {
    if product < 0x8000_0000 {
        7
    } else {
        8
    }
}

/// The 8-bit value of one channel.
///
/// For the number `x` that `bits` encodes this is
/// `trunc(min(max(x * 255, 0), 255))`, where the product is rounded to single
/// precision (nearest, ties to even) and a NaN counts as 0.
///
/// A normal `x` below 1 is `significand * 2^(exponent - 150)` with a 24-bit
/// significand. The product with 255 is rounded to 24 bits by dropping 7 or 8
/// bits, which leaves `kept * 2^(exponent - 150 + dropped)`; the exponent of
/// that is negative, so its integer part is a quotient.
pub open spec fn quantized(bits: u32) -> nat {
    let exponent = exponent_of(bits);
    if exponent == 255 {
        if fraction_of(bits) == 0 && !sign_of(bits) {
            255
        } else {
            0
        }
    } else if sign_of(bits) || exponent == 0 {
        0
    } else if exponent >= 127 {
        255
    } else {
        let product = 255 * (0x80_0000 + fraction_of(bits));
        let dropped = dropped_bits(product);
        let kept = round_half_even(product, dropped);
        let whole = kept / two_to((150 - exponent - dropped) as nat);
        if whole > 255 {
            255
        } else {
            whole
        }
    }
}

/// The 8-bit channels of a sequence of float channels, one for one.
pub open spec fn quantized_seq(channels: Seq<u32>) -> Seq<u8> {
    Seq::new(channels.len(), |i: int| quantized(channels[i]) as u8)
}

/// Every channel value fits a byte.
pub proof fn lemma_quantized_is_byte(bits: u32)
    ensures
        quantized(bits) <= 255,
{
}

/// Rounding picks the nearest multiple of the unit: the rounded value,
/// scaled back, is no more than half a unit away from the value, and where the
/// value lies in the middle between two multiples it is the even one.
pub proof fn lemma_round_half_even_is_nearest(value: nat, drop: nat)
    ensures
        ({
            let unit = two_to(drop);
            let rounded = round_half_even(value, drop);
            &&& 2 * (rounded * unit - value) <= unit
            &&& 2 * (value - rounded * unit) <= unit
            &&& (2 * (rounded * unit - value) == unit || 2 * (value - rounded * unit) == unit)
                ==> rounded % 2 == 0
        }),
{
    let unit = two_to(drop);
    lemma_two_to_step(drop);
    let whole = value / unit;
    let rest = value % unit;
    assert(value == whole * unit + rest && 0 <= rest < unit) by (nonlinear_arith)
        requires
            whole == value / unit,
            rest == value % unit,
            unit >= 1,
    ;
    assert((whole + 1) * unit == whole * unit + unit) by (nonlinear_arith);
}

/// The conversion saturates: a negative number, a zero, a subnormal number
/// and a NaN give 0; a number of at least one, the positive infinity
/// included, gives 255; and a positive number below one gives less than 255.
pub proof fn lemma_quantized_saturates(bits: u32)
    ensures
        sign_of(bits) ==> quantized(bits) == 0,
        exponent_of(bits) == 0 ==> quantized(bits) == 0,
        exponent_of(bits) == 255 && fraction_of(bits) != 0 ==> quantized(bits) == 0,
        !sign_of(bits) && exponent_of(bits) >= 127 && !(exponent_of(bits) == 255 && fraction_of(
            bits,
        ) != 0) ==> quantized(bits) == 255,
        !sign_of(bits) && 1 <= exponent_of(bits) <= 126 ==> quantized(bits) <= 254,
{
    let exponent = exponent_of(bits);
    if !sign_of(bits) && 1 <= exponent <= 126 {
        let product = 255 * (0x80_0000 + fraction_of(bits));
        let dropped = dropped_bits(product);
        let kept = round_half_even(product, dropped);
        let shift = (150 - exponent - dropped) as nat;
        lemma_two_to_values();
        lemma_two_to_monotone(16, shift);
        lemma_round_half_even_is_nearest(product, dropped);
        assert(product <= 4278189825);
        if dropped == 7 {
            assert(product < 0x8000_0000);
            assert(kept * 128 <= product + 64);
            assert(kept <= 16777216);
            lemma_two_to_monotone(17, shift);
            assert(two_to(17) == 2 * two_to(16)) by {
                lemma_two_to_step(16);
            }
            assert(kept / two_to(shift) <= 128) by (nonlinear_arith)
                requires
                    kept <= 16777216,
                    two_to(shift) >= 131072,
            ;
        } else {
            assert(kept * 256 <= product + 128);
            assert(kept <= 16711679);
            assert(kept / two_to(shift) <= 254) by (nonlinear_arith)
                requires
                    kept <= 16711679,
                    two_to(shift) >= 65536,
            ;
        }
    }
}

proof fn lemma_two_to_values()
    ensures
        two_to(0) == 1,
        two_to(7) == 128,
        two_to(8) == 256,
        two_to(16) == 0x1_0000,
        two_to(24) == 0x100_0000,
        two_to(25) == 0x200_0000,
{
    reveal_with_fuel(two_to, 26);
}

proof fn lemma_two_to_step(k: nat)
    ensures
        two_to(k + 1) == 2 * two_to(k),
        two_to(k) >= 1,
    decreases k,
{
    if k > 0 {
        lemma_two_to_step((k - 1) as nat);
    }
}

proof fn lemma_two_to_monotone(a: nat, b: nat)
    requires
        a <= b,
    ensures
        two_to(a) <= two_to(b),
    decreases b,
{
    if a < b {
        lemma_two_to_monotone(a, (b - 1) as nat);
        lemma_two_to_step((b - 1) as nat);
    }
}

/// `2^k` for `k <= 25`; above that every quotient this module takes is zero,
/// and the caller does not ask.
fn power_of_two(k: u32) -> (p: u64)
    requires
        k <= 25,
    ensures
        p == two_to(k as nat),
        1 <= p <= 0x200_0000,
{
    let mut p: u64 = 1;
    let mut i: u32 = 0;
    proof {
        lemma_two_to_values();
    }
    while i < k
        invariant
            i <= k <= 25,
            p == two_to(i as nat),
            1 <= p,
            p <= two_to(25),
            two_to(25) == 0x200_0000,
        decreases k - i,
    {
        proof {
            lemma_two_to_step(i as nat);
            lemma_two_to_monotone((i + 1) as nat, 25);
        }
        p = p * 2;
        i = i + 1;
    }
    p
}

/// Rounds `value / 2^drop` to the nearest integer, ties to even.
fn round_to_nearest_even(value: u64, drop: u32) -> (rounded: u64)
    requires
        value < 0x1_0000_0000,
        drop <= 8,
    ensures
        rounded == round_half_even(value as nat, drop as nat),
        rounded <= 0x1_0000_0000,
{
    let unit: u64 = power_of_two(drop);
    let whole: u64 = value / unit;
    let rest: u64 = value % unit;
    if 2 * rest > unit || (2 * rest == unit && whole % 2 == 1) {
        whole + 1
    } else {
        whole
    }
}

/// Converts one float channel, given by its bit pattern, to its 8-bit value.
pub fn f32_to_u8_clamped(bits: u32) -> (value: u8)
    ensures
        value == quantized(bits),
{
    let exponent: u32 = (bits / 0x80_0000) % 256;
    let fraction: u32 = bits % 0x80_0000;
    let negative: bool = bits >= 0x8000_0000;
    if exponent == 255 {
        if fraction == 0 && !negative {
            255
        } else {
            0
        }
    } else if negative || exponent == 0 {
        0
    } else if exponent >= 127 {
        255
    } else {
        let product: u64 = 255 * (0x80_0000u64 + fraction as u64);
        let dropped: u32 = if product < 0x8000_0000 {
            7
        } else {
            8
        };
        let kept: u64 = round_to_nearest_even(product, dropped);
        let shift: u32 = 150 - exponent - dropped;
        if shift > 25 {
            proof {
                lemma_two_to_values();
                lemma_two_to_monotone(25, shift as nat);
                let divisor = two_to(shift as nat);
                assert(kept < divisor);
                assert(kept as nat / divisor == 0) by (nonlinear_arith)
                    requires
                        kept < divisor,
                ;
            }
            0
        } else {
            let whole: u64 = kept / power_of_two(shift);
            if whole > 255 {
                255
            } else {
                whole as u8
            }
        }
    }
}

/// `rayon`'s parallel iterator over the channels, mapped through
/// `f32_to_u8_clamped` and collected: the results, one for each channel, in
/// the order of the channels.
#[verifier::external_body]
fn map_channels(channels: &Vec<u32>) -> (bytes: Vec<u8>)
    ensures
        bytes@ == quantized_seq(channels@),
{
    channels.par_iter().map(|bits| f32_to_u8_clamped(*bits)).collect()
}

/// Converts every channel of an image, in order. The work is spread over the
/// threads of the machine.
pub fn quantize_channels(channels: &Vec<u32>) -> (bytes: Vec<u8>)
    ensures
        bytes@ == quantized_seq(channels@),
        bytes@.len() == channels@.len(),
        forall|i: int| 0 <= i < channels@.len() ==> bytes@[i] == quantized(channels@[i]),
{
    map_channels(channels)
}

} // verus!
