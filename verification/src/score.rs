//! Scores in fixed point.
//!
//! A score is a dissimilarity between 0 (identical) and 32 (as unlike as two
//! 32-bit codes can be on average). It is held as a count of steps of 2^-24.
//! The matcher reports the score of a segment as an IEEE 754 binary64 number;
//! this module reads the bit pattern of such a number and gives its value in
//! steps, rounded down.

use vstd::arithmetic::power2::*;
use vstd::prelude::*;

verus! {

/// The number of steps in one whole unit of score: 2^24.
pub const SCORE_UNIT: u32 = 0x100_0000;

/// The greatest score, 32 units, in steps: 2^29.
pub const MAX_SCORE: u32 = 0x2000_0000;

/// A dissimilarity, in steps of 2^-24. Lower is more similar.
#[derive(Debug, Clone, Copy, PartialEq, Eq, Structural)]
pub struct Score {
    pub raw: u32,
}

/// Whether the sign bit of a binary64 pattern is set.
pub open spec fn sign_bit(bits: u64) -> bool {
    bits >= 0x8000_0000_0000_0000
}

/// The eleven exponent bits of a binary64 pattern.
pub open spec fn exponent_field(bits: u64) -> int {
    ((bits / 0x10_0000_0000_0000) % 0x800) as int
}

/// The 52 fraction bits of a binary64 pattern.
pub open spec fn fraction_field(bits: u64) -> int {
    (bits % 0x10_0000_0000_0000) as int
}

/// The integer significand: the fraction bits, with the implicit leading one
/// for a normal number.
pub open spec fn significand(bits: u64) -> int {
    if exponent_field(bits) == 0 {
        fraction_field(bits)
    } else {
        0x10_0000_0000_0000 + fraction_field(bits)
    }
}

/// The exponent `e` for which a finite pattern has the magnitude
/// `significand * 2^(e - 1075)`.
pub open spec fn scale(bits: u64) -> int {
    if exponent_field(bits) == 0 {
        1
    } else {
        exponent_field(bits)
    }
}

/// Whether the pattern is a finite number `v` with `0 <= v < 32`. Negative
/// zero counts as zero; infinities and NaNs are out.
pub open spec fn in_score_range(bits: u64) -> bool {
    exponent_field(bits) <= 1027 && (sign_bit(bits) ==> significand(bits) == 0)
}

/// The value of a pattern in score range, in steps of 2^-24, rounded down.
pub open spec fn steps(bits: u64) -> int {
    significand(bits) / (pow2((1051 - scale(bits)) as nat) as int)
}

/// The score that a binary64 pattern stands for, if it is in range.
pub open spec fn score_of_bits(bits: u64) -> Option<Score> {
    if in_score_range(bits) {
        Some(Score { raw: steps(bits) as u32 })
    } else {
        None
    }
}

/// A pattern in score range stands for fewer steps than `MAX_SCORE`.
pub proof fn steps_in_range(bits: u64)
    requires
        in_score_range(bits),
    ensures
        0 <= steps(bits) < MAX_SCORE,
{
    let shift = (1051 - scale(bits)) as nat;
    let sig = significand(bits);
    let divisor = pow2(shift) as int;
    assert(0 <= sig < 0x20_0000_0000_0000);
    assert(divisor >= 0x100_0000) by {
        lemma2_to64();
        if shift > 24 {
            lemma_pow2_strictly_increases(24, shift);
        }
    }
    assert(0 <= sig / divisor <= sig / 0x100_0000) by {
        vstd::arithmetic::div_mod::lemma_div_pos_is_pos(sig, divisor);
        vstd::arithmetic::div_mod::lemma_div_is_ordered_by_denominator(sig, 0x100_0000, divisor);
    }
}

/// Reads the score out of the bit pattern of a binary64 number: `Some` for a
/// finite value from 0 up to but not including 32, in steps of 2^-24 rounded
/// down, and `None` for every other pattern.
pub fn score_of(bits: u64) -> (r: Option<Score>)
    ensures
        r == score_of_bits(bits),
        r matches Some(s) ==> s.raw < MAX_SCORE,
{
    let exponent: u64 = (bits / 0x10_0000_0000_0000) % 0x800;
    let fraction: u64 = bits % 0x10_0000_0000_0000;
    if exponent > 1027 {
        return None;
    }
    let significand: u64 = if exponent == 0 {
        fraction
    } else {
        0x10_0000_0000_0000 + fraction
    };
    if bits >= 0x8000_0000_0000_0000 && significand != 0 {
        return None;
    }
    let shift: u64 = if exponent == 0 {
        1050
    } else {
        1051 - exponent
    };
    proof {
        steps_in_range(bits);
    }
    if shift >= 53 {
        proof {
            lemma2_to64_rest();
            if shift > 53 {
                lemma_pow2_strictly_increases(53, shift as nat);
            }
            vstd::arithmetic::div_mod::lemma_basic_div(significand as int, pow2(shift as nat) as int);
        }
        Some(Score { raw: 0 })
    } else {
        proof {
            vstd::bits::lemma_u64_shr_is_div(significand, shift);
        }
        Some(Score { raw: (significand >> shift) as u32 })
    }
}

} // verus!
