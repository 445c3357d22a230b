use vstd::prelude::*;

use crate::config::{lemma_pow2_monotone, max_amplitude, max_amplitude_spec, valid_bit_depth};

verus! {

/// `v` held to the closed range `[lo, hi]`.
pub open spec fn clamp_spec(v: int, lo: int, hi: int) -> int {
    if v < lo {
        lo
    } else if v > hi {
        hi
    } else {
        v
    }
}

/// `v` lies in the signed range of `bit_depth` bits,
/// `[-max_amplitude - 1, max_amplitude]`.
pub open spec fn fits_bit_depth(v: int, bit_depth: nat) -> bool {
    -max_amplitude_spec(bit_depth) - 1 <= v <= max_amplitude_spec(bit_depth)
}

/// A rounded, scaled sample held to the signed range of `bit_depth` bits,
/// `[-max_amplitude - 1, max_amplitude]`.
pub open spec fn quantize_spec(rounded: int, bit_depth: nat) -> int {
    clamp_spec(rounded, -max_amplitude_spec(bit_depth) - 1, max_amplitude_spec(bit_depth))
}

/// Quantises a sample that has already been scaled by the maximum amplitude
/// and rounded: values beyond the signed range of `bit_depth` bits are
/// clamped to its ends, so the result always fits.
pub fn quantize(rounded: i64, bit_depth: u32) -> (r: i32)
    requires
        valid_bit_depth(bit_depth as nat),
    ensures
        r == quantize_spec(rounded as int, bit_depth as nat),
        fits_bit_depth(r as int, bit_depth as nat),
{
    let hi: i64 = max_amplitude(bit_depth);
    let lo: i64 = -hi - 1;
    if rounded < lo {
        lo as i32
    } else if rounded > hi {
        hi as i32
    } else {
        rounded as i32
    }
}

/// Quantisation is symmetric at full scale: at every bit depth,
/// `max_amplitude` and `-max_amplitude` come out unchanged. The one extra
/// negative value, `-max_amplitude - 1`, is reached only by clamping.
pub proof fn lemma_full_scale_symmetric(bit_depth: nat)
    requires
        valid_bit_depth(bit_depth),
    ensures
        quantize_spec(max_amplitude_spec(bit_depth), bit_depth) == max_amplitude_spec(bit_depth),
        quantize_spec(-max_amplitude_spec(bit_depth), bit_depth) == -max_amplitude_spec(bit_depth),
        quantize_spec(-max_amplitude_spec(bit_depth) - 1, bit_depth) == -max_amplitude_spec(bit_depth) - 1,
{
    lemma_pow2_monotone(0, (bit_depth - 1) as nat);
}

} // verus!
