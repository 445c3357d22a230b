use vstd::prelude::*;

verus! {

/// Sample rate of the reference render, in hertz.
pub const REFERENCE_SAMPLE_RATE: u32 = 44100;

/// Length of the reference render, in milliseconds.
pub const REFERENCE_DURATION_MS: u32 = 2000;

/// Bit depth of the reference render.
pub const REFERENCE_BIT_DEPTH: u32 = 16;

/// Largest bit depth that a sample of this library can be quantised to.
pub const MAX_BIT_DEPTH: u32 = 32;

/// Two to the power `n`.
pub open spec fn pow2_of(n: nat) -> nat
    decreases n,
{
    if n == 0 {
        1
    } else {
        2 * pow2_of((n - 1) as nat)
    }
}

/// Largest magnitude of a signed sample of `bit_depth` bits, taken
/// symmetrically: `2^(bit_depth - 1) - 1`.
pub open spec fn max_amplitude_spec(bit_depth: nat) -> int {
    pow2_of((bit_depth - 1) as nat) - 1
}

/// Number of frames in a render of `duration_ms` milliseconds at
/// `sample_rate` hertz, rounded to the nearest frame (halves upwards).
pub open spec fn frame_count_spec(sample_rate: nat, duration_ms: nat) -> nat {
    ((sample_rate * duration_ms + 500) / 1000) as nat
}

/// A bit depth that quantisation supports.
pub open spec fn valid_bit_depth(bit_depth: nat) -> bool {
    1 <= bit_depth <= MAX_BIT_DEPTH
}

/// Powers of two grow with the exponent.
pub proof fn lemma_pow2_monotone(a: nat, b: nat)
    requires
        a <= b,
    ensures
        pow2_of(a) <= pow2_of(b),
    decreases b,
{
    if a < b {
        lemma_pow2_monotone(a, (b - 1) as nat);
    }
}

/// Parameters of one render: sample rate, length and bit depth.
pub struct RenderConfig {
    pub sample_rate: u32,
    pub duration_ms: u32,
    pub bit_depth: u32,
}

impl RenderConfig {
    /// The configuration is usable for quantisation.
    pub open spec fn wf(&self) -> bool {
        valid_bit_depth(self.bit_depth as nat)
    }

    /// Builds a configuration; `None` where the bit depth lies outside
    /// `1..=32`.
    pub fn new(sample_rate: u32, duration_ms: u32, bit_depth: u32) -> (r: Option<RenderConfig>)
        ensures
            r is Some <==> valid_bit_depth(bit_depth as nat),
            r matches Some(c) ==> c.wf() && c.sample_rate == sample_rate
                && c.duration_ms == duration_ms && c.bit_depth == bit_depth,
    {
        if 1 <= bit_depth && bit_depth <= MAX_BIT_DEPTH {
            Some(RenderConfig { sample_rate, duration_ms, bit_depth })
        } else {
            None
        }
    }

    /// Mono, 44100 Hz, two seconds, 16 bits.
    pub fn reference() -> (r: RenderConfig)
        ensures
            r.wf(),
            r.sample_rate == REFERENCE_SAMPLE_RATE,
            r.duration_ms == REFERENCE_DURATION_MS,
            r.bit_depth == REFERENCE_BIT_DEPTH,
    {
        RenderConfig {
            sample_rate: REFERENCE_SAMPLE_RATE,
            duration_ms: REFERENCE_DURATION_MS,
            bit_depth: REFERENCE_BIT_DEPTH,
        }
    }

    /// Number of frames that a render of this configuration produces.
    pub fn frame_count(&self) -> (r: u64)
        ensures
            r == frame_count_spec(self.sample_rate as nat, self.duration_ms as nat),
    {
        let rate: u64 = self.sample_rate as u64;
        let ms: u64 = self.duration_ms as u64;
        assert(rate * ms <= 0xffff_ffffu64 * 0xffff_ffffu64) by (nonlinear_arith)
            requires
                rate <= 0xffff_ffffu64,
                ms <= 0xffff_ffffu64,
        ;
        let total: u64 = rate * ms;
        (total + 500) / 1000
    }

    /// Largest magnitude of a quantised sample, `2^(bit_depth - 1) - 1`.
    pub fn max_amplitude(&self) -> (r: i64)
        requires
            self.wf(),
        ensures
            r == max_amplitude_spec(self.bit_depth as nat),
    {
        max_amplitude(self.bit_depth)
    }
}

/// Largest magnitude of a signed sample of `bit_depth` bits,
/// `2^(bit_depth - 1) - 1`.
pub fn max_amplitude(bit_depth: u32) -> (r: i64)
    requires
        valid_bit_depth(bit_depth as nat),
    ensures
        r == max_amplitude_spec(bit_depth as nat),
        0 <= r < 0x8000_0000,
{
    let mut power: i64 = 1;
    let mut e: u32 = 1;
    while e < bit_depth
        invariant
            1 <= e <= bit_depth <= MAX_BIT_DEPTH,
            power == pow2_of((e - 1) as nat),
        decreases bit_depth - e,
    {
        proof {
            lemma_pow2_monotone((e - 1) as nat, 30);
            reveal_with_fuel(pow2_of, 31);
        }
        power = power * 2;
        e = e + 1;
    }
    proof {
        lemma_pow2_monotone((e - 1) as nat, 31);
        reveal_with_fuel(pow2_of, 32);
    }
    power - 1
}

} // verus!
