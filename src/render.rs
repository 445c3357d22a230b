use vstd::prelude::*;

use rand::rngs::StdRng;

use crate::config::{frame_count_spec, lemma_pow2_monotone, RenderConfig};
use crate::quantize::{fits_bit_depth, quantize, quantize_spec};
use crate::selection::{draw_below, seeded_rng};

verus! {

/// Sum of a sequence of counts.
pub open spec fn total(s: Seq<u64>) -> nat
    decreases s.len(),
{
    if s.len() == 0 {
        0
    } else {
        total(s.drop_last()) + s.last() as nat
    }
}

/// Raising one count by one raises the sum by one.
pub proof fn lemma_total_bump(s: Seq<u64>, i: int)
    requires
        0 <= i < s.len(),
        s[i] < u64::MAX,
    ensures
        total(s.update(i, (s[i] + 1) as u64)) == total(s) + 1,
    decreases s.len(),
{
    let t = s.update(i, (s[i] + 1) as u64);
    if i == s.len() - 1 {
        assert(t.drop_last() =~= s.drop_last());
    } else {
        assert(t.drop_last() =~= s.drop_last().update(i, (s[i] + 1) as u64));
        lemma_total_bump(s.drop_last(), i);
    }
}

/// A sequence of zeros sums to zero.
pub proof fn lemma_total_zeros(n: nat)
    ensures
        total(Seq::new(n, |i: int| 0u64)) == 0,
    decreases n,
{
    if n > 0 {
        assert(Seq::new(n, |i: int| 0u64).drop_last() =~= Seq::new((n - 1) as nat, |i: int| 0u64));
        lemma_total_zeros((n - 1) as nat);
    }
}

/// The render loop as a state machine. Each step picks, uniformly at random,
/// which member of a pool of oscillators supplies the next frame
/// (`next_source`), then takes that oscillator's sample, already scaled by
/// the maximum amplitude and rounded, and appends it quantised to the sample
/// buffer (`accept`). The buffer is append-only and ends with exactly one
/// entry per frame. Each member of the pool keeps the number of frames it has
/// been chosen for, which is the phase step of its next sample.
pub struct Renderer {
    config: RenderConfig,
    rng: StdRng,
    pool_len: usize,
    frames: usize,
    samples: Vec<i32>,
    picks: Vec<u64>,
    draws: u64,
}

impl Renderer {
    /// Configuration of the render.
    pub closed spec fn config_spec(&self) -> RenderConfig {
        self.config
    }

    /// Number of oscillators to choose from.
    pub closed spec fn pool_len_spec(&self) -> nat {
        self.pool_len as nat
    }

    /// Number of frames the finished buffer holds.
    pub closed spec fn frames_spec(&self) -> nat {
        self.frames as nat
    }

    /// The quantised samples appended so far, in order.
    pub closed spec fn samples_spec(&self) -> Seq<i32> {
        self.samples@
    }

    /// How many times each member of the pool has been chosen.
    pub closed spec fn picks_spec(&self) -> Seq<u64> {
        self.picks@
    }

    /// How many choices have been made in all.
    pub closed spec fn draws_spec(&self) -> nat {
        self.draws as nat
    }

    /// The state is consistent: a usable configuration, a non-empty pool, a
    /// frame total that matches the configuration, no more samples than
    /// frames, each sample within the signed range of the bit depth, and one
    /// choice count per pool member, none above the number of choices, which
    /// the counts add up to.
    pub open spec fn wf(&self) -> bool {
        &&& self.config_spec().wf()
        &&& self.pool_len_spec() > 0
        &&& self.frames_spec() == frame_count_spec(
            self.config_spec().sample_rate as nat,
            self.config_spec().duration_ms as nat,
        )
        &&& self.samples_spec().len() <= self.frames_spec()
        &&& forall|i: int|
            0 <= i < self.samples_spec().len() ==> fits_bit_depth(
                #[trigger] self.samples_spec()[i] as int,
                self.config_spec().bit_depth as nat,
            )
        &&& self.picks_spec().len() == self.pool_len_spec()
        &&& forall|i: int|
            0 <= i < self.picks_spec().len() ==> #[trigger] self.picks_spec()[i] <= self.draws_spec()
        &&& total(self.picks_spec()) == self.draws_spec()
    }

    /// Every frame has its sample.
    pub open spec fn done_spec(&self) -> bool {
        self.samples_spec().len() == self.frames_spec()
    }

    /// Starts a render of `config` over a pool of `pool_len` oscillators,
    /// with the choice of oscillators drawn from a generator seeded by
    /// `seed`. A single oscillator is a pool of one. `None` where the pool is
    /// empty or the frame count does not fit in `usize`.
    pub fn new(config: RenderConfig, pool_len: usize, seed: u64) -> (r: Option<Renderer>)
        requires
            config.wf(),
        ensures
            r is Some <==> (pool_len > 0 && frame_count_spec(
                config.sample_rate as nat,
                config.duration_ms as nat,
            ) <= usize::MAX),
            r matches Some(s) ==> s.wf() && s.config_spec() == config
                && s.pool_len_spec() == pool_len && s.samples_spec().len() == 0
                && s.draws_spec() == 0 && s.picks_spec() == Seq::new(pool_len as nat, |i: int| 0u64),
    {
        let total: u64 = config.frame_count();
        if pool_len == 0 || total > usize::MAX as u64 {
            None
        } else {
            let mut picks: Vec<u64> = Vec::new();
            while picks.len() < pool_len
                invariant
                    picks@.len() <= pool_len,
                    forall|i: int| 0 <= i < picks@.len() ==> picks@[i] == 0u64,
                decreases pool_len - picks@.len(),
            {
                picks.push(0);
            }
            assert(picks@ == Seq::new(pool_len as nat, |i: int| 0u64));
            proof {
                lemma_total_zeros(pool_len as nat);
            }
            Some(
                Renderer {
                    config,
                    rng: seeded_rng(seed),
                    pool_len,
                    frames: total as usize,
                    samples: Vec::new(),
                    picks,
                    draws: 0,
                },
            )
        }
    }

    /// Number of oscillators to choose from.
    pub fn pool_len(&self) -> (r: usize)
        ensures
            r == self.pool_len_spec(),
    {
        self.pool_len
    }

    /// Number of frames the finished buffer holds.
    pub fn frame_total(&self) -> (r: usize)
        ensures
            r == self.frames_spec(),
    {
        self.frames
    }

    /// The quantised samples appended so far.
    pub fn samples(&self) -> (r: &Vec<i32>)
        ensures
            r@ == self.samples_spec(),
    {
        &self.samples
    }

    /// How many times each member of the pool has been chosen.
    pub fn picks(&self) -> (r: &Vec<u64>)
        ensures
            r@ == self.picks_spec(),
    {
        &self.picks
    }

    /// How many choices have been made in all.
    pub fn draws(&self) -> (r: u64)
        ensures
            r == self.draws_spec(),
    {
        self.draws
    }

    /// Whether every frame has its sample.
    pub fn is_done(&self) -> (r: bool)
        requires
            self.wf(),
        ensures
            r == self.done_spec(),
    {
        self.samples.len() == self.frames
    }

    /// Picks the member of the pool that supplies the next frame: an index
    /// below the pool's length, drawn afresh for each frame. The chosen
    /// member's count goes up by one, the others stay as they were, and
    /// nothing else of the state changes.
    pub fn next_source(&mut self) -> (r: usize)
        requires
            old(self).wf(),
            old(self).draws_spec() < u64::MAX,
        ensures
            final(self).wf(),
            r < final(self).pool_len_spec(),
            final(self).picks_spec() == old(self).picks_spec().update(
                r as int,
                (old(self).picks_spec()[r as int] + 1) as u64,
            ),
            final(self).draws_spec() == old(self).draws_spec() + 1,
            final(self).config_spec() == old(self).config_spec(),
            final(self).pool_len_spec() == old(self).pool_len_spec(),
            final(self).frames_spec() == old(self).frames_spec(),
            final(self).samples_spec() == old(self).samples_spec(),
    {
        let r: usize = draw_below(&mut self.rng, self.pool_len);
        let count: u64 = self.picks[r];
        proof {
            lemma_total_bump(self.picks@, r as int);
        }
        self.picks.set(r, count + 1);
        self.draws = self.draws + 1;
        r
    }

    /// Appends the next frame: `rounded` is the oscillator's sample scaled by
    /// the maximum amplitude and rounded; it is stored quantised, clamped to
    /// the signed range of the bit depth.
    pub fn accept(&mut self, rounded: i64)
        requires
            old(self).wf(),
            !old(self).done_spec(),
        ensures
            final(self).wf(),
            final(self).samples_spec() == old(self).samples_spec().push(
                quantize_spec(rounded as int, old(self).config_spec().bit_depth as nat) as i32,
            ),
            final(self).config_spec() == old(self).config_spec(),
            final(self).pool_len_spec() == old(self).pool_len_spec(),
            final(self).frames_spec() == old(self).frames_spec(),
            final(self).picks_spec() == old(self).picks_spec(),
            final(self).draws_spec() == old(self).draws_spec(),
    {
        let q: i32 = quantize(rounded, self.config.bit_depth);
        self.samples.push(q);
    }

    /// The finished buffer: one quantised sample per frame, in order.
    pub fn finish(self) -> (r: Vec<i32>)
        requires
            self.wf(),
            self.done_spec(),
        ensures
            r@ == self.samples_spec(),
            r@.len() == frame_count_spec(
                self.config_spec().sample_rate as nat,
                self.config_spec().duration_ms as nat,
            ),
    {
        self.samples
    }

    /// The finished buffer as 16-bit samples, for a render of at most 16
    /// bits, where every quantised sample fits.
    pub fn finish_pcm16(self) -> (r: Vec<i16>)
        requires
            self.wf(),
            self.done_spec(),
            self.config_spec().bit_depth <= 16,
        ensures
            r@.len() == self.samples_spec().len(),
            r@.len() == frame_count_spec(
                self.config_spec().sample_rate as nat,
                self.config_spec().duration_ms as nat,
            ),
            forall|i: int| 0 <= i < r@.len() ==> r@[i] as int == self.samples_spec()[i] as int,
    {
        proof {
            lemma_pow2_monotone((self.config.bit_depth - 1) as nat, 15);
            reveal_with_fuel(crate::config::pow2_of, 16);
        }
        let mut out: Vec<i16> = Vec::new();
        let mut i: usize = 0;
        while i < self.samples.len()
            invariant
                i <= self.samples@.len(),
                out@.len() == i,
                self.wf(),
                self.config.bit_depth <= 16,
                crate::config::pow2_of((self.config.bit_depth - 1) as nat) <= 32768,
                forall|j: int| 0 <= j < i ==> out@[j] as int == self.samples@[j] as int,
            decreases self.samples@.len() - i,
        {
            out.push(self.samples[i] as i16);
            i = i + 1;
        }
        out
    }
}

} // verus!
