use vstd::prelude::*;

verus! {

/// The phase of a sine oscillator, held as the number of per-sample
/// increments taken since construction. The phase itself is
/// `steps × phase_increment`, exact and unreduced: a sample taken at step `k`
/// is `amplitude × sin(k × phase_increment)`.
pub struct PhaseCounter {
    steps: u64,
}

impl PhaseCounter {
    /// Number of increments taken so far.
    pub closed spec fn steps_spec(&self) -> nat {
        self.steps as nat
    }

    /// A counter at zero phase.
    pub fn new() -> (r: PhaseCounter)
        ensures
            r.steps_spec() == 0,
    {
        PhaseCounter { steps: 0 }
    }

    /// Number of increments taken so far.
    pub fn steps(&self) -> (r: u64)
        ensures
            r == self.steps_spec(),
    {
        self.steps
    }

    /// Returns the step at which this call's sample is taken, the phase
    /// before the increment, then advances the phase by one increment.
    pub fn advance(&mut self) -> (k: u64)
        requires
            old(self).steps_spec() < u64::MAX,
        ensures
            k == old(self).steps_spec(),
            final(self).steps_spec() == old(self).steps_spec() + 1,
    {
        let k: u64 = self.steps;
        self.steps = self.steps + 1;
        k
    }
}

} // verus!
