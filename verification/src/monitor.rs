use vstd::prelude::*;

verus! {

/// The level monitor lets its peak level decay whenever the number of samples
/// it has seen is a multiple of this period (one second at 48 kHz).
pub const PEAK_DECAY_PERIOD: usize = 48_000;

/// The running count of samples that the level monitor has seen.
pub struct SampleClock {
    count: usize,
}

impl View for SampleClock {
    type V = nat;

    closed spec fn view(&self) -> nat {
        self.count as nat
    }
}

impl SampleClock {
    /// A clock that has seen no samples.
    pub fn new() -> (clock: Self)
        ensures
            clock@ == 0,
    {
        SampleClock { count: 0 }
    }

    /// The number of samples seen so far.
    pub fn count(&self) -> (n: usize)
        ensures
            n == self@,
    {
        self.count
    }

    /// Counts a buffer of `n` samples and says whether the peak level is due to
    /// decay now: exactly when the new total is a multiple of
    /// `PEAK_DECAY_PERIOD`.
    pub fn advance(&mut self, n: usize) -> (decay: bool)
        requires
            old(self)@ + n <= usize::MAX,
        ensures
            final(self)@ == old(self)@ + n,
            decay == (final(self)@ % (PEAK_DECAY_PERIOD as nat) == 0),
    {
        self.count = self.count + n;
        self.count % PEAK_DECAY_PERIOD == 0
    }
}

} // verus!
