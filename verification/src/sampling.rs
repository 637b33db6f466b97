use vstd::prelude::*;

verus! {

/// Microseconds in one wall-clock second.
pub const SECOND_MICROS: u64 = 1_000_000;

/// One point of the throughput series: the completions tallied in one
/// wall-clock second. `second_index` counts the samples from one.
#[derive(Clone, Copy, Debug, PartialEq, Eq, Structural)]
pub struct Sample {
    pub second_index: u64,
    pub count: u64,
}

/// The sampler as a mathematical value.
pub struct SamplerState {
    /// The wall-clock second, counted from the clock's epoch, that the tally belongs to.
    pub current_second: nat,
    /// Number of samples emitted so far.
    pub emitted: nat,
    /// Completions tallied in the current second.
    pub tally: nat,
}

impl SamplerState {
    /// A sampler that starts its first second at `now`.
    pub open spec fn starting_at(now: u64) -> SamplerState {
        SamplerState { current_second: (now / SECOND_MICROS) as nat, emitted: 0, tally: 0 }
    }

    /// Whether `now` lies in another second than the tally.
    pub open spec fn rolls_over(self, now: u64) -> bool {
        now / SECOND_MICROS != self.current_second
    }

    /// The sample that a completion at `now` gives rise to: the tally of the
    /// second that has ended, if `now` lies in another one.
    pub open spec fn sample_at(self, now: u64) -> Option<Sample> {
        if self.rolls_over(now) {
            Some(Sample { second_index: (self.emitted + 1) as u64, count: self.tally as u64 })
        } else {
            None
        }
    }

    /// The sampler after a completion at `now`: the completion is tallied, in
    /// a new second if `now` lies in one.
    pub open spec fn observe(self, now: u64) -> SamplerState {
        if self.rolls_over(now) {
            SamplerState {
                current_second: (now / SECOND_MICROS) as nat,
                emitted: self.emitted + 1,
                tally: 1,
            }
        } else {
            SamplerState { tally: self.tally + 1, ..self }
        }
    }
}

/// Tallies completions by wall-clock second and emits one sample for each
/// second that ends.
#[derive(Debug)]
pub struct Sampler {
    current_second: u64,
    emitted: u64,
    tally: u64,
}

impl View for Sampler {
    type V = SamplerState;

    closed spec fn view(&self) -> SamplerState {
        SamplerState {
            current_second: self.current_second as nat,
            emitted: self.emitted as nat,
            tally: self.tally as nat,
        }
    }
}

impl Sampler {
    /// A sampler that starts its first second at `now`, in microseconds.
    pub fn new(now: u64) -> (sampler: Sampler)
        ensures
            sampler@ == SamplerState::starting_at(now),
    {
        Sampler { current_second: now / SECOND_MICROS, emitted: 0, tally: 0 }
    }

    /// Number of samples emitted so far.
    pub fn emitted(&self) -> (n: u64)
        ensures
            n == self@.emitted,
    {
        self.emitted
    }

    /// Completions tallied in the current second.
    pub fn tally(&self) -> (n: u64)
        ensures
            n == self@.tally,
    {
        self.tally
    }

    /// Tallies a completion at `now`, in microseconds. When the second has
    /// rolled over, the tally of the second that ended comes back as a
    /// sample, and the completion opens the new tally.
    pub fn observe(&mut self, now: u64) -> (sample: Option<Sample>)
        requires
            old(self)@.emitted < u64::MAX,
            old(self)@.tally < u64::MAX,
        ensures
            sample == old(self)@.sample_at(now),
            final(self)@ == old(self)@.observe(now),
    {
        let second: u64 = now / SECOND_MICROS;
        if second != self.current_second {
            let sample = Sample { second_index: self.emitted + 1, count: self.tally };
            self.current_second = second;
            self.emitted = self.emitted + 1;
            self.tally = 1;
            Some(sample)
        } else {
            self.tally = self.tally + 1;
            None
        }
    }
}

/// Samples are numbered without a gap: a sample carries the number of the
/// samples emitted before it plus one, and its count is the tally of
/// completions since the sample before.
pub proof fn lemma_samples_are_consecutive(s: SamplerState, first: u64, second: u64)
    requires
        s.rolls_over(first),
        s.observe(first).rolls_over(second),
        s.emitted + 2 <= u64::MAX,
    ensures
        s.sample_at(first)->Some_0.second_index + 1 == s.observe(first).sample_at(
            second,
        )->Some_0.second_index,
{
}

} // verus!
