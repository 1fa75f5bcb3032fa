//! The accumulator of samples for one operation kind.

use vstd::prelude::*;
use crate::sample::{Sample, SampleView, sample_views};

verus! {

/// Why a sampler could not be started.
#[derive(Clone, Copy, Debug, PartialEq, Eq, Structural)]
pub enum ProfilerInitError {
    /// The clock gave no reading to take as the start of the profile.
    ClockUnavailable,
    /// The clock's reading lies before the epoch.
    StartBeforeEpoch,
}

/// What a [`Sampler`] holds.
pub struct SamplerView {
    /// The samples recorded so far, oldest first.
    pub samples: Seq<SampleView>,
    /// When the sampler was started, in nanoseconds since the epoch.
    pub start_nanos: i64,
}

/// Accumulates the samples of one operation kind, in the order they were
/// recorded. It accepts samples of any shape: whether they fit the declared
/// sample types is decided when a report is built.
pub struct Sampler {
    samples: Vec<Sample>,
    start_nanos: i64,
}

impl View for Sampler {
    type V = SamplerView;

    closed spec fn view(&self) -> SamplerView {
        SamplerView { samples: sample_views(self.samples@), start_nanos: self.start_nanos }
    }
}

/// What starting a sampler on the clock reading `clock` gives.
pub open spec fn started(clock: Option<i64>) -> Result<SamplerView, ProfilerInitError> {
    match clock {
        None => Err(ProfilerInitError::ClockUnavailable),
        Some(t) => if t < 0 {
            Err(ProfilerInitError::StartBeforeEpoch)
        } else {
            Ok(SamplerView { samples: Seq::empty(), start_nanos: t })
        },
    }
}

impl Sampler {
    /// Starts an empty sampler at the clock reading `clock`, in nanoseconds
    /// since the epoch. Without a reading, or with one before the epoch, no
    /// sampler is started and the reason is returned.
    pub fn new(clock: Option<i64>) -> (sampler: Result<Sampler, ProfilerInitError>)
        ensures
            match started(clock) {
                Ok(view) => sampler is Ok && sampler->Ok_0@ == view,
                Err(e) => sampler == Err::<Sampler, ProfilerInitError>(e),
            },
    {
        match clock {
            None => Err(ProfilerInitError::ClockUnavailable),
            Some(t) => {
                if t < 0 {
                    Err(ProfilerInitError::StartBeforeEpoch)
                } else {
                    let sampler = Sampler { samples: Vec::new(), start_nanos: t };
                    assert(sampler@.samples =~= Seq::empty());
                    Ok(sampler)
                }
            },
        }
    }

    /// Appends one sample with the given call context and measurements.
    pub fn record(&mut self, stack: Vec<u64>, values: Vec<i64>)
        ensures
            final(self)@ == (SamplerView {
                samples: old(self)@.samples.push(SampleView { stack: stack@, values: values@ }),
                ..old(self)@
            }),
    {
        let sample = Sample::new(stack, values);
        self.samples.push(sample);
        assert(sample_views(self.samples@) =~= sample_views(old(self).samples@).push(sample@));
    }

    /// A copy of every sample recorded so far, oldest first.
    pub fn snapshot(&self) -> (samples: Vec<Sample>)
        ensures
            sample_views(samples@) == self@.samples,
    {
        let mut copy: Vec<Sample> = Vec::new();
        let mut i: usize = 0;
        while i < self.samples.len()
            invariant
                i <= self.samples.len(),
                sample_views(copy@) == sample_views(self.samples@).take(i as int),
            decreases self.samples.len() - i,
        {
            let ghost before = copy@;
            let sample = self.samples[i].clone();
            copy.push(sample);
            assert(sample_views(copy@) =~= sample_views(before).push(sample@));
            assert(sample_views(self.samples@).take(i + 1) =~= sample_views(self.samples@).take(
                i as int,
            ).push(self.samples@[i as int]@));
            i += 1;
        }
        assert(sample_views(self.samples@).take(i as int) =~= sample_views(self.samples@));
        copy
    }

    /// How many samples have been recorded.
    pub fn len(&self) -> (count: usize)
        ensures
            count == self@.samples.len(),
    {
        self.samples.len()
    }

    /// When the sampler was started, in nanoseconds since the epoch.
    pub fn start_nanos(&self) -> (start: i64)
        ensures
            start == self@.start_nanos,
    {
        self.start_nanos
    }
}

} // verus!
