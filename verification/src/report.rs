//! Reports: what a sampler held, with the declared sample types and timing.

use vstd::prelude::*;
use crate::profiler::OperationProfiler;
use crate::sample::{sample_views, Sample, SampleView};
use crate::sampler::ProfilerInitError;

verus! {

/// The unit of a measurement.
#[derive(Clone, Copy, Debug, PartialEq, Eq, Hash, Structural)]
pub enum Unit {
    /// A number of events.
    Count,
    /// A time in nanoseconds.
    Nanoseconds,
    /// A size in bytes.
    Bytes,
}

impl Unit {
    /// The unit's name in an exported profile.
    pub open spec fn spec_name(self) -> Seq<char> {
        match self {
            Unit::Count => "count"@,
            Unit::Nanoseconds => "nanoseconds"@,
            Unit::Bytes => "bytes"@,
        }
    }

    /// The unit's name in an exported profile.
    pub fn name(self) -> (name: &'static str)
        ensures
            name@ == self.spec_name(),
    {
        match self {
            Unit::Count => "count",
            Unit::Nanoseconds => "nanoseconds",
            Unit::Bytes => "bytes",
        }
    }
}

/// What a [`SampleTypeDescriptor`] holds.
pub struct SampleTypeDescriptorView {
    /// What is measured.
    pub name: Seq<char>,
    /// The unit it is measured in.
    pub unit: Unit,
}

/// A declared sample type: what one value of each sample measures, and in
/// which unit. A report declares one for each value that its samples carry.
#[derive(Debug, PartialEq, Eq)]
pub struct SampleTypeDescriptor {
    /// What is measured, such as `object_store_get`.
    pub name: String,
    /// The unit it is measured in.
    pub unit: Unit,
}

impl View for SampleTypeDescriptor {
    type V = SampleTypeDescriptorView;

    open spec fn view(&self) -> SampleTypeDescriptorView {
        SampleTypeDescriptorView { name: self.name@, unit: self.unit }
    }
}

impl Clone for SampleTypeDescriptor {
    fn clone(&self) -> (copy: Self)
        ensures
            copy@ == self@,
    {
        SampleTypeDescriptor { name: self.name.clone(), unit: self.unit }
    }
}

impl SampleTypeDescriptor {
    /// The sample type called `name`, measured in `unit`.
    pub fn new(name: String, unit: Unit) -> (sample_type: SampleTypeDescriptor)
        ensures
            sample_type@ == (SampleTypeDescriptorView { name: name@, unit }),
    {
        SampleTypeDescriptor { name, unit }
    }
}

/// The views of the sample types of `types`, in order.
pub open spec fn sample_type_views(
    types: Seq<SampleTypeDescriptor>,
) -> Seq<SampleTypeDescriptorView> {
    types.map_values(|t: SampleTypeDescriptor| t@)
}

/// When the profiled run started and ended, in nanoseconds since the epoch.
#[derive(Clone, Copy, Debug, PartialEq, Eq, Structural)]
pub struct ReportTiming {
    /// The start of the run.
    pub start_nanos: i64,
    /// The end of the run.
    pub end_nanos: i64,
}

/// Why no report was built.
#[derive(Clone, Copy, Debug, PartialEq, Eq, Structural)]
pub enum ReportBuildError {
    /// The profiler's sampler never started.
    ProfilerFailed(ProfilerInitError),
    /// A sample does not carry one value per declared sample type.
    CardinalityMismatch {
        /// The position of the first such sample.
        sample: usize,
        /// How many sample types are declared.
        expected: usize,
        /// How many values that sample carries.
        found: usize,
    },
}

/// What a [`Report`] holds.
pub struct ReportView {
    /// Every sample, in the order it was recorded.
    pub samples: Seq<SampleView>,
    /// The declared sample types.
    pub sample_types: Seq<SampleTypeDescriptorView>,
    /// The timing of the run.
    pub timing: ReportTiming,
}

/// Whether every sample of `samples` carries exactly `arity` values.
pub open spec fn all_of_arity(samples: Seq<SampleView>, arity: nat) -> bool {
    forall|i: int| 0 <= i < samples.len() ==> (#[trigger] samples[i]).values.len() == arity
}

/// What assembling a report from these parts gives: the report that holds
/// exactly these parts, or the first sample whose number of values is not the
/// number of declared sample types.
pub open spec fn assembled(
    samples: Seq<SampleView>,
    sample_types: Seq<SampleTypeDescriptorView>,
    timing: ReportTiming,
    outcome: Result<ReportView, ReportBuildError>,
) -> bool {
    match outcome {
        Ok(report) => {
            &&& all_of_arity(samples, sample_types.len())
            &&& report == (ReportView { samples, sample_types, timing })
        },
        Err(ReportBuildError::CardinalityMismatch { sample, expected, found }) => {
            &&& sample < samples.len()
            &&& all_of_arity(samples.take(sample as int), sample_types.len())
            &&& expected == sample_types.len()
            &&& found == samples[sample as int].values.len()
            &&& found != expected
        },
        Err(ReportBuildError::ProfilerFailed(_)) => false,
    }
}

/// What building a report from `profiler` gives. From a profiler whose
/// sampler never started no report is built. From one that started, the
/// samples are assembled that its sampler held at a moment when its lock was
/// held for reading.
pub open spec fn built(
    profiler: OperationProfiler,
    sample_types: Seq<SampleTypeDescriptorView>,
    timing: ReportTiming,
    outcome: Result<ReportView, ReportBuildError>,
) -> bool {
    match profiler.init_error() {
        Some(e) => outcome == Err::<ReportView, ReportBuildError>(
            ReportBuildError::ProfilerFailed(e),
        ),
        None => exists|samples: Seq<SampleView>|
            #![trigger profiler.observed(samples)]
            profiler.observed(samples) && assembled(samples, sample_types, timing, outcome),
    }
}

/// All samples of one sampler, with the sample types declared for them and the
/// timing of the run. A report is never changed after it has been built, and
/// each of its samples carries one value per declared sample type.
pub struct Report {
    samples: Vec<Sample>,
    sample_types: Vec<SampleTypeDescriptor>,
    timing: ReportTiming,
}

impl View for Report {
    type V = ReportView;

    closed spec fn view(&self) -> ReportView {
        ReportView {
            samples: sample_views(self.samples@),
            sample_types: sample_type_views(self.sample_types@),
            timing: self.timing,
        }
    }
}

/// A result with the report replaced by what it holds.
pub open spec fn outcome_view(outcome: Result<Report, ReportBuildError>) -> Result<
    ReportView,
    ReportBuildError,
> {
    match outcome {
        Ok(report) => Ok(report@),
        Err(e) => Err(e),
    }
}

impl Report {
    #[verifier::type_invariant]
    spec fn well_formed(self) -> bool {
        all_of_arity(sample_views(self.samples@), self.sample_types@.len())
    }

    /// Assembles a report from the samples of a snapshot. It is a plain copy:
    /// every sample is kept, in its place. A sample whose number of values is
    /// not the number of declared sample types is an error, and the first such
    /// sample is reported.
    pub fn assemble(
        samples: Vec<Sample>,
        sample_types: Vec<SampleTypeDescriptor>,
        timing: ReportTiming,
    ) -> (outcome: Result<Report, ReportBuildError>)
        ensures
            assembled(
                sample_views(samples@),
                sample_type_views(sample_types@),
                timing,
                outcome_view(outcome),
            ),
    {
        let expected: usize = sample_types.len();
        let mut i: usize = 0;
        while i < samples.len()
            invariant
                i <= samples.len(),
                expected == sample_types.len(),
                all_of_arity(sample_views(samples@).take(i as int), expected as nat),
            decreases samples.len() - i,
        {
            let found: usize = samples[i].values.len();
            if found != expected {
                return Err(ReportBuildError::CardinalityMismatch { sample: i, expected, found });
            }
            assert forall|j: int| 0 <= j < i + 1 implies (#[trigger] sample_views(samples@).take(
                i + 1,
            )[j]).values.len() == expected by {
                if j < i {
                    assert(sample_views(samples@).take(i as int)[j] == sample_views(samples@)[j]);
                }
            }
            i += 1;
        }
        assert(sample_views(samples@).take(i as int) =~= sample_views(samples@));
        Ok(Report { samples, sample_types, timing })
    }

    /// The samples, in the order they were recorded. Each carries one value
    /// per declared sample type.
    pub fn samples(&self) -> (samples: &Vec<Sample>)
        ensures
            sample_views(samples@) == self@.samples,
            all_of_arity(self@.samples, self@.sample_types.len()),
    {
        proof {
            use_type_invariant(self);
        }
        &self.samples
    }

    /// The declared sample types.
    pub fn sample_types(&self) -> (sample_types: &Vec<SampleTypeDescriptor>)
        ensures
            sample_type_views(sample_types@) == self@.sample_types,
    {
        &self.sample_types
    }

    /// The timing of the run.
    pub fn timing(&self) -> (timing: ReportTiming)
        ensures
            timing == self@.timing,
    {
        self.timing
    }
}

/// A copy of `types`, one sample type for one.
fn clone_types(types: &Vec<SampleTypeDescriptor>) -> (copy: Vec<SampleTypeDescriptor>)
    ensures
        sample_type_views(copy@) == sample_type_views(types@),
{
    let mut copy: Vec<SampleTypeDescriptor> = Vec::new();
    let mut i: usize = 0;
    while i < types.len()
        invariant
            i <= types.len(),
            sample_type_views(copy@) == sample_type_views(types@).take(i as int),
        decreases types.len() - i,
    {
        let ghost before = copy@;
        let sample_type = types[i].clone();
        copy.push(sample_type);
        assert(sample_type_views(copy@) =~= sample_type_views(before).push(sample_type@));
        assert(sample_type_views(types@).take(i + 1) =~= sample_type_views(types@).take(
            i as int,
        ).push(types@[i as int]@));
        i += 1;
    }
    assert(sample_type_views(types@).take(i as int) =~= sample_type_views(types@));
    copy
}

/// Builds reports from one profiler, with the sample types declared for its
/// samples and the timing of the run.
pub struct ReportBuilder<'a> {
    profiler: &'a OperationProfiler,
    timing: ReportTiming,
    sample_types: Vec<SampleTypeDescriptor>,
}

impl<'a> ReportBuilder<'a> {
    /// The profiler that reports are built from.
    pub closed spec fn profiler(&self) -> OperationProfiler {
        *self.profiler
    }

    /// The timing that each report gets.
    pub closed spec fn timing(&self) -> ReportTiming {
        self.timing
    }

    /// The sample types that each report declares.
    pub closed spec fn sample_types(&self) -> Seq<SampleTypeDescriptorView> {
        sample_type_views(self.sample_types@)
    }

    /// A builder of reports from `profiler`.
    pub fn new(
        profiler: &'a OperationProfiler,
        timing: ReportTiming,
        sample_types: Vec<SampleTypeDescriptor>,
    ) -> (builder: Self)
        ensures
            builder.profiler() == *profiler,
            builder.timing() == timing,
            builder.sample_types() == sample_type_views(sample_types@),
    {
        ReportBuilder { profiler, timing, sample_types }
    }

    /// Builds a report from what the profiler holds now.
    ///
    /// From a profiler that failed to start no report is built. Otherwise the
    /// samples are copied out under the profiler's lock and assembled as
    /// [`Report::assemble`] says; which samples those are depends on what other
    /// callers have recorded by then.
    pub fn build(&self) -> (outcome: Result<Report, ReportBuildError>)
        ensures
            built(self.profiler(), self.sample_types(), self.timing(), outcome_view(outcome)),
    {
        match self.profiler.snapshot() {
            Err(e) => Err(ReportBuildError::ProfilerFailed(e)),
            Ok(samples) => {
                let ghost taken = sample_views(samples@);
                let sample_types = clone_types(&self.sample_types);
                let outcome = Report::assemble(samples, sample_types, self.timing);
                assert(self.profiler().observed(taken));
                assert(assembled(taken, self.sample_types(), self.timing(), outcome_view(outcome)));
                outcome
            },
        }
    }
}

} // verus!
