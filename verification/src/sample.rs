//! Samples and the operations they are recorded for.

use vstd::prelude::*;

verus! {

/// The kind of storage operation a profiler counts.
#[derive(Clone, Copy, Debug, PartialEq, Eq, Hash, Structural)]
pub enum Operation {
    /// Reading an object.
    Get,
    /// Writing an object.
    Put,
}

impl Operation {
    /// The synthetic frame that stands for a call of this kind, as a number.
    pub open spec fn spec_frame(self) -> u64 {
        match self {
            Operation::Get => 1,
            Operation::Put => 2,
        }
    }

    /// The synthetic frame that stands for a call of this kind. The store does
    /// not capture call stacks, so every sample it records has this one frame.
    #[verifier::when_used_as_spec(spec_frame)]
    pub fn frame(self) -> (frame: u64)
        ensures
            frame == self.spec_frame(),
    {
        match self {
            Operation::Get => 1,
            Operation::Put => 2,
        }
    }
}

/// What a [`Sample`] holds, as mathematical sequences.
pub struct SampleView {
    /// Frame identifiers, innermost first.
    pub stack: Seq<u64>,
    /// One measurement per declared sample type.
    pub values: Seq<i64>,
}

/// One recorded event: the call context and its measurements.
#[derive(Debug, PartialEq, Eq)]
pub struct Sample {
    /// Frame identifiers, innermost first.
    pub stack: Vec<u64>,
    /// One measurement per declared sample type.
    pub values: Vec<i64>,
}

impl View for Sample {
    type V = SampleView;

    open spec fn view(&self) -> SampleView {
        SampleView { stack: self.stack@, values: self.values@ }
    }
}

impl Clone for Sample {
    fn clone(&self) -> (copy: Self)
        ensures
            copy@ == self@,
    {
        Sample { stack: self.stack.clone(), values: self.values.clone() }
    }
}

/// The sample that counts one call of `op`: its synthetic frame and the value 1.
pub open spec fn call_sample(op: Operation) -> SampleView {
    SampleView { stack: seq![op.spec_frame()], values: seq![1i64] }
}

/// How many of the calls `calls` are of kind `kind`.
pub open spec fn calls_of(calls: Seq<Operation>, kind: Operation) -> nat
    decreases calls.len(),
{
    if calls.len() == 0 {
        0
    } else if calls.last() == kind {
        calls_of(calls.drop_last(), kind) + 1
    } else {
        calls_of(calls.drop_last(), kind)
    }
}

/// What the sampler of kind `kind` holds after the calls `calls` have
/// completed, in this order, if it held `samples` before: every call of its
/// kind has added one call sample, and the other calls have added nothing.
pub open spec fn after_calls(
    samples: Seq<SampleView>,
    kind: Operation,
    calls: Seq<Operation>,
) -> Seq<SampleView>
    decreases calls.len(),
{
    if calls.len() == 0 {
        samples
    } else if calls.last() == kind {
        after_calls(samples, kind, calls.drop_last()).push(call_sample(kind))
    } else {
        after_calls(samples, kind, calls.drop_last())
    }
}

/// The views of the samples of `samples`, in order.
pub open spec fn sample_views(samples: Seq<Sample>) -> Seq<SampleView> {
    samples.map_values(|s: Sample| s@)
}

impl Sample {
    /// A sample with the given call context and measurements.
    pub fn new(stack: Vec<u64>, values: Vec<i64>) -> (sample: Sample)
        ensures
            sample@ == (SampleView { stack: stack@, values: values@ }),
    {
        Sample { stack, values }
    }

    /// The sample that counts one call of `op`.
    pub fn call(op: Operation) -> (sample: Sample)
        ensures
            sample@ == call_sample(op),
    {
        let mut stack: Vec<u64> = Vec::new();
        stack.push(op.frame());
        let mut values: Vec<i64> = Vec::new();
        values.push(1);
        let sample = Sample { stack, values };
        assert(sample@.stack =~= seq![op.spec_frame()]);
        assert(sample@.values =~= seq![1i64]);
        sample
    }
}

} // verus!
