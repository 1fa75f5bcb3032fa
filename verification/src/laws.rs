//! What holds of the library as a whole, proved from the contracts of its
//! functions.

use vstd::prelude::*;
use crate::report::{
    all_of_arity, assembled, built, ReportBuildError, ReportTiming, ReportView,
    SampleTypeDescriptorView, Unit,
};
use crate::profiler::OperationProfiler;
use crate::sample::{after_calls, call_sample, calls_of, Operation, SampleView};
use crate::store::{InstrumentedStore, ObjectBackend, OperationProfilers};
use crate::tables::{
    all_frames, frame_table, layout_error, lemma_all_frames_contains,
    lemma_first_occurrences_contains, lemma_first_occurrences_distinct,
    lemma_type_strings_contains, profile_of, string_table, type_strings, ProfileContent,
    SampleRowView, ValueTypeRow,
};

verus! {

/// A call to a store, with its arguments.
pub enum Call {
    /// Reading the object under `key`.
    Get { key: Seq<char> },
    /// Storing `bytes` under `key`.
    Put { key: Seq<char>, bytes: Seq<u8> },
}

/// What a call returned.
pub enum Answer<E> {
    /// The outcome of a `get`.
    Got(Result<Vec<u8>, E>),
    /// The outcome of a `put`.
    Stored(Result<(), E>),
}

/// Whether `store` may give `answer` to `call`.
pub open spec fn may_answer<B: ObjectBackend>(
    store: B,
    call: Call,
    answer: Answer<B::Error>,
) -> bool {
    match (call, answer) {
        (Call::Get { key }, Answer::Got(outcome)) => store.may_get(key, outcome),
        (Call::Put { key, bytes }, Answer::Stored(outcome)) => store.may_put(key, bytes, outcome),
        _ => false,
    }
}

/// Whether `store` may give the answers `answers` to the calls `calls`, one
/// after the other.
pub open spec fn may_answer_all<B: ObjectBackend>(
    store: B,
    calls: Seq<Call>,
    answers: Seq<Answer<B::Error>>,
) -> bool {
    &&& calls.len() == answers.len()
    &&& forall|i: int| 0 <= i < calls.len() ==> may_answer(store, #[trigger] calls[i], answers[i])
}

/// Transparency. For every sequence of calls, the answers that an instrumented
/// store may give are the answers that the backend it wraps may give to the
/// same calls: values and errors alike, whatever state its profilers are in.
pub proof fn lemma_transparency<B: ObjectBackend>(
    store: InstrumentedStore<B>,
    calls: Seq<Call>,
    answers: Seq<Answer<B::Error>>,
)
    ensures
        may_answer_all(store, calls, answers) <==> may_answer_all(store.backend(), calls, answers),
{
    assert forall|i: int| 0 <= i < calls.len() && calls.len() == answers.len() implies (may_answer(
        store,
        #[trigger] calls[i],
        answers[i],
    ) <==> may_answer(store.backend(), calls[i], answers[i])) by {}
}

/// Counting keeps what the sampler held, in its place, and appends one call
/// sample for each call of the sampler's kind.
pub proof fn lemma_after_calls(samples: Seq<SampleView>, kind: Operation, calls: Seq<Operation>)
    ensures
        after_calls(samples, kind, calls).len() == samples.len() + calls_of(calls, kind),
        after_calls(samples, kind, calls).take(samples.len() as int) == samples,
        forall|i: int|
            samples.len() <= i < samples.len() + calls_of(calls, kind) ==> #[trigger] after_calls(
                samples,
                kind,
                calls,
            )[i] == call_sample(kind),
    decreases calls.len(),
{
    if calls.len() == 0 {
        assert(samples.take(samples.len() as int) =~= samples);
    } else {
        let before = after_calls(samples, kind, calls.drop_last());
        lemma_after_calls(samples, kind, calls.drop_last());
        assert(before.push(call_sample(kind)).take(samples.len() as int) =~= before.take(
            samples.len() as int,
        ));
    }
}

/// Counting call after call is counting the whole history: what a sampler
/// holds after the calls `first` and then the calls `then` is what it holds
/// after all of them in this order.
pub proof fn lemma_after_calls_append(
    samples: Seq<SampleView>,
    kind: Operation,
    first: Seq<Operation>,
    then: Seq<Operation>,
)
    ensures
        after_calls(after_calls(samples, kind, first), kind, then) == after_calls(
            samples,
            kind,
            first + then,
        ),
    decreases then.len(),
{
    if then.len() == 0 {
        assert(first + then =~= first);
    } else {
        lemma_after_calls_append(samples, kind, first, then.drop_last());
        assert((first + then).drop_last() =~= first + then.drop_last());
    }
}

/// Count correctness. From a sampler that was empty before the calls `calls`
/// completed, with one declared sample type, a report is built, and it holds
/// exactly one sample for each call of the sampler's kind, each with the
/// values `[1]`: after `n` reads, `n` samples on the read profiler.
pub proof fn lemma_count_correctness(
    kind: Operation,
    calls: Seq<Operation>,
    sample_type: SampleTypeDescriptorView,
    timing: ReportTiming,
    outcome: Result<ReportView, ReportBuildError>,
)
    requires
        assembled(after_calls(Seq::empty(), kind, calls), seq![sample_type], timing, outcome),
    ensures
        outcome is Ok,
        outcome->Ok_0.samples.len() == calls_of(calls, kind),
        forall|i: int|
            0 <= i < calls_of(calls, kind) ==> (#[trigger] outcome->Ok_0.samples[i]).values
                == seq![1i64],
{
    lemma_after_calls(Seq::empty(), kind, calls);
}

/// No cross-contamination. Calls of another kind leave a sampler as it was:
/// writes add nothing to the read sampler, and reads add nothing to the write
/// sampler.
pub proof fn lemma_no_cross_contamination(
    samples: Seq<SampleView>,
    kind: Operation,
    calls: Seq<Operation>,
)
    requires
        forall|i: int| 0 <= i < calls.len() ==> calls[i] != kind,
    ensures
        after_calls(samples, kind, calls) == samples,
    decreases calls.len(),
{
    if calls.len() > 0 {
        lemma_no_cross_contamination(samples, kind, calls.drop_last());
    }
}

/// A completed call is counted on the profiler of its own kind: a read on the
/// read profiler, a write on the write profiler.
pub proof fn lemma_own_profiler(profilers: OperationProfilers)
    ensures
        profilers.spec_profiler(Operation::Get) == profilers.get_profile,
        profilers.spec_profiler(Operation::Put) == profilers.put_profile,
{
}

/// Cardinality consistency. Assembling a report fails if and only if some
/// sample does not carry one value per declared sample type.
pub proof fn lemma_cardinality(
    samples: Seq<SampleView>,
    sample_types: Seq<SampleTypeDescriptorView>,
    timing: ReportTiming,
    outcome: Result<ReportView, ReportBuildError>,
)
    requires
        assembled(samples, sample_types, timing, outcome),
    ensures
        outcome is Err <==> !all_of_arity(samples, sample_types.len()),
        outcome is Err ==> outcome->Err_0 is CardinalityMismatch,
{
    if let Err(ReportBuildError::CardinalityMismatch { sample, expected, found }) = outcome {
        assert(samples[sample as int].values.len() != sample_types.len());
    }
}

/// A report that was built holds what the profiler's sampler held at a moment
/// when its lock was held for reading: samples with one value per declared
/// sample type, under the sample types and the timing that were asked for.
pub proof fn lemma_built_report(
    profiler: OperationProfiler,
    sample_types: Seq<SampleTypeDescriptorView>,
    timing: ReportTiming,
    report: ReportView,
)
    requires
        built(profiler, sample_types, timing, Ok(report)),
    ensures
        !profiler.is_failed(),
        profiler.observed(report.samples),
        all_of_arity(report.samples, sample_types.len()),
        report.sample_types == sample_types,
        report.timing == timing,
{
}

/// Each layer counts. A call of kind `op` that a twice-wrapped store has
/// completed has been counted on the profilers of the outer layer and on
/// those of the inner layer.
pub proof fn lemma_each_layer_counts<B: ObjectBackend>(
    store: InstrumentedStore<InstrumentedStore<B>>,
    op: Operation,
)
    requires
        store.counted(op),
    ensures
        store.profilers().counted(op),
        store.backend().profilers().counted(op),
{
}

/// Failure isolation. A store whose profiler of kind `op` never started
/// answers every call as the backend it wraps does, and from that profiler no
/// report is built: the error names the reason why it did not start.
pub proof fn lemma_failure_isolation<B: ObjectBackend>(
    store: InstrumentedStore<B>,
    op: Operation,
    calls: Seq<Call>,
    answers: Seq<Answer<B::Error>>,
    sample_types: Seq<SampleTypeDescriptorView>,
    timing: ReportTiming,
    outcome: Result<ReportView, ReportBuildError>,
)
    requires
        store.profilers().spec_profiler(op).is_failed(),
        built(store.profilers().spec_profiler(op), sample_types, timing, outcome),
    ensures
        may_answer_all(store, calls, answers) <==> may_answer_all(store.backend(), calls, answers),
        outcome == Err::<ReportView, ReportBuildError>(
            ReportBuildError::ProfilerFailed(store.profilers().spec_profiler(op).init_error()->0),
        ),
{
    lemma_transparency(store, calls, answers);
}

/// The unit that is called `name` in a profile.
pub open spec fn unit_named(name: Seq<char>) -> Unit {
    if name == Unit::Count.spec_name() {
        Unit::Count
    } else if name == Unit::Nanoseconds.spec_name() {
        Unit::Nanoseconds
    } else {
        Unit::Bytes
    }
}

/// The sample that a row of a profile stands for: each location number looked
/// up in the profile's locations.
pub open spec fn sample_of(content: ProfileContent, row: SampleRowView) -> SampleView {
    SampleView {
        stack: row.location_ids.map_values(|id: u64| content.locations[id - 1].address),
        values: row.values,
    }
}

/// The sample type that a row of a profile stands for: both indices looked up
/// in the profile's string table.
pub open spec fn sample_type_of(
    content: ProfileContent,
    row: ValueTypeRow,
) -> SampleTypeDescriptorView {
    SampleTypeDescriptorView {
        name: content.strings[row.ty as int],
        unit: unit_named(content.strings[row.unit as int]),
    }
}

/// The report that a profile stands for, read back table by table.
pub open spec fn report_of(content: ProfileContent) -> ReportView {
    ReportView {
        samples: content.samples.map_values(|row: SampleRowView| sample_of(content, row)),
        sample_types: content.sample_types.map_values(
            |row: ValueTypeRow| sample_type_of(content, row),
        ),
        timing: ReportTiming {
            start_nanos: content.time_nanos,
            end_nanos: (content.time_nanos + content.duration_nanos) as i64,
        },
    }
}

/// The names of the units differ from each other.
pub proof fn lemma_unit_names(unit: Unit)
    ensures
        unit_named(unit.spec_name()) == unit,
{
    reveal_strlit("count");
    reveal_strlit("nanoseconds");
    reveal_strlit("bytes");
    assert("count"@.len() == 5);
    assert("nanoseconds"@.len() == 11);
    assert("bytes"@.len() == 5);
    assert("count"@[0] == 'c');
    assert("bytes"@[0] == 'b');
}

/// The layout loses nothing. The profile that a report is laid out as stands
/// for that very report: the same samples with the same stacks and values, in
/// the same order, the same sample types and the same timing. It holds of
/// every report that can be laid out and whose distinct frames can be
/// numbered with 64 bits.
pub proof fn lemma_layout_keeps_the_report(report: ReportView)
    requires
        layout_error(report) is None,
        frame_table(report.samples).len() <= u64::MAX,
    ensures
        report_of(profile_of(report)) == report,
{
    let content = profile_of(report);
    let frames = frame_table(report.samples);
    let strings = string_table(report.sample_types);
    let back = report_of(content);
    lemma_first_occurrences_distinct(all_frames(report.samples));
    assert forall|i: int| 0 <= i < report.samples.len() implies #[trigger] back.samples[i]
        == report.samples[i] by {
        let sample = report.samples[i];
        let row = content.samples[i];
        assert forall|j: int| 0 <= j < sample.stack.len() implies sample_of(content, row).stack[j]
            == sample.stack[j] by {
            let frame = sample.stack[j];
            lemma_all_frames_contains(report.samples, i, j);
            lemma_first_occurrences_contains(all_frames(report.samples), frame);
            let k = frames.index_of(frame);
            assert(0 <= k < frames.len() && frames[k] == frame);
            assert(row.location_ids[j] == (k + 1) as u64);
            assert(content.locations[k].address == frame);
        }
        assert(sample_of(content, row).stack =~= sample.stack);
    }
    assert(back.samples =~= report.samples);
    let all = seq![Seq::<char>::empty()] + type_strings(report.sample_types);
    assert forall|i: int| 0 <= i < report.sample_types.len() implies #[trigger] back.sample_types[i]
        == report.sample_types[i] by {
        let sample_type = report.sample_types[i];
        lemma_type_strings_contains(report.sample_types, i);
        let n = choose|n: int|
            0 <= n < type_strings(report.sample_types).len() && type_strings(
                report.sample_types,
            )[n] == sample_type.name;
        assert(all[n + 1] == sample_type.name);
        let u = choose|u: int|
            0 <= u < type_strings(report.sample_types).len() && type_strings(
                report.sample_types,
            )[u] == sample_type.unit.spec_name();
        assert(all[u + 1] == sample_type.unit.spec_name());
        lemma_first_occurrences_contains(all, sample_type.name);
        lemma_first_occurrences_contains(all, sample_type.unit.spec_name());
        let ty = strings.index_of(sample_type.name);
        assert(0 <= ty < strings.len() && strings[ty] == sample_type.name);
        let unit = strings.index_of(sample_type.unit.spec_name());
        assert(0 <= unit < strings.len() && strings[unit] == sample_type.unit.spec_name());
        lemma_unit_names(sample_type.unit);
    }
    assert(back.sample_types =~= report.sample_types);
}

} // verus!
