use profiled_store::profiler::OperationProfiler;
use profiled_store::report::{
    Report, ReportBuildError, ReportBuilder, ReportTiming, SampleTypeDescriptor, Unit,
};
use profiled_store::sample::Sample;
use profiled_store::sampler::{ProfilerInitError, Sampler};

const TIMING: ReportTiming = ReportTiming { start_nanos: 100, end_nanos: 900 };

fn two_types() -> Vec<SampleTypeDescriptor> {
    vec![
        SampleTypeDescriptor::new("object_store_get".to_string(), Unit::Count),
        SampleTypeDescriptor::new("bytes_read".to_string(), Unit::Bytes),
    ]
}

#[test]
fn unit_names() {
    assert_eq!(Unit::Count.name(), "count");
    assert_eq!(Unit::Nanoseconds.name(), "nanoseconds");
    assert_eq!(Unit::Bytes.name(), "bytes");
}

#[test]
fn assemble_keeps_every_sample() {
    let samples = vec![
        Sample::new(vec![1], vec![1, 512]),
        Sample::new(vec![1], vec![1, 512]),
        Sample::new(vec![2, 1], vec![1, 0]),
    ];
    let report = Report::assemble(samples.clone(), two_types(), TIMING).unwrap();
    assert_eq!(report.samples(), &samples);
    assert_eq!(report.sample_types(), &two_types());
    assert_eq!(report.timing(), TIMING);
}

#[test]
fn assemble_reports_the_first_mismatch() {
    let samples = vec![
        Sample::new(vec![1], vec![1, 2]),
        Sample::new(vec![1], vec![1]),
        Sample::new(vec![1], vec![1, 2, 3]),
    ];
    assert_eq!(
        Report::assemble(samples, two_types(), TIMING).err(),
        Some(ReportBuildError::CardinalityMismatch { sample: 1, expected: 2, found: 1 })
    );
}

#[test]
fn assemble_rejects_too_many_values() {
    let samples = vec![Sample::new(vec![1], vec![1, 2, 3])];
    assert_eq!(
        Report::assemble(samples, two_types(), TIMING).err(),
        Some(ReportBuildError::CardinalityMismatch { sample: 0, expected: 2, found: 3 })
    );
}

#[test]
fn assemble_rejects_values_without_a_declared_type() {
    let samples = vec![Sample::new(vec![], vec![]), Sample::new(vec![1], vec![1])];
    assert_eq!(
        Report::assemble(samples, Vec::new(), TIMING).err(),
        Some(ReportBuildError::CardinalityMismatch { sample: 1, expected: 0, found: 1 })
    );
}

#[test]
fn assemble_accepts_no_samples() {
    let report = Report::assemble(Vec::new(), two_types(), TIMING).unwrap();
    assert!(report.samples().is_empty());
    assert_eq!(report.sample_types().len(), 2);
}

#[test]
fn build_copies_what_the_profiler_holds() {
    let profiler = OperationProfiler::new(Sampler::new(Some(0)));
    profiler.record(vec![5], vec![1, 64]);
    profiler.record(vec![6, 5], vec![1, 32]);
    let builder = ReportBuilder::new(&profiler, TIMING, two_types());
    let report = builder.build().unwrap();
    assert_eq!(
        report.samples(),
        &vec![Sample::new(vec![5], vec![1, 64]), Sample::new(vec![6, 5], vec![1, 32])]
    );
    assert_eq!(report.sample_types(), &two_types());
    assert_eq!(report.timing(), TIMING);
}

#[test]
fn build_sees_later_records() {
    let profiler = OperationProfiler::new(Sampler::new(Some(0)));
    let builder = ReportBuilder::new(&profiler, TIMING, two_types());
    profiler.record(vec![5], vec![1, 64]);
    let first = builder.build().unwrap();
    profiler.record(vec![5], vec![1, 64]);
    let second = builder.build().unwrap();
    assert_eq!(first.samples().len(), 1);
    assert_eq!(second.samples().len(), 2);
    assert_eq!(&second.samples()[..1], &first.samples()[..]);
}

#[test]
fn build_fails_on_a_cardinality_mismatch() {
    let profiler = OperationProfiler::new(Sampler::new(Some(0)));
    profiler.record(vec![5], vec![1, 64]);
    profiler.record(vec![5], vec![1]);
    let builder = ReportBuilder::new(&profiler, TIMING, two_types());
    assert_eq!(
        builder.build().err(),
        Some(ReportBuildError::CardinalityMismatch { sample: 1, expected: 2, found: 1 })
    );
}

#[test]
fn build_fails_on_a_failed_profiler() {
    let profiler = OperationProfiler::new(Sampler::new(Some(-5)));
    let builder = ReportBuilder::new(&profiler, TIMING, two_types());
    assert_eq!(
        builder.build().err(),
        Some(ReportBuildError::ProfilerFailed(ProfilerInitError::StartBeforeEpoch))
    );
}
