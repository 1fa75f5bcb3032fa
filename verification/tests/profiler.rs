use profiled_store::profiler::OperationProfiler;
use profiled_store::sample::{Operation, Sample};
use profiled_store::sampler::{ProfilerInitError, Sampler};

fn multi_threaded() -> tokio::runtime::Runtime {
    tokio::runtime::Builder::new_multi_thread().worker_threads(8).build().unwrap()
}

#[test]
fn a_started_profiler_records() {
    let profiler = OperationProfiler::new(Sampler::new(Some(5)));
    assert_eq!(profiler.failure(), None);
    assert!(profiler.record(vec![7], vec![1, 2]));
    assert!(profiler.record_call(Operation::Put));
    assert_eq!(
        profiler.snapshot(),
        Ok(vec![Sample::new(vec![7], vec![1, 2]), Sample::new(vec![2], vec![1])])
    );
}

#[test]
fn a_failed_profiler_skips_recording() {
    let profiler = OperationProfiler::new(Sampler::new(None));
    assert_eq!(profiler.failure(), Some(ProfilerInitError::ClockUnavailable));
    assert!(!profiler.record(vec![7], vec![1]));
    assert!(!profiler.record_call(Operation::Get));
    assert_eq!(profiler.snapshot(), Err(ProfilerInitError::ClockUnavailable));
}

#[test]
fn a_failed_profiler_keeps_its_reason() {
    let profiler = OperationProfiler::new(Err(ProfilerInitError::StartBeforeEpoch));
    assert_eq!(profiler.clone().failure(), Some(ProfilerInitError::StartBeforeEpoch));
    assert_eq!(profiler.snapshot(), Err(ProfilerInitError::StartBeforeEpoch));
}

#[test]
fn clones_share_the_sampler() {
    let profiler = OperationProfiler::new(Sampler::new(Some(0)));
    let other = profiler.clone();
    assert!(other.record_call(Operation::Get));
    assert!(profiler.record_call(Operation::Get));
    assert_eq!(profiler.snapshot().unwrap().len(), 2);
    assert_eq!(other.snapshot(), profiler.snapshot());
}

#[test]
fn a_profiler_keeps_what_the_sampler_held() {
    let mut sampler = Sampler::new(Some(0)).unwrap();
    sampler.record(vec![11], vec![1]);
    let profiler = OperationProfiler::new(Ok(sampler));
    profiler.record(vec![12], vec![1]);
    assert_eq!(
        profiler.snapshot(),
        Ok(vec![Sample::new(vec![11], vec![1]), Sample::new(vec![12], vec![1])])
    );
}

#[test]
fn concurrent_records_are_all_kept() {
    let runtime = multi_threaded();
    let profiler = OperationProfiler::new(Sampler::new(Some(0)));
    let mut tasks = Vec::new();
    for caller in 0..32u64 {
        let shared = profiler.clone();
        tasks.push(runtime.spawn_blocking(move || {
            for call in 0..100i64 {
                assert!(shared.record(vec![caller], vec![call]));
            }
        }));
    }
    for task in tasks {
        runtime.block_on(task).unwrap();
    }
    let samples = profiler.snapshot().unwrap();
    assert_eq!(samples.len(), 3_200);
    for caller in 0..32u64 {
        let calls: Vec<i64> =
            samples.iter().filter(|s| s.stack == vec![caller]).map(|s| s.values[0]).collect();
        assert_eq!(calls, (0..100i64).collect::<Vec<i64>>());
    }
}

#[test]
fn snapshots_during_recording_are_prefixes() {
    let runtime = multi_threaded();
    let profiler = OperationProfiler::new(Sampler::new(Some(0)));
    let writer = profiler.clone();
    let task = runtime.spawn_blocking(move || {
        for call in 0..2_000i64 {
            writer.record(vec![1], vec![call]);
        }
    });
    let mut earlier = profiler.snapshot().unwrap();
    for _ in 0..50 {
        let later = profiler.snapshot().unwrap();
        assert!(later.len() >= earlier.len());
        assert_eq!(&later[..earlier.len()], &earlier[..]);
        earlier = later;
    }
    runtime.block_on(task).unwrap();
    assert_eq!(profiler.snapshot().unwrap().len(), 2_000);
}

#[test]
fn records_and_counts_append_in_order() {
    let profiler = OperationProfiler::new(Sampler::new(Some(3)));
    assert!(profiler.record(vec![8, 9], vec![2]));
    assert!(profiler.record_call(Operation::Get));
    assert!(profiler.record_call(Operation::Put));
    assert_eq!(
        profiler.snapshot(),
        Ok(vec![
            Sample::new(vec![8, 9], vec![2]),
            Sample::new(vec![1], vec![1]),
            Sample::new(vec![2], vec![1]),
        ])
    );
}

#[test]
fn concurrent_snapshots_agree() {
    let runtime = multi_threaded();
    let profiler = OperationProfiler::new(Sampler::new(Some(0)));
    profiler.record(vec![1], vec![1]);
    let mut tasks = Vec::new();
    for _ in 0..8 {
        let other = profiler.clone();
        tasks.push(runtime.spawn_blocking(move || other.snapshot()));
    }
    for task in tasks {
        assert_eq!(runtime.block_on(task).unwrap(), Ok(vec![Sample::new(vec![1], vec![1])]));
    }
}

#[test]
fn every_call_gives_the_lock_back() {
    let profiler = OperationProfiler::new(Sampler::new(Some(0)));
    for call in 0..100i64 {
        assert!(profiler.record(vec![1], vec![call]));
        assert_eq!(profiler.snapshot().unwrap().len(), 3 * call as usize + 1);
        assert!(profiler.record_call(Operation::Get));
        assert!(profiler.record(vec![], vec![]));
        assert_eq!(profiler.snapshot().unwrap().len(), 3 * (call as usize + 1));
    }
}
