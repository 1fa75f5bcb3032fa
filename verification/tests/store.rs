use parking_lot::Mutex;
use profiled_store::report::{
    ReportBuildError, ReportBuilder, ReportTiming, SampleTypeDescriptor, Unit,
};
use profiled_store::sample::{Operation, Sample};
use profiled_store::sampler::{ProfilerInitError, Sampler};
use profiled_store::store::{
    InstrumentedStore, ObjectBackend, OperationProfilers, ProfilingObjectStoreWrapper,
};
use std::collections::HashMap;
use std::sync::Arc;

#[derive(Debug, PartialEq, Eq)]
enum StoreError {
    NotFound(String),
    EmptyKey,
}

/// An in-memory backend.
struct MemoryStore {
    objects: Mutex<HashMap<String, Vec<u8>>>,
}

impl MemoryStore {
    fn new() -> MemoryStore {
        MemoryStore { objects: Mutex::new(HashMap::new()) }
    }
}

impl ObjectBackend for MemoryStore {
    type Error = StoreError;

    fn get(&self, key: &str) -> Result<Vec<u8>, StoreError> {
        match self.objects.lock().get(key) {
            Some(bytes) => Ok(bytes.clone()),
            None => Err(StoreError::NotFound(key.to_string())),
        }
    }

    fn put(&self, key: &str, bytes: &[u8]) -> Result<(), StoreError> {
        if key.is_empty() {
            return Err(StoreError::EmptyKey);
        }
        self.objects.lock().insert(key.to_string(), bytes.to_vec());
        Ok(())
    }
}

/// A backend that answers every read.
struct Always;

impl ObjectBackend for Always {
    type Error = StoreError;

    fn get(&self, _key: &str) -> Result<Vec<u8>, StoreError> {
        Ok(vec![42])
    }

    fn put(&self, _key: &str, _bytes: &[u8]) -> Result<(), StoreError> {
        Ok(())
    }
}

fn started() -> ProfilingObjectStoreWrapper {
    ProfilingObjectStoreWrapper::new(Sampler::new(Some(0)), Sampler::new(Some(0)))
}

fn multi_threaded() -> tokio::runtime::Runtime {
    tokio::runtime::Builder::new_multi_thread().worker_threads(8).build().unwrap()
}

fn count_type(name: &str) -> Vec<SampleTypeDescriptor> {
    vec![SampleTypeDescriptor::new(name.to_string(), Unit::Count)]
}

const TIMING: ReportTiming = ReportTiming { start_nanos: 0, end_nanos: 1 };

#[test]
fn wrapped_calls_return_what_the_backend_returns() {
    let plain = MemoryStore::new();
    let wrapped = started().wrap(Arc::new(MemoryStore::new()));

    assert_eq!(wrapped.get("a"), plain.get("a"));
    assert_eq!(wrapped.get("a"), Err(StoreError::NotFound("a".to_string())));
    assert_eq!(wrapped.put("a", &[1, 2, 3]), plain.put("a", &[1, 2, 3]));
    assert_eq!(wrapped.put("", &[9]), plain.put("", &[9]));
    assert_eq!(wrapped.put("", &[9]), Err(StoreError::EmptyKey));
    assert_eq!(wrapped.get("a"), plain.get("a"));
    assert_eq!(wrapped.get("a"), Ok(vec![1, 2, 3]));
    assert_eq!(wrapped.put("a", &[]), plain.put("a", &[]));
    assert_eq!(wrapped.get("a"), plain.get("a"));
    assert_eq!(wrapped.get("b"), plain.get("b"));
}

#[test]
fn every_completed_call_is_counted_once() {
    let wrapper = started();
    let store = wrapper.wrap(Arc::new(MemoryStore::new()));
    assert!(store.get("missing").is_err());
    assert!(store.put("k", &[1]).is_ok());
    assert!(store.get("k").is_ok());
    assert!(store.put("", &[1]).is_err());
    assert!(store.get("k").is_ok());
    let reads = wrapper.profiler(Operation::Get).snapshot().unwrap();
    let writes = wrapper.profiler(Operation::Put).snapshot().unwrap();
    assert_eq!(reads, vec![Sample::call(Operation::Get); 3]);
    assert_eq!(writes, vec![Sample::call(Operation::Put); 2]);
}

#[test]
fn a_report_counts_the_gets() {
    let wrapper = started();
    let store = wrapper.wrap(Arc::new(Always));
    for _ in 0..250 {
        assert_eq!(store.get("k"), Ok(vec![42]));
    }
    let builder = ReportBuilder::new(
        wrapper.profiler(Operation::Get),
        TIMING,
        count_type("object_store_get"),
    );
    let report = builder.build().unwrap();
    assert_eq!(report.samples().len(), 250);
    for sample in report.samples() {
        assert_eq!(sample.values, vec![1]);
    }
    assert_eq!(report.sample_types(), &count_type("object_store_get"));
    assert_eq!(report.timing(), TIMING);
}

#[test]
fn puts_leave_the_read_profiler_alone() {
    let wrapper = started();
    let store = wrapper.wrap(Arc::new(MemoryStore::new()));
    for i in 0..20u8 {
        assert!(store.put("k", &[i]).is_ok());
    }
    assert!(wrapper.profiler(Operation::Get).snapshot().unwrap().is_empty());
    assert_eq!(wrapper.profiler(Operation::Put).snapshot().unwrap().len(), 20);
}

#[test]
fn gets_leave_the_write_profiler_alone() {
    let wrapper = started();
    let store = wrapper.wrap(Arc::new(MemoryStore::new()));
    for _ in 0..20 {
        assert!(store.get("k").is_err());
    }
    assert!(wrapper.profiler(Operation::Put).snapshot().unwrap().is_empty());
    assert_eq!(wrapper.profiler(Operation::Get).snapshot().unwrap().len(), 20);
}

#[test]
fn concurrent_gets_are_all_counted() {
    let runtime = multi_threaded();
    for _ in 0..3 {
        let wrapper = started();
        let store = Arc::new(wrapper.wrap(Arc::new(MemoryStore::new())));
        assert!(store.put("k", &[7]).is_ok());
        let mut tasks = Vec::new();
        for caller in 0..64usize {
            let shared = store.clone();
            let calls = if caller < 16 { 157 } else { 156 };
            tasks.push(runtime.spawn_blocking(move || {
                for _ in 0..calls {
                    assert_eq!(shared.get("k"), Ok(vec![7]));
                }
            }));
        }
        for task in tasks {
            runtime.block_on(task).unwrap();
        }
        let builder = ReportBuilder::new(
            wrapper.profiler(Operation::Get),
            TIMING,
            count_type("object_store_get"),
        );
        let report = builder.build().unwrap();
        assert_eq!(report.samples().len(), 10_000);
        assert!(report.samples().iter().all(|s| *s == Sample::call(Operation::Get)));
        assert_eq!(wrapper.profiler(Operation::Put).snapshot().unwrap().len(), 1);
    }
}

#[test]
fn a_failed_profiler_does_not_fail_the_store() {
    let wrapper = ProfilingObjectStoreWrapper::new(Sampler::new(None), Sampler::new(Some(0)));
    let store = wrapper.wrap(Arc::new(Always));
    for _ in 0..1_000 {
        assert_eq!(store.get("k"), Ok(vec![42]));
    }
    assert_eq!(store.put("k", &[1]), Ok(()));
    let reads = ReportBuilder::new(wrapper.profiler(Operation::Get), TIMING, count_type("get"));
    assert_eq!(
        reads.build().err(),
        Some(ReportBuildError::ProfilerFailed(ProfilerInitError::ClockUnavailable))
    );
    let writes = ReportBuilder::new(wrapper.profiler(Operation::Put), TIMING, count_type("put"));
    assert_eq!(writes.build().unwrap().samples().len(), 1);
}

#[test]
fn a_failed_profiler_passes_errors_through() {
    let wrapper = ProfilingObjectStoreWrapper::new(
        Err(ProfilerInitError::StartBeforeEpoch),
        Err(ProfilerInitError::ClockUnavailable),
    );
    let store = wrapper.wrap(Arc::new(MemoryStore::new()));
    assert_eq!(store.get("k"), Err(StoreError::NotFound("k".to_string())));
    assert_eq!(store.put("", &[]), Err(StoreError::EmptyKey));
    assert_eq!(
        wrapper.profiler(Operation::Get).failure(),
        Some(ProfilerInitError::StartBeforeEpoch)
    );
    assert_eq!(
        wrapper.profiler(Operation::Put).failure(),
        Some(ProfilerInitError::ClockUnavailable)
    );
}

#[test]
fn wrapping_twice_counts_twice() {
    let wrapper = started();
    let once = wrapper.wrap(Arc::new(Always));
    let twice = wrapper.wrap(Arc::new(once));
    assert_eq!(twice.get("k"), Ok(vec![42]));
    assert_eq!(wrapper.profiler(Operation::Get).snapshot().unwrap().len(), 2);
}

#[test]
fn two_layers_count_on_their_own_profilers() {
    let inner_wrapper = started();
    let outer_wrapper = started();
    let store = outer_wrapper.wrap(Arc::new(inner_wrapper.wrap(Arc::new(Always))));
    assert_eq!(store.put("k", &[1]), Ok(()));
    assert_eq!(store.get("k"), Ok(vec![42]));
    assert_eq!(inner_wrapper.profiler(Operation::Get).snapshot().unwrap().len(), 1);
    assert_eq!(outer_wrapper.profiler(Operation::Get).snapshot().unwrap().len(), 1);
    assert_eq!(inner_wrapper.profiler(Operation::Put).snapshot().unwrap().len(), 1);
    assert_eq!(outer_wrapper.profiler(Operation::Put).snapshot().unwrap().len(), 1);
}

#[test]
fn calls_that_bypass_the_wrapper_are_not_counted() {
    let wrapper = started();
    let backend = Arc::new(MemoryStore::new());
    let store = wrapper.wrap(backend.clone());
    assert!(backend.put("k", &[5]).is_ok());
    assert_eq!(backend.get("k"), Ok(vec![5]));
    assert_eq!(store.get("k"), Ok(vec![5]));
    assert_eq!(wrapper.profiler(Operation::Get).snapshot().unwrap().len(), 1);
    assert!(wrapper.profiler(Operation::Put).snapshot().unwrap().is_empty());
}

#[test]
fn stores_of_one_wrapper_share_its_profilers() {
    let wrapper = started();
    let first = wrapper.wrap(Arc::new(Always));
    let second = wrapper.wrap(Arc::new(MemoryStore::new()));
    assert!(first.get("k").is_ok());
    assert!(second.get("k").is_err());
    assert_eq!(wrapper.profiler(Operation::Get).snapshot().unwrap().len(), 2);
    assert_eq!(first.profiler(Operation::Get).snapshot().unwrap().len(), 2);
}

#[test]
fn complete_hands_the_outcome_back() {
    let profilers = OperationProfilers {
        get_profile: profiled_store::profiler::OperationProfiler::new(Sampler::new(Some(0))),
        put_profile: profiled_store::profiler::OperationProfiler::new(Sampler::new(None)),
    };
    let store = InstrumentedStore::new(Arc::new(()), profilers.clone());
    let answer: Result<u32, String> = Err("refused".to_string());
    assert_eq!(store.complete(Operation::Get, answer.clone()), answer);
    assert_eq!(store.complete(Operation::Put, 17u8), 17u8);
    assert_eq!(profilers.complete(Operation::Get, "x"), "x");
    assert_eq!(profilers.profiler(Operation::Get).snapshot().unwrap().len(), 2);
    assert!(profilers.profiler(Operation::Put).snapshot().is_err());
    assert_eq!(**store.inner(), ());
}
