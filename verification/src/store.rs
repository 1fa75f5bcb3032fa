//! The instrumented store and the wrapper that installs it.

use vstd::prelude::*;
use std::sync::Arc;
use crate::profiler::OperationProfiler;
use crate::sample::{call_sample, Operation};
use crate::sampler::{ProfilerInitError, Sampler};

verus! {

/// What a store can do: read an object and write one. Any type with these two
/// operations can be wrapped, an [`InstrumentedStore`] included.
///
/// `may_get` and `may_put` name the outcomes that a backend can give for a
/// call, and `counted` what a completed call has left on the profilers of the
/// instrumented layers of a store; they exist for proofs only. A backend that
/// says nothing about itself leaves them as they are, every outcome being
/// possible and no layer being there to count, and implements `get` and `put`
/// alone.
pub trait ObjectBackend {
    /// The backend's own error. The instrumentation never looks inside it.
    type Error;

    /// Whether `get` may return `outcome` for the key `key`.
    open spec fn may_get(&self, key: Seq<char>, outcome: Result<Vec<u8>, Self::Error>) -> bool {
        true
    }

    /// Whether `put` may return `outcome` for the key `key` and the bytes
    /// `bytes`.
    open spec fn may_put(
        &self,
        key: Seq<char>,
        bytes: Seq<u8>,
        outcome: Result<(), Self::Error>,
    ) -> bool {
        true
    }

    /// Whether every instrumented layer of this store has counted a call of
    /// kind `op`. A store without such a layer has none that could fail to.
    open spec fn counted(&self, op: Operation) -> bool {
        true
    }

    /// Reads the object stored under `key`.
    fn get(&self, key: &str) -> (outcome: Result<Vec<u8>, Self::Error>)
        ensures
            self.may_get(key@, outcome),
            self.counted(Operation::Get),
    ;

    /// Stores `bytes` under `key`.
    fn put(&self, key: &str, bytes: &[u8]) -> (outcome: Result<(), Self::Error>)
        ensures
            self.may_put(key@, bytes@, outcome),
            self.counted(Operation::Put),
    ;
}

/// The two profilers of an instrumented store: one for reads, one for writes.
pub struct OperationProfilers {
    /// Counts completed `get` calls.
    pub get_profile: OperationProfiler,
    /// Counts completed `put` calls.
    pub put_profile: OperationProfiler,
}

impl OperationProfilers {
    /// The profiler that calls of kind `op` are counted on.
    pub open spec fn spec_profiler(&self, op: Operation) -> OperationProfiler {
        match op {
            Operation::Get => self.get_profile,
            Operation::Put => self.put_profile,
        }
    }

    /// The profiler that calls of kind `op` are counted on: reads on the read
    /// profiler, writes on the write profiler, never the other way round.
    pub fn profiler(&self, op: Operation) -> (profiler: &OperationProfiler)
        ensures
            *profiler == self.spec_profiler(op),
    {
        match op {
            Operation::Get => &self.get_profile,
            Operation::Put => &self.put_profile,
        }
    }

    /// Whether one call of kind `op` was counted: whether its call sample
    /// was recorded on the profiler of its kind, under that profiler's lock,
    /// or that profiler never started and was skipped.
    pub open spec fn counted(&self, op: Operation) -> bool {
        let profiler = self.spec_profiler(op);
        if profiler.is_failed() {
            true
        } else {
            profiler.recorded(call_sample(op))
        }
    }

    /// Counts one completed call of kind `op` on its profiler, under the
    /// profiler's lock, and hands the call's outcome back untouched. A
    /// profiler that failed to start is skipped; the outcome is the same
    /// either way.
    pub fn complete<R>(&self, op: Operation, outcome: R) -> (returned: R)
        ensures
            returned == outcome,
            self.counted(op),
    {
        let _ = self.profiler(op).record_call(op);
        outcome
    }
}

impl Clone for OperationProfilers {
    /// Handles to the same two profilers.
    fn clone(&self) -> (copy: Self)
        ensures
            copy == *self,
    {
        OperationProfilers {
            get_profile: self.get_profile.clone(),
            put_profile: self.put_profile.clone(),
        }
    }
}

/// A store that hands every call to the backend it wraps and counts it.
///
/// Each call goes to the backend with the caller's arguments; when the backend
/// has answered, one call sample is recorded on the profiler of that operation
/// kind, and the backend's answer is returned as it came, value or error. The
/// profiler's lock is taken only after the backend has answered, so calls to
/// the backend never wait for each other here.
///
/// The store's surface is `get` and `put`, and both are counted. What else a
/// backend can do is reached through [`InstrumentedStore::inner`] and is not
/// counted.
pub struct InstrumentedStore<B> {
    inner: Arc<B>,
    profilers: OperationProfilers,
}

impl<B> InstrumentedStore<B> {
    /// The wrapped backend.
    pub closed spec fn backend(&self) -> B {
        *self.inner
    }

    /// The profilers that this store records on.
    pub closed spec fn profilers(&self) -> OperationProfilers {
        self.profilers
    }

    /// A store around `inner` that records on `profilers`.
    pub fn new(inner: Arc<B>, profilers: OperationProfilers) -> (store: Self)
        ensures
            store.backend() == *inner,
            store.profilers() == profilers,
    {
        InstrumentedStore { inner, profilers }
    }

    /// The wrapped backend, for a caller that makes the backend's call itself
    /// and reports its completion with [`InstrumentedStore::complete`].
    pub fn inner(&self) -> (inner: &Arc<B>)
        ensures
            **inner == self.backend(),
    {
        &self.inner
    }

    /// The profiler that counts this store's calls of kind `op`.
    pub fn profiler(&self, op: Operation) -> (profiler: &OperationProfiler)
        ensures
            *profiler == self.profilers().spec_profiler(op),
    {
        self.profilers.profiler(op)
    }

    /// Counts one completed call of kind `op` and hands the backend's answer
    /// back untouched, as [`OperationProfilers::complete`] does. Only calls
    /// that the backend has answered are reported here: one that is given up
    /// before that is not counted.
    pub fn complete<R>(&self, op: Operation, outcome: R) -> (returned: R)
        ensures
            returned == outcome,
            self.profilers().counted(op),
    {
        self.profilers.complete(op, outcome)
    }
}

impl<B: ObjectBackend> ObjectBackend for InstrumentedStore<B> {
    type Error = B::Error;

    /// The wrapped backend's outcomes, no more and no fewer.
    open spec fn may_get(&self, key: Seq<char>, outcome: Result<Vec<u8>, Self::Error>) -> bool {
        self.backend().may_get(key, outcome)
    }

    /// The wrapped backend's outcomes, no more and no fewer.
    open spec fn may_put(
        &self,
        key: Seq<char>,
        bytes: Seq<u8>,
        outcome: Result<(), Self::Error>,
    ) -> bool {
        self.backend().may_put(key, bytes, outcome)
    }

    /// This layer has counted the call on its own profilers, and so has every
    /// layer below it.
    open spec fn counted(&self, op: Operation) -> bool {
        self.profilers().counted(op) && self.backend().counted(op)
    }

    /// Reads through the backend, then counts the read: whatever the backend
    /// answered, value or error, the call sample of a read has been recorded
    /// on the read profiler, unless that profiler never started.
    fn get(&self, key: &str) -> (outcome: Result<Vec<u8>, Self::Error>)
        ensures
            self.profilers().counted(Operation::Get),
    {
        let answer = self.inner.get(key);
        self.complete(Operation::Get, answer)
    }

    /// Writes through the backend, then counts the write: whatever the
    /// backend answered, the call sample of a write has been recorded on the
    /// write profiler, unless that profiler never started.
    fn put(&self, key: &str, bytes: &[u8]) -> (outcome: Result<(), Self::Error>)
        ensures
            self.profilers().counted(Operation::Put),
    {
        let answer = self.inner.put(key, bytes);
        self.complete(Operation::Put, answer)
    }
}

/// Installs the instrumentation: wraps a backend into an [`InstrumentedStore`]
/// that records on this wrapper's two profilers.
pub struct ProfilingObjectStoreWrapper {
    profilers: OperationProfilers,
}

impl ProfilingObjectStoreWrapper {
    /// The profilers that every store wrapped here records on.
    pub closed spec fn profilers(&self) -> OperationProfilers {
        self.profilers
    }

    /// A wrapper with one profiler per operation kind, each around the outcome
    /// of starting its sampler, with a lock of its own around the very sampler
    /// that is handed in. A sampler that failed to start leaves its profiler
    /// failed; the other one is not affected.
    pub fn new(
        get_init: Result<Sampler, ProfilerInitError>,
        put_init: Result<Sampler, ProfilerInitError>,
    ) -> (wrapper: Self)
        ensures
            wrapper.profilers().get_profile.init_error() == (match get_init {
                Ok(_) => None,
                Err(e) => Some(e),
            }),
            wrapper.profilers().put_profile.init_error() == (match put_init {
                Ok(_) => None,
                Err(e) => Some(e),
            }),
            wrapper.profilers().get_profile.started_with() == (match get_init {
                Ok(sampler) => Some(sampler@),
                Err(_) => None,
            }),
            wrapper.profilers().put_profile.started_with() == (match put_init {
                Ok(sampler) => Some(sampler@),
                Err(_) => None,
            }),
    {
        ProfilingObjectStoreWrapper {
            profilers: OperationProfilers {
                get_profile: OperationProfiler::new(get_init),
                put_profile: OperationProfiler::new(put_init),
            },
        }
    }

    /// The profiler that counts the calls of kind `op`.
    pub fn profiler(&self, op: Operation) -> (profiler: &OperationProfiler)
        ensures
            *profiler == self.profilers().spec_profiler(op),
    {
        self.profilers.profiler(op)
    }

    /// Wraps `backend`. The backend is shared, not changed: other holders of
    /// it go on using it, and their calls are not counted. Wrapping a store
    /// that is already instrumented adds a second layer.
    pub fn wrap<B>(&self, backend: Arc<B>) -> (store: InstrumentedStore<B>)
        ensures
            store.backend() == *backend,
            store.profilers() == self.profilers(),
    {
        InstrumentedStore::new(backend, self.profilers.clone())
    }
}

} // verus!
