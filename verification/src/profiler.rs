//! A sampler shared between the callers of one operation kind.

use vstd::prelude::*;
use std::sync::Arc;
use crate::lock::{
    exclusively_held, exclusively_locked, guard_sampler, held, held_mut, lock_exclusive,
    lock_shared, made_around, share, shared_held, shared_locked, ReadAccess, WriteAccess,
};
use crate::sample::{after_calls, call_sample, sample_views, Operation, Sample, SampleView};
use crate::sampler::{ProfilerInitError, Sampler, SamplerView};

verus! {

/// Whether `before` and `after` are the two ends of a critical section on
/// `lock` that appended `sample`: both are the write guard of `lock`, and
/// `after` holds what `before` held with `sample` appended and nothing else
/// changed.
pub open spec fn appended_under(
    lock: parking_lot::RwLock<Sampler>,
    before: WriteAccess<'_>,
    after: WriteAccess<'_>,
    sample: SampleView,
) -> bool {
    &&& exclusively_locked(before) == lock
    &&& exclusively_locked(after) == lock
    &&& exclusively_held(after) == (SamplerView {
        samples: exclusively_held(before).samples.push(sample),
        ..exclusively_held(before)
    })
}

impl<'a> WriteAccess<'a> {
    /// Appends one sample to the sampler behind the lock, and changes nothing
    /// else of it.
    pub(crate) fn record(&mut self, stack: Vec<u64>, values: Vec<i64>)
        ensures
            exclusively_held(*final(self)) == (SamplerView {
                samples: exclusively_held(*old(self)).samples.push(
                    SampleView { stack: stack@, values: values@ },
                ),
                ..exclusively_held(*old(self))
            }),
            exclusively_locked(*final(self)) == exclusively_locked(*old(self)),
    {
        let sampler = held_mut(self);
        sampler.record(stack, values);
    }

    /// Counts one completed call of `op`: appends its call sample, the
    /// operation's synthetic frame with the value 1.
    pub(crate) fn count(&mut self, op: Operation)
        ensures
            exclusively_held(*final(self)) == (SamplerView {
                samples: after_calls(exclusively_held(*old(self)).samples, op, seq![op]),
                ..exclusively_held(*old(self))
            }),
            exclusively_held(*final(self)).samples == exclusively_held(*old(self)).samples.push(
                call_sample(op),
            ),
            exclusively_locked(*final(self)) == exclusively_locked(*old(self)),
    {
        let sample = Sample::call(op);
        self.record(sample.stack, sample.values);
        proof {
            let before = exclusively_held(*old(self)).samples;
            assert(seq![op].drop_last() =~= Seq::<Operation>::empty());
            assert(after_calls(before, op, seq![op].drop_last()) == before);
        }
    }
}

impl<'a> ReadAccess<'a> {
    /// A copy of every sample of the sampler behind the lock, oldest first.
    pub(crate) fn snapshot(&self) -> (samples: Vec<Sample>)
        ensures
            sample_views(samples@) == shared_held(*self).samples,
    {
        held(self).snapshot()
    }
}

/// The profiler of one operation kind: a [`Sampler`] behind a reader-writer
/// lock, or the reason why the sampler could not be started.
///
/// Copies made with `clone` share the sampler. `record`, `record_call` and
/// `snapshot` take the lock for one append or one copy and give it back before
/// they return; no guard of the lock is ever handed out, so a caller cannot
/// hold one while it calls them. A profiler that failed to start stays failed:
/// recording on it does nothing, and no report can be built from it.
pub struct OperationProfiler {
    slot: Result<Arc<parking_lot::RwLock<Sampler>>, ProfilerInitError>,
}

impl OperationProfiler {
    /// Why the sampler could not be started, if it could not.
    pub closed spec fn init_error(&self) -> Option<ProfilerInitError> {
        match self.slot {
            Ok(_) => None,
            Err(e) => Some(e),
        }
    }

    /// Whether the sampler could not be started.
    pub open spec fn is_failed(&self) -> bool {
        self.init_error() is Some
    }

    /// The lock around the shared sampler, if the sampler started.
    pub closed spec fn sampler_lock(&self) -> Option<parking_lot::RwLock<Sampler>> {
        match self.slot {
            Ok(lock) => Some(*lock),
            Err(_) => None,
        }
    }

    /// The sampler that the profiler was made around, if the sampler started.
    pub open spec fn started_with(&self) -> Option<SamplerView> {
        match self.sampler_lock() {
            Some(lock) => Some(made_around(lock)),
            None => None,
        }
    }

    /// Whether `sample` was recorded on this profiler: whether its lock was
    /// taken for writing and, while it was held, exactly `sample` was appended
    /// to the shared sampler. What the sampler held when the lock was taken is
    /// whatever the callers before had left there.
    pub open spec fn recorded(&self, sample: SampleView) -> bool {
        &&& self.sampler_lock() is Some
        &&& exists|before: WriteAccess<'_>, after: WriteAccess<'_>|
            appended_under(self.sampler_lock()->0, before, after, sample)
    }

    /// Whether `samples` are what the shared sampler held at a moment when
    /// this profiler's lock was held for reading, so that no writer was in the
    /// middle of an append.
    pub open spec fn observed(&self, samples: Seq<SampleView>) -> bool {
        &&& self.sampler_lock() is Some
        &&& exists|access: ReadAccess<'_>| #[trigger]
            shared_locked(access) == self.sampler_lock()->0 && shared_held(access).samples
                == samples
    }

    /// The profiler around the outcome of starting a sampler: the lock is
    /// made around the very sampler that is handed in. A failure is kept as it
    /// is; no empty sampler is put in its place.
    pub fn new(init: Result<Sampler, ProfilerInitError>) -> (profiler: OperationProfiler)
        ensures
            profiler.init_error() == (match init {
                Ok(_) => None,
                Err(e) => Some(e),
            }),
            profiler.started_with() == (match init {
                Ok(sampler) => Some(sampler@),
                Err(_) => None,
            }),
    {
        match init {
            Ok(sampler) => OperationProfiler { slot: Ok(Arc::new(guard_sampler(sampler))) },
            Err(e) => OperationProfiler { slot: Err(e) },
        }
    }

    /// Why the sampler could not be started, if it could not.
    pub fn failure(&self) -> (e: Option<ProfilerInitError>)
        ensures
            e == self.init_error(),
    {
        match &self.slot {
            Ok(_) => None,
            Err(e) => Some(*e),
        }
    }

    /// Locks the sampler for writing, if the profiler started. This blocks
    /// until every other guard of this profiler has been dropped; it is called
    /// only where this thread holds none.
    fn write(&self) -> (access: Option<WriteAccess<'_>>)
        ensures
            access is Some <==> !self.is_failed(),
            access matches Some(guard) ==> self.sampler_lock() == Some(exclusively_locked(guard)),
    {
        match &self.slot {
            Ok(lock) => Some(lock_exclusive(lock)),
            Err(_) => None,
        }
    }

    /// Appends one sample to the shared sampler, under its lock, and says
    /// whether it did: it does on a profiler that started, and does nothing on
    /// one that failed.
    pub fn record(&self, stack: Vec<u64>, values: Vec<i64>) -> (recorded: bool)
        ensures
            recorded == !self.is_failed(),
            recorded ==> self.recorded(SampleView { stack: stack@, values: values@ }),
    {
        match self.write() {
            Some(mut access) => {
                let ghost before = access;
                access.record(stack, values);
                assert(appended_under(
                    self.sampler_lock()->0,
                    before,
                    access,
                    SampleView { stack: stack@, values: values@ },
                ));
                true
            },
            None => false,
        }
    }

    /// Counts one completed call of `op`: appends its call sample to the
    /// shared sampler, under its lock, and says whether it did.
    pub fn record_call(&self, op: Operation) -> (recorded: bool)
        ensures
            recorded == !self.is_failed(),
            recorded ==> self.recorded(call_sample(op)),
    {
        match self.write() {
            Some(mut access) => {
                let ghost before = access;
                access.count(op);
                assert(appended_under(self.sampler_lock()->0, before, access, call_sample(op)));
                true
            },
            None => false,
        }
    }

    /// A copy of every sample in the shared sampler, oldest first, taken
    /// while the lock is held for reading, or the reason why the profiler
    /// failed to start.
    pub fn snapshot(&self) -> (samples: Result<Vec<Sample>, ProfilerInitError>)
        ensures
            match self.init_error() {
                Some(e) => samples == Err::<Vec<Sample>, ProfilerInitError>(e),
                None => samples is Ok && self.observed(sample_views(samples->Ok_0@)),
            },
    {
        match &self.slot {
            Ok(lock) => {
                let access = lock_shared(lock);
                let samples = access.snapshot();
                assert(shared_locked(access) == self.sampler_lock()->0);
                Ok(samples)
            },
            Err(e) => Err(*e),
        }
    }
}

impl Clone for OperationProfiler {
    /// Another handle to the same sampler.
    fn clone(&self) -> (copy: Self)
        ensures
            copy == *self,
    {
        match &self.slot {
            Ok(lock) => OperationProfiler { slot: Ok(share(lock)) },
            Err(e) => OperationProfiler { slot: Err(*e) },
        }
    }
}

} // verus!
