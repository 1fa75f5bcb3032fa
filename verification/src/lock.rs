//! The reader-writer lock that guards a shared sampler.
//!
//! The lock is `parking_lot`'s. Nothing here is proved: each item states what
//! the lock's documentation says. None of them promises anything about what a
//! lock holds when it is taken, since another thread may have written it a
//! moment ago; what is stated is that a guard gives access to the one sampler
//! behind its lock for as long as the guard lives.
//!
//! Taking a lock does not return on a thread that already holds a guard of
//! it. No guard leaves this crate: the functions of
//! [`OperationProfiler`](crate::profiler::OperationProfiler) that take one
//! drop it before they return and take no second one meanwhile, so a thread
//! that enters them holds none.

use vstd::prelude::*;
use std::sync::Arc;
use crate::sampler::{Sampler, SamplerView};

verus! {

/// `parking_lot::RawRwLock`, the lock's state. Opaque.
#[verifier::external_type_specification]
#[verifier::external_body]
pub struct ExRawRwLock(parking_lot::RawRwLock);

/// `lock_api::RwLock`, which `parking_lot::RwLock<T>` is an alias of. Opaque.
#[verifier::external_type_specification]
#[verifier::external_body]
#[verifier::reject_recursive_types(R)]
#[verifier::reject_recursive_types(T)]
pub struct ExRwLock<R, T: ?Sized>(parking_lot::lock_api::RwLock<R, T>);

/// Exclusive access to a locked sampler: holds `parking_lot::RwLockWriteGuard`,
/// which gives the lock back when it is dropped. The guard is kept in a struct
/// of this crate, since its own type is bounded by a trait of `lock_api`.
#[verifier::external_body]
pub struct WriteAccess<'a> {
    guard: parking_lot::RwLockWriteGuard<'a, Sampler>,
}

/// Shared access to a locked sampler: holds `parking_lot::RwLockReadGuard`,
/// which gives the lock back when it is dropped. Kept in a struct of this
/// crate for the same reason as [`WriteAccess`].
#[verifier::external_body]
pub struct ReadAccess<'a> {
    guard: parking_lot::RwLockReadGuard<'a, Sampler>,
}

/// The sampler that a write guard gives access to.
pub uninterp spec fn exclusively_held(access: WriteAccess<'_>) -> SamplerView;

/// The lock that a write guard belongs to: what `RwLockWriteGuard::rwlock`
/// returns. A guard stays on the lock it was taken from.
pub uninterp spec fn exclusively_locked(access: WriteAccess<'_>) -> parking_lot::RwLock<Sampler>;

/// The sampler that a read guard gives access to.
pub uninterp spec fn shared_held(access: ReadAccess<'_>) -> SamplerView;

/// The lock that a read guard belongs to: what `RwLockReadGuard::rwlock`
/// returns.
pub uninterp spec fn shared_locked(access: ReadAccess<'_>) -> parking_lot::RwLock<Sampler>;

/// The sampler that a lock was made around.
pub uninterp spec fn made_around(lock: parking_lot::RwLock<Sampler>) -> SamplerView;

/// `RwLock::new`: an unlocked lock around `sampler`.
#[verifier::external_body]
pub(crate) fn guard_sampler(sampler: Sampler) -> (lock: parking_lot::RwLock<Sampler>)
    ensures
        made_around(lock) == sampler@,
{
    parking_lot::RwLock::new(sampler)
}

/// `Arc::clone`: another pointer to the same lock.
#[verifier::external_body]
pub(crate) fn share(
    lock: &Arc<parking_lot::RwLock<Sampler>>,
) -> (shared: Arc<parking_lot::RwLock<Sampler>>)
    ensures
        shared == *lock,
{
    Arc::clone(lock)
}

/// `RwLock::write`: blocks until no other guard of `lock` is alive, then
/// returns exclusive access, the write guard of `lock`. It does not return on
/// a thread that still holds a guard of `lock`; its callers, all in
/// [`profiler`](crate::profiler), hold none when they call it.
#[verifier::external_body]
pub(crate) fn lock_exclusive<'a>(
    lock: &'a parking_lot::RwLock<Sampler>,
) -> (access: WriteAccess<'a>)
    ensures
        exclusively_locked(access) == *lock,
{
    WriteAccess { guard: lock.write() }
}

/// `RwLock::read`: blocks until no writer holds `lock`, then returns shared
/// access, a read guard of `lock`. It may not return on a thread that still
/// holds a guard of `lock`; its callers, all in [`profiler`](crate::profiler),
/// hold none when they call it.
#[verifier::external_body]
pub(crate) fn lock_shared<'a>(
    lock: &'a parking_lot::RwLock<Sampler>,
) -> (access: ReadAccess<'a>)
    ensures
        shared_locked(access) == *lock,
{
    ReadAccess { guard: lock.read() }
}

/// `DerefMut::deref_mut` of the write guard: the sampler behind the lock.
/// What is written through the reference is what the guard holds afterwards,
/// and the guard is still on its lock.
#[verifier::external_body]
pub(crate) fn held_mut<'a, 'b>(access: &'a mut WriteAccess<'b>) -> (sampler: &'a mut Sampler)
    ensures
        sampler@ == exclusively_held(*old(access)),
        exclusively_held(*final(access)) == final(sampler)@,
        exclusively_locked(*final(access)) == exclusively_locked(*old(access)),
{
    &mut *access.guard
}

/// `Deref::deref` of the read guard: the sampler behind the lock.
#[verifier::external_body]
pub(crate) fn held<'a, 'b>(access: &'a ReadAccess<'b>) -> (sampler: &'a Sampler)
    ensures
        sampler@ == shared_held(*access),
{
    &*access.guard
}

} // verus!
