//! The lock and the condition variable of the standard library, as far as the
//! wake signal uses them.
//!
//! Nothing in this module is proved. Each item says what the documentation of
//! the standard library says, and no more.

use crate::flag::Flag;
use crate::signal::CondvarWake;
use std::sync::Condvar;
use std::sync::LockResult;
use std::sync::Mutex;
use std::sync::MutexGuard;
use std::sync::PoisonError;
use vstd::prelude::*;

verus! {

/// `std::sync::Mutex`, opaque: what it protects is seen through a guard only.
#[verifier::external_type_specification]
#[verifier::external_body]
#[verifier::reject_recursive_types(T)]
pub struct ExMutex<T: ?Sized>(Mutex<T>);

/// `std::sync::MutexGuard`, opaque but for [`held`] and [`lock_of`].
#[verifier::external_type_specification]
#[verifier::external_body]
#[verifier::reject_recursive_types(T)]
pub struct ExMutexGuard<'a, T: ?Sized + 'a>(MutexGuard<'a, T>);

/// `std::sync::Condvar`, opaque.
#[verifier::external_type_specification]
#[verifier::external_body]
pub struct ExCondvar(Condvar);

/// `std::sync::PoisonError`, opaque but for [`carried`]: the error of a lock
/// whose holder panicked.
#[verifier::external_type_specification]
#[verifier::external_body]
#[verifier::reject_recursive_types(T)]
pub struct ExPoisonError<T>(PoisonError<T>);

/// The flag that `lock` was made around. It is a fact of how the lock began and
/// says nothing of what the lock protects later, when threads have shared it.
pub uninterp spec fn made_with(lock: Mutex<Flag>) -> Flag;

/// The lock that `guard` holds.
pub uninterp spec fn lock_of(guard: MutexGuard<Flag>) -> Mutex<Flag>;

/// The flag behind the lock, as the holder of `guard` sees it. While the guard
/// lives no other thread can read or write the flag, so it changes only through
/// [`flag_mut`].
pub uninterp spec fn held(guard: MutexGuard<Flag>) -> Flag;

/// The guard that `error` carries: a lock is held also where its last holder
/// panicked.
pub uninterp spec fn carried(error: PoisonError<MutexGuard<Flag>>) -> MutexGuard<Flag>;

/// The guard that a thread has when `result` is what taking a lock gave it:
/// there is one in either arm.
pub open spec fn guard_of(result: LockResult<MutexGuard<Flag>>) -> MutexGuard<Flag> {
    match result {
        Ok(guard) => guard,
        Err(poisoned) => carried(poisoned),
    }
}

/// `Mutex::new`: a lock around `flag`, free to take.
#[verifier::external_body]
pub(crate) fn lock_around(flag: Flag) -> (lock: Mutex<Flag>)
    ensures
        made_with(lock) == flag,
{
    Mutex::new(flag)
}

/// `Mutex::lock`: blocks until the lock is free and gives a guard that holds
/// it, inside the error if a holder of the lock panicked. Nothing is claimed of
/// the flag behind it: any thread may have written it. The standard library
/// lets this call deadlock or panic when the calling thread holds the lock
/// already; no contract can say so, and callers take the lock once.
#[verifier::external_body]
pub(crate) fn acquire<'a>(lock: &'a Mutex<Flag>) -> (result: LockResult<MutexGuard<'a, Flag>>)
    ensures
        lock_of(guard_of(result)) == *lock,
{
    lock.lock()
}

/// `PoisonError::into_inner`: the guard that the error carries.
#[verifier::external_body]
pub(crate) fn into_guard<'a>(error: PoisonError<MutexGuard<'a, Flag>>) -> (guard: MutexGuard<
    'a,
    Flag,
>)
    ensures
        guard == carried(error),
{
    error.into_inner()
}

/// The flag behind the lock, to read and to write (`DerefMut::deref_mut` of
/// `MutexGuard`): it starts as the guard holds it, and the guard holds what is
/// left in it. The guard holds the same lock as before.
#[verifier::external_body]
pub(crate) fn flag_mut<'a>(guard: &'a mut MutexGuard<'_, Flag>) -> (flag: &'a mut Flag)
    ensures
        *flag == held(*old(guard)),
        held(*final(guard)) == *final(flag),
        lock_of(*final(guard)) == lock_of(*old(guard)),
{
    &mut **guard
}

/// `Condvar::new`: a condition variable with no waiter. Nothing is claimed of it.
pub assume_specification[ Condvar::new ]() -> Condvar;

/// `Condvar::wait` on the condition variable of `signal`: gives up the lock,
/// blocks until notified, and takes the same lock again. The guard comes back in
/// either arm, as from `Mutex::lock`. Nothing is claimed of the flag behind it:
/// the wait may end with no notification at all, and other threads held the
/// lock meanwhile. The standard library lets the call panic when one condition
/// variable is used with more than one lock: this one takes guards of the lock
/// of its signal only, and nothing else waits on it.
#[verifier::external_body]
pub(crate) fn wait_on<'a>(signal: &'a CondvarWake, guard: MutexGuard<'a, Flag>) -> (result:
    LockResult<MutexGuard<'a, Flag>>)
    requires
        lock_of(guard) == signal.awoken,
    ensures
        lock_of(guard_of(result)) == lock_of(guard),
{
    signal.park.wait(guard)
}

/// `Condvar::notify_one`: wakes one thread that waits on `condvar`, if there is
/// one. It returns nothing and never blocks.
pub assume_specification[ Condvar::notify_one ](condvar: &Condvar);

} // verus!
