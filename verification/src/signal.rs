//! The wake signal: a flag behind a lock, and a condition variable to sleep on.

use crate::flag::Flag;
use crate::locking::acquire;
use crate::locking::flag_mut;
use crate::locking::guard_of;
use crate::locking::held;
use crate::locking::into_guard;
use crate::locking::lock_around;
use crate::locking::lock_of;
use crate::locking::made_with;
use crate::locking::wait_on;
use std::sync::Arc;
use std::sync::Condvar;
use std::sync::LockResult;
use std::sync::Mutex;
use std::sync::MutexGuard;
use std::task::Wake;
use vstd::prelude::*;

verus! {

/// A signal that any thread can raise and one thread can park on.
///
/// The flag is raised from a request for a wakeup until `park` takes it.
/// Requests that come before it is taken count as one. The condition variable
/// is used with this one lock only.
pub struct CondvarWake {
    pub(crate) park: Condvar,
    pub(crate) awoken: Mutex<Flag>,
}

/// The guard of either arm: a panic of another holder is no reason to fail,
/// since a flag cannot be left half written.
fn recover<'a>(result: LockResult<MutexGuard<'a, Flag>>) -> (guard: MutexGuard<'a, Flag>)
    ensures
        guard == guard_of(result),
{
    match result {
        Ok(guard) => guard,
        Err(poisoned) => into_guard(poisoned),
    }
}

impl CondvarWake {
    /// The flag that the signal began with.
    pub closed spec fn initial(&self) -> Flag {
        made_with(self.awoken)
    }

    /// A signal that nobody has raised.
    pub fn new() -> (signal: Self)
        ensures
            !signal.initial().raised,
    {
        CondvarWake { park: Condvar::new(), awoken: lock_around(Flag::new()) }
    }

    /// Takes the lock on the flag, from a panicked holder too. The guard holds
    /// the lock of this signal; the flag behind it is what the other threads left
    /// there.
    fn lock(&self) -> (guard: MutexGuard<'_, Flag>)
        ensures
            lock_of(guard) == self.awoken,
    {
        recover(acquire(&self.awoken))
    }

    /// Looks under the lock for a wakeup to take, and waits on the condition
    /// variable for as long as there is none. The flag is looked at again after
    /// every wait, since a wait may end unprompted.
    ///
    /// Three things come back: the guard, which shows the flag down; whether a
    /// wakeup was taken; and the number of waits made. A flag that is raised from
    /// the start is taken with no wait, and one that is down costs a wait at
    /// least. The waits are counted so that the loop has a measure: only after
    /// `u64::MAX` of them does this return with no wakeup taken.
    fn take_or_wait<'a>(&'a self, guard: MutexGuard<'a, Flag>) -> (out: (
        MutexGuard<'a, Flag>,
        bool,
        u64,
    ))
        requires
            lock_of(guard) == self.awoken,
        ensures
            !held(out.0).raised,
            lock_of(out.0) == self.awoken,
            held(guard).raised ==> out.1 && out.2 == 0,
            !held(guard).raised ==> out.2 >= 1,
            !out.1 ==> out.2 == u64::MAX,
    {
        let mut guard = guard;
        let mut waits: u64 = 0;
        let mut taken = flag_mut(&mut guard).take();
        let ghost at_once = taken;
        while !taken && waits < u64::MAX
            invariant
                !held(guard).raised,
                lock_of(guard) == self.awoken,
                at_once ==> taken && waits == 0,
                waits == 0 ==> taken == at_once,
            decreases u64::MAX - waits,
        {
            guard = recover(wait_on(self, guard));
            taken = flag_mut(&mut guard).take();
            waits = waits + 1;
        }
        (guard, taken, waits)
    }

    /// Takes the lock and raises the flag behind it. The guard that comes back
    /// shows the flag raised, whatever it was before.
    fn raise(&self) -> (guard: MutexGuard<'_, Flag>)
        ensures
            held(guard).raised,
            lock_of(guard) == self.awoken,
    {
        let mut guard = self.lock();
        flag_mut(&mut guard).raise();
        guard
    }

    /// Blocks the calling thread until the flag is raised, then lowers it.
    ///
    /// With the flag raised on entry this returns at once, so a wakeup that was
    /// asked for before the thread came to park is not lost.
    ///
    /// After `u64::MAX` waits with no wakeup `park` returns all the same.
    pub fn park(&self) {
        let guard = self.lock();
        let _released = self.take_or_wait(guard);
    }

    /// Parks as [`CondvarWake::park`] does and says how it ended: whether a
    /// wakeup was taken, and after how many waits on the condition variable. No
    /// wakeup is taken only where all `u64::MAX` waits were spent.
    pub fn take_wakeup(&self) -> (out: (bool, u64))
        ensures
            out.0 || out.1 == u64::MAX,
    {
        let guard = self.lock();
        let (_released, taken, waits) = self.take_or_wait(guard);
        (taken, waits)
    }

    /// Raises the flag and wakes the parked thread, if there is one. Never blocks
    /// for longer than another thread holds the lock on the flag.
    pub fn request_wakeup(&self) {
        {
            let _guard = self.raise();
        }
        self.park.notify_one();
    }
}

impl Default for CondvarWake {
    fn default() -> (signal: Self)
        ensures
            !signal.initial().raised,
    {
        CondvarWake::new()
    }
}

impl Wake for CondvarWake {
    fn wake(self: Arc<Self>) {
        self.wake_by_ref()
    }

    fn wake_by_ref(self: &Arc<Self>) {
        {
            let _guard = self.raise();
        }
        self.park.notify_one();
    }
}

} // verus!
