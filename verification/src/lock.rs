//! A mutual exclusion primitive, facilitating busy-waiting.

use vstd::prelude::*;

verus! {

/// A mutual exclusion primitive. Acquisition is non-yielding: there is no
/// scheduler at this layer, so a contended caller spins rather than sleeps.
/// The lock is not reentrant: the holder must not acquire it again.
pub struct SpinLock {
    /// True while some caller holds the lock.
    pub locked: bool,
}

impl SpinLock {
    /// True while some caller holds the lock.
    pub open spec fn is_locked(self) -> bool {
        self.locked
    }

    /// The lock after a `try_lock` attempt, paired with whether the attempt
    /// acquired it.
    pub open spec fn try_lock_spec(self) -> (SpinLock, bool) {
        (SpinLock { locked: true }, !self.locked)
    }

    /// The lock after `unlock`.
    pub open spec fn unlock_spec(self) -> SpinLock {
        SpinLock { locked: false }
    }

    /// Creates a new, unlocked SpinLock.
    pub fn new() -> (r: SpinLock)
        ensures
            !r.is_locked(),
    {
        SpinLock { locked: false }
    }

    /// Acquires the SpinLock. The lock must be free: acquisition by the
    /// holder itself would spin forever, since the lock is not reentrant
    /// and nobody else can release it.
    pub fn lock(&mut self)
        requires
            !old(self).is_locked(),
        ensures
            final(self).is_locked(),
    {
        self.try_lock();
    }

    /// Tries to acquire the SpinLock without waiting.
    /// Returns `true` if the lock was acquired.
    pub fn try_lock(&mut self) -> (r: bool)
        ensures
            (*final(self), r) == old(self).try_lock_spec(),
            r == !old(self).is_locked(),
            final(self).is_locked(),
    {
        let was_locked = self.locked;
        self.locked = true;
        !was_locked
    }

    /// Releases the SpinLock.
    /// The caller must currently hold it; releasing a lock held by nobody
    /// is outside the lock's protocol.
    pub fn unlock(&mut self)
        requires
            old(self).is_locked(),
        ensures
            *final(self) == old(self).unlock_spec(),
            !final(self).is_locked(),
    {
        self.locked = false;
    }
}

/// Law: among contending `try_lock` attempts, at most one succeeds per
/// acquisition window — after a successful attempt, every further attempt
/// fails until the holder unlocks, and an attempt right after `unlock`
/// succeeds again.
pub proof fn lemma_try_lock_exclusive(l: SpinLock)
    ensures
        l.try_lock_spec().1 == !l.is_locked(),
        !l.try_lock_spec().0.try_lock_spec().1,
        l.try_lock_spec().0.unlock_spec().try_lock_spec().1,
{
}

} // verus!
