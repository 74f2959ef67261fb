//! What a container is to its users, and the steps it can take.

use vstd::prelude::*;

verus! {

/// The state of a container: the value it guards, and whether its lock is
/// held.
pub struct MutexView<T> {
    pub value: T,
    pub locked: bool,
}

impl<T> MutexView<T> {
    /// A container that guards `value` and that nobody has locked.
    pub open spec fn unlocked(value: T) -> Self {
        MutexView { value, locked: false }
    }

    /// The state after the lock was acquired.
    pub open spec fn acquire(self) -> Self {
        MutexView { value: self.value, locked: true }
    }

    /// The state after an attempt to acquire the lock without waiting:
    /// `None` where the lock is held.
    pub open spec fn try_acquire(self) -> Option<Self> {
        if self.locked {
            None
        } else {
            Some(self.acquire())
        }
    }

    /// The state after the lock was released.
    pub open spec fn release(self) -> Self {
        MutexView { value: self.value, locked: false }
    }

    /// The state after `value` was written through a token.
    pub open spec fn store(self, value: T) -> Self {
        MutexView { value, locked: self.locked }
    }

    /// While the lock is held, an attempt to acquire it fails; once the lock
    /// is released, the next attempt succeeds and holds the lock again.
    pub proof fn lemma_contention(self)
        ensures
            self.acquire().try_acquire() is None,
            self.acquire().release().try_acquire() == Some(self.acquire()),
    {
    }

    /// What was written through one token is what the next acquisition finds.
    pub proof fn lemma_release_publishes(self, value: T)
        ensures
            self.acquire().store(value).release() == MutexView::unlocked(value),
            self.acquire().store(value).release().acquire().value == value,
    {
    }
}

impl MutexView<int> {
    /// The state of a counter after `rounds` acquisitions that each add one
    /// and release.
    pub open spec fn count_up(self, rounds: nat) -> Self
        decreases rounds,
    {
        if rounds == 0 {
            self
        } else {
            let before = self.count_up((rounds - 1) as nat).acquire();
            before.store(before.value + 1).release()
        }
    }

    /// No update is lost: one acquisition after the other, `rounds`
    /// increments leave the counter `rounds` higher and the lock free.
    pub proof fn lemma_count_up(self, rounds: nat)
        requires
            !self.locked,
        ensures
            self.count_up(rounds) == MutexView::unlocked(self.value + rounds),
        decreases rounds,
    {
        if rounds > 0 {
            self.lemma_count_up((rounds - 1) as nat);
        }
    }
}

} // verus!
