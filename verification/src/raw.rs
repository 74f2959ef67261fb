//! The raw lock: one word, and the four operations that touch it.

use vstd::pervasive::runtime_assert;
use vstd::prelude::*;

verus! {

/// The word of a lock that nobody holds.
pub const UNLOCKED: u32 = 0;

/// The word that an acquisition stores.
pub const LOCKED: u32 = 1;

/// An exclusive lock held in a single word.
///
/// The word is [`UNLOCKED`] while the lock is free; every other pattern
/// means that it is held.
pub struct RawLock {
    word: u32,
}

impl RawLock {
    /// Whether the lock is held.
    pub closed spec fn is_locked(&self) -> bool {
        self.word != UNLOCKED
    }

    /// The lock that [`RawLock::new`] returns.
    pub closed spec fn spec_new() -> Self {
        RawLock { word: UNLOCKED }
    }

    /// A new lock is free.
    pub proof fn lemma_new_is_free()
        ensures
            !RawLock::new().is_locked(),
    {
    }

    /// A lock that nobody holds.
    #[verifier::when_used_as_spec(spec_new)]
    pub fn new() -> (raw: Self)
        ensures
            raw == Self::spec_new(),
            !raw.is_locked(),
    {
        RawLock { word: UNLOCKED }
    }

    /// Acquires the lock.
    ///
    /// The lock must be free: its one user would wait forever for a lock
    /// that is held, since nobody else can release it.
    pub fn lock(&mut self)
        requires
            !old(self).is_locked(),
        ensures
            final(self).is_locked(),
    {
        self.word = LOCKED;
    }

    /// Acquires the lock if it is free, and says whether it did. A held lock
    /// is left as it was.
    pub fn try_lock(&mut self) -> (acquired: bool)
        ensures
            acquired == !old(self).is_locked(),
            final(self).is_locked(),
            !acquired ==> *final(self) == *old(self),
    {
        if self.word == UNLOCKED {
            self.word = LOCKED;
            true
        } else {
            false
        }
    }

    /// Releases the lock, from whichever held state it was in. Releasing a
    /// free lock leaves it free.
    pub fn unlock(&mut self)
        ensures
            !final(self).is_locked(),
        opens_invariants none
        no_unwind
    {
        self.word = UNLOCKED;
    }

    /// Checks that the caller does not hold the lock, and stops the program
    /// where it does.
    pub fn assert_not_owner(&self)
        requires
            !self.is_locked(),
    {
        runtime_assert(self.word == UNLOCKED);
    }
}

} // verus!
