//! The container and its scoped token.
//!
//! Contracts speak of a container through its view, a [`MutexView`]: the
//! guarded value, and whether the lock is held. A token borrows its container
//! for as long as it lives, so the container is next seen as the token left
//! it: with the last value written, and with the lock released.

use crate::model::MutexView;
use crate::raw::RawLock;
use vstd::prelude::*;

verus! {

/// A value together with the lock that guards it.
pub struct Mutex<T> {
    lock: RawLock,
    cell: T,
}

/// The token of an acquired [`Mutex`]: it reads and writes the guarded value,
/// and releases the lock when it goes out of scope.
pub struct MutexGuard<'a, T> {
    /// The container that the token was issued from.
    pub mutex: &'a mut Mutex<T>,
}

impl<T> View for Mutex<T> {
    type V = MutexView<T>;

    closed spec fn view(&self) -> MutexView<T> {
        MutexView { value: self.cell, locked: self.lock.is_locked() }
    }
}

impl<'a, T> View for MutexGuard<'a, T> {
    type V = T;

    /// The value as the token sees it.
    open spec fn view(&self) -> T {
        self.mutex@.value
    }
}

impl<T> Mutex<T> {
    /// The container that [`Mutex::new`] returns.
    pub closed spec fn spec_new(value: T) -> Self {
        Mutex { lock: RawLock::new(), cell: value }
    }

    /// The value that [`Mutex::into_inner`] returns.
    pub open spec fn spec_into_inner(self) -> T {
        self@.value
    }

    /// Wraps `value` in a container that nobody has locked.
    #[verifier::when_used_as_spec(spec_new)]
    pub fn new(value: T) -> (mutex: Self)
        ensures
            mutex == Self::spec_new(value),
            mutex@ == MutexView::unlocked(value),
    {
        Mutex { lock: RawLock::new(), cell: value }
    }

    /// Acquires the lock and hands out the token.
    ///
    /// The lock must be free. Whoever calls holds the container alone, so a
    /// lock that is held can only be one whose token was leaked: nobody is
    /// left to release it, and waiting for it would never end.
    pub fn lock(&mut self) -> (guard: MutexGuard<'_, T>)
        requires
            !old(self)@.locked,
        ensures
            guard.mutex@ == old(self)@.acquire(),
            *final(self) == *final(guard.mutex),
    {
        self.lock.lock();
        MutexGuard { mutex: self }
    }

    /// Acquires the lock if it is free and hands out the token; `None` where
    /// the lock is held, and the container is then left as it was.
    pub fn try_lock(&mut self) -> (attempt: Option<MutexGuard<'_, T>>)
        ensures
            attempt matches Some(guard) ==> old(self)@.try_acquire() == Some(guard.mutex@)
                && *final(self) == *final(guard.mutex),
            attempt is None ==> old(self)@.try_acquire() is None && *final(self) == *old(self),
    {
        if self.lock.try_lock() {
            Some(MutexGuard { mutex: self })
        } else {
            None
        }
    }

    /// Checks that the caller does not hold the lock, and stops the program
    /// where it does.
    pub fn assert_not_owner(&self)
        requires
            !self@.locked,
    {
        self.lock.assert_not_owner();
    }

    /// Gives the value back and ends the container.
    #[verifier::when_used_as_spec(spec_into_inner)]
    pub fn into_inner(self) -> (value: T)
        ensures
            value == self@.value,
    {
        self.cell
    }

    /// Wrapping a value and unwrapping it again gives the value back.
    pub proof fn lemma_round_trip(value: T)
        ensures
            Mutex::new(value)@ == MutexView::unlocked(value),
            Mutex::new(value).into_inner() == value,
    {
        RawLock::lemma_new_is_free();
    }
}

impl<T: Default> Default for Mutex<T> {
    /// Wraps the default value of `T` in a container that nobody has locked.
    fn default() -> (mutex: Self)
        ensures
            call_ensures(T::default, (), mutex@.value),
            !mutex@.locked,
    {
        Mutex::new(T::default())
    }
}

impl<T> From<T> for Mutex<T> {
    /// Wraps `value` as [`Mutex::new`] does.
    fn from(value: T) -> (mutex: Self)
        ensures
            mutex@ == MutexView::unlocked(value),
    {
        Mutex::new(value)
    }
}

impl<T> vstd::std_specs::convert::FromSpecImpl<T> for Mutex<T> {
    open spec fn obeys_from_spec() -> bool {
        true
    }

    open spec fn from_spec(value: T) -> Self {
        Mutex::new(value)
    }
}

impl<'a, T> core::ops::Deref for MutexGuard<'a, T> {
    type Target = T;

    /// Reads the guarded value.
    fn deref(&self) -> (value: &T)
        ensures
            *value == self@,
    {
        &self.mutex.cell
    }
}

impl<'a, T> core::ops::DerefMut for MutexGuard<'a, T> {
    /// Opens the guarded value for writing in place. The lock stays held, and
    /// the token stays with its container.
    fn deref_mut(&mut self) -> (value: &mut T)
        ensures
            *value == old(self)@,
            final(self).mutex@ == old(self).mutex@.store(*final(value)),
            *final(final(self).mutex) == *final(old(self).mutex),
    {
        &mut self.mutex.cell
    }
}

impl<'a, T> Drop for MutexGuard<'a, T> {
    /// Releases the lock and leaves the value as it was last written.
    fn drop(&mut self)
        ensures
            final(self).mutex@ == old(self).mutex@.release(),
            *final(final(self).mutex) == *final(old(self).mutex),
        opens_invariants none
        no_unwind
    {
        self.mutex.lock.unlock();
    }
}

} // verus!
