use unfair_lock::raw::LOCKED;
use unfair_lock::raw::UNLOCKED;
use unfair_lock::RawLock;

#[test]
fn unlocked_word_is_zero() {
    assert_eq!(UNLOCKED, 0);
    assert_ne!(LOCKED, UNLOCKED);
}

#[test]
fn new_lock_is_free() {
    let mut raw = RawLock::new();
    raw.assert_not_owner();
    assert!(raw.try_lock());
}

#[test]
fn try_lock_fails_on_a_held_lock() {
    let mut raw = RawLock::new();
    raw.lock();
    assert!(!raw.try_lock());
    assert!(!raw.try_lock());
}

#[test]
fn try_lock_holds_the_lock_it_took() {
    let mut raw = RawLock::new();
    assert!(raw.try_lock());
    assert!(!raw.try_lock());
}

#[test]
fn unlock_frees_the_lock() {
    let mut raw = RawLock::new();
    raw.lock();
    raw.unlock();
    raw.assert_not_owner();
    assert!(raw.try_lock());
}

#[test]
fn contention_then_release() {
    let mut raw = RawLock::new();
    raw.lock();
    assert!(!raw.try_lock());
    raw.unlock();
    assert!(raw.try_lock());
    raw.unlock();
    raw.lock();
    assert!(!raw.try_lock());
}

#[test]
fn unlock_of_a_free_lock_leaves_it_free() {
    let mut raw = RawLock::new();
    raw.unlock();
    raw.assert_not_owner();
    assert!(raw.try_lock());
}
