use wdf_spinlock::spinlock::{SafeSpinLock, SpinLock, SpinLockError};

fn handle(addr: usize) -> SpinLock {
    SpinLock::from_handle(addr).expect("non-null address")
}

#[test]
fn from_handle_rejects_null() {
    assert!(SpinLock::from_handle(0).is_none());
}

#[test]
fn from_handle_keeps_address() {
    let s = handle(7);
    assert_eq!(s.raw_handle(), 7);
}

#[test]
fn acquire_on_uninitialized_fails() {
    let r = SafeSpinLock::Uninitialized.acquire();
    assert_eq!(
        r,
        Err(SpinLockError::Uninitialized {
            lock: SafeSpinLock::Uninitialized
        })
    );
}

#[test]
fn release_on_uninitialized_fails() {
    let r = SafeSpinLock::Uninitialized.release();
    assert_eq!(
        r,
        Err(SpinLockError::Uninitialized {
            lock: SafeSpinLock::Uninitialized
        })
    );
}

#[test]
fn create_from_uninitialized_succeeds() {
    let pending = SafeSpinLock::Uninitialized.create().ok().expect("permit");
    let lock = pending.finish(Ok(handle(5))).expect("created");
    assert_eq!(
        lock,
        SafeSpinLock::Initialized { inner: handle(5) }
    );
}

#[test]
fn failed_native_create_reports_create_failed() {
    let pending = SafeSpinLock::Uninitialized.create().ok().expect("permit");
    let r = pending.finish(Err(-1_073_741_823));
    assert_eq!(r, Err(SpinLockError::CreateFailed));
}

#[test]
fn create_on_initialized_fails_and_returns_lock() {
    let lock = SafeSpinLock::Initialized { inner: handle(7) };
    match lock.create() {
        Err(SpinLockError::AlreadyCreated { lock: prior }) => {
            assert_eq!(prior, SafeSpinLock::Initialized { inner: handle(7) });
        }
        _ => panic!("expected AlreadyCreated"),
    }
}

#[test]
fn create_on_held_fails_and_returns_lock() {
    let lock = SafeSpinLock::Held { inner: handle(7) };
    match lock.create() {
        Err(SpinLockError::AlreadyCreated { lock: prior }) => {
            assert_eq!(prior, SafeSpinLock::Held { inner: handle(7) });
        }
        _ => panic!("expected AlreadyCreated"),
    }
}

#[test]
fn acquire_advances_to_held() {
    let lock = SafeSpinLock::Initialized { inner: handle(9) };
    let held = lock.acquire().expect("acquire");
    assert_eq!(held, SafeSpinLock::Held { inner: handle(9) });
}

#[test]
fn double_acquire_fails_with_already_held() {
    let lock = SafeSpinLock::Initialized { inner: handle(9) };
    let held = lock.acquire().expect("first acquire");
    let r = held.acquire();
    assert_eq!(
        r,
        Err(SpinLockError::AlreadyHeld {
            lock: SafeSpinLock::Held { inner: handle(9) }
        })
    );
}

#[test]
fn release_before_acquire_fails_with_not_held() {
    let lock = SafeSpinLock::Initialized { inner: handle(3) };
    let r = lock.release();
    assert_eq!(
        r,
        Err(SpinLockError::NotHeld {
            lock: SafeSpinLock::Initialized { inner: handle(3) }
        })
    );
}

#[test]
fn release_returns_to_initialized() {
    let lock = SafeSpinLock::Held { inner: handle(4) };
    let freed = lock.release().expect("release");
    assert_eq!(freed, SafeSpinLock::Initialized { inner: handle(4) });
}

#[test]
fn round_trip_acquires_twice() {
    let pending = SafeSpinLock::Uninitialized.create().ok().expect("permit");
    let lock = pending.finish(Ok(handle(11))).expect("created");
    let lock = lock.acquire().expect("first acquire");
    let lock = lock.release().expect("release");
    let lock = lock.acquire().expect("second acquire");
    assert_eq!(lock, SafeSpinLock::Held { inner: handle(11) });
}

#[test]
fn every_failure_hands_the_handle_back() {
    // The four errors that can arise on a created lock all embed the lock,
    // still carrying the same native handle.
    let lock = SafeSpinLock::Initialized { inner: handle(21) };
    let lock = match lock.create() {
        Err(SpinLockError::AlreadyCreated { lock }) => lock,
        _ => panic!("expected AlreadyCreated"),
    };
    let lock = match lock.release() {
        Err(SpinLockError::NotHeld { lock }) => lock,
        _ => panic!("expected NotHeld"),
    };
    let lock = lock.acquire().expect("acquire");
    let lock = match lock.acquire() {
        Err(SpinLockError::AlreadyHeld { lock }) => lock,
        _ => panic!("expected AlreadyHeld"),
    };
    match lock {
        SafeSpinLock::Held { inner } => assert_eq!(inner.raw_handle(), 21),
        _ => panic!("expected the lock still held"),
    }
}
