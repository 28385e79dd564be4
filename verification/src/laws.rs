use vstd::prelude::*;

verus! {

use crate::spinlock::{
    acquire_transition,
    create_transition,
    release_transition,
    SafeSpinLock,
    SpinLock,
    SpinLockError,
};

/// One request against the state machine. A create carries the outcome the
/// native create call would produce, so a whole history of requests can be
/// described without fixing how the native layer behaves.
pub enum LockOp {
    /// `create`, with the native call's outcome.
    Create(Result<SpinLock, i32>),
    /// `acquire`.
    Acquire,
    /// `release`.
    Release,
}

/// The result of one operation applied to a lock in state `l`.
pub open spec fn step_transition(l: SafeSpinLock, op: LockOp) -> Result<
    SafeSpinLock,
    SpinLockError,
> {
    match op {
        LockOp::Create(outcome) => create_transition(l, outcome),
        LockOp::Acquire => acquire_transition(l),
        LockOp::Release => release_transition(l),
    }
}

/// The lock value the caller holds after one operation, success or failure:
/// a success yields the advanced value, a failure hands the original back
/// inside the error, and a failed create leaves the caller where it began,
/// with an uninitialized lock that never carried a handle.
pub open spec fn lock_after(l: SafeSpinLock, op: LockOp) -> SafeSpinLock {
    match step_transition(l, op) {
        Ok(next) => next,
        Err(e) => match e {
            SpinLockError::AlreadyCreated { lock } => lock,
            SpinLockError::AlreadyHeld { lock } => lock,
            SpinLockError::Uninitialized { lock } => lock,
            SpinLockError::NotHeld { lock } => lock,
            SpinLockError::CreateFailed => SafeSpinLock::Uninitialized,
        },
    }
}

/// The lock value the caller holds after a whole sequence of operations.
pub open spec fn lock_after_all(l: SafeSpinLock, ops: Seq<LockOp>) -> SafeSpinLock
    decreases ops.len(),
{
    if ops.len() == 0 {
        l
    } else {
        lock_after_all(lock_after(l, ops[0]), ops.subrange(1, ops.len() as int))
    }
}

/// The handle a lock state carries, if any.
pub open spec fn handle_of(l: SafeSpinLock) -> Option<usize> {
    match l {
        SafeSpinLock::Uninitialized => None,
        SafeSpinLock::Initialized { inner } => Some(inner.addr()),
        SafeSpinLock::Held { inner } => Some(inner.addr()),
    }
}

/// On an uninitialized lock, `acquire` and `release` always fail with
/// `Uninitialized` and hand the lock back in its exact prior state.
pub proof fn lemma_uninitialized_rejects(l: SafeSpinLock)
    requires
        l is Uninitialized,
    ensures
        acquire_transition(l) == Err::<SafeSpinLock, SpinLockError>(
            SpinLockError::Uninitialized { lock: l },
        ),
        release_transition(l) == Err::<SafeSpinLock, SpinLockError>(
            SpinLockError::Uninitialized { lock: l },
        ),
{
}

/// Whatever sequence of operations is applied to a freshly uninitialized
/// lock, the only operation that can succeed first is a create: as long as no
/// create occurs, every step fails and the lock stays uninitialized.
pub proof fn lemma_only_create_succeeds_first(l: SafeSpinLock, ops: Seq<LockOp>)
    requires
        l is Uninitialized,
        forall|i: int| 0 <= i < ops.len() ==> !(#[trigger] ops[i] is Create),
    ensures
        lock_after_all(l, ops) == l,
        forall|i: int| 0 <= i < ops.len() ==> (#[trigger] step_transition(l, ops[i])) is Err,
    decreases ops.len(),
{
    if ops.len() > 0 {
        let rest = ops.subrange(1, ops.len() as int);
        lemma_only_create_succeeds_first(l, rest);
    }
}

/// `create` on a lock that already has a native object always fails with
/// `AlreadyCreated` carrying the exact prior state, whatever the native
/// create call would have produced; nothing about the lock changes.
pub proof fn lemma_create_rejected_once_created(l: SafeSpinLock, outcome: Result<SpinLock, i32>)
    requires
        !(l is Uninitialized),
    ensures
        create_transition(l, outcome) == Err::<SafeSpinLock, SpinLockError>(
            SpinLockError::AlreadyCreated { lock: l },
        ),
{
}

/// An `acquire` immediately after a successful `acquire` always fails with
/// `AlreadyHeld` carrying the held lock unchanged: a successful acquire tags
/// its result `Held`, which the next acquire rejects.
pub proof fn lemma_double_acquire_rejected(l: SafeSpinLock, next: SafeSpinLock)
    requires
        acquire_transition(l) == Ok::<SafeSpinLock, SpinLockError>(next),
    ensures
        acquire_transition(next) == Err::<SafeSpinLock, SpinLockError>(
            SpinLockError::AlreadyHeld { lock: next },
        ),
{
}

/// `release` on a lock that was created but never acquired always fails with
/// `NotHeld` carrying the lock unchanged.
pub proof fn lemma_release_before_acquire_rejected(l: SafeSpinLock)
    requires
        l is Initialized,
    ensures
        release_transition(l) == Err::<SafeSpinLock, SpinLockError>(
            SpinLockError::NotHeld { lock: l },
        ),
{
}

/// Round trip: once a create succeeds with handle `s`, acquire moves the lock
/// to held and release moves it back to exactly the state acquire started
/// from, all without error. The release clause ends where the acquire clause
/// begins, so acquire and release succeed again and again, alternating, any
/// number of times — in particular create, acquire, release, acquire succeeds
/// at every step.
pub proof fn lemma_round_trip(s: SpinLock)
    ensures
        create_transition(SafeSpinLock::Uninitialized, Ok(s)) == Ok::<SafeSpinLock, SpinLockError>(
            SafeSpinLock::Initialized { inner: s },
        ),
        acquire_transition(SafeSpinLock::Initialized { inner: s }) == Ok::<
            SafeSpinLock,
            SpinLockError,
        >(SafeSpinLock::Held { inner: s }),
        release_transition(SafeSpinLock::Held { inner: s }) == Ok::<SafeSpinLock, SpinLockError>(
            SafeSpinLock::Initialized { inner: s },
        ),
{
}

/// No operation ever loses the handle: a lock that carries a handle before an
/// operation carries the same handle afterwards, whether the operation
/// succeeded or failed, across all five error cases; and every failure on a
/// created lock hands it back entirely unchanged.
pub proof fn lemma_no_handle_lost(l: SafeSpinLock, op: LockOp)
    ensures
        handle_of(l) is Some ==> handle_of(lock_after(l, op)) == handle_of(l),
        step_transition(l, op) is Err && !(l is Uninitialized) ==> lock_after(l, op) == l,
{
}

} // verus!
