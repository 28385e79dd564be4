use vstd::prelude::*;

verus! {

/// Handle to one native WDF spin-lock object.
///
/// The native object is created by `WdfSpinLockCreate` and identified by the
/// non-null pointer that call returns; this type records that pointer as a
/// plain address. The address is null (zero) only before construction, so a
/// `SpinLock` value always carries a non-zero address. The value never
/// duplicates the address into a second `SpinLock`, and it is never dropped by
/// this crate's operations: teardown belongs to the owning framework.
#[derive(Debug, PartialEq, Eq, Structural)]
pub struct SpinLock {
    handle: usize,
}

impl SpinLock {
    /// The address of the native spin-lock object this handle owns.
    pub closed spec fn addr(self) -> usize {
        self.handle
    }

    #[verifier::type_invariant]
    spec fn inv(self) -> bool {
        self.handle != 0
    }

    /// Wrap the address a successful native create returned. A null address
    /// is refused: it cannot name a constructed lock.
    pub fn from_handle(handle: usize) -> (r: Option<SpinLock>)
        ensures
            match r {
                Some(s) => s.addr() == handle && handle != 0,
                None => handle == 0,
            },
    {
        if handle != 0 {
            Some(SpinLock { handle })
        } else {
            None
        }
    }

    /// The raw address, for the caller that performs the native acquire and
    /// release calls on this lock.
    pub fn raw_handle(&self) -> (r: usize)
        ensures
            r == self.addr(),
            r != 0,
    {
        proof {
            use_type_invariant(self);
        }
        self.handle
    }
}

/// A spin lock whose lifecycle state is part of the value.
///
/// Every operation takes the value by ownership and returns either the
/// advanced value or a [`SpinLockError`] carrying the original value, so a
/// caller can never keep a stale copy in an old state and never loses the
/// wrapped [`SpinLock`].
///
/// On a successful `acquire` the returned value is tagged `Held`, and on a
/// successful `release` it is tagged `Initialized`: the tag always names the
/// state the lock is in after the call, so a second `acquire` on the returned
/// value is rejected as `AlreadyHeld` rather than acquiring twice.
#[derive(Debug, PartialEq, Eq, Structural)]
pub enum SafeSpinLock {
    /// No native lock object exists yet; only `create` can succeed.
    Uninitialized,
    /// The native lock object exists and is not held.
    Initialized {
        /// The handle to the native lock object.
        inner: SpinLock,
    },
    /// The native lock object exists and is held by the current owner.
    Held {
        /// The handle to the native lock object.
        inner: SpinLock,
    },
}

/// Errors for the typestate operations. Every variant that rejects an
/// operation on an existing lock carries the lock back, so the caller never
/// strands the native resource; `CreateFailed` arises only from the
/// uninitialized state, which holds no resource to return.
#[derive(Debug, PartialEq, Eq, Structural)]
pub enum SpinLockError {
    /// `create` was attempted on a lock that already has a native object.
    AlreadyCreated {
        /// The lock, in its exact prior state.
        lock: SafeSpinLock,
    },
    /// The native create call refused to construct the lock.
    CreateFailed,
    /// `acquire` was attempted on a lock that is already held.
    AlreadyHeld {
        /// The lock, still held.
        lock: SafeSpinLock,
    },
    /// `acquire` or `release` was attempted before the lock was created.
    Uninitialized {
        /// The lock, still uninitialized.
        lock: SafeSpinLock,
    },
    /// `release` was attempted on a lock that is initialized but not held.
    NotHeld {
        /// The lock, still initialized and free.
        lock: SafeSpinLock,
    },
}

/// What `create` yields for a lock in state `l` when the native create call
/// would end in `outcome`: from `Uninitialized` the constructed handle is
/// installed (or the failure reported without a lock, since none exists yet);
/// from any other state the operation is rejected and the lock returned
/// untouched, whatever `outcome` would have been.
pub open spec fn create_transition(
    l: SafeSpinLock,
    outcome: Result<SpinLock, i32>,
) -> Result<SafeSpinLock, SpinLockError> {
    match l {
        SafeSpinLock::Uninitialized => match outcome {
            Ok(s) => Ok(SafeSpinLock::Initialized { inner: s }),
            Err(_) => Err(SpinLockError::CreateFailed),
        },
        _ => Err(SpinLockError::AlreadyCreated { lock: l }),
    }
}

/// What `acquire` yields for a lock in state `l`: `Initialized` advances to
/// `Held`; anything else is rejected with the lock returned untouched.
pub open spec fn acquire_transition(l: SafeSpinLock) -> Result<SafeSpinLock, SpinLockError> {
    match l {
        SafeSpinLock::Initialized { inner } => Ok(SafeSpinLock::Held { inner }),
        SafeSpinLock::Held { .. } => Err(SpinLockError::AlreadyHeld { lock: l }),
        SafeSpinLock::Uninitialized => Err(SpinLockError::Uninitialized { lock: l }),
    }
}

/// What `release` yields for a lock in state `l`: `Held` returns to
/// `Initialized`; anything else is rejected with the lock returned untouched.
pub open spec fn release_transition(l: SafeSpinLock) -> Result<SafeSpinLock, SpinLockError> {
    match l {
        SafeSpinLock::Held { inner } => Ok(SafeSpinLock::Initialized { inner }),
        SafeSpinLock::Initialized { .. } => Err(SpinLockError::NotHeld { lock: l }),
        SafeSpinLock::Uninitialized => Err(SpinLockError::Uninitialized { lock: l }),
    }
}

/// Permission to run the native create call exactly once.
///
/// A value of this type is only handed out by [`SafeSpinLock::create`] on an
/// uninitialized lock, so a caller holding one knows the native object does
/// not exist yet; no other state can reach the native create call at all.
pub struct PendingCreate {
    private: (),
}

impl SafeSpinLock {
    /// First half of creation: check the state. On `Uninitialized` the caller
    /// receives a [`PendingCreate`] and must run the native create call, then
    /// report its outcome to [`PendingCreate::finish`]. On any other state the
    /// lock comes back untouched inside `AlreadyCreated`, and the native
    /// object is never touched, since no [`PendingCreate`] exists.
    pub fn create(self) -> (r: Result<PendingCreate, SpinLockError>)
        ensures
            match self {
                SafeSpinLock::Uninitialized => r is Ok,
                _ => (r == Err::<PendingCreate, SpinLockError>(SpinLockError::AlreadyCreated {
                    lock: self,
                })),
            },
    {
        match self {
            SafeSpinLock::Uninitialized => Ok(PendingCreate { private: () }),
            SafeSpinLock::Held { .. } | SafeSpinLock::Initialized { .. } => {
                Err(SpinLockError::AlreadyCreated { lock: self })
            },
        }
    }

    /// Acquire the lock. On `Initialized` the value advances to `Held` and
    /// the caller must then perform the native acquire call on the handle
    /// inside; on any other state the lock comes back untouched inside the
    /// error, and no native call is due.
    pub fn acquire(self) -> (r: Result<SafeSpinLock, SpinLockError>)
        ensures
            r == acquire_transition(self),
    {
        match self {
            SafeSpinLock::Initialized { inner } => Ok(SafeSpinLock::Held { inner }),
            SafeSpinLock::Held { .. } => Err(SpinLockError::AlreadyHeld { lock: self }),
            SafeSpinLock::Uninitialized => Err(SpinLockError::Uninitialized { lock: self }),
        }
    }

    /// Release the lock. On `Held` the value returns to `Initialized` and
    /// the caller must then perform the native release call on the handle
    /// inside; on any other state the lock comes back untouched inside the
    /// error, and no native call is due.
    pub fn release(self) -> (r: Result<SafeSpinLock, SpinLockError>)
        ensures
            r == release_transition(self),
    {
        match self {
            SafeSpinLock::Held { inner } => Ok(SafeSpinLock::Initialized { inner }),
            SafeSpinLock::Initialized { .. } => Err(SpinLockError::NotHeld { lock: self }),
            SafeSpinLock::Uninitialized => Err(SpinLockError::Uninitialized { lock: self }),
        }
    }
}

impl PendingCreate {
    /// Second half of creation: record the outcome of the native create call.
    /// A constructed handle moves the lock to `Initialized`; a native status
    /// code becomes `CreateFailed` (the code itself is not kept), and the
    /// caller starts again from `SafeSpinLock::Uninitialized`.
    pub fn finish(self, outcome: Result<SpinLock, i32>) -> (r: Result<
        SafeSpinLock,
        SpinLockError,
    >)
        ensures
            r == create_transition(SafeSpinLock::Uninitialized, outcome),
    {
        match outcome {
            Ok(s) => Ok(SafeSpinLock::Initialized { inner: s }),
            Err(_) => Err(SpinLockError::CreateFailed),
        }
    }
}

} // verus!
