//! A typestate wrapper around a WDF spin lock.
//!
//! The lock's lifecycle (uninitialized, initialized, held) is encoded in an
//! enum, and every operation consumes the value and returns either the
//! advanced value or an error that carries the original value back, so the
//! caller can never lose the underlying lock handle.
//!
//! The native WDF calls themselves (`WdfSpinLockCreate`, `WdfSpinLockAcquire`,
//! `WdfSpinLockRelease`) are foreign, unsafe entry points and live outside
//! this crate; this crate decides which native call is legal in the current
//! state and hands the caller the handle to make it on.

pub mod laws;
pub mod spinlock;
