//! Reader-writer locking, as provided by `parking_lot`.
//!
//! Nothing in this module is proved. Each item either makes a type of
//! `parking_lot` known to the verifier or wraps one call into it, and the
//! verifier takes the item at its word. No wrapper promises anything about
//! the value it gives access to: between two holds of a lock any other
//! thread may have changed that value.
//!
//! Taking a lock blocks until the lock is free. A thread that already holds
//! a lock must not take the same lock again; the library never does, and it
//! hands no hold to its callers.

use parking_lot::lock_api::RwLock;
use parking_lot::RawRwLock;
use vstd::prelude::*;

verus! {

/// `parking_lot::RawRwLock`, the lock word inside every
/// `parking_lot::RwLock`. Opaque.
#[verifier::external_type_specification]
#[verifier::external_body]
pub struct ExRawRwLock(RawRwLock);

/// `lock_api::RwLock<R, T>`; `parking_lot::RwLock<T>` is this type with
/// `R = parking_lot::RawRwLock`. Opaque: the protected value is no part of
/// what the verifier sees of a lock.
#[verifier::external_type_specification]
#[verifier::external_body]
#[verifier::reject_recursive_types(R)]
#[verifier::reject_recursive_types(T)]
pub struct ExRwLock<R, T: ?Sized>(RwLock<R, T>);

/// A shared hold of a lock: a `parking_lot::RwLockReadGuard`, which gives the
/// lock back when it is dropped. The guard's own type is bounded by a trait
/// of `lock_api` that cannot be declared to the verifier, so it is kept
/// behind this struct, whose body the verifier does not read.
#[verifier::external_body]
#[verifier::reject_recursive_types(T)]
pub(crate) struct SharedHold<'a, T> {
    guard: parking_lot::RwLockReadGuard<'a, T>,
}

/// An exclusive hold of a lock: a `parking_lot::RwLockWriteGuard`, which
/// gives the lock back when it is dropped. Kept behind a struct for the same
/// reason as [`SharedHold`].
#[verifier::external_body]
#[verifier::reject_recursive_types(T)]
pub(crate) struct ExclusiveHold<'a, T> {
    guard: parking_lot::RwLockWriteGuard<'a, T>,
}

/// Calls `RwLock::new`: a lock that nobody holds, around `value`. Nothing is
/// stated of the result.
#[verifier::external_body]
pub(crate) fn rwlock_new<T>(value: T) -> RwLock<RawRwLock, T> {
    RwLock::new(value)
}

/// Calls `RwLock::read`: waits until no writer holds the lock and returns a
/// shared hold. Nothing is stated of the value that the hold gives access to.
#[verifier::external_body]
pub(crate) fn rwlock_read<'a, T>(lock: &'a RwLock<RawRwLock, T>) -> SharedHold<'a, T> {
    SharedHold { guard: lock.read() }
}

/// Calls `RwLock::write`: waits until nobody else holds the lock and returns
/// an exclusive hold. Nothing is stated of the value that the hold gives
/// access to.
#[verifier::external_body]
pub(crate) fn rwlock_write<'a, T>(lock: &'a RwLock<RawRwLock, T>) -> ExclusiveHold<'a, T> {
    ExclusiveHold { guard: lock.write() }
}

/// Calls `Deref::deref` of the read guard: a reference to the protected
/// value that lives no longer than the hold. Nothing is stated of the value.
#[verifier::external_body]
pub(crate) fn shared_get<'a, 'b, T>(hold: &'a SharedHold<'b, T>) -> &'a T {
    &*hold.guard
}

/// Calls `DerefMut::deref_mut` of the write guard: a mutable reference to the
/// protected value that lives no longer than the hold. Nothing is stated of
/// the value.
#[verifier::external_body]
pub(crate) fn exclusive_get_mut<'a, 'b, T>(hold: &'a mut ExclusiveHold<'b, T>) -> &'a mut T {
    &mut *hold.guard
}

} // verus!
