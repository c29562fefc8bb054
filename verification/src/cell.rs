//! The shared cell: a `parking_lot::Mutex` behind an `Arc`.
//!
//! What the cell holds at a given moment depends on what the other threads
//! have done to it, so nothing here says what a read returns. Each function
//! below takes the lock for one copy of the value and gives it up before it
//! returns: no thread holds the lock between two calls, so a call that waits
//! for the lock returns.

use parking_lot::Mutex;
use std::sync::Arc;
use vstd::prelude::*;

verus! {

/// `lock_api::Mutex`, of which `parking_lot::Mutex` is an instance. Opaque.
#[verifier::external_type_specification]
#[verifier::external_body]
#[verifier::reject_recursive_types(R)]
#[verifier::reject_recursive_types(T)]
pub struct ExMutex<R, T: ?Sized>(parking_lot::lock_api::Mutex<R, T>);

/// `parking_lot::RawMutex`, the lock inside a `parking_lot::Mutex`. Opaque.
#[verifier::external_type_specification]
#[verifier::external_body]
pub struct ExRawMutex(parking_lot::RawMutex);

/// `parking_lot::Mutex::new`: a new, unlocked mutex around `value`. Nothing
/// is claimed of the result.
#[verifier::external_body]
pub(crate) fn mutex_new<T: Copy>(value: T) -> Mutex<T> {
    Mutex::new(value)
}

/// `Arc::clone`: another pointer to the same allocation. A pointer stands for
/// what it points to, so the clone is claimed to equal its source.
#[verifier::external_body]
pub(crate) fn arc_clone<T>(cell: &Arc<Mutex<T>>) -> (twin: Arc<Mutex<T>>)
    ensures
        twin == *cell,
{
    Arc::clone(cell)
}

/// `parking_lot::Mutex::lock`, then a write of `value` through the guard,
/// which is dropped before the function returns. The call waits until the
/// lock is free. Nothing is claimed.
#[verifier::external_body]
pub(crate) fn locked_write<T: Copy>(cell: &Mutex<T>, value: T) {
    *cell.lock() = value;
}

/// `parking_lot::Mutex::lock`, then a read through the guard, which is dropped
/// before the function returns. The call waits until the lock is free. Nothing
/// is claimed of the value read.
#[verifier::external_body]
pub(crate) fn locked_read<T: Copy>(cell: &Mutex<T>) -> T {
    *cell.lock()
}

/// `parking_lot::Mutex::try_lock`, then a read through the guard where there
/// is one. The call does not wait. Nothing is claimed of the result: whether
/// the lock was free, and what the cell held, depend on the other threads.
#[verifier::external_body]
pub(crate) fn try_locked_read<T: Copy>(cell: &Mutex<T>) -> Option<T> {
    match cell.try_lock() {
        Some(guard) => Some(*guard),
        None => None,
    }
}

} // verus!
