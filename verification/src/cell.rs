//! The shared exclusive cell: one value, two handles, non-blocking access.
//!
//! A cell is a reference-counted slot guarded by a try-lock mutex. It holds at
//! most one value, and exactly two handles to it exist. `try_take` moves the
//! value out without waiting, or reports that it is unavailable because the
//! other handle has it; `store` puts a value back. Between a take and the
//! matching store the caller owns the value outright, so at most one handle
//! can ever be using it — the discipline that `crate::protocol` states
//! abstractly. The lock itself is held only inside this module's trusted
//! functions, each for the constant-time motion of the value, never while the
//! value is being used.

use std::sync::Arc;
use std::sync::Mutex;
use std::sync::TryLockError;
use vstd::prelude::*;

verus! {

/// `std::sync::Mutex`, declared so that a cell can hold one. Its contents are
/// reached only inside this module's trusted functions.
#[verifier::external_type_specification]
#[verifier::external_body]
#[verifier::reject_recursive_types(T)]
pub struct ExMutex<T: ?Sized>(Mutex<T>);

/// Relies on `std::sync::Mutex::new`: the returned mutex is unlocked and
/// holds `t`.
pub assume_specification<T>[ Mutex::<T>::new ](t: T) -> Mutex<T>;

/// Relies on `Arc::clone`: the returned handle refers to the very same
/// allocation, so as a value it equals the argument.
#[verifier::external_body]
fn dup_handle<T>(cell: &Arc<Mutex<Option<T>>>) -> (r: Arc<Mutex<Option<T>>>)
    ensures
        r == *cell,
{
    Arc::clone(cell)
}

/// Relies on `std::sync::Mutex::try_lock`: it locks only while no other
/// holder exists and never waits. On success the cell's content is moved out,
/// leaving `None` behind; on contention the answer is `None`. A poisoned lock
/// is recovered with `PoisonError::into_inner` and read like a healthy one.
#[verifier::external_body]
fn take_from<T>(cell: &Arc<Mutex<Option<T>>>) -> (taken: Option<T>) {
    match cell.try_lock() {
        Ok(mut guard) => guard.take(),
        Err(TryLockError::Poisoned(p)) => p.into_inner().take(),
        Err(TryLockError::WouldBlock) => None,
    }
}

/// Relies on `std::sync::Mutex::lock`: it waits only while the other handle
/// is inside its own momentary take or store, then the value is written into
/// the cell, replacing the content. A poisoned lock is recovered with
/// `PoisonError::into_inner` and written like a healthy one.
#[verifier::external_body]
fn store_into<T>(cell: &Arc<Mutex<Option<T>>>, value: T) {
    let mut guard = match cell.lock() {
        Ok(guard) => guard,
        Err(p) => p.into_inner(),
    };
    *guard = Some(value);
}

/// One of the two handles to a shared exclusive cell.
///
/// The cell keeps the value; neither handle can reach it except by moving it
/// out with `try_take`, and the cell stays alive until both handles are gone.
/// Dropping one handle never disturbs the other.
#[verifier::reject_recursive_types(T)]
pub struct SharedCell<T> {
    handle: Arc<Mutex<Option<T>>>,
}

impl<T> SharedCell<T> {
    /// Creates a cell holding `value` and returns its two handles. The two
    /// are equal as values: they refer to the very same cell.
    pub fn new(value: T) -> (pair: (SharedCell<T>, SharedCell<T>))
        ensures
            pair.0 == pair.1,
    {
        let first = Arc::new(Mutex::new(Some(value)));
        let second = dup_handle(&first);
        (SharedCell { handle: first }, SharedCell { handle: second })
    }

    /// Moves the cell's value out without waiting. `None` means the value is
    /// unavailable right now: the other handle holds it, or is touching the
    /// cell at this very instant.
    pub fn try_take(&self) -> (taken: Option<T>) {
        take_from(&self.handle)
    }

    /// Puts a value back into the cell, making it available to both handles
    /// again. Whatever the cell held is replaced; a caller that only stores
    /// what it took never discards anything this way.
    pub fn store(&self, value: T) {
        store_into(&self.handle, value);
    }
}

} // verus!
