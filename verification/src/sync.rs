//! What this crate takes from `std::sync` on trust.
//!
//! Verus sees nothing inside a lock. None of the functions here says what a lock
//! guards at the moment it is taken: that depends on what other threads did. The
//! steps that the handles take under the lock are verified for every state that
//! they may find there.
use vstd::prelude::*;

verus! {

/// `std::sync::Mutex`, opaque.
#[verifier::external_type_specification]
#[verifier::external_body]
#[verifier::reject_recursive_types(T)]
pub struct ExMutex<T: ?Sized>(std::sync::Mutex<T>);

/// `std::sync::MutexGuard`, opaque.
#[verifier::external_type_specification]
#[verifier::external_body]
#[verifier::reject_recursive_types(T)]
pub struct ExMutexGuard<'a, T: ?Sized + 'a>(std::sync::MutexGuard<'a, T>);

/// `std::sync::PoisonError`, opaque.
#[verifier::external_type_specification]
#[verifier::external_body]
#[verifier::reject_recursive_types(T)]
pub struct ExPoisonError<T>(std::sync::PoisonError<T>);

/// `std::sync::Condvar`, opaque.
#[verifier::external_type_specification]
#[verifier::external_body]
pub struct ExCondvar(std::sync::Condvar);

/// `Mutex::new` makes an unlocked mutex that guards `value`. Nothing is stated of
/// the result.
pub assume_specification<T>[ std::sync::Mutex::<T>::new ](value: T) -> (mutex: std::sync::Mutex<
    T,
>)
;

/// `Condvar::new` makes a condition variable with no thread waiting. Nothing is
/// stated of the result.
pub assume_specification[ std::sync::Condvar::new ]() -> (condvar: std::sync::Condvar)
;

/// `Condvar::wait_while` calls `condition` on what the lock guards and returns the
/// guard where the answer is `false`; else it gives the lock up, blocks until a
/// notification arrives, takes the lock again and asks again. Where the lock is
/// found poisoned after a wait the call returns at once with an error that holds
/// the guard: nothing says that `condition` is `false` then. `condition` is called
/// on whatever the lock guards, so it must accept every value. Nothing is stated
/// of the result. `std` says that the call may panic where one condition variable
/// is used with more than one mutex.
pub assume_specification<'a, T, F>[ std::sync::Condvar::wait_while::<T, F> ](
    condvar: &std::sync::Condvar,
    guard: std::sync::MutexGuard<'a, T>,
    condition: F,
) -> (result: Result<
    std::sync::MutexGuard<'a, T>,
    std::sync::PoisonError<std::sync::MutexGuard<'a, T>>,
>) where F: FnMut(&mut T) -> bool
    requires
        forall|state: &mut T| call_requires(condition, (state,)),
;

/// `Mutex::lock` blocks until the lock is free and takes it. The result is an error
/// where a thread panicked while it held the lock; the error holds the guard too.
/// Nothing is stated of the result. Taken on trust: that the call does not
/// panic, which `std` says it may where the calling thread already holds the lock.
/// No function of this crate takes the lock while it holds a guard of it; the one
/// way there is a `Debug` impl of a message that uses a handle of the channel
/// while the channel is described.
#[verifier::external_body]
pub(crate) fn lock<'a, T>(mutex: &'a std::sync::Mutex<T>) -> (result: Result<
    std::sync::MutexGuard<'a, T>,
    std::sync::PoisonError<std::sync::MutexGuard<'a, T>>,
>)
    opens_invariants none
    no_unwind
{
    mutex.lock()
}

/// `PoisonError::into_inner` hands out the guard that the error holds. Nothing is
/// stated of the result.
#[verifier::external_body]
pub(crate) fn into_inner<G>(error: std::sync::PoisonError<G>) -> (guard: G)
    opens_invariants none
    no_unwind
{
    error.into_inner()
}

/// `DerefMut::deref_mut` of a `MutexGuard` borrows what the lock guards. Nothing is
/// stated of the result.
#[verifier::external_body]
pub(crate) fn guarded<'a, 'b, T>(guard: &'a mut std::sync::MutexGuard<'b, T>) -> (value: &'a mut T)
    opens_invariants none
    no_unwind
{
    std::ops::DerefMut::deref_mut(guard)
}

/// `Condvar::notify_one` wakes one thread that waits on the condition variable, if
/// there is one.
#[verifier::external_body]
pub(crate) fn notify_one(condvar: &std::sync::Condvar)
    opens_invariants none
    no_unwind
{
    condvar.notify_one()
}

/// `Arc::clone` makes another pointer to the same allocation: what the result points
/// to is what `pointer` points to.
#[verifier::external_body]
pub(crate) fn share<T>(pointer: &std::sync::Arc<T>) -> (other: std::sync::Arc<T>)
    ensures
        other == *pointer,
{
    std::sync::Arc::clone(pointer)
}

/// `Mutex::clear_poison` takes the mark of poison off the mutex: calls that take
/// the lock report no error again, until a holder panics anew.
#[verifier::external_body]
pub(crate) fn clear_poison<T>(mutex: &std::sync::Mutex<T>)
    opens_invariants none
    no_unwind
{
    mutex.clear_poison()
}

} // verus!
