use vstd::prelude::*;

use crate::cell::StorageCell;

verus! {

#[verifier::external_type_specification]
#[verifier::external_body]
#[verifier::reject_recursive_types(T)]
pub struct ExMutex<T: ?Sized>(std::sync::Mutex<T>);

#[verifier::external_type_specification]
#[verifier::external_body]
pub struct ExCondvar(std::sync::Condvar);

/// Relies on std's `Mutex::new`, which builds an unlocked mutex around `t`.
pub assume_specification<T>[ std::sync::Mutex::<T>::new ](t: T) -> std::sync::Mutex<T>;

/// Relies on std's `Condvar::new`, which builds a condition variable with no waiters.
pub assume_specification[ std::sync::Condvar::new ]() -> std::sync::Condvar;

/// Relies on std's `Condvar::notify_all`, which wakes every thread blocked on it.
pub assume_specification[ std::sync::Condvar::notify_all ](cv: &std::sync::Condvar);

/// Relies on std's `Mutex::lock`: runs `step` on the cell while no other
/// thread holds the lock. A poisoned lock is entered all the same, since a
/// step cannot leave the cell half changed. Which state the step met depends
/// on the other threads, so only the step's own contract is known of it.
#[verifier::external_body]
pub(crate) fn locked<T, R>(
    m: &std::sync::Mutex<StorageCell<T>>,
    step: impl FnOnce(StorageCell<T>) -> (StorageCell<T>, R),
) -> (r: R)
    requires
        forall|c: StorageCell<T>| step.requires((c,)),
    ensures
        exists|c: StorageCell<T>, d: StorageCell<T>| step.ensures((c,), (d, r)),
{
    let mut guard = m.lock().unwrap_or_else(std::sync::PoisonError::into_inner);
    let (next, r) = step(std::mem::take(&mut *guard));
    *guard = next;
    r
}

/// Relies on std's `Condvar::wait_while`: blocks on `cv` until the cell
/// guarded by `m` holds a published value, then runs `step` on it under the
/// same lock. Spurious wakeups are absorbed by re-checking the flag.
#[verifier::external_body]
pub(crate) fn locked_when_ready<T, R>(
    m: &std::sync::Mutex<StorageCell<T>>,
    cv: &std::sync::Condvar,
    step: impl FnOnce(StorageCell<T>) -> (StorageCell<T>, R),
) -> (r: R)
    requires
        forall|c: StorageCell<T>| c@.ready ==> step.requires((c,)),
    ensures
        exists|c: StorageCell<T>, d: StorageCell<T>| step.ensures((c,), (d, r)),
{
    let guard = m.lock().unwrap_or_else(std::sync::PoisonError::into_inner);
    let mut guard = cv.wait_while(guard, |c| c.is_waiting()).unwrap_or_else(
        std::sync::PoisonError::into_inner,
    );
    let (next, r) = step(std::mem::take(&mut *guard));
    *guard = next;
    r
}

} // verus!
