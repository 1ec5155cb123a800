//! The synchronisation primitives of the standard library, as far as the
//! channel uses them.
//!
//! Nothing in this module is proved. Each item states what the channel relies
//! on; what another thread may change between two calls is left open.
use crate::channel::keeps_waiting;
use std::collections::VecDeque;
use std::sync::atomic::AtomicUsize;
use std::sync::atomic::Ordering;
use std::sync::Arc;
use std::sync::Condvar;
use std::sync::Mutex;
use std::sync::MutexGuard;
use std::sync::PoisonError;
use vstd::prelude::*;

verus! {

/// `std::sync::Mutex`, a value behind a lock. What it holds at a given moment
/// is not known to the verifier.
#[verifier::external_type_specification]
#[verifier::external_body]
#[verifier::reject_recursive_types(T)]
pub struct ExMutex<T: ?Sized>(Mutex<T>);

/// `std::sync::MutexGuard`, the proof that the lock is held. Dropping it
/// releases the lock.
#[verifier::external_type_specification]
#[verifier::external_body]
#[verifier::reject_recursive_types(T)]
pub struct ExMutexGuard<'a, T: ?Sized + 'a>(MutexGuard<'a, T>);

/// `std::sync::PoisonError`, returned in place of a guard when a thread
/// panicked while it held the lock. It carries the guard.
#[verifier::external_type_specification]
#[verifier::external_body]
#[verifier::reject_recursive_types(T)]
pub struct ExPoisonError<T>(PoisonError<T>);

/// `std::sync::Condvar`, on which a thread waits for a signal.
#[verifier::external_type_specification]
#[verifier::external_body]
pub struct ExCondvar(Condvar);

/// `Mutex::new` puts a value behind a new, unlocked mutex. Nothing is claimed
/// of the result.
pub assume_specification<T>[ Mutex::<T>::new ](value: T) -> (mutex: Mutex<T>)
;

/// `Mutex::lock` waits until the calling thread holds the lock and returns
/// the guard, or the poison error if a holder panicked. Nothing is claimed of
/// what the mutex holds at that moment. A thread that already holds the lock
/// must not call it; the channel never locks while it holds a guard.
pub assume_specification<'a, T: ?Sized>[ Mutex::<T>::lock ](mutex: &'a Mutex<T>) -> (res: Result<
    MutexGuard<'a, T>,
    PoisonError<MutexGuard<'a, T>>,
>)
;

/// `PoisonError::into_inner` hands out the guard that the error carries.
pub assume_specification<T>[ PoisonError::<T>::into_inner ](error: PoisonError<T>) -> (guard: T)
;

/// `Condvar::new` makes a condition variable on which nobody waits.
pub assume_specification[ Condvar::new ]() -> (condvar: Condvar)
;

/// `Condvar::notify_one` wakes one thread that waits on the condition
/// variable, if there is one. It does not wait itself.
pub assume_specification[ Condvar::notify_one ](condvar: &Condvar)
;

/// `DerefMut::deref_mut` of `MutexGuard`: the value behind the lock, for as
/// long as the guard is borrowed. Nothing is claimed of what the queue holds,
/// since other threads were free to change it before the lock was taken.
#[verifier::external_body]
pub(crate) fn locked_queue<'a, 'b, T>(guard: &'a mut MutexGuard<'b, VecDeque<T>>) -> (queue:
    &'a mut VecDeque<T>) {
    &mut **guard
}

/// `Condvar::wait_while` with [`keeps_waiting`] as its condition: it tests the
/// condition on the locked queue, and as long as the test says so it releases
/// the lock, sleeps until the condition variable is signalled (or the thread
/// wakes for no reason), takes the lock again and tests again. It returns the
/// guard after the first test that says no, or the poison error. It can wait
/// for ever. Nothing is claimed of the queue behind the guard that comes back.
/// The condition variable must always be used with the same mutex; the
/// channel has one of each.
#[verifier::external_body]
pub(crate) fn wait_while_starved<'a, T>(
    available: &Condvar,
    guard: MutexGuard<'a, VecDeque<T>>,
    senders: &AtomicUsize,
) -> (res: Result<MutexGuard<'a, VecDeque<T>>, PoisonError<MutexGuard<'a, VecDeque<T>>>>) {
    available.wait_while(guard, |queue| keeps_waiting(queue, senders))
}

/// `AtomicUsize::fetch_sub`: it takes `amount` from the counter, wrapping
/// round at zero, and returns what the counter held before. The claim is that
/// it returns and does not unwind, which a destructor has to know of what it
/// calls. Nothing is claimed of the number that comes back.
#[verifier::external_body]
pub(crate) fn count_down(counter: &AtomicUsize, amount: usize, order: Ordering) -> (before: usize)
    opens_invariants none
    no_unwind
{
    counter.fetch_sub(amount, order)
}

/// `Arc::clone`: one more pointer to the same value.
#[verifier::external_body]
pub(crate) fn share<T>(pointer: &Arc<T>) -> (res: Arc<T>)
    ensures
        res == *pointer,
{
    Arc::clone(pointer)
}

} // verus!
