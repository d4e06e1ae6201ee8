//! Declarations of the outside types that the library carries around, and of the outside
//! functions that it calls on them. Nothing in this file is proved: each item says what it
//! takes for granted.
use std::sync::Arc;
use vstd::prelude::*;

verus! {

/// `async_channel::Sender`, carried as an opaque value.
#[verifier::external_type_specification]
#[verifier::external_body]
#[verifier::reject_recursive_types(T)]
pub struct ExSender<T>(async_channel::Sender<T>);

/// `async_channel::Receiver`, carried as an opaque value.
#[verifier::external_type_specification]
#[verifier::external_body]
#[verifier::reject_recursive_types(T)]
pub struct ExReceiver<T>(async_channel::Receiver<T>);

/// `async_lock::Mutex`, carried as an opaque value.
#[verifier::external_type_specification]
#[verifier::external_body]
#[verifier::reject_recursive_types(T)]
pub struct ExMutex<T: ?Sized>(async_lock::Mutex<T>);

/// `async_lock::MutexGuardArc`, carried as an opaque value. Dropping it unlocks the mutex.
#[verifier::external_type_specification]
#[verifier::external_body]
#[verifier::reject_recursive_types(T)]
pub struct ExMutexGuardArc<T: ?Sized>(async_lock::MutexGuardArc<T>);

/// `async_lock::futures::LockArc`, carried as an opaque value: it becomes ready with a guard once
/// the mutex is locked.
#[verifier::external_type_specification]
#[verifier::external_body]
#[verifier::reject_recursive_types(T)]
pub struct ExLockArc<T: ?Sized>(async_lock::futures::LockArc<T>);

/// `std::io::Error`, carried as an opaque value.
#[verifier::external_type_specification]
#[verifier::external_body]
pub struct ExIoError(std::io::Error);

/// `async_channel::bounded` panics on a capacity of zero; nothing else is taken for granted.
/// What ties the two ends together is the call itself: see `linked`.
pub assume_specification<T>[ async_channel::bounded::<T> ](cap: usize) -> (r: (
    async_channel::Sender<T>,
    async_channel::Receiver<T>,
))
    requires
        cap > 0,
;

/// `async_channel::unbounded` takes any call; what ties the two ends together is the call
/// itself: see `unbounded_pair`.
pub assume_specification<T>[ async_channel::unbounded::<T> ]() -> (r: (
    async_channel::Sender<T>,
    async_channel::Receiver<T>,
))
;

/// Cloning an `async_channel::Sender` gives another handle on the same channel. The relation
/// between the two handles is the call itself, which contracts write as `cloned`.
pub assume_specification<T>[ <async_channel::Sender<T> as Clone>::clone ](
    sender: &async_channel::Sender<T>,
) -> (r: async_channel::Sender<T>)
;

/// `async_lock::Mutex::new` puts a value into a new, unlocked mutex. The relation between the
/// two is the call itself: see `guards`.
pub assume_specification<T>[ async_lock::Mutex::<T>::new ](data: T) -> (r: async_lock::Mutex<T>)
;

/// `async_lock::Mutex::lock_arc` gives what becomes ready with a guard once the mutex is locked; it
/// does not wait itself. The relation between the two is the call itself: see `waits_for`.
pub assume_specification<T: ?Sized>[ async_lock::Mutex::<T>::lock_arc ](
    mutex: &Arc<async_lock::Mutex<T>>,
) -> (r: async_lock::futures::LockArc<T>)
;

/// `tx` and `rx` are the two ends of one channel that has room for one message: the pair that
/// one call of `async_channel::bounded(1)` handed out.
pub open spec fn linked<T>(
    tx: async_channel::Sender<T>,
    rx: async_channel::Receiver<T>,
) -> bool {
    call_ensures(async_channel::bounded::<T>, (1usize,), (tx, rx))
}

/// `tx` and `rx` are the two ends of one channel without a limit: the pair that one call of
/// `async_channel::unbounded()` handed out.
pub open spec fn unbounded_pair<T>(
    tx: async_channel::Sender<T>,
    rx: async_channel::Receiver<T>,
) -> bool {
    call_ensures(async_channel::unbounded::<T>, (), (tx, rx))
}

/// `mutex` was made around `data`: it is what one call of `async_lock::Mutex::new(data)` gave.
pub open spec fn guards<T>(mutex: async_lock::Mutex<T>, data: T) -> bool {
    call_ensures(async_lock::Mutex::<T>::new, (data,), mutex)
}

/// `lock` becomes ready with a guard once `mutex` is locked: it is what one call of
/// `async_lock::Mutex::lock_arc` on it gave.
pub open spec fn waits_for<T>(
    lock: async_lock::futures::LockArc<T>,
    mutex: Arc<async_lock::Mutex<T>>,
) -> bool {
    call_ensures(async_lock::Mutex::<T>::lock_arc, (&mutex,), lock)
}

} // verus!
