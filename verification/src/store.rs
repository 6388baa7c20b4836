//! The shared queue store: one `QueueMap` behind one lock, for any number of
//! concurrent callers.
//!
//! Every operation of `QueueStore` takes the lock, hands what the lock gave to
//! the function of the same name that ends in `_locked`, and gives the lock
//! back before it returns. The operations therefore take effect one after the
//! other, in the order in which they got the lock.
//!
//! Whether the lock is available, and which state of the queues an operation
//! meets, is decided by the other callers and by that order alone. So an
//! operation of `QueueStore` promises that its answer is the one that belongs
//! to what the lock gave, whatever that was; the `_locked` functions say, for
//! every answer of the lock and every state of the queues, what is returned
//! and what becomes of the queues.

use crate::model::{front, inserted, popped, queue_of, touched, StoreModel};
use crate::queue_map::QueueMap;
use std::sync::Arc;
use std::sync::Mutex;
use std::sync::MutexGuard;
use std::sync::PoisonError;
use vstd::prelude::*;

verus! {

/// `std::sync::Mutex`, taken as an opaque type.
#[verifier::external_type_specification]
#[verifier::external_body]
#[verifier::reject_recursive_types(T)]
pub struct ExMutex<T: ?Sized>(Mutex<T>);

/// `std::sync::MutexGuard`, taken as an opaque type.
#[verifier::external_type_specification]
#[verifier::external_body]
#[verifier::reject_recursive_types(T)]
pub struct ExMutexGuard<'a, T: ?Sized + 'a>(MutexGuard<'a, T>);

/// `std::sync::PoisonError`, taken as an opaque type.
#[verifier::external_type_specification]
#[verifier::external_body]
#[verifier::reject_recursive_types(T)]
pub struct ExPoisonError<T>(PoisonError<T>);

/// Why a store operation could not run.
#[derive(Clone, Copy, Debug, PartialEq, Eq, Structural)]
pub enum StoreError {
    /// The lock is poisoned: an earlier holder failed while it held the lock,
    /// and the queues can no longer be trusted. Trying again does not help.
    LockUnavailable,
}

/// What an insert answers, given what the lock gave: the queues, or nothing
/// where the lock was unavailable.
pub open spec fn insert_in(queues: Option<StoreModel>) -> Result<(), StoreError> {
    match queues {
        Some(_) => Ok(()),
        None => Err(StoreError::LockUnavailable),
    }
}

/// What a pop on `name` answers, given what the lock gave.
pub open spec fn pop_in(queues: Option<StoreModel>, name: Seq<char>) -> Result<
    Option<Seq<char>>,
    StoreError,
> {
    match queues {
        Some(s) => Ok(front(s, name)),
        None => Err(StoreError::LockUnavailable),
    }
}

/// What a listing of `name` answers, given what the lock gave.
pub open spec fn list_all_in(queues: Option<StoreModel>, name: Seq<char>) -> Result<
    Seq<Seq<char>>,
    StoreError,
> {
    match queues {
        Some(s) => Ok(queue_of(s, name)),
        None => Err(StoreError::LockUnavailable),
    }
}

/// What a count of `name` answers, given what the lock gave.
pub open spec fn count_in(queues: Option<StoreModel>, name: Seq<char>) -> Result<nat, StoreError> {
    match queues {
        Some(s) => Ok(queue_of(s, name).len()),
        None => Err(StoreError::LockUnavailable),
    }
}

/// What a lookup of `name` answers, given what the lock gave: the messages of
/// the queue if it exists, `None` if it does not.
pub open spec fn lookup_in(queues: Option<StoreModel>, name: Seq<char>) -> Result<
    Option<Seq<Seq<char>>>,
    StoreError,
> {
    match queues {
        Some(s) => Ok(
            if s.contains_key(name) {
                Some(s[name])
            } else {
                None
            },
        ),
        None => Err(StoreError::LockUnavailable),
    }
}

/// The answer of a pop, with the message as a sequence of characters.
pub open spec fn pop_view(r: Result<Option<String>, StoreError>) -> Result<
    Option<Seq<char>>,
    StoreError,
> {
    match r {
        Ok(Some(message)) => Ok(Some(message@)),
        Ok(None) => Ok(None),
        Err(e) => Err(e),
    }
}

/// The answer of a listing, with the messages as sequences of characters.
pub open spec fn list_view(r: Result<Vec<String>, StoreError>) -> Result<
    Seq<Seq<char>>,
    StoreError,
> {
    match r {
        Ok(messages) => Ok(messages.deep_view()),
        Err(e) => Err(e),
    }
}

/// The answer of a count, as a natural number.
pub open spec fn count_view(r: Result<usize, StoreError>) -> Result<nat, StoreError> {
    match r {
        Ok(n) => Ok(n as nat),
        Err(e) => Err(e),
    }
}

/// The answer of a lookup, with the messages as sequences of characters.
pub open spec fn lookup_view(r: Result<Option<Vec<String>>, StoreError>) -> Result<
    Option<Seq<Seq<char>>>,
    StoreError,
> {
    match r {
        Ok(Some(messages)) => Ok(Some(messages.deep_view())),
        Ok(None) => Ok(None),
        Err(e) => Err(e),
    }
}

/// A handle on the one store that all request handlers share. Cloning the
/// handle gives another handle on the same store.
#[derive(Clone)]
pub struct QueueStore {
    shared: Arc<Mutex<QueueMap>>,
}

/// Calls `std::sync::Mutex::new`. Nothing is claimed of the mutex it makes.
#[verifier::external_body]
fn new_lock(queues: QueueMap) -> Mutex<QueueMap> {
    Mutex::new(queues)
}

/// Calls `std::sync::Mutex::lock`, which waits until the lock is free and
/// fails when the mutex is poisoned. Nothing is claimed of the outcome. The
/// calling thread must not hold this lock already: the operations below take
/// it once and drop the guard before they return.
#[verifier::external_body]
fn acquire<'a>(lock: &'a Mutex<QueueMap>) -> Result<
    MutexGuard<'a, QueueMap>,
    PoisonError<MutexGuard<'a, QueueMap>>,
> {
    lock.lock()
}

/// Calls `DerefMut::deref_mut` of `std::sync::MutexGuard`: the queues that
/// the guard protects. Nothing is claimed of what they hold.
#[verifier::external_body]
fn guarded<'a, 'b>(guard: &'a mut MutexGuard<'b, QueueMap>) -> &'a mut QueueMap {
    &mut **guard
}

impl QueueStore {
    /// A new store without any queue.
    pub fn new() -> Self {
        QueueStore { shared: Arc::new(new_lock(QueueMap::new())) }
    }

    /// Appends `message` to the back of the queue `queue_name`, which is
    /// created when it is not there yet. Fails only when the lock is
    /// unavailable.
    pub fn insert(&self, queue_name: &str, message: String) -> (r: Result<(), StoreError>)
        ensures
            exists|queues: Option<StoreModel>| r == #[trigger] insert_in(queues),
    {
        match acquire(&self.shared) {
            Ok(mut guard) => {
                let queues = guarded(&mut guard);
                let ghost met = queues@;
                let r = insert_locked(Some(queues), queue_name, message);
                assert(r == insert_in(Some(met)));
                r
            },
            Err(_) => {
                let r = insert_locked(None, queue_name, message);
                assert(r == insert_in(None));
                r
            },
        }
    }

    /// Removes and returns the oldest message of the queue `queue_name`;
    /// `Ok(None)` says that the queue holds nothing. Fails only when the lock
    /// is unavailable.
    pub fn pop(&self, queue_name: &str) -> (r: Result<Option<String>, StoreError>)
        ensures
            exists|queues: Option<StoreModel>|
                pop_view(r) == #[trigger] pop_in(queues, queue_name@),
    {
        match acquire(&self.shared) {
            Ok(mut guard) => {
                let queues = guarded(&mut guard);
                let ghost met = queues@;
                let r = pop_locked(Some(queues), queue_name);
                assert(pop_view(r) == pop_in(Some(met), queue_name@));
                r
            },
            Err(_) => {
                let r = pop_locked(None, queue_name);
                assert(pop_view(r) == pop_in(None, queue_name@));
                r
            },
        }
    }

    /// A copy of the messages of the queue `queue_name`, oldest first. Fails
    /// only when the lock is unavailable.
    pub fn list_all(&self, queue_name: &str) -> (r: Result<Vec<String>, StoreError>)
        ensures
            exists|queues: Option<StoreModel>|
                list_view(r) == #[trigger] list_all_in(queues, queue_name@),
    {
        match acquire(&self.shared) {
            Ok(mut guard) => {
                let queues = guarded(&mut guard);
                let ghost met = queues@;
                let r = list_all_locked(Some(queues), queue_name);
                assert(list_view(r) == list_all_in(Some(met), queue_name@));
                r
            },
            Err(_) => {
                let r = list_all_locked(None, queue_name);
                assert(list_view(r) == list_all_in(None, queue_name@));
                r
            },
        }
    }

    /// The number of messages in the queue `queue_name`. Fails only when the
    /// lock is unavailable.
    pub fn count(&self, queue_name: &str) -> (r: Result<usize, StoreError>)
        ensures
            exists|queues: Option<StoreModel>|
                count_view(r) == #[trigger] count_in(queues, queue_name@),
    {
        match acquire(&self.shared) {
            Ok(mut guard) => {
                let queues = guarded(&mut guard);
                let ghost met = queues@;
                let r = count_locked(Some(queues), queue_name);
                assert(count_view(r) == count_in(Some(met), queue_name@));
                r
            },
            Err(_) => {
                let r = count_locked(None, queue_name);
                assert(count_view(r) == count_in(None, queue_name@));
                r
            },
        }
    }

    /// A copy of the messages of the queue `queue_name` if that queue exists,
    /// and `Ok(None)` if it does not; nothing is created. Fails only when the
    /// lock is unavailable.
    pub fn snapshot(&self, queue_name: &str) -> (r: Result<Option<Vec<String>>, StoreError>)
        ensures
            exists|queues: Option<StoreModel>|
                lookup_view(r) == #[trigger] lookup_in(queues, queue_name@),
    {
        match acquire(&self.shared) {
            Ok(mut guard) => {
                let queues = guarded(&mut guard);
                let ghost met = queues@;
                let r = snapshot_locked(Some(&*queues), queue_name);
                assert(lookup_view(r) == lookup_in(Some(met), queue_name@));
                r
            },
            Err(_) => {
                let r = snapshot_locked(None, queue_name);
                assert(lookup_view(r) == lookup_in(None, queue_name@));
                r
            },
        }
    }
}

/// An insert, given what the lock gave: with the queues in hand, `message` is
/// appended to the back of the queue `queue_name`; without them, the lock is
/// reported as unavailable.
pub fn insert_locked(
    queues: Option<&mut QueueMap>,
    queue_name: &str,
    message: String,
) -> (r: Result<(), StoreError>)
    ensures
        match queues {
            Some(q) => r == insert_in(Some(q@)) && final(q)@ == inserted(
                q@,
                queue_name@,
                message@,
            ),
            None => r == insert_in(None),
        },
{
    match queues {
        Some(q) => {
            q.insert(queue_name, message);
            Ok(())
        },
        None => Err(StoreError::LockUnavailable),
    }
}

/// A pop, given what the lock gave: with the queues in hand, the oldest
/// message of the queue `queue_name` is taken off and returned, or `Ok(None)`
/// where the queue holds nothing; without them, the lock is reported as
/// unavailable.
pub fn pop_locked(
    queues: Option<&mut QueueMap>,
    queue_name: &str,
) -> (r: Result<Option<String>, StoreError>)
    ensures
        match queues {
            Some(q) => pop_view(r) == pop_in(Some(q@), queue_name@) && final(q)@ == popped(
                q@,
                queue_name@,
            ),
            None => pop_view(r) == pop_in(None, queue_name@),
        },
{
    match queues {
        Some(q) => Ok(q.pop(queue_name)),
        None => Err(StoreError::LockUnavailable),
    }
}

/// A listing, given what the lock gave: with the queues in hand, a copy of
/// the messages of the queue `queue_name`, oldest first, and the queue exists
/// afterwards; without them, the lock is reported as unavailable.
pub fn list_all_locked(
    queues: Option<&mut QueueMap>,
    queue_name: &str,
) -> (r: Result<Vec<String>, StoreError>)
    ensures
        match queues {
            Some(q) => list_view(r) == list_all_in(Some(q@), queue_name@) && final(q)@
                == touched(q@, queue_name@),
            None => list_view(r) == list_all_in(None, queue_name@),
        },
{
    match queues {
        Some(q) => Ok(q.list_all(queue_name)),
        None => Err(StoreError::LockUnavailable),
    }
}

/// A count, given what the lock gave: with the queues in hand, the number of
/// messages of the queue `queue_name`, and the queue exists afterwards;
/// without them, the lock is reported as unavailable.
pub fn count_locked(
    queues: Option<&mut QueueMap>,
    queue_name: &str,
) -> (r: Result<usize, StoreError>)
    ensures
        match queues {
            Some(q) => count_view(r) == count_in(Some(q@), queue_name@) && final(q)@
                == touched(q@, queue_name@),
            None => count_view(r) == count_in(None, queue_name@),
        },
{
    match queues {
        Some(q) => Ok(q.count(queue_name)),
        None => Err(StoreError::LockUnavailable),
    }
}

/// A lookup, given what the lock gave: with the queues in hand, a copy of the
/// messages of the queue `queue_name` if that queue exists, and `Ok(None)` if
/// it does not; without them, the lock is reported as unavailable.
pub fn snapshot_locked(
    queues: Option<&QueueMap>,
    queue_name: &str,
) -> (r: Result<Option<Vec<String>>, StoreError>)
    ensures
        match queues {
            Some(q) => lookup_view(r) == lookup_in(Some(q@), queue_name@),
            None => lookup_view(r) == lookup_in(None, queue_name@),
        },
{
    match queues {
        Some(q) => Ok(q.snapshot(queue_name)),
        None => Err(StoreError::LockUnavailable),
    }
}

} // verus!
