//! The slot store behind its lock.
//!
//! Both rings reach the completion slot store: the submission side issues ids and
//! leaves continuations, the completion side takes them out. The table is guarded by
//! one `parking_lot` mutex; the rings themselves are not under it.
use crate::op::cqe::Cqe;
use crate::op::storage::{unpack_all, Due, Id, Slot, Table, Unpack, UnpackerStorage};
use parking_lot::lock_api::Mutex;
use parking_lot::MutexGuard;
use parking_lot::RawMutex;
use std::sync::Arc;
use vstd::prelude::*;

verus! {

/// `parking_lot::RawMutex`, the lock inside a `parking_lot::Mutex`.
#[verifier::external_type_specification]
#[verifier::external_body]
pub struct ExRawMutex(RawMutex);

/// `lock_api::Mutex`, of which `parking_lot::Mutex<T>` is the instance with
/// `parking_lot::RawMutex`. Nothing is known of what it holds.
#[verifier::external_type_specification]
#[verifier::external_body]
#[verifier::reject_recursive_types(R)]
#[verifier::reject_recursive_types(T)]
pub struct ExMutex<R, T: ?Sized>(Mutex<R, T>);

/// A held lock: a `parking_lot::MutexGuard`. The mutex is unlocked when this value
/// goes out of scope.
#[verifier::external_body]
#[verifier::reject_recursive_types(T)]
pub(crate) struct Locked<'a, T> {
    guard: MutexGuard<'a, T>,
}

/// `parking_lot::Mutex::new`: a new, unlocked mutex that holds `value`.
#[verifier::external_body]
pub(crate) fn mutex_new<T>(value: T) -> (mutex: Mutex<RawMutex, T>) {
    Mutex::new(value)
}

/// `parking_lot::Mutex::lock`: blocks until the lock is acquired, and returns the
/// guard that holds it. It must not be called by a thread that holds the lock.
#[verifier::external_body]
pub(crate) fn mutex_lock<'a, T>(mutex: &'a Mutex<RawMutex, T>) -> (locked: Locked<'a, T>) {
    Locked { guard: mutex.lock() }
}

/// `DerefMut::deref_mut` of `parking_lot::MutexGuard`: the value that the mutex
/// holds, for as long as the guard is borrowed. What the value is depends on what
/// other holders of the lock have left there.
#[verifier::external_body]
pub(crate) fn locked_value<'a, 'b, T>(locked: &'b mut Locked<'a, T>) -> (value: &'b mut T) {
    &mut *locked.guard
}

/// The completion slot store as the rings share it: one table behind one lock.
#[verifier::reject_recursive_types(U)]
pub struct SharedStorage<U> {
    inner: Arc<Mutex<RawMutex, UnpackerStorage<U>>>,
}

impl<U: Unpack> SharedStorage<U> {
    /// A shared store with an empty table that has room for `capacity` slots before
    /// it has to grow.
    pub fn with_capacity(capacity: usize) -> Self {
        SharedStorage { inner: Arc::new(mutex_new(UnpackerStorage::with_capacity(capacity))) }
    }

    /// Another handle to the same store.
    pub fn share(&self) -> (shared: Self)
        ensures
            shared == *self,
    {
        SharedStorage { inner: Arc::clone(&self.inner) }
    }

    /// Take a slot for a new submission and return its id, as
    /// [`UnpackerStorage::issue_id`] does.
    pub fn issue_id(&self) -> Id {
        let mut locked = mutex_lock(&self.inner);
        let storage = locked_value(&mut locked);
        storage.issue_id()
    }

    /// Leave `unpacker` in the slot that it names, as [`UnpackerStorage::try_store`]
    /// does with the table found under the lock. When the slot is not reserved
    /// nothing is stored, and the continuation comes back. The continuation is asked
    /// for its id before the lock is taken.
    pub fn store(&self, unpacker: U) -> (r: Result<(), U>)
        ensures
            r matches Err(back) ==> back == unpacker,
    {
        let id = unpacker.id();
        let mut locked = mutex_lock(&self.inner);
        let storage = locked_value(&mut locked);
        storage.try_store_at(id, unpacker)
    }

    /// Give slot `id` back without its completion, as [`UnpackerStorage::try_cancel`]
    /// does with the table found under the lock. Returns whether the slot was in use;
    /// when it was not, nothing changes. A continuation that the slot held is dropped
    /// without having been called, after the lock is given up.
    pub fn cancel(&self, id: Id) -> bool {
        let held = self.take(id);
        match held {
            Slot::Vacant => false,
            _ => true,
        }
    }

    /// Give slot `id` back without its completion and hand out what it held, as
    /// [`UnpackerStorage::try_cancel`] does with the table found under the lock.
    pub fn take(&self, id: Id) -> Slot<U> {
        let mut locked = mutex_lock(&self.inner);
        let storage = locked_value(&mut locked);
        storage.try_cancel(id)
    }

    /// Take an id from the store for a submission that is being prepared.
    pub fn reserve(&self) -> (reservation: Reservation<U>)
        ensures
            reservation.spec_storage() == *self,
    {
        let id = self.issue_id();
        Reservation { storage: self.share(), id }
    }

    /// Handle a batch of completions, as [`UnpackerStorage::release`] does. The lock is
    /// held while the table is brought up to date, and given up before the
    /// continuations run: a continuation may reach for the store itself.
    pub fn release(&self, completions: &Vec<Cqe>) {
        let due = self.take_due(completions);
        unpack_all(due);
    }

    /// Bring the table up to date with a batch of completions and return the
    /// continuations that are due, as [`UnpackerStorage::take_due`] does with the
    /// table found under the lock: whatever that table is, what comes out is what
    /// the batch makes due in it.
    pub fn take_due(&self, completions: &Vec<Cqe>) -> (due: Vec<Due<U>>)
        ensures
            exists|table: Table<U>| table.wf() && #[trigger] table.due(completions@) == due@,
            due@.len() <= completions@.len(),
    {
        let mut locked = mutex_lock(&self.inner);
        let storage = locked_value(&mut locked);
        let ghost found = storage@;
        let due = storage.take_due(completions);
        assert(found.wf() && found.due(completions@) == due@);
        due
    }
}

/// An id taken from the slot store for a submission that is being prepared. The
/// holder either keeps it, by leaving the continuation for the completion under it,
/// or abandons it, which gives the id back to the store.
#[verifier::reject_recursive_types(U)]
pub struct Reservation<U> {
    storage: SharedStorage<U>,
    id: Id,
}

impl<U: Unpack> Reservation<U> {
    /// The id that is reserved.
    pub closed spec fn spec_id(&self) -> Id {
        self.id
    }

    /// The store that the id was taken from.
    pub closed spec fn spec_storage(&self) -> SharedStorage<U> {
        self.storage
    }

    /// The id, to be carried as the `user_data` of the submission.
    pub fn id(&self) -> (id: Id)
        ensures
            id == self.spec_id(),
    {
        self.id
    }

    /// Leave the continuation for the completion under the id, and return the id. A
    /// continuation that names another slot is not stored. Whenever the continuation
    /// is not stored it comes back, and the reservation is abandoned.
    pub fn keep(self, unpacker: U) -> (r: Result<Id, U>)
        ensures
            r matches Ok(id) ==> id == self.spec_id() && unpacker.spec_id() == self.spec_id(),
            r matches Err(back) ==> back == unpacker,
            unpacker.spec_id() != self.spec_id() ==> r is Err,
    {
        if unpacker.id() != self.id {
            self.storage.cancel(self.id);
            return Err(unpacker);
        }
        match self.storage.store(unpacker) {
            Ok(()) => Ok(self.id),
            Err(back) => {
                self.storage.cancel(self.id);
                Err(back)
            },
        }
    }

    /// Give the id back to the store: the submission was not made. Returns whether
    /// the slot was still in use.
    pub fn abandon(self) -> bool {
        self.storage.cancel(self.id)
    }
}

} // verus!
