//! The completion slot store.
use std::cell::RefCell;
use std::rc::Rc;

use urio::error::OsError;
use urio::op::cqe::{Cqe, Unpacker};
use urio::op::storage::{unpack_all, Id, Slot, Unpack, UnpackerStorage};
use urio::sync::SharedStorage;
use urio::sys::io_uring_cqe;

type Log = Rc<RefCell<Vec<(&'static str, Result<u32, OsError>)>>>;
type Handler = Box<dyn FnOnce(&'static str, Result<u32, OsError>)>;
type Waiter = Unpacker<&'static str, Handler>;

fn waiter(id: Id, name: &'static str, log: &Log) -> Waiter {
    let log = Rc::clone(log);
    let handler: Handler = Box::new(move |name, result| log.borrow_mut().push((name, result)));
    Unpacker::new(id, name, handler)
}

fn completion(user_data: u64, res: i32) -> Cqe {
    Cqe::new(&io_uring_cqe { user_data, res, flags: 0 })
}

#[test]
fn a_new_store_is_empty() {
    let storage: UnpackerStorage<Waiter> = UnpackerStorage::with_capacity(16);
    assert_eq!(storage.len(), 0);
    assert!(!storage.is_reserved(0));
    assert!(!storage.is_occupied(0));
}

#[test]
fn ids_grow_from_zero() {
    let mut storage: UnpackerStorage<Waiter> = UnpackerStorage::with_capacity(0);
    for expected in 0..10u64 {
        assert_eq!(storage.issue_id(), expected);
        assert!(storage.is_reserved(expected));
    }
    assert_eq!(storage.len(), 10);
}

#[test]
fn issued_ids_differ() {
    let log: Log = Rc::new(RefCell::new(Vec::new()));
    let mut storage: UnpackerStorage<Waiter> = UnpackerStorage::with_capacity(4);
    let mut live: Vec<Id> = Vec::new();
    for round in 0..6 {
        for _ in 0..5 {
            let id = storage.issue_id();
            assert!(!live.contains(&id), "id {} was issued while in use", id);
            if id % 2 == 0 {
                storage.store(waiter(id, "even", &log));
            }
            live.push(id);
        }
        // give some back: by completion, and by cancelling
        let done: Vec<Cqe> = live.iter().filter(|id| *id % 2 == 0).take(round + 1).map(|id| completion(*id, 0)).collect();
        storage.release(&done);
        live.retain(|id| storage.is_reserved(*id) || storage.is_occupied(*id));
        if let Some(id) = live.pop() {
            storage.cancel(id);
        }
    }
    assert!(storage.len() <= 30);
}

#[test]
fn store_occupies_the_slot() {
    let log: Log = Rc::new(RefCell::new(Vec::new()));
    let mut storage: UnpackerStorage<Waiter> = UnpackerStorage::with_capacity(2);
    let id = storage.issue_id();
    let w = waiter(id, "a", &log);
    assert_eq!(w.id(), id);
    storage.store(w);
    assert!(storage.is_occupied(id));
    assert!(!storage.is_reserved(id));
    assert!(log.borrow().is_empty());
}

#[test]
fn release_calls_each_continuation_once() {
    let log: Log = Rc::new(RefCell::new(Vec::new()));
    let mut storage: UnpackerStorage<Waiter> = UnpackerStorage::with_capacity(2);
    let a = storage.issue_id();
    let b = storage.issue_id();
    let c = storage.issue_id();
    storage.store(waiter(a, "a", &log));
    storage.store(waiter(b, "b", &log));
    // c stays reserved; 7 was never issued; b is named twice
    storage.release(&vec![
        completion(b, 5),
        completion(c, 1),
        completion(7, 1),
        completion(b, 6),
        completion(a, -2),
    ]);
    assert_eq!(
        *log.borrow(),
        vec![("b", Ok(5)), ("a", Err(OsError::from_raw_os_error(2)))]
    );
    assert!(!storage.is_occupied(a));
    assert!(!storage.is_occupied(b));
    assert!(storage.is_reserved(c));
    assert_eq!(storage.len(), 3);
    storage.release(&vec![completion(a, 0), completion(b, 0)]);
    assert_eq!(log.borrow().len(), 2);
}

#[test]
fn released_ids_are_issued_again() {
    let log: Log = Rc::new(RefCell::new(Vec::new()));
    let mut storage: UnpackerStorage<Waiter> = UnpackerStorage::with_capacity(2);
    for id in 0..4 {
        assert_eq!(storage.issue_id(), id);
        storage.store(waiter(id, "w", &log));
    }
    storage.release(&vec![completion(1, 0), completion(3, 0)]);
    // the free list gives back the id put on it last
    assert_eq!(storage.issue_id(), 3);
    assert_eq!(storage.issue_id(), 1);
    assert_eq!(storage.issue_id(), 4);
    assert_eq!(storage.len(), 5);
}

#[test]
fn an_empty_batch_changes_nothing() {
    let log: Log = Rc::new(RefCell::new(Vec::new()));
    let mut storage: UnpackerStorage<Waiter> = UnpackerStorage::with_capacity(2);
    let id = storage.issue_id();
    storage.store(waiter(id, "a", &log));
    storage.release(&Vec::new());
    assert!(storage.is_occupied(id));
    assert!(log.borrow().is_empty());
}

#[test]
fn cancel_drops_without_calling() {
    let log: Log = Rc::new(RefCell::new(Vec::new()));
    let mut storage: UnpackerStorage<Waiter> = UnpackerStorage::with_capacity(2);
    let reserved = storage.issue_id();
    let occupied = storage.issue_id();
    storage.store(waiter(occupied, "never", &log));
    assert!(matches!(storage.cancel(reserved), Slot::Reserved));
    // the continuation comes out, and has not been called
    match storage.cancel(occupied) {
        Slot::Occupied(held) => assert_eq!(held.id(), occupied),
        _ => panic!("the slot held a continuation"),
    }
    assert!(!storage.is_reserved(reserved));
    assert!(!storage.is_occupied(occupied));
    storage.release(&vec![completion(occupied, 0)]);
    assert!(log.borrow().is_empty());
    assert_eq!(storage.issue_id(), occupied);
    assert_eq!(storage.issue_id(), reserved);
    assert_eq!(storage.len(), 2);
}

#[test]
fn the_shared_store_issues_distinct_ids() {
    let storage: SharedStorage<Waiter> = SharedStorage::with_capacity(4);
    let other = storage.share();
    let mut ids: Vec<Id> = Vec::new();
    for i in 0..20 {
        let id = if i % 2 == 0 { storage.issue_id() } else { other.issue_id() };
        assert!(!ids.contains(&id));
        ids.push(id);
    }
    assert_eq!(ids, (0..20).collect::<Vec<u64>>());
}

#[test]
fn the_shared_store_refuses_what_is_not_reserved() {
    let log: Log = Rc::new(RefCell::new(Vec::new()));
    let storage: SharedStorage<Waiter> = SharedStorage::with_capacity(4);
    // slot 0 does not exist yet
    let back = storage.store(waiter(0, "early", &log));
    assert_eq!(back.err().map(|w| w.id()), Some(0));
    let id = storage.issue_id();
    assert!(storage.store(waiter(id, "first", &log)).is_ok());
    // occupied now
    assert!(storage.store(waiter(id, "second", &log)).is_err());
    storage.share().release(&vec![completion(id, 3)]);
    assert_eq!(*log.borrow(), vec![("first", Ok(3))]);
    // vacant now
    assert!(storage.store(waiter(id, "third", &log)).is_err());
}

#[test]
fn the_shared_store_cancels_what_is_in_use() {
    let log: Log = Rc::new(RefCell::new(Vec::new()));
    let storage: SharedStorage<Waiter> = SharedStorage::with_capacity(4);
    assert!(!storage.cancel(0));
    let a = storage.issue_id();
    let b = storage.issue_id();
    assert!(storage.store(waiter(b, "b", &log)).is_ok());
    assert!(storage.cancel(a));
    assert!(storage.cancel(b));
    assert!(!storage.cancel(a));
    assert!(!storage.cancel(b));
    assert!(!storage.cancel(17));
    storage.release(&vec![completion(b, 0)]);
    assert!(log.borrow().is_empty());
    assert_eq!(storage.issue_id(), b);
}

#[test]
fn a_continuation_gets_its_data_and_the_result() {
    let log: Log = Rc::new(RefCell::new(Vec::new()));
    let w = waiter(3, "payload", &log);
    assert_eq!(w.id(), 3);
    w.unpack(Err(OsError::from_raw_os_error(9)));
    assert_eq!(*log.borrow(), vec![("payload", Err(OsError::from_raw_os_error(9)))]);
}

#[test]
fn take_due_hands_out_what_release_would_call() {
    let log: Log = Rc::new(RefCell::new(Vec::new()));
    let mut storage: UnpackerStorage<Waiter> = UnpackerStorage::with_capacity(2);
    for (id, name) in [(0, "zero"), (1, "one"), (2, "two")] {
        assert_eq!(storage.issue_id(), id);
        storage.store(waiter(id, name, &log));
    }
    let due = storage.take_due(&vec![
        completion(2, 7),
        completion(5, 1),
        completion(2, 8),
        completion(0, -4),
    ]);
    // the table is up to date, and nothing has run
    assert!(!storage.is_occupied(0));
    assert!(storage.is_occupied(1));
    assert!(!storage.is_occupied(2));
    assert!(log.borrow().is_empty());
    assert_eq!(due.len(), 2);
    assert_eq!((due[0].unpacker.id(), due[0].result), (2, Ok(7)));
    assert_eq!((due[1].unpacker.id(), due[1].result), (0, Err(OsError::from_raw_os_error(4))));
    unpack_all(due);
    assert_eq!(
        *log.borrow(),
        vec![("two", Ok(7)), ("zero", Err(OsError::from_raw_os_error(4)))]
    );
    // the ids came back in the order of the completions
    assert_eq!(storage.issue_id(), 0);
    assert_eq!(storage.issue_id(), 2);
}

#[test]
fn a_continuation_may_use_the_store() {
    let storage: SharedStorage<Unpacker<u8, Box<dyn FnOnce(u8, Result<u32, OsError>)>>> =
        SharedStorage::with_capacity(2);
    let seen: Rc<RefCell<Vec<Id>>> = Rc::new(RefCell::new(Vec::new()));
    let id = storage.issue_id();
    let again = storage.share();
    let log = Rc::clone(&seen);
    let handler: Box<dyn FnOnce(u8, Result<u32, OsError>)> =
        Box::new(move |_, _| log.borrow_mut().push(again.issue_id()));
    assert!(storage.store(Unpacker::new(id, 0, handler)).is_ok());
    storage.release(&vec![completion(id, 0)]);
    // the slot was free again when the continuation asked for an id
    assert_eq!(*seen.borrow(), vec![id]);
}

#[test]
fn try_store_wants_a_reserved_slot() {
    let log: Log = Rc::new(RefCell::new(Vec::new()));
    let mut storage: UnpackerStorage<Waiter> = UnpackerStorage::with_capacity(2);
    // no such slot
    let back = storage.try_store(waiter(0, "early", &log));
    assert_eq!(back.err().map(|w| w.id()), Some(0));
    assert_eq!(storage.len(), 0);
    let id = storage.issue_id();
    assert!(storage.try_store(waiter(id, "first", &log)).is_ok());
    assert!(storage.is_occupied(id));
    // occupied
    let back = storage.try_store(waiter(id, "second", &log));
    assert_eq!(back.err().map(|w| w.id()), Some(id));
    assert!(storage.is_occupied(id));
    storage.release(&vec![completion(id, 1)]);
    assert_eq!(*log.borrow(), vec![("first", Ok(1))]);
    // vacant
    assert!(storage.try_store(waiter(id, "third", &log)).is_err());
    assert!(!storage.is_occupied(id));
    assert!(!storage.is_reserved(id));
}

#[test]
fn try_cancel_hands_out_what_the_slot_held() {
    let log: Log = Rc::new(RefCell::new(Vec::new()));
    let mut storage: UnpackerStorage<Waiter> = UnpackerStorage::with_capacity(2);
    assert!(matches!(storage.try_cancel(0), Slot::Vacant));
    assert_eq!(storage.len(), 0);
    let reserved = storage.issue_id();
    let occupied = storage.issue_id();
    storage.store(waiter(occupied, "never", &log));
    assert!(matches!(storage.try_cancel(reserved), Slot::Reserved));
    match storage.try_cancel(occupied) {
        Slot::Occupied(held) => assert_eq!(held.id(), occupied),
        _ => panic!("the slot held a continuation"),
    }
    assert!(matches!(storage.try_cancel(reserved), Slot::Vacant));
    assert!(matches!(storage.try_cancel(occupied), Slot::Vacant));
    assert!(matches!(storage.try_cancel(2), Slot::Vacant));
    assert!(log.borrow().is_empty());
    // each id went on the free list once
    assert_eq!(storage.issue_id(), occupied);
    assert_eq!(storage.issue_id(), reserved);
    assert_eq!(storage.issue_id(), 2);
}

#[test]
fn the_shared_store_hands_out_what_is_due() {
    let log: Log = Rc::new(RefCell::new(Vec::new()));
    let storage: SharedStorage<Waiter> = SharedStorage::with_capacity(4);
    let a = storage.issue_id();
    let b = storage.issue_id();
    assert!(storage.store(waiter(a, "a", &log)).is_ok());
    assert!(storage.store(waiter(b, "b", &log)).is_ok());
    let due = storage.share().take_due(&vec![completion(b, 2), completion(9, 0), completion(a, -1)]);
    assert_eq!(due.len(), 2);
    assert_eq!((due[0].unpacker.id(), due[0].result), (b, Ok(2)));
    assert_eq!((due[1].unpacker.id(), due[1].result), (a, Err(OsError::from_raw_os_error(1))));
    assert!(log.borrow().is_empty());
    assert!(storage.take_due(&vec![completion(a, 0), completion(b, 0)]).is_empty());
}

#[test]
fn store_at_takes_the_slot_it_is_told() {
    let log: Log = Rc::new(RefCell::new(Vec::new()));
    let mut storage: UnpackerStorage<Waiter> = UnpackerStorage::with_capacity(2);
    let a = storage.issue_id();
    let b = storage.issue_id();
    storage.store_at(b, waiter(b, "b", &log));
    assert!(storage.is_occupied(b));
    assert!(storage.is_reserved(a));
    assert!(storage.try_store_at(a, waiter(a, "a", &log)).is_ok());
    assert!(storage.is_occupied(a));
    // occupied, and no such slot
    assert_eq!(storage.try_store_at(a, waiter(a, "again", &log)).err().map(|w| w.id()), Some(a));
    assert_eq!(storage.try_store_at(7, waiter(7, "far", &log)).err().map(|w| w.id()), Some(7));
    assert_eq!(storage.len(), 2);
    storage.release(&vec![completion(a, 1), completion(b, 2)]);
    assert_eq!(*log.borrow(), vec![("a", Ok(1)), ("b", Ok(2))]);
}

#[test]
fn the_shared_store_hands_out_what_a_slot_held() {
    let log: Log = Rc::new(RefCell::new(Vec::new()));
    let storage: SharedStorage<Waiter> = SharedStorage::with_capacity(4);
    assert!(matches!(storage.take(0), Slot::Vacant));
    let a = storage.issue_id();
    let b = storage.issue_id();
    assert!(storage.store(waiter(b, "b", &log)).is_ok());
    assert!(matches!(storage.take(a), Slot::Reserved));
    match storage.take(b) {
        Slot::Occupied(held) => assert_eq!(held.id(), b),
        _ => panic!("the slot held a continuation"),
    }
    assert!(matches!(storage.take(b), Slot::Vacant));
    assert!(log.borrow().is_empty());
}

/// A continuation that reaches for the store when it is asked for its id, and when
/// it is dropped.
struct Nosy {
    id: Id,
    storage: SharedStorage<Nosy>,
    issued: Rc<RefCell<Vec<Id>>>,
}

impl Unpack for Nosy {
    fn spec_id(&self) -> Id {
        self.id
    }

    fn id(&self) -> Id {
        self.issued.borrow_mut().push(self.storage.issue_id());
        self.id
    }

    fn unpack(self, _result: Result<u32, OsError>) {}
}

impl Drop for Nosy {
    fn drop(&mut self) {
        self.issued.borrow_mut().push(self.storage.issue_id());
    }
}

#[test]
fn no_code_of_a_continuation_runs_under_the_lock() {
    let storage: SharedStorage<Nosy> = SharedStorage::with_capacity(4);
    let issued: Rc<RefCell<Vec<Id>>> = Rc::new(RefCell::new(Vec::new()));
    let id = storage.issue_id();
    let nosy = Nosy { id, storage: storage.share(), issued: Rc::clone(&issued) };
    // asked for its id before the lock is taken
    assert!(storage.store(nosy).is_ok());
    assert_eq!(*issued.borrow(), vec![id + 1]);
    // dropped after the lock is given up: the slot is free by then, and its id is
    // the one that the drop is given
    assert!(storage.cancel(id));
    assert_eq!(*issued.borrow(), vec![id + 1, id]);
}

#[test]
fn a_reservation_is_kept_or_abandoned() {
    let log: Log = Rc::new(RefCell::new(Vec::new()));
    let storage: SharedStorage<Waiter> = SharedStorage::with_capacity(4);

    // kept: the continuation waits under the id
    let kept = storage.reserve();
    let id = kept.id();
    assert_eq!(kept.keep(waiter(id, "kept", &log)).ok(), Some(id));
    storage.release(&vec![completion(id, 4)]);
    assert_eq!(*log.borrow(), vec![("kept", Ok(4))]);

    // abandoned: the id goes back and is issued again
    let dropped = storage.reserve();
    let id = dropped.id();
    assert!(dropped.abandon());
    assert_eq!(storage.issue_id(), id);
    assert!(storage.cancel(id));

    // a continuation for another slot is refused, and the id goes back
    let wrong = storage.reserve();
    let id = wrong.id();
    let back = wrong.keep(waiter(id + 1, "other", &log));
    assert_eq!(back.err().map(|w| w.id()), Some(id + 1));
    assert!(!storage.cancel(id));
    assert_eq!(storage.issue_id(), id);
    assert_eq!(log.borrow().len(), 1);
}
