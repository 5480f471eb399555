//! The completion slot store: the table that leads a completion back to the
//! continuation registered for it.
//!
//! A submission that wants its completion handled takes an id from the store, carries
//! the id as its `user_data`, and leaves a continuation under that id. When the
//! completion comes back with the id, the continuation is taken out and called. Ids of
//! emptied slots are kept on a free list and issued again before the table grows.
use super::cqe::Cqe;
use crate::error::{spec_resultify, OsError};
use vstd::prelude::*;

verus! {

/// The name of a slot: its index in the table.
pub type Id = u64;

/// A continuation that the store can keep and call.
pub trait Unpack {
    /// The id under which the continuation is to be stored.
    spec fn spec_id(&self) -> Id;

    /// The id under which the continuation is to be stored.
    fn id(&self) -> (id: Id)
        ensures
            id == self.spec_id(),
    ;

    /// Run the continuation with the result of its operation. This consumes it: a
    /// continuation runs at most once.
    fn unpack(self, result: Result<u32, OsError>);
}

/// One slot of the table.
pub enum Slot<U> {
    /// Free to be issued.
    Vacant,
    /// Issued, and waiting for its continuation.
    Reserved,
    /// Holding a continuation that waits for its completion.
    Occupied(U),
}

/// A continuation whose completion has arrived, with the result to hand to it.
pub struct Due<U> {
    pub unpacker: U,
    pub result: Result<u32, OsError>,
}

/// The store as a value: the slots in the order of their ids, and the free list with
/// the id to be issued next at its end.
pub struct Table<U> {
    pub slots: Seq<Slot<U>>,
    pub free: Seq<Id>,
}

impl<U> Table<U> {
    /// The store with no slot.
    pub open spec fn empty() -> Table<U> {
        Table { slots: Seq::empty(), free: Seq::empty() }
    }

    /// Slot `id` exists and is vacant.
    pub open spec fn is_vacant(self, id: Id) -> bool {
        id < self.slots.len() && self.slots[id as int] is Vacant
    }

    /// Slot `id` has been issued and holds no continuation yet.
    pub open spec fn is_reserved(self, id: Id) -> bool {
        id < self.slots.len() && self.slots[id as int] is Reserved
    }

    /// Slot `id` holds a continuation.
    pub open spec fn is_occupied(self, id: Id) -> bool {
        id < self.slots.len() && self.slots[id as int] is Occupied
    }

    /// Slot `id` is in use: reserved or occupied.
    pub open spec fn is_live(self, id: Id) -> bool {
        self.is_reserved(id) || self.is_occupied(id)
    }

    /// What slot `id` holds; `Vacant` when the table has no such slot.
    pub open spec fn held(self, id: Id) -> Slot<U> {
        if id < self.slots.len() {
            self.slots[id as int]
        } else {
            Slot::Vacant
        }
    }

    /// The free list names the vacant slots, each of them once: no vacant slot is lost
    /// and no slot in use can be issued.
    pub open spec fn wf(self) -> bool {
        &&& self.slots.len() <= Id::MAX
        &&& self.free.no_duplicates()
        &&& forall|i: int| 0 <= i < self.free.len() ==> self.is_vacant(#[trigger] self.free[i])
        &&& forall|id: Id| self.is_vacant(id) ==> self.free.contains(id)
    }

    /// The id that `issue` hands out: the last of the free list, or the index of a new
    /// slot when the list is empty.
    pub open spec fn next_id(self) -> Id {
        if self.free.len() > 0 {
            self.free.last()
        } else {
            self.slots.len() as Id
        }
    }

    /// The store after an id was issued: slot `next_id()` is reserved, having come off
    /// the free list or been added to the table.
    pub open spec fn issue(self) -> Table<U> {
        if self.free.len() > 0 {
            Table {
                slots: self.slots.update(self.free.last() as int, Slot::Reserved),
                free: self.free.drop_last(),
            }
        } else {
            Table { slots: self.slots.push(Slot::Reserved), free: self.free }
        }
    }

    /// The store after `n` ids were issued one after the other.
    pub open spec fn issue_n(self, n: nat) -> Table<U>
        decreases n,
    {
        if n == 0 {
            self
        } else {
            self.issue_n((n - 1) as nat).issue()
        }
    }

    /// The store after `unpacker` was stored in slot `id`.
    pub open spec fn store(self, id: Id, unpacker: U) -> Table<U> {
        Table { slots: self.slots.update(id as int, Slot::Occupied(unpacker)), free: self.free }
    }

    /// The store after slot `id` was emptied and its id put on the free list.
    pub open spec fn vacate(self, id: Id) -> Table<U> {
        Table { slots: self.slots.update(id as int, Slot::Vacant), free: self.free.push(id) }
    }

    /// The store after the completion of `id` was handled: an occupied slot is emptied,
    /// anything else leaves the store as it is.
    pub open spec fn complete(self, id: Id) -> Table<U> {
        if self.is_occupied(id) {
            self.vacate(id)
        } else {
            self
        }
    }

    /// The store after the completions of `ids` were handled, first to last.
    pub open spec fn complete_all(self, ids: Seq<Id>) -> Table<U>
        decreases ids.len(),
    {
        if ids.len() == 0 {
            self
        } else {
            self.complete_all(ids.drop_last()).complete(ids.last())
        }
    }
}

/// The ids that a batch of completions carries, in the order of the batch.
pub open spec fn tags(completions: Seq<Cqe>) -> Seq<Id> {
    Seq::new(completions.len(), |i: int| completions[i]@.user_data)
}

impl<U> Table<U> {
    /// The continuations that become due when the batch `completions` is handled, in
    /// the order of their completions: for each completion that names a slot which is
    /// occupied when its turn comes, the continuation in that slot, with the result of
    /// the completion.
    pub open spec fn due(self, completions: Seq<Cqe>) -> Seq<Due<U>>
        decreases completions.len(),
    {
        if completions.len() == 0 {
            Seq::empty()
        } else {
            let earlier = completions.drop_last();
            let last = completions.last()@;
            let table = self.complete_all(tags(earlier));
            if table.is_occupied(last.user_data) {
                self.due(earlier).push(
                    Due {
                        unpacker: table.slots[last.user_data as int]->Occupied_0,
                        result: spec_resultify(last.res),
                    },
                )
            } else {
                self.due(earlier)
            }
        }
    }
}

/// The completion slot store.
pub struct UnpackerStorage<U> {
    slots: Vec<Slot<U>>,
    free: Vec<Id>,
}

impl<U> View for UnpackerStorage<U> {
    type V = Table<U>;

    closed spec fn view(&self) -> Table<U> {
        Table { slots: self.slots@, free: self.free@ }
    }
}

impl<U> UnpackerStorage<U> {
    #[verifier::type_invariant]
    spec fn inv(self) -> bool {
        self@.wf()
    }
}

impl<U: Unpack> UnpackerStorage<U> {
    /// An empty store with room for `capacity` slots before it has to grow.
    #[inline]
    pub fn with_capacity(capacity: usize) -> (storage: Self)
        ensures
            storage@ == Table::<U>::empty(),
            storage@.wf(),
    {
        Self { slots: Vec::with_capacity(capacity), free: Vec::new() }
    }

    /// The number of slots of the table, vacant ones included.
    pub fn len(&self) -> (n: usize)
        ensures
            n == self@.slots.len(),
            self@.wf(),
    {
        proof {
            use_type_invariant(self);
        }
        self.slots.len()
    }

    /// Whether slot `id` has been issued and waits for its continuation.
    pub fn is_reserved(&self, id: Id) -> (reserved: bool)
        ensures
            reserved == self@.is_reserved(id),
            self@.wf(),
    {
        proof {
            use_type_invariant(self);
        }
        if id < self.slots.len() as u64 {
            match &self.slots[id as usize] {
                Slot::Reserved => true,
                _ => false,
            }
        } else {
            false
        }
    }

    /// Whether slot `id` holds a continuation.
    pub fn is_occupied(&self, id: Id) -> (occupied: bool)
        ensures
            occupied == self@.is_occupied(id),
            self@.wf(),
    {
        proof {
            use_type_invariant(self);
        }
        if id < self.slots.len() as u64 {
            match &self.slots[id as usize] {
                Slot::Occupied(_) => true,
                _ => false,
            }
        } else {
            false
        }
    }

    /// Take a slot for a new submission and return its id. The id comes off the free
    /// list when a slot was given back before; otherwise the table grows by one slot.
    /// The slot is reserved until a continuation is stored in it or the reservation is
    /// cancelled, so its id is not issued again in the meantime.
    #[inline]
    pub fn issue_id(&mut self) -> (id: Id)
        ensures
            id == old(self)@.next_id(),
            final(self)@ == old(self)@.issue(),
            !old(self)@.is_live(id),
            final(self)@.is_reserved(id),
            old(self)@.wf(),
            final(self)@.wf(),
    {
        proof {
            use_type_invariant(&*self);
        }
        let ghost table = self@;
        let mut taken = UnpackerStorage { slots: Vec::new(), free: Vec::new() };
        std::mem::swap(self, &mut taken);
        let UnpackerStorage { slots, free } = taken;
        let mut slots = slots;
        let mut free = free;
        let id = match free.pop() {
            Some(id) => {
                assert(id < slots.len());
                slots.set(id as usize, Slot::Reserved);
                id
            },
            None => {
                slots.push(Slot::Reserved);
                (slots.len() - 1) as u64
            },
        };
        proof {
            lemma_issue(table);
        }
        *self = UnpackerStorage { slots, free };
        id
    }

    /// Leave `unpacker` in the slot that it names, to be called when the completion
    /// with that id arrives. The slot has to be reserved: its id was issued, and
    /// nothing has been stored in it since.
    #[inline]
    pub fn store(&mut self, unpacker: U)
        requires
            old(self)@.is_reserved(unpacker.spec_id()),
        ensures
            final(self)@ == old(self)@.store(unpacker.spec_id(), unpacker),
            final(self)@.is_occupied(unpacker.spec_id()),
            final(self)@.wf(),
    {
        let id = unpacker.id();
        self.store_at(id, unpacker);
    }

    /// Leave `unpacker` in slot `id`, which has to be reserved. The continuation is
    /// moved into the slot, and nothing of it is called.
    pub fn store_at(&mut self, id: Id, unpacker: U)
        requires
            old(self)@.is_reserved(id),
        ensures
            final(self)@ == old(self)@.store(id, unpacker),
            final(self)@.is_occupied(id),
            final(self)@.wf(),
    {
        proof {
            use_type_invariant(&*self);
        }
        let ghost table = self@;
        let mut taken = UnpackerStorage { slots: Vec::new(), free: Vec::new() };
        std::mem::swap(self, &mut taken);
        let UnpackerStorage { slots, free } = taken;
        let mut slots = slots;
        assert(id < slots.len());
        slots.set(id as usize, Slot::Occupied(unpacker));
        proof {
            lemma_store(table, id, unpacker);
        }
        *self = UnpackerStorage { slots, free };
    }

    /// Leave `unpacker` in the slot that it names if that slot is reserved, as
    /// [`store`](Self::store) does. If the slot is not reserved, nothing is stored and
    /// the continuation comes back.
    pub fn try_store(&mut self, unpacker: U) -> (r: Result<(), U>)
        ensures
            r is Ok <==> old(self)@.is_reserved(unpacker.spec_id()),
            r is Ok ==> final(self)@ == old(self)@.store(unpacker.spec_id(), unpacker),
            r matches Err(back) ==> back == unpacker && final(self)@ == old(self)@,
            final(self)@.wf(),
    {
        let id = unpacker.id();
        self.try_store_at(id, unpacker)
    }

    /// Leave `unpacker` in slot `id` if that slot is reserved, as
    /// [`store_at`](Self::store_at) does. If the slot is not reserved, nothing is
    /// stored and the continuation comes back. Nothing of the continuation is called
    /// or dropped.
    pub fn try_store_at(&mut self, id: Id, unpacker: U) -> (r: Result<(), U>)
        ensures
            r is Ok <==> old(self)@.is_reserved(id),
            r is Ok ==> final(self)@ == old(self)@.store(id, unpacker),
            r matches Err(back) ==> back == unpacker && final(self)@ == old(self)@,
            final(self)@.wf(),
    {
        if self.is_reserved(id) {
            self.store_at(id, unpacker);
            Ok(())
        } else {
            Err(unpacker)
        }
    }

    /// Give slot `id` back without its completion: the slot is emptied and the id goes
    /// on the free list. The slot has to be in use. Returns what the slot held: a
    /// continuation stored there comes out without having been called, and it is for
    /// the caller to drop it.
    pub fn cancel(&mut self, id: Id) -> (held: Slot<U>)
        requires
            old(self)@.is_live(id),
        ensures
            held == old(self)@.slots[id as int],
            final(self)@ == old(self)@.vacate(id),
            final(self)@.is_vacant(id),
            final(self)@.wf(),
    {
        proof {
            use_type_invariant(&*self);
        }
        let ghost table = self@;
        let mut taken = UnpackerStorage { slots: Vec::new(), free: Vec::new() };
        std::mem::swap(self, &mut taken);
        let UnpackerStorage { slots, free } = taken;
        let mut slots = slots;
        let mut free = free;
        assert(id < slots.len());
        let mut held = Slot::Vacant;
        std::mem::swap(&mut slots[id as usize], &mut held);
        free.push(id);
        proof {
            assert(slots@ =~= table.vacate(id).slots);
            lemma_vacate(table, id);
        }
        *self = UnpackerStorage { slots, free };
        held
    }

    /// Give slot `id` back without its completion if it is in use, as
    /// [`cancel`](Self::cancel) does, and return what the slot held. If the slot is
    /// not in use, nothing changes and `Vacant` is returned.
    pub fn try_cancel(&mut self, id: Id) -> (held: Slot<U>)
        ensures
            held == old(self)@.held(id),
            old(self)@.is_live(id) ==> final(self)@ == old(self)@.vacate(id),
            !old(self)@.is_live(id) ==> final(self)@ == old(self)@ && held is Vacant,
            final(self)@.wf(),
    {
        if self.is_reserved(id) || self.is_occupied(id) {
            self.cancel(id)
        } else {
            Slot::Vacant
        }
    }

    /// Bring the table up to date with a batch of completions, first to last, and
    /// return the continuations that are due. For each completion whose `user_data`
    /// names an occupied slot, the slot is emptied, its id goes on the free list, and
    /// the continuation comes out with the result of the completion. A completion that
    /// names no occupied slot has no continuation waiting, and is passed over.
    pub fn take_due(&mut self, completions: &Vec<Cqe>) -> (due: Vec<Due<U>>)
        ensures
            final(self)@ == old(self)@.complete_all(tags(completions@)),
            due@ == old(self)@.due(completions@),
            due@.len() <= completions@.len(),
            old(self)@.wf(),
            forall|i: int|
                0 <= i < completions@.len() ==> !final(self)@.is_occupied(
                    #[trigger] completions@[i]@.user_data,
                ),
            final(self)@.slots.len() == old(self)@.slots.len(),
            forall|id: Id|
                id < old(self)@.slots.len() && !tags(completions@).contains(id)
                    ==> final(self)@.slots[id as int] == old(self)@.slots[id as int],
            final(self)@.wf(),
    {
        proof {
            use_type_invariant(&*self);
        }
        let ghost table = self@;
        let mut taken = UnpackerStorage { slots: Vec::new(), free: Vec::new() };
        std::mem::swap(self, &mut taken);
        let UnpackerStorage { slots, free } = taken;
        let mut slots = slots;
        let mut free = free;
        let mut due: Vec<Due<U>> = Vec::new();
        let mut i: usize = 0;
        proof {
            assert(completions@.take(0) =~= Seq::<Cqe>::empty());
        }
        while i < completions.len()
            invariant
                0 <= i <= completions.len(),
                table.wf(),
                (Table { slots: slots@, free: free@ }) == table.complete_all(
                    tags(completions@.take(i as int)),
                ),
                (Table { slots: slots@, free: free@ }).wf(),
                due@ == table.due(completions@.take(i as int)),
            decreases completions.len() - i,
        {
            let ghost before = Table { slots: slots@, free: free@ };
            let id = completions[i].user_data();
            if id < slots.len() as u64 {
                let mut slot = Slot::Vacant;
                match &slots[id as usize] {
                    Slot::Occupied(_) => {
                        std::mem::swap(&mut slots[id as usize], &mut slot);
                        free.push(id);
                    },
                    _ => {},
                }
                match slot {
                    Slot::Occupied(unpacker) => {
                        due.push(Due { unpacker, result: completions[i].result() });
                    },
                    _ => {},
                }
            }
            proof {
                let upto = completions@.take(i + 1);
                assert(upto.drop_last() =~= completions@.take(i as int));
                assert(upto.last() == completions@[i as int]);
                assert(tags(upto).drop_last() =~= tags(upto.drop_last()));
                assert(tags(upto).last() == id);
                lemma_complete(before, id);
            }
            i = i + 1;
        }
        proof {
            assert(completions@.take(i as int) =~= completions@);
            let ids = tags(completions@);
            lemma_complete_all(table, ids);
            lemma_due_len(table, completions@);
            assert forall|k: int| 0 <= k < completions@.len() implies !table.complete_all(
                ids,
            ).is_occupied(#[trigger] completions@[k]@.user_data) by {
                assert(ids.contains(ids[k]));
            }
        }
        *self = UnpackerStorage { slots, free };
        due
    }

    /// Handle a batch of completions, first to last. For each one whose `user_data`
    /// names an occupied slot, the slot is emptied, its id goes on the free list, and
    /// the continuation is called with the result of the completion. A completion that
    /// names no occupied slot has no continuation waiting, and is passed over.
    ///
    /// The table is brought up to date before the first continuation runs, as
    /// [`take_due`](Self::take_due) does it, and the continuations then run in the
    /// order of their completions, as [`unpack_all`] runs them.
    pub fn release(&mut self, completions: &Vec<Cqe>)
        ensures
            final(self)@ == old(self)@.complete_all(tags(completions@)),
            forall|i: int|
                0 <= i < completions@.len() ==> !final(self)@.is_occupied(
                    #[trigger] completions@[i]@.user_data,
                ),
            final(self)@.slots.len() == old(self)@.slots.len(),
            forall|id: Id|
                id < old(self)@.slots.len() && !tags(completions@).contains(id)
                    ==> final(self)@.slots[id as int] == old(self)@.slots[id as int],
            final(self)@.wf(),
            forall|i: int|
                0 <= i < old(self)@.due(completions@).len() ==> call_ensures(
                    U::unpack,
                    (
                        (#[trigger] old(self)@.due(completions@)[i]).unpacker,
                        old(self)@.due(completions@)[i].result,
                    ),
                    (),
                ),
    {
        let due = self.take_due(completions);
        unpack_all(due);
    }
}

/// Run the continuations that are due, first to last, each with its result. Each runs
/// once: running a continuation consumes it.
pub fn unpack_all<U: Unpack>(due: Vec<Due<U>>)
    ensures
        forall|i: int|
            0 <= i < due@.len() ==> call_ensures(
                U::unpack,
                (#[trigger] due@[i].unpacker, due@[i].result),
                (),
            ),
{
    let ghost all = due@;
    for next in it: due
        invariant
            it.seq() == all,
            forall|i: int|
                0 <= i < it.index() ==> call_ensures(
                    U::unpack,
                    (#[trigger] all[i].unpacker, all[i].result),
                    (),
                ),
    {
        next.unpacker.unpack(next.result);
    }
}

/// No more continuations become due than there are completions.
pub proof fn lemma_due_len<U>(t: Table<U>, completions: Seq<Cqe>)
    ensures
        t.due(completions).len() <= completions.len(),
    decreases completions.len(),
{
    if completions.len() > 0 {
        lemma_due_len(t, completions.drop_last());
    }
}

/// Storing into a reserved slot keeps the store well formed and leaves the slot
/// occupied.
pub proof fn lemma_store<U>(t: Table<U>, id: Id, unpacker: U)
    requires
        t.wf(),
        t.is_reserved(id),
    ensures
        t.store(id, unpacker).wf(),
        t.store(id, unpacker).is_occupied(id),
{
}

/// Emptying a slot in use keeps the store well formed and leaves the slot vacant.
pub proof fn lemma_vacate<U>(t: Table<U>, id: Id)
    requires
        t.wf(),
        t.is_live(id),
    ensures
        t.vacate(id).wf(),
        t.vacate(id).is_vacant(id),
        t.vacate(id).slots.len() == t.slots.len(),
{
    let u = t.vacate(id);
    assert(!t.free.contains(id));
    assert forall|other: Id| u.is_vacant(other) implies u.free.contains(other) by {
        if other == id {
            assert(u.free[t.free.len() as int] == id);
        } else {
            assert(t.is_vacant(other));
            let i = choose|i: int| 0 <= i < t.free.len() && t.free[i] == other;
            assert(u.free[i] == other);
        }
    }
}

/// Handling one completion keeps the store well formed, leaves the slot it names
/// not occupied, and touches no other slot.
pub proof fn lemma_complete<U>(t: Table<U>, id: Id)
    requires
        t.wf(),
    ensures
        t.complete(id).wf(),
        !t.complete(id).is_occupied(id),
        t.complete(id).slots.len() == t.slots.len(),
        forall|other: Id|
            other != id && other < t.slots.len() ==> t.complete(id).slots[other as int]
                == t.slots[other as int],
        forall|other: Id| !t.is_occupied(other) ==> !t.complete(id).is_occupied(other),
{
    if t.is_occupied(id) {
        lemma_vacate(t, id);
    }
}

/// Handling a batch of completions keeps the store well formed, leaves no slot that
/// the batch names occupied, and touches no slot that it does not name.
pub proof fn lemma_complete_all<U>(t: Table<U>, ids: Seq<Id>)
    requires
        t.wf(),
    ensures
        t.complete_all(ids).wf(),
        t.complete_all(ids).slots.len() == t.slots.len(),
        forall|id: Id| ids.contains(id) ==> !t.complete_all(ids).is_occupied(id),
        forall|id: Id| !t.is_occupied(id) ==> !t.complete_all(ids).is_occupied(id),
        forall|id: Id|
            id < t.slots.len() && !ids.contains(id) ==> t.complete_all(ids).slots[id as int]
                == t.slots[id as int],
    decreases ids.len(),
{
    if ids.len() > 0 {
        let rest = ids.drop_last();
        let last = ids.last();
        lemma_complete_all(t, rest);
        let mid = t.complete_all(rest);
        lemma_complete(mid, last);
        assert forall|id: Id| ids.contains(id) implies !t.complete_all(ids).is_occupied(id) by {
            let k = choose|k: int| 0 <= k < ids.len() && ids[k] == id;
            if k < ids.len() - 1 {
                assert(rest[k] == id);
                assert(rest.contains(id));
            }
        }
        assert forall|id: Id| id < t.slots.len() && !ids.contains(id) implies !rest.contains(
            id,
        ) && id != last by {
            if rest.contains(id) {
                let k = choose|k: int| 0 <= k < rest.len() && rest[k] == id;
                assert(ids[k] == id);
            }
            assert(ids[ids.len() - 1] == last);
        }
    }
}

/// Issuing keeps the store well formed, and the id issued names a slot that was not
/// in use and is reserved afterwards.
pub proof fn lemma_issue<U>(t: Table<U>)
    requires
        t.wf(),
        t.issue().slots.len() <= Id::MAX,
    ensures
        t.issue().wf(),
        !t.is_live(t.next_id()),
        t.issue().is_reserved(t.next_id()),
        forall|id: Id| t.is_live(id) ==> t.issue().slots[id as int] == t.slots[id as int],
{
    let u = t.issue();
    if t.free.len() > 0 {
        assert forall|other: Id| u.is_vacant(other) implies u.free.contains(other) by {
            assert(t.is_vacant(other));
            let i = choose|i: int| 0 <= i < t.free.len() && t.free[i] == other;
            assert(u.free[i] == other);
        }
    }
}

/// Issuing ids one after the other keeps the store well formed, adds at most one slot
/// per id, and leaves every slot that was in use as it was.
pub proof fn lemma_issue_n<U>(t: Table<U>, n: nat)
    requires
        t.wf(),
        t.slots.len() + n <= Id::MAX,
    ensures
        t.issue_n(n).wf(),
        t.slots.len() <= t.issue_n(n).slots.len() <= t.slots.len() + n,
        forall|id: Id| t.is_live(id) ==> t.issue_n(n).is_live(id),
    decreases n,
{
    if n > 0 {
        let before = t.issue_n((n - 1) as nat);
        lemma_issue_n(t, (n - 1) as nat);
        lemma_issue(before);
    }
}

/// No id is handed out twice while it is in use: of the ids issued one after the other,
/// with no slot given back in between, the one issued at turn `m` and the one issued
/// at a later turn `n` differ, and neither names a slot that was in use before.
pub proof fn lemma_issued_ids_distinct<U>(t: Table<U>, m: nat, n: nat)
    requires
        t.wf(),
        m < n,
        t.slots.len() + n < Id::MAX,
    ensures
        t.issue_n(m).next_id() != t.issue_n(n).next_id(),
        !t.is_live(t.issue_n(m).next_id()),
        !t.is_live(t.issue_n(n).next_id()),
{
    let first = t.issue_n(m);
    lemma_issue_n(t, m);
    lemma_issue(first);
    let taken = t.issue_n(m + 1);
    assert(taken.is_live(first.next_id()));
    lemma_issue_n(t, m + 1);
    lemma_issue_n(taken, (n - m - 1) as nat);
    lemma_issue_n_split(t, m + 1, (n - m - 1) as nat);
    let second = t.issue_n(n);
    lemma_issue_n(t, n);
    lemma_issue(second);
}

/// Issuing `a + b` ids is issuing `a` ids and then `b` more.
pub proof fn lemma_issue_n_split<U>(t: Table<U>, a: nat, b: nat)
    ensures
        t.issue_n(a + b) == t.issue_n(a).issue_n(b),
    decreases b,
{
    if b > 0 {
        lemma_issue_n_split(t, a, (b - 1) as nat);
    }
}

} // verus!
