//! The completion queue: the consumer side of the ring that carries the outcome of
//! requests back from the kernel.
use super::{lemma_slot_in_ring, ring_geometry, slot_of};
use crate::error::RingError;
use crate::op::cqe::Cqe;
use crate::op::storage::Unpack;
use crate::sync::SharedStorage;
use crate::sys::{io_cqring_offsets, io_uring_cqe};
use crate::Uring;
use std::sync::Arc;
use vstd::prelude::*;

verus! {

/// The completion queue as a value: the size of the ring and the head, the sequence
/// number of the first completion that has not been consumed.
pub struct CqView {
    /// The number of entries of the ring.
    pub entries: u32,
    /// The shared head: entries before it have been consumed.
    pub head: u32,
}

impl CqView {
    /// The mask that turns a sequence number into a slot.
    pub open spec fn mask(self) -> u32 {
        (self.entries - 1) as u32
    }

    /// The size of the ring is a power of two.
    pub open spec fn wf(self) -> bool {
        ring_geometry(self.mask(), self.entries)
    }

    /// The number of completions that wait to be consumed when the kernel's tail is
    /// `tail`.
    pub open spec fn available(self, tail: u32) -> u32 {
        tail.wrapping_sub(self.head)
    }

    /// The slot of the `i`-th completion that waits to be consumed.
    pub open spec fn slot(self, i: u32) -> u32 {
        slot_of(self.head.wrapping_add(i), self.mask())
    }

    /// The queue after `n` completions were consumed.
    pub open spec fn consumed(self, n: u32) -> CqView {
        CqView { head: self.head.wrapping_add(n), ..self }
    }
}

/// Whether `fetch` can be asked for the entry in any slot of a ring with the given
/// mask.
pub open spec fn fetches<F: Fn(u32) -> io_uring_cqe>(fetch: F, mask: u32) -> bool {
    forall|slot: u32| slot <= mask ==> call_requires(fetch, (slot,))
}

/// Reap CQEs(Completion Queue Event): a bounded sequence of the completions that a
/// reap asked for, read one by one from the ring.
///
/// `fetch` reads the completion entry in a slot of the ring. The head of the queue
/// does not move while the sequence is read. Releasing the sequence consumes all `len`
/// completions, however many of them were read.
pub struct Reaper<'a, F: Fn(u32) -> io_uring_cqe> {
    /// The head of the queue that the completions are reaped from.
    pub head: &'a mut u32,
    /// The mask of the ring.
    pub mask: u32,
    /// The number of completions of the sequence.
    pub len: u32,
    /// The number of completions read so far.
    pub reaped: u32,
    /// Reads the completion entry in a slot of the ring.
    pub fetch: F,
}

impl<'a, F: Fn(u32) -> io_uring_cqe> Reaper<'a, F> {
    /// The slot of the completion that is read next.
    pub open spec fn next_slot(&self) -> u32 {
        slot_of((*self.head).wrapping_add(self.reaped), self.mask)
    }

    fn new(head: &'a mut u32, mask: u32, len: u32, fetch: F) -> (reaper: Self)
        ensures
            *reaper.head == *old(head),
            *final(reaper.head) == *final(head),
            reaper.mask == mask,
            reaper.len == len,
            reaper.reaped == 0,
            reaper.fetch == fetch,
    {
        Self { head, mask, len, reaped: 0, fetch }
    }

    /// Read the next completion of the sequence, or return `None` when all `len` have
    /// been read. The head of the queue stays where it is.
    pub fn next(&mut self) -> (r: Option<Cqe>)
        requires
            fetches(old(self).fetch, old(self).mask),
        ensures
            final(self).head == old(self).head,
            final(self).mask == old(self).mask,
            final(self).len == old(self).len,
            final(self).fetch == old(self).fetch,
            r is Some <==> old(self).reaped < old(self).len,
            r matches Some(cqe) ==> call_ensures(
                old(self).fetch,
                (old(self).next_slot(),),
                cqe@,
            ) && final(self).reaped == old(self).reaped + 1,
            r is None ==> final(self).reaped == old(self).reaped,
    {
        if self.reaped < self.len {
            let seq = (*self.head).wrapping_add(self.reaped);
            let mask = self.mask;
            let slot = seq & mask;
            assert(seq & mask <= mask) by (bit_vector);
            let cqe = (self.fetch)(slot);
            self.reaped = self.reaped + 1;
            Some(Cqe::new(&cqe))
        } else {
            None
        }
    }

    /// Read the completions of the sequence that have not been read yet, in order.
    pub fn collect(&mut self) -> (batch: Vec<Cqe>)
        requires
            fetches(old(self).fetch, old(self).mask),
            old(self).reaped <= old(self).len,
        ensures
            final(self).head == old(self).head,
            final(self).mask == old(self).mask,
            final(self).len == old(self).len,
            final(self).fetch == old(self).fetch,
            final(self).reaped == old(self).len,
            batch@.len() == old(self).len - old(self).reaped,
            forall|i: int|
                0 <= i < batch@.len() ==> call_ensures(
                    old(self).fetch,
                    (slot_of(
                        (*old(self).head).wrapping_add((old(self).reaped + i) as u32),
                        old(self).mask,
                    ),),
                    (#[trigger] batch@[i])@,
                ),
    {
        let mut batch: Vec<Cqe> = Vec::new();
        let ghost first = self.reaped;
        while self.reaped < self.len
            invariant
                self.head == old(self).head,
                self.mask == old(self).mask,
                self.len == old(self).len,
                self.fetch == old(self).fetch,
                fetches(self.fetch, self.mask),
                first == old(self).reaped,
                first <= self.reaped <= self.len,
                batch@.len() == self.reaped - first,
                forall|i: int|
                    0 <= i < batch@.len() ==> call_ensures(
                        old(self).fetch,
                        (slot_of(
                            (*old(self).head).wrapping_add((first + i) as u32),
                            old(self).mask,
                        ),),
                        (#[trigger] batch@[i])@,
                    ),
            decreases self.len - self.reaped,
        {
            match self.next() {
                Some(cqe) => {
                    batch.push(cqe);
                },
                None => {},
            }
        }
        batch
    }

    /// Give the sequence up and consume its completions: the head of the queue moves
    /// ahead by `len`, whether none, some or all of the completions were read. Returns
    /// the new head, which the driver then stores with release ordering.
    pub fn release(self) -> (head: u32)
        ensures
            head == (*old(self.head)).wrapping_add(self.len),
            *final(self.head) == head,
    {
        let Reaper { head, mask: _, len, reaped: _, fetch: _ } = self;
        *head = (*head).wrapping_add(len);
        *head
    }
}

/// Completion Queue.
///
/// The queue keeps what the process writes to the completion ring: the head. What the
/// kernel writes, the tail and the completion entries, is read by the driver: the tail
/// is passed in, and the entries are read through the `fetch` function of a reap.
#[verifier::reject_recursive_types(U)]
pub struct Cq<U> {
    uring: Arc<Uring>,
    storage: SharedStorage<U>,
    ring_mask: u32,
    ring_entries: u32,
    head: u32,
    flags: Option<u32>,
}

impl<U> View for Cq<U> {
    type V = CqView;

    closed spec fn view(&self) -> CqView {
        CqView { entries: self.ring_entries, head: self.head }
    }
}

impl<U: Unpack> Cq<U> {
    /// The mask as the kernel reported it.
    pub closed spec fn spec_mask(&self) -> u32 {
        self.ring_mask
    }

    /// The instance that the queue belongs to.
    pub closed spec fn spec_uring(&self) -> Uring {
        *self.uring
    }

    /// Where the flags word of the ring lies in its mapping, if the ring has one.
    pub closed spec fn spec_flags_offset(&self) -> Option<u32> {
        self.flags
    }

    /// The handle by which the queue reaches the slot store.
    pub closed spec fn spec_storage(&self) -> SharedStorage<U> {
        self.storage
    }

    /// The size of the ring is a power of two, and the mask is the one of that size.
    pub open spec fn wf(&self) -> bool {
        &&& self@.wf()
        &&& self.spec_mask() == self@.mask()
    }

    /// A completion queue for a ring of `ring_entries` entries of which none has been
    /// consumed. The ring has a flags word if and only if the kernel reports an
    /// offset for it that is not zero.
    pub fn new(
        uring: Arc<Uring>,
        storage: SharedStorage<U>,
        offset: io_cqring_offsets,
        ring_mask: u32,
        ring_entries: u32,
    ) -> (cq: Self)
        requires
            ring_geometry(ring_mask, ring_entries),
        ensures
            cq.wf(),
            cq@ == (CqView { entries: ring_entries, head: 0 }),
            cq.spec_uring() == *uring,
            cq.spec_storage() == storage,
            cq.spec_flags_offset() == if offset.flags > 0 {
                Some(offset.flags)
            } else {
                None
            },
    {
        Cq {
            uring,
            storage,
            ring_mask,
            ring_entries,
            head: 0,
            flags: if offset.flags > 0 {
                Some(offset.flags)
            } else {
                None
            },
        }
    }

    /// Returns the reference to the [`Uring`].
    pub fn uring(&self) -> (uring: &Uring)
        ensures
            *uring == self.spec_uring(),
    {
        &self.uring
    }

    /// The slot store that completions of this ring are matched against: the handle
    /// that the queue was made with.
    pub fn storage(&self) -> (storage: &SharedStorage<U>)
        ensures
            *storage == self.spec_storage(),
    {
        &self.storage
    }

    /// Where the flags word of the ring lies in its mapping, if the ring has one.
    pub fn flags_offset(&self) -> (offset: Option<u32>)
        ensures
            offset == self.spec_flags_offset(),
    {
        self.flags
    }

    /// Returns the number of events the CQ can hold.
    #[inline]
    pub fn capacity(&self) -> (capacity: usize)
        ensures
            capacity == self@.entries,
    {
        self.ring_entries as usize
    }

    /// Returns the head: the value that the head word of the ring has, or is to get
    /// when the last release is published.
    #[inline]
    pub fn head(&self) -> (head: u32)
        ensures
            head == self@.head,
    {
        self.head
    }

    /// Returns the number of events in the CQ, `tail` being the tail of the
    /// completion ring as the kernel has published it.
    #[inline]
    pub fn len(&self, tail: u32) -> (len: usize)
        ensures
            len == self@.available(tail),
    {
        tail.wrapping_sub(self.head) as usize
    }

    /// Reap a CQE(Completion Queue Event): read the first completion that waits and
    /// consume it.
    ///
    /// # Errors
    ///
    /// If the CQ(Completion Queue) is empty, `InsufficientCompletions` is returned and
    /// the queue is as it was.
    #[inline]
    pub fn reap_cqe<F: Fn(u32) -> io_uring_cqe>(&mut self, tail: u32, fetch: F) -> (r: Result<
        Cqe,
        RingError,
    >)
        requires
            old(self).wf(),
            fetches(fetch, old(self)@.mask()),
        ensures
            r is Ok <==> old(self)@.available(tail) >= 1,
            r matches Err(e) ==> e == RingError::InsufficientCompletions && *final(self) == *old(
                self,
            ),
            r matches Ok(cqe) ==> {
                &&& call_ensures(fetch, (old(self)@.slot(0),), cqe@)
                &&& final(self)@ == old(self)@.consumed(1)
                &&& final(self).spec_mask() == old(self).spec_mask()
                &&& final(self).spec_uring() == old(self).spec_uring()
                &&& final(self).spec_storage() == old(self).spec_storage()
                &&& final(self).spec_flags_offset() == old(self).spec_flags_offset()
            },
            final(self).wf(),
    {
        if self.len(tail) < 1 {
            return Err(RingError::InsufficientCompletions);
        }
        let mut reaper = Reaper::new(&mut self.head, self.ring_mask, 1, fetch);
        let first = reaper.next();
        reaper.release();
        match first {
            Some(cqe) => Ok(cqe),
            None => Err(RingError::InsufficientCompletions),
        }
    }

    /// Like [`reap_cqe`], but it reaps the exact `want` CQEs. Returns a [`Reaper`],
    /// the sequence of these completions, which reads them from the ring through
    /// `fetch`. The head moves when the sequence is released, and then by `want`.
    ///
    /// # Errors
    ///
    /// If CQEs in the CQ(Completion Queue) is less than `want`,
    /// `InsufficientCompletions` is returned and the queue is as it was: a reap gives
    /// all that was asked for or nothing.
    ///
    /// [`reap_cqe`]: method@Self::reap_cqe
    #[inline]
    pub fn reap_cqes<F: Fn(u32) -> io_uring_cqe>(&mut self, want: usize, tail: u32, fetch: F) -> (r:
        Result<Reaper<'_, F>, RingError>)
        requires
            old(self).wf(),
        ensures
            r is Ok <==> want <= old(self)@.available(tail),
            r matches Err(e) ==> e == RingError::InsufficientCompletions && *final(self) == *old(
                self,
            ),
            r matches Ok(reaper) ==> {
                &&& *reaper.head == old(self)@.head
                &&& reaper.mask == old(self)@.mask()
                &&& reaper.len == want
                &&& reaper.reaped == 0
                &&& reaper.fetch == fetch
                &&& final(self)@ == (CqView { head: *final(reaper.head), ..old(self)@ })
                &&& final(self).spec_mask() == old(self).spec_mask()
                &&& final(self).spec_uring() == old(self).spec_uring()
                &&& final(self).spec_storage() == old(self).spec_storage()
                &&& final(self).spec_flags_offset() == old(self).spec_flags_offset()
                &&& final(self).wf()
            },
    {
        if self.len(tail) < want {
            return Err(RingError::InsufficientCompletions);
        }
        Ok(Reaper::new(&mut self.head, self.ring_mask, want as u32, fetch))
    }

    /// Reap `want` completions and hand each to the continuation that waits for it:
    /// the completions are read through `fetch`, oldest first, the slot store handles
    /// the batch as
    /// [`UnpackerStorage::release`](crate::op::storage::UnpackerStorage::release)
    /// does, and the head moves by `want`. A completion whose `user_data` names no
    /// occupied slot has no continuation, and is consumed like the others.
    ///
    /// # Errors
    ///
    /// If fewer than `want` completions wait, `InsufficientCompletions` is returned
    /// and nothing is read, handled or consumed.
    pub fn unpack_cqes<F: Fn(u32) -> io_uring_cqe>(&mut self, want: usize, tail: u32, fetch: F) -> (r:
        Result<(), RingError>)
        requires
            old(self).wf(),
            fetches(fetch, old(self)@.mask()),
        ensures
            r is Ok <==> want <= old(self)@.available(tail),
            r matches Err(e) ==> e == RingError::InsufficientCompletions && *final(self) == *old(
                self,
            ),
            r is Ok ==> exists|batch: Seq<Cqe>|
                batch.len() == want && forall|i: int|
                    0 <= i < want ==> call_ensures(
                        fetch,
                        (old(self)@.slot(i as u32),),
                        (#[trigger] batch[i])@,
                    ),
            r is Ok ==> {
                &&& final(self)@ == old(self)@.consumed(want as u32)
                &&& final(self).spec_mask() == old(self).spec_mask()
                &&& final(self).spec_uring() == old(self).spec_uring()
                &&& final(self).spec_storage() == old(self).spec_storage()
                &&& final(self).spec_flags_offset() == old(self).spec_flags_offset()
            },
            final(self).wf(),
    {
        if self.len(tail) < want {
            return Err(RingError::InsufficientCompletions);
        }
        let mut reaper = Reaper::new(&mut self.head, self.ring_mask, want as u32, fetch);
        let batch = reaper.collect();
        assert(batch@.len() == want && forall|i: int|
            0 <= i < want ==> call_ensures(
                fetch,
                (old(self)@.slot(i as u32),),
                (#[trigger] batch@[i])@,
            ));
        self.storage.release(&batch);
        reaper.release();
        Ok(())
    }
}

/// Releasing a reap of `k` completions takes exactly `k` away from what is available,
/// whatever was read of them.
pub proof fn lemma_release_consumes(v: CqView, tail: u32, k: u32)
    requires
        k <= v.available(tail),
    ensures
        v.consumed(k).available(tail) == v.available(tail) - k,
{
}

/// The completions of one reap lie in slots of their own: two of them, fewer than the
/// size of the ring apart, never share a slot.
pub proof fn lemma_slots_distinct(v: CqView, i: u32, j: u32)
    requires
        v.wf(),
        i < j,
        j < v.entries,
    ensures
        v.slot(i) != v.slot(j),
{
    let head = v.head;
    let mask = v.mask();
    let entries = v.entries;
    assert((head.wrapping_add(i)) & mask != (head.wrapping_add(j)) & mask) by (bit_vector)
        requires
            entries != 0,
            mask == entries - 1,
            entries & mask == 0,
            i < j,
            j < entries,
    ;
}

} // verus!
