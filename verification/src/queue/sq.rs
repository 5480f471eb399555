//! The submission queue: the producer side of the ring that carries requests to the
//! kernel.
use super::{lemma_slot_from_offset, lemma_slot_in_ring, lemma_slot_offset, ring_geometry, slot_of};
use crate::error::{syscall_result, OsError, RingError};
use crate::op::sqe::{reset, Packer};
use crate::op::storage::Unpack;
use crate::sync::SharedStorage;
use crate::sys::{
    io_uring_sqe, IORING_ENTER_GETEVENTS, IORING_ENTER_SQ_WAKEUP, IORING_SETUP_IOPOLL,
    IORING_SETUP_SQPOLL, IORING_SQ_CQ_OVERFLOW, IORING_SQ_NEED_WAKEUP,
};
use crate::Uring;
use std::sync::Arc;
use vstd::prelude::*;

verus! {

/// The submission queue as a value.
///
/// Entries are counted by sequence numbers that wrap at 32 bits; the entry with number
/// `n` lives in slot `n & mask`. `sqe_tail` counts the entries handed out, `sqe_head`
/// those made visible to the kernel, and `tail` is the value of the shared tail word.
pub struct SqView {
    /// The number of entries of the ring.
    pub entries: u32,
    /// The flags that the instance was set up with.
    pub setup_flags: u32,
    /// The shared tail: entries before it are visible to the kernel.
    pub tail: u32,
    /// The first entry that was handed out and not flushed yet.
    pub sqe_head: u32,
    /// The next entry to hand out.
    pub sqe_tail: u32,
    /// The index array: for each slot of the ring, the entry that it refers to.
    pub array: Seq<u32>,
    /// The entries, by slot.
    pub sqes: Seq<io_uring_sqe>,
}

impl SqView {
    /// The mask that turns a sequence number into a slot.
    pub open spec fn mask(self) -> u32 {
        (self.entries - 1) as u32
    }

    /// The number of entries handed out and not flushed yet.
    pub open spec fn pending(self) -> u32 {
        self.sqe_tail.wrapping_sub(self.sqe_head)
    }

    /// The size of the ring is a power of two, the index array and the entries have
    /// that size, the index array refers to entries of the ring, the shared tail is
    /// where the flushed entries end, and no more entries are pending than the ring
    /// holds.
    pub open spec fn wf(self) -> bool {
        &&& ring_geometry(self.mask(), self.entries)
        &&& self.array.len() == self.entries
        &&& self.sqes.len() == self.entries
        &&& forall|s: int| 0 <= s < self.array.len() ==> #[trigger] self.array[s] < self.entries
        &&& self.tail == self.sqe_head
        &&& self.pending() <= self.entries
    }

    /// The slot of the next entry to hand out.
    pub open spec fn next_slot(self) -> u32 {
        slot_of(self.sqe_tail, self.mask())
    }

    /// Whether another entry can be handed out when the kernel's head is `head`: with
    /// the new entry, no more entries are ahead of the kernel than the ring holds, and
    /// no more are pending than the ring holds.
    ///
    /// For every head that the kernel can report the second condition follows from the
    /// first (see [`lemma_admits`]).
    pub open spec fn admits(self, head: u32) -> bool {
        let next = self.sqe_tail.wrapping_add(1);
        next.wrapping_sub(head) <= self.entries && next.wrapping_sub(self.sqe_head)
            <= self.entries
    }

    /// The queue after an entry was handed out and given back holding `sqe`.
    pub open spec fn allocated(self, sqe: io_uring_sqe) -> SqView {
        SqView {
            sqe_tail: self.sqe_tail.wrapping_add(1),
            sqes: self.sqes.update(self.next_slot() as int, sqe),
            ..self
        }
    }

    /// The queue after one entry after the other was handed out, the `i`-th given back
    /// holding `filled[i]`.
    pub open spec fn allocs(self, filled: Seq<io_uring_sqe>) -> SqView
        decreases filled.len(),
    {
        if filled.len() == 0 {
            self
        } else {
            self.allocs(filled.drop_last()).allocated(filled.last())
        }
    }

    /// How many slots after the slot of the shared tail `slot` lies, counted round the
    /// ring.
    pub open spec fn distance(self, slot: u32) -> u32 {
        slot_of(slot.wrapping_sub(self.tail), self.mask())
    }

    /// Whether `slot` is one of the slots that the next flush publishes: it lies less
    /// than `pending()` slots after the slot of the shared tail.
    pub open spec fn in_batch(self, slot: u32) -> bool {
        self.distance(slot) < self.pending()
    }

    /// The queue after a flush: every pending entry is entered in the index array at
    /// the slot of its sequence number, the shared tail has moved past them, and
    /// nothing is pending.
    pub open spec fn flushed(self) -> SqView {
        SqView {
            tail: self.tail.wrapping_add(self.pending()),
            sqe_head: self.sqe_tail,
            array: Seq::new(
                self.entries as nat,
                |s: int|
                    if self.in_batch(s as u32) {
                        s as u32
                    } else {
                        self.array[s]
                    },
            ),
            ..self
        }
    }

    /// The number of entries that are visible to the kernel and not consumed by it,
    /// when its head is `head`.
    pub open spec fn backlog(self, head: u32) -> u32 {
        self.tail.wrapping_sub(head)
    }
}

/// Whether the polling thread of the kernel has gone to sleep, by the flags word of
/// the submission ring.
pub open spec fn spec_needs_wakeup(sq_flags: u32) -> bool {
    sq_flags & IORING_SQ_NEED_WAKEUP != 0
}

/// Whether the completion ring has overflown, by the flags word of the submission
/// ring.
pub open spec fn spec_is_cq_overflown(sq_flags: u32) -> bool {
    sq_flags & IORING_SQ_CQ_OVERFLOW != 0
}

/// How flushed entries are handed to the kernel.
#[derive(Debug, Clone, Copy, PartialEq, Eq, Structural)]
pub enum Enter {
    /// No system call is needed: the polling thread of the kernel is awake and picks
    /// the entries up from the ring. `submitted` entries count as submitted.
    Skip { submitted: usize },
    /// `io_uring_enter` is to be called with these arguments.
    Call { to_submit: u32, min_complete: u32, flags: u32 },
}

/// The flags for `io_uring_enter`: a wakeup of the polling thread when there is one
/// and it sleeps, and a wait for completions when the caller asks for some or the
/// instance polls for I/O.
pub open spec fn enter_flags(setup_flags: u32, sq_flags: u32, min_complete: u32) -> u32 {
    let wakeup: u32 = if setup_flags & IORING_SETUP_SQPOLL != 0 && spec_needs_wakeup(sq_flags) {
        IORING_ENTER_SQ_WAKEUP
    } else {
        0
    };
    let getevents: u32 = if min_complete > 0 || setup_flags & IORING_SETUP_IOPOLL != 0 {
        IORING_ENTER_GETEVENTS
    } else {
        0
    };
    wakeup | getevents
}

/// How `to_submit` flushed entries are handed to the kernel of an instance set up with
/// `setup_flags`, when the flags word of the submission ring reads `sq_flags` and the
/// caller waits for `min_complete` completions.
///
/// With a polling thread that is awake, and nothing to wait for, the entries are
/// submitted by having been flushed. In every other case the kernel is entered.
pub open spec fn enter_plan(
    setup_flags: u32,
    sq_flags: u32,
    to_submit: u32,
    min_complete: u32,
) -> Enter {
    if setup_flags & IORING_SETUP_SQPOLL != 0 && !spec_needs_wakeup(sq_flags) && min_complete
        == 0 {
        Enter::Skip { submitted: to_submit as usize }
    } else {
        Enter::Call {
            to_submit,
            min_complete,
            flags: enter_flags(setup_flags, sq_flags, min_complete),
        }
    }
}

/// What `io_uring_enter` reported: the number of entries that the kernel consumed, or
/// the error that the call left in `errno`.
pub open spec fn spec_enter_result(ret: i32, errno: i32) -> Result<usize, OsError> {
    if ret >= 0 {
        Ok(ret as usize)
    } else {
        Err(OsError { code: errno })
    }
}

/// Turn the return value of `io_uring_enter` into the result of a submission. `errno`
/// is the thread's error code read right after the call.
pub fn enter_result(ret: i32, errno: i32) -> (r: Result<usize, OsError>)
    ensures
        r == spec_enter_result(ret, errno),
{
    match syscall_result(ret, errno) {
        Ok(n) => Ok(n as usize),
        Err(e) => Err(e),
    }
}

/// Submission Queue.
///
/// The queue keeps what the process writes to the submission ring: the entries, the
/// index array and the tail. What the kernel writes, the head and the flags word, is
/// read by the driver and passed in.
#[verifier::reject_recursive_types(U)]
pub struct Sq<U> {
    uring: Arc<Uring>,
    storage: SharedStorage<U>,
    ring_mask: u32,
    ring_entries: u32,
    tail: u32,
    array: Vec<u32>,
    sqe_head: u32,
    sqe_tail: u32,
    sqes: Vec<io_uring_sqe>,
}

impl<U> View for Sq<U> {
    type V = SqView;

    closed spec fn view(&self) -> SqView {
        SqView {
            entries: self.ring_entries,
            setup_flags: self.uring.spec_flags(),
            tail: self.tail,
            sqe_head: self.sqe_head,
            sqe_tail: self.sqe_tail,
            array: self.array@,
            sqes: self.sqes@,
        }
    }
}

impl<U: Unpack> Sq<U> {
    /// The mask as the kernel reported it.
    pub closed spec fn spec_mask(&self) -> u32 {
        self.ring_mask
    }

    /// The instance that the queue belongs to.
    pub closed spec fn spec_uring(&self) -> Uring {
        *self.uring
    }

    /// The handle by which the queue reaches the slot store.
    pub closed spec fn spec_storage(&self) -> SharedStorage<U> {
        self.storage
    }

    /// The queue is well formed, and its mask is the one of its size.
    pub open spec fn wf(&self) -> bool {
        &&& self@.wf()
        &&& self.spec_mask() == self@.mask()
        &&& self.spec_uring().spec_flags() == self@.setup_flags
    }

    /// An empty submission queue for a ring of `ring_entries` entries: nothing handed
    /// out, nothing flushed, the shared tail at zero, every entry zero.
    pub fn new(
        uring: Arc<Uring>,
        storage: SharedStorage<U>,
        ring_mask: u32,
        ring_entries: u32,
    ) -> (sq: Self)
        requires
            ring_geometry(ring_mask, ring_entries),
        ensures
            sq.wf(),
            sq.spec_uring() == *uring,
            sq.spec_storage() == storage,
            sq@ == (SqView {
                entries: ring_entries,
                setup_flags: uring.spec_flags(),
                tail: 0,
                sqe_head: 0,
                sqe_tail: 0,
                array: Seq::new(ring_entries as nat, |s: int| 0u32),
                sqes: Seq::new(ring_entries as nat, |s: int| io_uring_sqe::zeroed()),
            }),
    {
        let mut array: Vec<u32> = Vec::new();
        let mut sqes: Vec<io_uring_sqe> = Vec::new();
        let mut i: u32 = 0;
        while i < ring_entries
            invariant
                i <= ring_entries,
                array@.len() == i,
                sqes@.len() == i,
                forall|s: int| 0 <= s < i ==> array@[s] == 0,
                forall|s: int| 0 <= s < i ==> sqes@[s] == io_uring_sqe::zeroed(),
            decreases ring_entries - i,
        {
            array.push(0);
            sqes.push(io_uring_sqe::default());
            i = i + 1;
        }
        let sq = Sq {
            uring,
            storage,
            ring_mask,
            ring_entries,
            tail: 0,
            array,
            sqe_head: 0,
            sqe_tail: 0,
            sqes,
        };
        proof {
            assert(sq@.array =~= Seq::new(ring_entries as nat, |s: int| 0u32));
            assert(sq@.sqes =~= Seq::new(ring_entries as nat, |s: int| io_uring_sqe::zeroed()));
        }
        sq
    }

    /// Returns the reference to the [`Uring`].
    pub fn uring(&self) -> (uring: &Uring)
        ensures
            *uring == self.spec_uring(),
    {
        &self.uring
    }

    /// The slot store that completions of this ring are matched against: the handle
    /// that the queue was made with.
    pub fn storage(&self) -> (storage: &SharedStorage<U>)
        ensures
            *storage == self.spec_storage(),
    {
        &self.storage
    }

    /// Allocate a vacant SQE(Submission Queue Entry) and push it to the end of the
    /// SQ(Submission Queue). Returns a new sqe data [`Packer`] on the entry, which has
    /// been reset. `head` is the head of the submission ring as the kernel has
    /// published it.
    ///
    /// The entry is handed out if and only if, counting it, no more entries are ahead
    /// of `head` than the ring holds. (A head that lies further back than a ring
    /// behind the shared tail is none that the kernel reports; against such a head the
    /// queue also refuses to have more entries pending than the ring holds.) The entry
    /// is not visible to the kernel before the queue is flushed.
    ///
    /// # Errors
    ///
    /// If the SQ is full, `QueueFull` is returned and the queue is as it was.
    pub fn alloc_sqe(&mut self, head: u32) -> (r: Result<Packer<'_>, RingError>)
        requires
            old(self).wf(),
        ensures
            r is Ok <==> old(self)@.admits(head),
            old(self)@.entries <= 0x4000_0000 && old(self)@.backlog(head) <= old(self)@.entries
                ==> (r is Ok <==> old(self)@.sqe_tail.wrapping_add(1).wrapping_sub(head) <= old(
                self,
            )@.entries),
            r matches Err(e) ==> e == RingError::QueueFull && *final(self) == *old(self),
            r matches Ok(packer) ==> {
                &&& *packer.0 == reset(old(self)@.sqes[old(self)@.next_slot() as int])
                &&& final(self)@ == old(self)@.allocated(*final(packer.0))
                &&& final(self).spec_mask() == old(self).spec_mask()
                &&& final(self).spec_uring() == old(self).spec_uring()
                &&& final(self).spec_storage() == old(self).spec_storage()
                &&& final(self).wf()
                &&& final(self)@.sqe_tail.wrapping_sub(head) <= final(self)@.entries
            },
    {
        let next = self.sqe_tail.wrapping_add(1);
        if next.wrapping_sub(head) <= self.ring_entries && next.wrapping_sub(self.sqe_head)
            <= self.ring_entries {
            let idx = self.sqe_tail & self.ring_mask;
            proof {
                lemma_slot_in_ring(self.sqe_tail, self.ring_mask, self.ring_entries);
            }
            self.sqe_tail = next;
            Ok(Packer::new(&mut self.sqes[idx as usize]))
        } else {
            Err(RingError::QueueFull)
        }
    }

    /// Flush SQEs to the SQ ring for preparing submission: every entry handed out
    /// since the last flush is entered in the index array and the shared tail is
    /// moved past it. Returns the number of entries that are then visible to the
    /// kernel and not consumed by it, `head` being the head of the submission ring.
    ///
    /// With nothing pending the queue stays as it is, and the shared tail with it.
    /// Otherwise the driver copies the new entries and index slots to the shared
    /// mappings and then stores the tail with release ordering, so that the kernel
    /// sees the whole batch or none of it.
    pub fn flush(&mut self, head: u32) -> (backlog: u32)
        requires
            old(self).wf(),
        ensures
            final(self)@ == old(self)@.flushed(),
            backlog == final(self)@.backlog(head),
            old(self)@.pending() == 0 ==> final(self)@ == old(self)@,
            final(self).spec_mask() == old(self).spec_mask(),
            final(self).spec_uring() == old(self).spec_uring(),
            final(self).spec_storage() == old(self).spec_storage(),
            final(self).wf(),
    {
        let ghost before = self@;
        let mut tail = self.tail;
        let to_submit = self.sqe_tail.wrapping_sub(self.sqe_head);
        if to_submit > 0 {
            let mask = self.ring_mask;
            let mut done: u32 = 0;
            while done < to_submit
                invariant
                    done <= to_submit,
                    to_submit == before.pending(),
                    before.wf(),
                    mask == before.mask(),
                    self.ring_mask == mask,
                    self.ring_entries == before.entries,
                    self.spec_uring() == old(self).spec_uring(),
                    self.spec_storage() == old(self).spec_storage(),
                    self@.setup_flags == before.setup_flags,
                    self.sqe_tail == before.sqe_tail,
                    self.sqes@ == before.sqes,
                    self.tail == before.tail,
                    tail == before.tail.wrapping_add(done),
                    self.sqe_head == tail,
                    self.array@.len() == before.entries,
                    forall|s: int|
                        0 <= s < before.entries ==> #[trigger] self.array@[s] == if before.distance(
                            s as u32,
                        ) < done {
                            s as u32
                        } else {
                            before.array[s]
                        },
                decreases to_submit - done,
            {
                let slot = tail & mask;
                proof {
                    lemma_slot_in_ring(tail, mask, before.entries);
                    lemma_slot_offset(before.tail, done, mask, before.entries);
                    assert forall|s: int| 0 <= s < before.entries && s != slot implies #[trigger]
                        before.distance(s as u32) != done by {
                        lemma_slot_from_offset(before.tail, s as u32, mask, before.entries);
                    }
                }
                self.array.set(slot as usize, self.sqe_head & mask);
                tail = tail.wrapping_add(1);
                self.sqe_head = self.sqe_head.wrapping_add(1);
                done = done + 1;
            }
            self.tail = tail;
        }
        proof {
            assert(self@.array =~= before.flushed().array);
        }
        tail.wrapping_sub(head)
    }

    /// Decide how `to_submit` flushed entries are handed to the kernel, without
    /// waiting for completions.
    ///
    /// See [`submit_and_wait`](Self::submit_and_wait).
    pub fn submit(&self, to_submit: u32, sq_flags: u32) -> (plan: Enter)
        requires
            self.wf(),
        ensures
            plan == enter_plan(self@.setup_flags, sq_flags, to_submit, 0),
    {
        self.submit_and_wait(to_submit, 0, sq_flags)
    }

    /// Decide how `to_submit` flushed entries are handed to the kernel by a caller
    /// that waits for `min_complete` completions.
    ///
    /// `to_submit` is what [`flush`](Self::flush) returned, and `sq_flags` is the
    /// flags word of the submission ring, read after the tail of that flush was
    /// stored. The kernel is asked to wake its polling thread when that thread has
    /// gone to sleep, and to wait for completions when `min_complete` is positive or
    /// the instance polls for I/O. When the polling thread is awake and nothing is
    /// waited for, no call is made at all.
    ///
    /// What the call returns goes to [`enter_result`].
    pub fn submit_and_wait(&self, to_submit: u32, min_complete: u32, sq_flags: u32) -> (plan:
        Enter)
        requires
            self.wf(),
        ensures
            plan == enter_plan(self@.setup_flags, sq_flags, to_submit, min_complete),
    {
        let mut flags: u32 = 0;
        if self.uring.has_sqpoll() {
            if self.needs_wakeup(sq_flags) {
                flags = flags | IORING_ENTER_SQ_WAKEUP;
            } else if min_complete == 0 {
                return Enter::Skip { submitted: to_submit as usize };
            }
        }
        let ghost wakeup = flags;
        if min_complete > 0 || self.uring.is_io_polled() {
            flags = flags | IORING_ENTER_GETEVENTS;
        }
        proof {
            assert(0u32 | IORING_ENTER_SQ_WAKEUP == IORING_ENTER_SQ_WAKEUP) by (bit_vector);
            assert(wakeup | 0u32 == wakeup) by (bit_vector);
        }
        Enter::Call { to_submit, min_complete, flags }
    }

    /// Returns the number of entries the SQ can hold.
    #[inline]
    pub fn capacity(&self) -> (capacity: usize)
        ensures
            capacity == self@.entries,
    {
        self.ring_entries as usize
    }

    /// Returns the number of entries handed out and not flushed yet.
    #[inline]
    pub fn pending(&self) -> (pending: u32)
        ensures
            pending == self@.pending(),
    {
        self.sqe_tail.wrapping_sub(self.sqe_head)
    }

    /// Returns the shared tail: the value that the tail word of the ring has, or is
    /// to get when the last flush is published.
    #[inline]
    pub fn tail(&self) -> (tail: u32)
        ensures
            tail == self@.tail,
    {
        self.tail
    }

    /// What the ring holds for the entry with sequence number `seq`: the slot of the
    /// index array that belongs to it, the index found there, and the entry at that
    /// index. The driver copies these to the shared mappings for each sequence number
    /// from the tail before a flush up to the tail after it.
    pub fn published(&self, seq: u32) -> (r: (u32, u32, io_uring_sqe))
        requires
            self.wf(),
        ensures
            r.0 == slot_of(seq, self@.mask()),
            r.0 < self@.entries,
            r.1 == self@.array[r.0 as int],
            r.1 < self@.entries,
            r.2 == self@.sqes[r.1 as int],
    {
        proof {
            lemma_slot_in_ring(seq, self.ring_mask, self.ring_entries);
        }
        let slot = seq & self.ring_mask;
        let index = self.array[slot as usize];
        (slot, index, self.sqes[index as usize])
    }

    /// Return `true` if the kernel side polling thread has gone to sleep when it has
    /// been idle for a while. `sq_flags` is the flags word of the submission ring.
    #[inline]
    pub fn needs_wakeup(&self, sq_flags: u32) -> (wakeup: bool)
        ensures
            wakeup == spec_needs_wakeup(sq_flags),
    {
        sq_flags & IORING_SQ_NEED_WAKEUP != 0
    }

    /// Returns `true` if the CQ(Completion Queue) ring is overflown. `sq_flags` is
    /// the flags word of the submission ring.
    #[inline]
    pub fn is_cq_overflown(&self, sq_flags: u32) -> (overflown: bool)
        ensures
            overflown == spec_is_cq_overflown(sq_flags),
    {
        sq_flags & IORING_SQ_CQ_OVERFLOW != 0
    }
}

/// For a head that the kernel can report, one that the shared tail is at most a ring
/// ahead of, an entry is handed out if and only if with it no more than `entries`
/// entries are ahead of the kernel.
pub proof fn lemma_admits(v: SqView, head: u32)
    requires
        v.wf(),
        v.entries <= 0x4000_0000,
        v.backlog(head) <= v.entries,
    ensures
        v.admits(head) <==> v.sqe_tail.wrapping_add(1).wrapping_sub(head) <= v.entries,
{
}

/// Handing out entries moves `sqe_tail` by their number and leaves the rest of the
/// counters alone.
pub proof fn lemma_allocs(v: SqView, filled: Seq<io_uring_sqe>)
    requires
        filled.len() <= u32::MAX,
    ensures
        v.allocs(filled).entries == v.entries,
        v.allocs(filled).setup_flags == v.setup_flags,
        v.allocs(filled).tail == v.tail,
        v.allocs(filled).sqe_head == v.sqe_head,
        v.allocs(filled).array == v.array,
        v.allocs(filled).sqe_tail == v.sqe_tail.wrapping_add(filled.len() as u32),
    decreases filled.len(),
{
    if filled.len() > 0 {
        lemma_allocs(v, filled.drop_last());
    }
}

/// A ring takes exactly as many entries as it has room for: after `filled.len()`
/// entries were handed out of a ring with nothing outstanding, and none was flushed,
/// another one is handed out if and only if fewer than `entries` are out.
///
/// So `entries` allocations in a row succeed, and the next one fails.
pub proof fn lemma_capacity(v: SqView, head: u32, filled: Seq<io_uring_sqe>)
    requires
        v.wf(),
        v.sqe_tail == head,
        v.sqe_head == head,
        filled.len() <= v.entries,
    ensures
        v.allocs(filled).admits(head) <==> filled.len() < v.entries,
{
    lemma_allocs(v, filled);
    assert(v.entries <= 0x8000_0000) by {
        let e = v.entries;
        let m = v.mask();
        assert(e != 0 && m == e - 1 && e & m == 0 ==> e <= 0x8000_0000) by (bit_vector);
    }
}

/// With a head that the kernel can report, the entries ahead of the kernel are those
/// visible to it and those pending, and the ring takes another entry if and only if
/// they are fewer than its size.
pub proof fn lemma_room(v: SqView, head: u32)
    requires
        v.wf(),
        v.entries <= 0x4000_0000,
        v.backlog(head) <= v.entries,
    ensures
        v.sqe_tail.wrapping_sub(head) == v.backlog(head) + v.pending(),
        v.admits(head) <==> v.sqe_tail.wrapping_sub(head) < v.entries,
{
}

/// What is handed out is what gets submitted: when the kernel has consumed all that
/// was flushed before, a flush after `filled.len()` entries were handed out leaves
/// exactly that many for the kernel.
pub proof fn lemma_flush_counts(v: SqView, head: u32, filled: Seq<io_uring_sqe>)
    requires
        v.wf(),
        v.pending() == 0,
        v.tail == head,
        filled.len() <= v.entries,
    ensures
        v.allocs(filled).pending() == filled.len(),
        v.allocs(filled).flushed().backlog(head) == filled.len(),
        v.allocs(filled).flushed().pending() == 0,
{
    lemma_allocs(v, filled);
}

/// The ring never runs more than its size ahead of the kernel: when no more than
/// `entries` entries are ahead of `head` after the last entry was handed out, as every
/// successful allocation against `head` leaves it, then no more than `entries` are
/// visible and not consumed after the flush.
pub proof fn lemma_flush_keeps_ring(v: SqView, head: u32)
    requires
        v.wf(),
        v.sqe_tail.wrapping_sub(head) <= v.entries,
    ensures
        v.flushed().tail == v.sqe_tail,
        v.flushed().backlog(head) <= v.entries,
{
}

} // verus!
