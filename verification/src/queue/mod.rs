//! The two rings, the arithmetic of ring indices that they share, and the layout of
//! the mappings that hold them.
pub mod cq;
pub mod sq;

pub use cq::{Cq, Reaper};
pub use sq::Sq;

use crate::sys::{
    io_uring_params, CQE_SIZE, IORING_FEAT_SINGLE_MMAP, IORING_OFF_CQ_RING, IORING_OFF_SQES,
    IORING_OFF_SQ_RING, SQE_SIZE, SQ_ARRAY_SLOT_SIZE,
};
use vstd::prelude::*;

verus! {

/// One mapping of a piece of the instance: `len` bytes at `offset` of its descriptor.
#[derive(Debug, Clone, Copy, PartialEq, Eq, Structural)]
pub struct Mapping {
    pub len: u64,
    pub offset: u64,
}

/// The mappings that an instance needs.
#[derive(Debug, Clone, Copy, PartialEq, Eq, Structural)]
pub struct MmapPlan {
    /// The submission ring.
    pub sq_ring: Mapping,
    /// The completion ring, or `None` when it lies in the mapping of the submission
    /// ring.
    pub cq_ring: Option<Mapping>,
    /// The submission entries.
    pub sqes: Mapping,
}

/// The bytes of the submission ring: the words of the ring, and then the index array.
pub open spec fn sq_ring_len(p: io_uring_params) -> int {
    p.sq_off.array + p.sq_entries * SQ_ARRAY_SLOT_SIZE
}

/// The bytes of the completion ring: the words of the ring, and then the entries.
pub open spec fn cq_ring_len(p: io_uring_params) -> int {
    p.cq_off.cqes + p.cq_entries * CQE_SIZE
}

/// The mappings for an instance that the kernel set up with the answer `p`: one for
/// both rings, long enough for the longer of them, when the kernel says that they
/// share a mapping, and one for each ring otherwise; and one for the submission
/// entries.
pub open spec fn spec_mmap(p: io_uring_params) -> MmapPlan {
    let single = p.features & IORING_FEAT_SINGLE_MMAP != 0;
    let sq_len = sq_ring_len(p);
    let cq_len = cq_ring_len(p);
    MmapPlan {
        sq_ring: Mapping {
            len: (if single && cq_len > sq_len {
                cq_len
            } else {
                sq_len
            }) as u64,
            offset: IORING_OFF_SQ_RING,
        },
        cq_ring: if single {
            None
        } else {
            Some(Mapping { len: cq_len as u64, offset: IORING_OFF_CQ_RING })
        },
        sqes: Mapping { len: (p.sq_entries * SQE_SIZE) as u64, offset: IORING_OFF_SQES },
    }
}

/// Lay out the mappings for an instance that the kernel set up with the answer `p`.
pub fn mmap(p: &io_uring_params) -> (plan: MmapPlan)
    ensures
        plan == spec_mmap(*p),
        plan.sq_ring.len >= sq_ring_len(*p),
        plan.cq_ring is None ==> plan.sq_ring.len >= cq_ring_len(*p),
        plan.cq_ring matches Some(cq) ==> cq.len == cq_ring_len(*p),
        plan.sqes.len == p.sq_entries * SQE_SIZE,
{
    let sqr_len: u64 = p.sq_off.array as u64 + p.sq_entries as u64 * SQ_ARRAY_SLOT_SIZE;
    let cqr_len: u64 = p.cq_off.cqes as u64 + p.cq_entries as u64 * CQE_SIZE;
    let sqes_len: u64 = p.sq_entries as u64 * SQE_SIZE;
    if p.features & IORING_FEAT_SINGLE_MMAP != 0 {
        let len = if cqr_len > sqr_len {
            cqr_len
        } else {
            sqr_len
        };
        MmapPlan {
            sq_ring: Mapping { len, offset: IORING_OFF_SQ_RING },
            cq_ring: None,
            sqes: Mapping { len: sqes_len, offset: IORING_OFF_SQES },
        }
    } else {
        MmapPlan {
            sq_ring: Mapping { len: sqr_len, offset: IORING_OFF_SQ_RING },
            cq_ring: Some(Mapping { len: cqr_len, offset: IORING_OFF_CQ_RING }),
            sqes: Mapping { len: sqes_len, offset: IORING_OFF_SQES },
        }
    }
}

/// Whether `mask` and `entries` are the geometry of a ring.
pub fn is_ring_geometry(mask: u32, entries: u32) -> (ok: bool)
    ensures
        ok == ring_geometry(mask, entries),
{
    entries != 0 && mask == entries - 1 && entries & mask == 0
}

/// What a ring's geometry has to satisfy: `entries` is a power of two and `mask` is
/// `entries - 1`, so that masking an index gives its remainder modulo `entries`.
pub open spec fn ring_geometry(mask: u32, entries: u32) -> bool {
    &&& entries != 0
    &&& mask == entries - 1
    &&& entries & mask == 0
}

/// The slot of the entry with sequence number `seq` in a ring with the given mask.
pub open spec fn slot_of(seq: u32, mask: u32) -> u32 {
    seq & mask
}

/// A slot lies within the ring.
pub proof fn lemma_slot_in_ring(seq: u32, mask: u32, entries: u32)
    requires
        ring_geometry(mask, entries),
    ensures
        slot_of(seq, mask) <= mask,
        slot_of(seq, mask) < entries,
{
    assert(seq & mask <= mask) by (bit_vector);
}

/// The entry `k` places after sequence number `base`, with `k` less than the size of
/// the ring, lies `k` slots after the slot of `base`, counted round the ring.
pub proof fn lemma_slot_offset(base: u32, k: u32, mask: u32, entries: u32)
    requires
        ring_geometry(mask, entries),
        k < entries,
    ensures
        slot_of(slot_of(base.wrapping_add(k), mask).wrapping_sub(base), mask) == k,
{
    assert((((base.wrapping_add(k)) & mask).wrapping_sub(base)) & mask == k) by (bit_vector)
        requires
            entries != 0,
            mask == entries - 1,
            entries & mask == 0,
            k < entries,
    ;
}

/// A slot is found again from its distance to the slot of `base`.
pub proof fn lemma_slot_from_offset(base: u32, slot: u32, mask: u32, entries: u32)
    requires
        ring_geometry(mask, entries),
        slot <= mask,
    ensures
        slot_of(base.wrapping_add(slot_of(slot.wrapping_sub(base), mask)), mask) == slot,
{
    assert((base.wrapping_add((slot.wrapping_sub(base)) & mask)) & mask == slot) by (bit_vector)
        requires
            entries != 0,
            mask == entries - 1,
            entries & mask == 0,
            slot <= mask,
    ;
}

} // verus!
