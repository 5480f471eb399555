//! Putting an instance together.
use crate::op::storage::Unpack;
use crate::queue::cq::CqView;
use crate::queue::sq::SqView;
use crate::queue::{is_ring_geometry, ring_geometry, Cq, Sq};
use crate::register::Registrar;
use crate::sync::SharedStorage;
use crate::sys::{io_uring_params, io_uring_sqe};
use crate::Uring;
use std::sync::Arc;
use vstd::prelude::*;

verus! {

/// The geometry of one ring as it stands in the ring's mapping.
#[derive(Debug, Clone, Copy, PartialEq, Eq, Structural)]
pub struct RingSize {
    /// The word `ring_mask`.
    pub mask: u32,
    /// The word `ring_entries`.
    pub entries: u32,
}

/// io_uring factory, which can be used in order to configure the properties of a new
/// io_uring instance.
///
/// The builder holds the request for the kernel: the number of entries, and the
/// parameters. When the kernel has set the instance up and the rings are mapped,
/// [`build`] makes the [`Sq`], the [`Cq`] and the [`Registrar`] of the instance.
///
/// [`build`]: method@Self::build
pub struct Builder {
    entries: u32,
    p: io_uring_params,
}

impl Builder {
    /// The number of entries asked for.
    pub closed spec fn spec_entries(&self) -> u32 {
        self.entries
    }

    /// The parameters: those of the request, and after `build` the kernel's answer.
    pub closed spec fn spec_params(&self) -> io_uring_params {
        self.p
    }

    /// Create a new [`Builder`] with given `entries` entries.
    ///
    /// `entries` denote the number of sqes and it must be a power of 2, in the range
    /// `1..=4096`; the kernel refuses a request that is not.
    pub fn new(entries: u32) -> (builder: Self)
        ensures
            builder.spec_entries() == entries,
            builder.spec_params() == io_uring_params::zeroed(),
    {
        Self { entries, p: io_uring_params::default() }
    }

    /// The number of entries asked for.
    pub fn entries(&self) -> (entries: u32)
        ensures
            entries == self.spec_entries(),
    {
        self.entries
    }

    /// The parameters of the request.
    pub fn params(&self) -> (p: io_uring_params)
        ensures
            p == self.spec_params(),
    {
        self.p
    }

    /// Build the configured [`Sq`], [`Cq`] and [`Registrar`] of the instance behind
    /// descriptor `fd`, which the kernel set up with the answer `p` and whose rings
    /// have the sizes `sq` and `cq`.
    ///
    /// The three share one description of the instance, and the two queues share one
    /// slot store, made with room for a continuation per completion entry. Both
    /// queues start empty. Nothing is built, and the builder stays as it is, when a
    /// size is not the geometry of a ring.
    pub fn build<U: Unpack>(
        &mut self,
        fd: i32,
        p: io_uring_params,
        sq: RingSize,
        cq: RingSize,
    ) -> (built: Option<(Sq<U>, Cq<U>, Registrar)>)
        ensures
            built is Some <==> ring_geometry(sq.mask, sq.entries) && ring_geometry(
                cq.mask,
                cq.entries,
            ),
            built is None ==> *final(self) == *old(self),
            built matches Some(parts) ==> {
                &&& final(self).spec_entries() == old(self).spec_entries()
                &&& final(self).spec_params() == p
                &&& parts.0.wf()
                &&& parts.0@ == (SqView {
                    entries: sq.entries,
                    setup_flags: p.flags,
                    tail: 0,
                    sqe_head: 0,
                    sqe_tail: 0,
                    array: Seq::new(sq.entries as nat, |s: int| 0u32),
                    sqes: Seq::new(sq.entries as nat, |s: int| io_uring_sqe::zeroed()),
                })
                &&& parts.1.wf()
                &&& parts.1@ == (CqView { entries: cq.entries, head: 0 })
                &&& parts.1.spec_flags_offset() == if p.cq_off.flags > 0 {
                    Some(p.cq_off.flags)
                } else {
                    None
                }
                &&& parts.0.spec_storage() == parts.1.spec_storage()
                &&& parts.0.spec_uring() == parts.2.spec_uring()
                &&& parts.1.spec_uring() == parts.2.spec_uring()
                &&& parts.2.spec_uring().spec_fd() == fd
                &&& parts.2.spec_uring().spec_flags() == p.flags
                &&& parts.2.spec_uring().spec_features() == p.features
            },
    {
        if !is_ring_geometry(sq.mask, sq.entries) || !is_ring_geometry(cq.mask, cq.entries) {
            return None;
        }
        self.p = p;
        let uring = Arc::new(Uring::new(fd, p.flags, p.features));
        let storage = SharedStorage::with_capacity(cq.entries as usize);
        Some(
            (
                Sq::new(Arc::clone(&uring), storage.share(), sq.mask, sq.entries),
                Cq::new(Arc::clone(&uring), storage.share(), p.cq_off, cq.mask, cq.entries),
                Registrar::new(Arc::clone(&uring)),
            ),
        )
    }
}

} // verus!
