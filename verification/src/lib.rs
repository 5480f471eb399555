//! # urio
//!
//! The process side of io_uring's ring protocol, verified.
//!
//! An io_uring instance is a pair of rings in memory that the process shares with the
//! kernel. This library holds the rules of both rings: which entry a request gets and
//! when the queue is full, how a batch becomes visible to the kernel, when the kernel
//! has to be entered and with which flags, how many completions are available and which
//! slots they occupy, and the table that leads a completion back to the continuation
//! registered for it. Each rule is a function on plain values with a contract.
//!
//! The library touches neither the shared mappings nor the kernel. Words that the kernel
//! writes (the submission head, the submission flags, the completion tail, the completion
//! entries) come in as arguments; words that the process writes (the submission tail, the
//! index array, the submission entries, the completion head) are kept here and read back
//! by the driver, which copies them out with the ordering the protocol asks for.
pub mod builder;
pub mod error;
pub mod op;
pub mod queue;
pub mod register;
pub mod sync;
pub mod sys;

pub use builder::Builder;
pub use error::{OsError, RingError};
pub use op::{cqe::Cqe, sqe::Packer};
pub use queue::{Cq, Reaper, Sq};
pub use register::Registrar;

use sys::{IORING_SETUP_IOPOLL, IORING_SETUP_SQPOLL};
use vstd::prelude::*;

verus! {

/// What is known of an io_uring instance: its descriptor, the flags it was set up with
/// and the features of the kernel behind it.
pub struct Uring {
    fd: i32,
    flags: u32,
    features: u32,
}

impl Uring {
    /// The descriptor of the instance.
    pub closed spec fn spec_fd(&self) -> i32 {
        self.fd
    }

    /// The `IORING_SETUP_*` flags of the instance.
    pub closed spec fn spec_flags(&self) -> u32 {
        self.flags
    }

    /// The `IORING_FEAT_*` bits of the kernel.
    pub closed spec fn spec_features(&self) -> u32 {
        self.features
    }

    /// Whether the instance was set up for polled I/O.
    pub open spec fn spec_is_io_polled(&self) -> bool {
        self.spec_flags() & IORING_SETUP_IOPOLL != 0
    }

    /// Whether a kernel thread polls the submission queue.
    pub open spec fn spec_has_sqpoll(&self) -> bool {
        self.spec_flags() & IORING_SETUP_SQPOLL != 0
    }

    /// Describe the instance behind descriptor `fd`.
    pub fn new(fd: i32, flags: u32, features: u32) -> (uring: Self)
        ensures
            uring.spec_fd() == fd,
            uring.spec_flags() == flags,
            uring.spec_features() == features,
    {
        Uring { fd, flags, features }
    }

    /// Return `true` if IO polling is utilized.
    #[inline]
    pub fn is_io_polled(&self) -> (polled: bool)
        ensures
            polled == self.spec_is_io_polled(),
    {
        self.flags & IORING_SETUP_IOPOLL != 0
    }

    /// Return `true` if the kernel side SQ polling thread exist.
    #[inline]
    pub fn has_sqpoll(&self) -> (sqpoll: bool)
        ensures
            sqpoll == self.spec_has_sqpoll(),
    {
        self.flags & IORING_SETUP_SQPOLL != 0
    }

    /// The descriptor of the instance.
    #[inline]
    pub fn as_raw_fd(&self) -> (fd: i32)
        ensures
            fd == self.spec_fd(),
    {
        self.fd
    }

    /// The `IORING_SETUP_*` flags of the instance.
    #[inline]
    pub fn flags(&self) -> (flags: u32)
        ensures
            flags == self.spec_flags(),
    {
        self.flags
    }

    /// The `IORING_FEAT_*` bits of the kernel.
    #[inline]
    pub fn features(&self) -> (features: u32)
        ensures
            features == self.spec_features(),
    {
        self.features
    }
}

} // verus!
