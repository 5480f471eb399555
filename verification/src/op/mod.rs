//! Operation related types
pub mod cqe;
pub mod sqe;
pub mod storage;

use crate::sys::IORING_FSYNC_DATASYNC;
use vstd::prelude::*;

verus! {

/// Synchronized I/O file or data integrity completion.
#[derive(Debug, Clone, Copy, PartialEq, Eq, Structural)]
pub struct FsyncFlags {
    bits: u32,
}

impl View for FsyncFlags {
    type V = u32;

    closed spec fn view(&self) -> u32 {
        self.bits
    }
}

impl FsyncFlags {
    /// Flush data and all associated metadata to the underlying hardware.
    pub fn filesync() -> (flags: Self)
        ensures
            flags@ == 0,
    {
        FsyncFlags { bits: 0 }
    }

    /// Flush data, but only the metadata updates that a subsequent read needs to
    /// complete successfully. This can reduce the number of disk operations for
    /// applications that do not need the guarantees of file integrity completion.
    pub fn datasync() -> (flags: Self)
        ensures
            flags@ == IORING_FSYNC_DATASYNC,
    {
        FsyncFlags { bits: IORING_FSYNC_DATASYNC }
    }

    /// The flags as the kernel reads them.
    pub fn bits(&self) -> (bits: u32)
        ensures
            bits == self@,
    {
        self.bits
    }
}

/// The bit mask specifying the events the application is interested in. The bits are
/// those of poll(2) on Linux, the system that has io_uring.
#[derive(Debug, Clone, Copy, PartialEq, Eq, Structural)]
pub struct PollEvent {
    bits: u32,
}

impl View for PollEvent {
    type V = u32;

    closed spec fn view(&self) -> u32 {
        self.bits
    }
}

/// `libc::POLLIN`, the bit for "there is data to read", as `libc` defines it for Linux:
/// 0x1.
#[verifier::external_body]
fn libc_pollin() -> (bits: u32)
    ensures
        bits == 0x1,
{
    libc::POLLIN as u32
}

/// `libc::POLLPRI`, the bit for "there is urgent data to read", as `libc` defines it
/// for Linux: 0x2.
#[verifier::external_body]
fn libc_pollpri() -> (bits: u32)
    ensures
        bits == 0x2,
{
    libc::POLLPRI as u32
}

/// `libc::POLLOUT`, the bit for "writing is now possible", as `libc` defines it for
/// Linux: 0x4.
#[verifier::external_body]
fn libc_pollout() -> (bits: u32)
    ensures
        bits == 0x4,
{
    libc::POLLOUT as u32
}

/// `libc::POLLERR`, the bit for an error condition, as `libc` defines it for Linux:
/// 0x8.
#[verifier::external_body]
fn libc_pollerr() -> (bits: u32)
    ensures
        bits == 0x8,
{
    libc::POLLERR as u32
}

/// `libc::POLLHUP`, the bit for a hang-up, as `libc` defines it for Linux: 0x10.
#[verifier::external_body]
fn libc_pollhup() -> (bits: u32)
    ensures
        bits == 0x10,
{
    libc::POLLHUP as u32
}

/// `libc::POLLNVAL`, the bit for an invalid polling request, as `libc` defines it for
/// Linux: 0x20.
#[verifier::external_body]
fn libc_pollnval() -> (bits: u32)
    ensures
        bits == 0x20,
{
    libc::POLLNVAL as u32
}

impl PollEvent {
    /// There is data to read.
    pub fn pollin() -> (event: Self)
        ensures
            event@ == 0x1,
    {
        PollEvent { bits: libc_pollin() }
    }

    /// There is urgent data to read.
    pub fn pollpri() -> (event: Self)
        ensures
            event@ == 0x2,
    {
        PollEvent { bits: libc_pollpri() }
    }

    /// Writing is now possible.
    pub fn pollout() -> (event: Self)
        ensures
            event@ == 0x4,
    {
        PollEvent { bits: libc_pollout() }
    }

    /// Error condition.
    pub fn pollerr() -> (event: Self)
        ensures
            event@ == 0x8,
    {
        PollEvent { bits: libc_pollerr() }
    }

    /// Hung up.
    pub fn pollhup() -> (event: Self)
        ensures
            event@ == 0x10,
    {
        PollEvent { bits: libc_pollhup() }
    }

    /// Invalid polling request.
    pub fn pollnval() -> (event: Self)
        ensures
            event@ == 0x20,
    {
        PollEvent { bits: libc_pollnval() }
    }

    /// The events of `self` together with those of `other`.
    pub fn union(self, other: Self) -> (both: Self)
        ensures
            both@ == self@ | other@,
    {
        PollEvent { bits: self.bits | other.bits }
    }

    /// The mask as the kernel reads it.
    pub fn bits(&self) -> (bits: u32)
        ensures
            bits == self@,
    {
        self.bits
    }
}

} // verus!
