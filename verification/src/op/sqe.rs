//! Filling in a submission queue entry.
use super::{FsyncFlags, PollEvent};
use crate::sys::{
    io_uring_sqe, IORING_OP_FSYNC, IORING_OP_NOP, IORING_OP_POLL_ADD, IORING_OP_READV,
    IORING_OP_WRITEV,
};
use vstd::prelude::*;

verus! {

/// The entry `sqe` with the fields that an operation does not always write set to zero:
/// flags, priority, operation flags, `user_data`, buffer index, personality, file index
/// and padding. What the entry held before cannot leak into a new request.
pub open spec fn reset(sqe: io_uring_sqe) -> io_uring_sqe {
    io_uring_sqe {
        flags: 0,
        ioprio: 0,
        op_flags: 0,
        user_data: 0,
        buf_index: 0,
        personality: 0,
        file_index: 0,
        pad2: [0u64, 0u64],
        ..sqe
    }
}

/// The entry `sqe` with the fields that every operation writes.
pub open spec fn packed(
    sqe: io_uring_sqe,
    opcode: u8,
    fd: i32,
    addr: u64,
    len: u32,
    offset: u64,
) -> io_uring_sqe {
    io_uring_sqe { opcode, fd, off: offset, addr, len, ..sqe }
}

/// The bytes of `x` in reverse order.
pub open spec fn swap_bytes(x: u32) -> u32 {
    (x << 24) | ((x & 0xff00) << 8) | ((x >> 8) & 0xff00) | (x >> 24)
}

/// The poll mask `bits` as the kernel wants it in `poll32_events`: as it is on a
/// little-endian machine, with its two halves exchanged on a big-endian one.
pub open spec fn spec_poll32_events(bits: u32, big_endian: bool) -> u32 {
    if big_endian {
        bits << 16 | bits >> 16
    } else {
        bits
    }
}

/// The entry `sqe` packed up as a poll of `fd` for the events in `bits`, on a machine of
/// the byte order given.
pub open spec fn poll_added(sqe: io_uring_sqe, fd: i32, bits: u32, big_endian: bool) -> io_uring_sqe {
    io_uring_sqe {
        op_flags: spec_poll32_events(bits, big_endian),
        ..packed(sqe, IORING_OP_POLL_ADD, fd, 0, 0, 0)
    }
}

/// The poll mask `bits` as the kernel wants it in `poll32_events`.
pub fn poll32_events(bits: u32, big_endian: bool) -> (word: u32)
    ensures
        word == spec_poll32_events(bits, big_endian),
{
    if big_endian {
        bits << 16 | bits >> 16
    } else {
        bits
    }
}

/// `u32::to_le`: the value itself on a little-endian target, its bytes in reverse
/// order on a big-endian one.
#[verifier::external_body]
fn to_le(x: u32) -> (le: u32)
    ensures
        le == x || le == swap_bytes(x),
{
    x.to_le()
}

/// Pack data into a SQE(Submission Queue Entry).
pub struct Packer<'a>(pub &'a mut io_uring_sqe);

impl<'a> Packer<'a> {
    /// Create a new [`Packer`] with the given mutable reference to SQE. The entry is
    /// reset first.
    pub fn new(sqe: &'a mut io_uring_sqe) -> (packer: Self)
        ensures
            *packer.0 == reset(*old(sqe)),
            *final(packer.0) == *final(sqe),
    {
        sqe.flags = 0;
        sqe.ioprio = 0;
        sqe.op_flags = 0;
        sqe.user_data = 0;
        sqe.buf_index = 0;
        sqe.personality = 0;
        sqe.file_index = 0;
        sqe.pad2 = [0, 0];
        Self(sqe)
    }

    /// Pack `user_data` which to be passed back at completion time.
    #[inline]
    pub fn user_data(&mut self, user_data: u64) -> (packer: &mut Self)
        ensures
            *packer.0 == (io_uring_sqe { user_data, ..*old(self).0 }),
            *final(packer.0) == *final(old(self).0),
            *final(self) == *final(packer),
    {
        self.0.user_data = user_data;
        self
    }

    /// Pack IOSQE_* `flags`.
    #[inline]
    pub fn flags(&mut self, flags: u8) -> (packer: &mut Self)
        ensures
            *packer.0 == (io_uring_sqe { flags, ..*old(self).0 }),
            *final(packer.0) == *final(old(self).0),
            *final(self) == *final(packer),
    {
        self.0.flags = flags;
        self
    }

    /// Pack up for the operation that does not perform any I/O.
    ///
    /// This is useful for testing the performance of the io_uring implementation
    /// itself.
    #[inline]
    pub fn packup_nop(&mut self)
        ensures
            *final(self).0 == packed(*old(self).0, IORING_OP_NOP, -1i32, 0, 0, 0),
            *final(final(self).0) == *final(old(self).0),
    {
        self.pack(IORING_OP_NOP, -1, 0, 0, 0);
    }

    /// Pack up data for the operation that reads from the file descriptor `fd` into
    /// the `count` buffers that the iovecs at address `iovecs` describe.
    ///
    /// It's similar to preadv2(2). If the file is not seekable, `offset` must be set
    /// to zero.
    #[inline]
    pub fn packup_read_vectored(&mut self, fd: i32, iovecs: u64, count: u32, offset: u64)
        ensures
            *final(self).0 == packed(*old(self).0, IORING_OP_READV, fd, iovecs, count, offset),
            *final(final(self).0) == *final(old(self).0),
    {
        self.pack(IORING_OP_READV, fd, iovecs, count, offset);
    }

    /// Pack up data for the operation that writes the `count` buffers that the iovecs
    /// at address `iovecs` describe to the file descriptor `fd`.
    ///
    /// It's similar to pwritev2(2). If the file is not seekable, `offset` must be set
    /// to zero.
    #[inline]
    pub fn packup_write_vectored(&mut self, fd: i32, iovecs: u64, count: u32, offset: u64)
        ensures
            *final(self).0 == packed(*old(self).0, IORING_OP_WRITEV, fd, iovecs, count, offset),
            *final(final(self).0) == *final(old(self).0),
    {
        self.pack(IORING_OP_WRITEV, fd, iovecs, count, offset);
    }

    /// Pack up data for the operation that synchronizes the in-core state of the file
    /// referred to by the file descriptor `fd` with the storage device.
    ///
    /// See also fsync(2). While I/O is initiated in the order in which it appears in
    /// the submission queue, completions are unordered: an fsync placed after a write
    /// may complete before the write is issued to the storage.
    #[inline]
    pub fn packup_fsync(&mut self, fd: i32, flags: FsyncFlags)
        ensures
            *final(self).0 == (io_uring_sqe {
                op_flags: flags@,
                ..packed(*old(self).0, IORING_OP_FSYNC, fd, 0, 0, 0)
            }),
            *final(final(self).0) == *final(old(self).0),
    {
        self.pack(IORING_OP_FSYNC, fd, 0, 0, 0);
        self.0.op_flags = flags.bits();
    }

    /// Pack up data for the operation that polls the specified `fd` for the `events`.
    ///
    /// Unlike poll or epoll without `EPOLLONESHOT`, this interface always works in one
    /// shot mode: once the poll operation is completed, it has to be submitted again.
    /// The result of the completion is the mask of the events that were found.
    ///
    /// The mask is written as the machine's byte order asks for.
    #[inline]
    pub fn packup_poll_add(&mut self, fd: i32, events: PollEvent)
        ensures
            *final(self).0 == poll_added(*old(self).0, fd, events@, false) || *final(self).0
                == poll_added(*old(self).0, fd, events@, true),
            *final(final(self).0) == *final(old(self).0),
    {
        let big_endian = to_le(1u32) != 1u32;
        self.packup_poll_add_for(fd, events, big_endian);
    }

    /// Pack up a poll of `fd` for `events`, for a machine of the byte order given.
    pub fn packup_poll_add_for(&mut self, fd: i32, events: PollEvent, big_endian: bool)
        ensures
            *final(self).0 == poll_added(*old(self).0, fd, events@, big_endian),
            *final(final(self).0) == *final(old(self).0),
    {
        self.pack(IORING_OP_POLL_ADD, fd, 0, 0, 0);
        self.0.op_flags = poll32_events(events.bits(), big_endian);
    }

    #[inline]
    fn pack(&mut self, opcode: u8, fd: i32, addr: u64, len: u32, offset: u64)
        ensures
            *final(self).0 == packed(*old(self).0, opcode, fd, addr, len, offset),
            *final(final(self).0) == *final(old(self).0),
    {
        self.0.opcode = opcode;
        self.0.fd = fd;
        self.0.off = offset;
        self.0.addr = addr;
        self.0.len = len;
    }
}

} // verus!
