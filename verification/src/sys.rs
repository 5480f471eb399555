//! The kernel's io_uring ABI as plain values: the constants of the interface and the
//! records exchanged with the kernel, without their memory layout.
//!
//! The records here carry what the ring logic reads and writes. Laying them out in the
//! shared mappings, bit for bit, is the business of whoever owns those mappings.
#![allow(non_camel_case_types)]

use vstd::prelude::*;

verus! {

// io_uring_params.flags
/// The I/O context is polled.
pub const IORING_SETUP_IOPOLL: u32 = 0x01;
/// A kernel thread polls the submission queue.
pub const IORING_SETUP_SQPOLL: u32 = 0x02;
/// `sq_thread_cpu` is valid.
pub const IORING_SETUP_SQ_AFF: u32 = 0x04;
/// The application defines the completion queue size.
pub const IORING_SETUP_CQSIZE: u32 = 0x08;
/// Clamp the ring sizes instead of failing.
pub const IORING_SETUP_CLAMP: u32 = 0x10;
/// Attach to an existing work queue.
pub const IORING_SETUP_ATTACH_WQ: u32 = 0x20;
/// Start with the ring disabled.
pub const IORING_SETUP_R_DISABLED: u32 = 0x40;

// io_uring_params.features
/// Both rings live in one mapping.
pub const IORING_FEAT_SINGLE_MMAP: u32 = 0x001;
pub const IORING_FEAT_NODROP: u32 = 0x002;
pub const IORING_FEAT_SUBMIT_STABLE: u32 = 0x004;
pub const IORING_FEAT_RW_CUR_POS: u32 = 0x008;
pub const IORING_FEAT_CUR_PERSONALITY: u32 = 0x010;
pub const IORING_FEAT_FAST_POLL: u32 = 0x020;
pub const IORING_FEAT_POLL_32BITS: u32 = 0x040;
pub const IORING_FEAT_SQPOLL_NONFIXED: u32 = 0x080;
pub const IORING_FEAT_EXT_ARG: u32 = 0x100;
pub const IORING_FEAT_NATIVE_WORKERS: u32 = 0x200;
pub const IORING_FEAT_RSRC_TAGS: u32 = 0x400;

// Offsets at which the application maps the pieces of a ring.
pub const IORING_OFF_SQ_RING: u64 = 0;
pub const IORING_OFF_CQ_RING: u64 = 0x0800_0000;
pub const IORING_OFF_SQES: u64 = 0x1000_0000;

// Sizes, in bytes, of the records in the shared mappings.
/// One slot of the submission index array.
pub const SQ_ARRAY_SLOT_SIZE: u64 = 4;
/// One submission queue entry.
pub const SQE_SIZE: u64 = 64;
/// One completion queue entry.
pub const CQE_SIZE: u64 = 16;

// sq_ring.flags
/// The polling thread sleeps and needs a wakeup through `io_uring_enter`.
pub const IORING_SQ_NEED_WAKEUP: u32 = 0x1;
/// The completion ring has overflown.
pub const IORING_SQ_CQ_OVERFLOW: u32 = 0x2;

// cq_ring.flags
/// Eventfd notifications are disabled.
pub const IORING_CQ_EVENTFD_DISABLED: u32 = 0x1;

// io_uring_enter(2) flags
pub const IORING_ENTER_GETEVENTS: u32 = 0x1;
pub const IORING_ENTER_SQ_WAKEUP: u32 = 0x2;
pub const IORING_ENTER_SQ_WAIT: u32 = 0x4;
pub const IORING_ENTER_EXT_ARG: u32 = 0x8;

// sqe.flags
/// Use the fixed file set.
pub const IOSQE_FIXED_FILE: u8 = 0x01;
/// Issue after the I/O in flight.
pub const IOSQE_IO_DRAIN: u8 = 0x02;
/// Link the next entry.
pub const IOSQE_IO_LINK: u8 = 0x04;
/// Like a link, but stronger.
pub const IOSQE_IO_HARDLINK: u8 = 0x08;
/// Always go asynchronous.
pub const IOSQE_ASYNC: u8 = 0x10;
/// Select a buffer from the entry's buffer group.
pub const IOSQE_BUFFER_SELECT: u8 = 0x20;

// opcode
pub const IORING_OP_NOP: u8 = 0;
pub const IORING_OP_READV: u8 = 1;
pub const IORING_OP_WRITEV: u8 = 2;
pub const IORING_OP_FSYNC: u8 = 3;
pub const IORING_OP_READ_FIXED: u8 = 4;
pub const IORING_OP_WRITE_FIXED: u8 = 5;
pub const IORING_OP_POLL_ADD: u8 = 6;
pub const IORING_OP_POLL_REMOVE: u8 = 7;
pub const IORING_OP_SYNC_FILE_RANGE: u8 = 8;
pub const IORING_OP_SENDMSG: u8 = 9;
pub const IORING_OP_RECVMSG: u8 = 10;
pub const IORING_OP_TIMEOUT: u8 = 11;
pub const IORING_OP_TIMEOUT_REMOVE: u8 = 12;
pub const IORING_OP_ACCEPT: u8 = 13;
pub const IORING_OP_ASYNC_CANCEL: u8 = 14;
pub const IORING_OP_LINK_TIMEOUT: u8 = 15;
pub const IORING_OP_CONNECT: u8 = 16;
pub const IORING_OP_FALLOCATE: u8 = 17;
pub const IORING_OP_OPENAT: u8 = 18;
pub const IORING_OP_CLOSE: u8 = 19;
pub const IORING_OP_FILES_UPDATE: u8 = 20;
pub const IORING_OP_STATX: u8 = 21;
pub const IORING_OP_READ: u8 = 22;
pub const IORING_OP_WRITE: u8 = 23;
pub const IORING_OP_FADVISE: u8 = 24;
pub const IORING_OP_MADVISE: u8 = 25;
pub const IORING_OP_SEND: u8 = 26;
pub const IORING_OP_RECV: u8 = 27;
pub const IORING_OP_OPENAT2: u8 = 28;
pub const IORING_OP_EPOLL_CTL: u8 = 29;
pub const IORING_OP_SPLICE: u8 = 30;
pub const IORING_OP_PROVIDE_BUFFERS: u8 = 31;
pub const IORING_OP_REMOVE_BUFFERS: u8 = 32;
pub const IORING_OP_TEE: u8 = 33;
pub const IORING_OP_SHUTDOWN: u8 = 34;
pub const IORING_OP_RENAMEAT: u8 = 35;
pub const IORING_OP_UNLINKAT: u8 = 36;
pub const IORING_OP_MKDIRAT: u8 = 37;
pub const IORING_OP_SYMLINKAT: u8 = 38;
pub const IORING_OP_LINKAT: u8 = 39;
/// One past the last opcode.
pub const IORING_OP_LAST: u8 = 40;

// sqe.fsync_flags
pub const IORING_FSYNC_DATASYNC: u32 = 0x1;

// io_uring_register(2) opcodes
pub const IORING_REGISTER_BUFFERS: u32 = 0;
pub const IORING_UNREGISTER_BUFFERS: u32 = 1;
pub const IORING_REGISTER_FILES: u32 = 2;
pub const IORING_UNREGISTER_FILES: u32 = 3;
pub const IORING_REGISTER_EVENTFD: u32 = 4;
pub const IORING_UNREGISTER_EVENTFD: u32 = 5;

// cqe.flags
/// The upper 16 bits are the buffer id.
pub const IORING_CQE_F_BUFFER: u32 = 0x1;
/// The parent entry will generate more completions.
pub const IORING_CQE_F_MORE: u32 = 0x2;

/// Where the words of the submission ring lie in its mapping, as the kernel reports
/// them at setup.
#[derive(Debug, Copy, Clone)]
pub struct io_sqring_offsets {
    pub head: u32,
    pub tail: u32,
    pub ring_mask: u32,
    pub ring_entries: u32,
    pub flags: u32,
    pub dropped: u32,
    pub array: u32,
    pub resv1: u32,
    pub resv2: u64,
}

impl io_sqring_offsets {
    /// All offsets zero.
    pub open spec fn zeroed() -> Self {
        io_sqring_offsets {
            head: 0,
            tail: 0,
            ring_mask: 0,
            ring_entries: 0,
            flags: 0,
            dropped: 0,
            array: 0,
            resv1: 0,
            resv2: 0,
        }
    }
}

impl Default for io_sqring_offsets {
    fn default() -> (offsets: Self)
        ensures
            offsets == Self::zeroed(),
    {
        io_sqring_offsets {
            head: 0,
            tail: 0,
            ring_mask: 0,
            ring_entries: 0,
            flags: 0,
            dropped: 0,
            array: 0,
            resv1: 0,
            resv2: 0,
        }
    }
}

/// Where the words of the completion ring lie in its mapping, as the kernel reports
/// them at setup.
#[derive(Debug, Copy, Clone)]
pub struct io_cqring_offsets {
    pub head: u32,
    pub tail: u32,
    pub ring_mask: u32,
    pub ring_entries: u32,
    pub overflow: u32,
    pub cqes: u32,
    pub flags: u32,
    pub resv1: u32,
    pub resv2: u64,
}

impl io_cqring_offsets {
    /// All offsets zero.
    pub open spec fn zeroed() -> Self {
        io_cqring_offsets {
            head: 0,
            tail: 0,
            ring_mask: 0,
            ring_entries: 0,
            overflow: 0,
            cqes: 0,
            flags: 0,
            resv1: 0,
            resv2: 0,
        }
    }
}

impl Default for io_cqring_offsets {
    fn default() -> (offsets: Self)
        ensures
            offsets == Self::zeroed(),
    {
        io_cqring_offsets {
            head: 0,
            tail: 0,
            ring_mask: 0,
            ring_entries: 0,
            overflow: 0,
            cqes: 0,
            flags: 0,
            resv1: 0,
            resv2: 0,
        }
    }
}

/// Passed in for `io_uring_setup(2)`, and copied back with the kernel's answer.
#[derive(Debug, Copy, Clone)]
pub struct io_uring_params {
    pub sq_entries: u32,
    pub cq_entries: u32,
    pub flags: u32,
    pub sq_thread_cpu: u32,
    pub sq_thread_idle: u32,
    pub features: u32,
    pub wq_fd: u32,
    pub resv: [u32; 3],
    pub sq_off: io_sqring_offsets,
    pub cq_off: io_cqring_offsets,
}

impl io_uring_params {
    /// Every field zero: the request for a ring with default settings.
    pub open spec fn zeroed() -> Self {
        io_uring_params {
            sq_entries: 0,
            cq_entries: 0,
            flags: 0,
            sq_thread_cpu: 0,
            sq_thread_idle: 0,
            features: 0,
            wq_fd: 0,
            resv: [0u32, 0u32, 0u32],
            sq_off: io_sqring_offsets::zeroed(),
            cq_off: io_cqring_offsets::zeroed(),
        }
    }
}

impl Default for io_uring_params {
    fn default() -> (p: Self)
        ensures
            p == Self::zeroed(),
    {
        io_uring_params {
            sq_entries: 0,
            cq_entries: 0,
            flags: 0,
            sq_thread_cpu: 0,
            sq_thread_idle: 0,
            features: 0,
            wq_fd: 0,
            resv: [0u32, 0u32, 0u32],
            sq_off: io_sqring_offsets::default(),
            cq_off: io_cqring_offsets::default(),
        }
    }
}

/// A submission queue entry: one request to the kernel.
///
/// Fields that the kernel overlays are held once each, under the name of the member
/// that the operations here write: `off` (or `addr2`), `addr` (or `splice_off_in`),
/// `op_flags` (the per-operation flags: `rw_flags`, `fsync_flags`, `poll32_events`,
/// ...), `buf_index` (or `buf_group`) and `file_index` (or `splice_fd_in`).
#[derive(Debug, Copy, Clone)]
pub struct io_uring_sqe {
    /// Type of operation.
    pub opcode: u8,
    /// `IOSQE_*` flags.
    pub flags: u8,
    /// Priority of the request.
    pub ioprio: u16,
    /// File descriptor to do I/O on.
    pub fd: i32,
    /// Offset into the file.
    pub off: u64,
    /// Address of the buffer or of the iovecs.
    pub addr: u64,
    /// Buffer size or number of iovecs.
    pub len: u32,
    /// Flags of the operation.
    pub op_flags: u32,
    /// Passed back at completion time.
    pub user_data: u64,
    /// Index into the fixed buffers, if used.
    pub buf_index: u16,
    /// Personality to use, if used.
    pub personality: u16,
    /// Index into the fixed files, if used.
    pub file_index: u32,
    pub pad2: [u64; 2],
}

impl io_uring_sqe {
    /// Every field zero.
    pub open spec fn zeroed() -> Self {
        io_uring_sqe {
            opcode: 0,
            flags: 0,
            ioprio: 0,
            fd: 0,
            off: 0,
            addr: 0,
            len: 0,
            op_flags: 0,
            user_data: 0,
            buf_index: 0,
            personality: 0,
            file_index: 0,
            pad2: [0u64, 0u64],
        }
    }
}

impl Default for io_uring_sqe {
    fn default() -> (sqe: Self)
        ensures
            sqe == Self::zeroed(),
    {
        io_uring_sqe {
            opcode: 0,
            flags: 0,
            ioprio: 0,
            fd: 0,
            off: 0,
            addr: 0,
            len: 0,
            op_flags: 0,
            user_data: 0,
            buf_index: 0,
            personality: 0,
            file_index: 0,
            pad2: [0u64, 0u64],
        }
    }
}

/// A completion queue entry: the outcome of one request.
#[derive(Debug, Copy, Clone)]
pub struct io_uring_cqe {
    /// The `user_data` of the submission, passed back.
    pub user_data: u64,
    /// Result code of the operation.
    pub res: i32,
    pub flags: u32,
}

impl io_uring_cqe {
    /// Every field zero.
    pub open spec fn zeroed() -> Self {
        io_uring_cqe { user_data: 0, res: 0, flags: 0 }
    }
}

impl Default for io_uring_cqe {
    fn default() -> (cqe: Self)
        ensures
            cqe == Self::zeroed(),
    {
        io_uring_cqe { user_data: 0, res: 0, flags: 0 }
    }
}

} // verus!
