//! Entries, flags, results and the layout of the mappings.
use urio::error::{resultify, syscall_result, OsError, RingError};
use urio::op::cqe::Cqe;
use urio::op::sqe::{poll32_events, Packer};
use urio::op::{FsyncFlags, PollEvent};
use urio::queue::{is_ring_geometry, mmap, Mapping, MmapPlan};
use urio::register::{register_result, RegisterCall};
use urio::sys::{
    io_uring_cqe, io_uring_params, io_uring_sqe, IORING_FEAT_SINGLE_MMAP, IORING_OP_FSYNC,
    IORING_OP_NOP, IORING_OP_POLL_ADD, IORING_OP_READV, IORING_OP_WRITEV,
};
use urio::{Registrar, Uring};

fn dirty() -> io_uring_sqe {
    io_uring_sqe {
        opcode: 9,
        flags: 0xff,
        ioprio: 7,
        fd: 33,
        off: 1,
        addr: 2,
        len: 3,
        op_flags: 4,
        user_data: 5,
        buf_index: 6,
        personality: 7,
        file_index: 8,
        pad2: [9, 10],
    }
}

#[test]
fn a_new_packer_resets_the_entry() {
    let mut sqe = dirty();
    let _ = Packer::new(&mut sqe);
    assert_eq!(sqe.flags, 0);
    assert_eq!(sqe.ioprio, 0);
    assert_eq!(sqe.op_flags, 0);
    assert_eq!(sqe.user_data, 0);
    assert_eq!(sqe.buf_index, 0);
    assert_eq!(sqe.personality, 0);
    assert_eq!(sqe.file_index, 0);
    assert_eq!(sqe.pad2, [0, 0]);
    assert_eq!((sqe.opcode, sqe.fd, sqe.off, sqe.addr, sqe.len), (9, 33, 1, 2, 3));
}

#[test]
fn user_data_and_flags_chain() {
    let mut sqe = dirty();
    Packer::new(&mut sqe).user_data(u64::MAX).flags(0x14).user_data(12);
    assert_eq!(sqe.user_data, 12);
    assert_eq!(sqe.flags, 0x14);
    assert_eq!(sqe.opcode, 9);
}

#[test]
fn packup_nop_packs() {
    let mut sqe = dirty();
    Packer::new(&mut sqe).user_data(8).packup_nop();
    assert_eq!(sqe.opcode, IORING_OP_NOP);
    assert_eq!(sqe.fd, -1);
    assert_eq!((sqe.off, sqe.addr, sqe.len), (0, 0, 0));
    assert_eq!(sqe.user_data, 8);
}

#[test]
fn packup_read_vectored_packs() {
    let mut sqe = dirty();
    Packer::new(&mut sqe).packup_read_vectored(5, 0x7000_1000, 2, 4096);
    assert_eq!(sqe.opcode, IORING_OP_READV);
    assert_eq!(sqe.fd, 5);
    assert_eq!(sqe.addr, 0x7000_1000);
    assert_eq!(sqe.len, 2);
    assert_eq!(sqe.off, 4096);
    assert_eq!(sqe.op_flags, 0);
}

#[test]
fn packup_write_vectored_packs() {
    let mut sqe = dirty();
    Packer::new(&mut sqe).packup_write_vectored(6, 0x7000_2000, 3, 1 << 40);
    assert_eq!(sqe.opcode, IORING_OP_WRITEV);
    assert_eq!(sqe.fd, 6);
    assert_eq!(sqe.addr, 0x7000_2000);
    assert_eq!(sqe.len, 3);
    assert_eq!(sqe.off, 1 << 40);
}

#[test]
fn packup_fsync_packs() {
    let mut sqe = dirty();
    Packer::new(&mut sqe).packup_fsync(7, FsyncFlags::datasync());
    assert_eq!(sqe.opcode, IORING_OP_FSYNC);
    assert_eq!(sqe.fd, 7);
    assert_eq!((sqe.off, sqe.addr, sqe.len), (0, 0, 0));
    assert_eq!(sqe.op_flags, 1);
    Packer::new(&mut sqe).packup_fsync(7, FsyncFlags::filesync());
    assert_eq!(sqe.op_flags, 0);
}

#[test]
fn packup_poll_add_packs() {
    let mut sqe = dirty();
    let events = PollEvent::pollin().union(PollEvent::pollhup());
    Packer::new(&mut sqe).packup_poll_add(8, events);
    assert_eq!(sqe.opcode, IORING_OP_POLL_ADD);
    assert_eq!(sqe.fd, 8);
    assert_eq!((sqe.off, sqe.addr, sqe.len), (0, 0, 0));
    let big_endian = 1u32.to_be() == 1;
    assert_eq!(sqe.op_flags, if big_endian { 0x0011_0000 } else { 0x11 });
}

#[test]
fn packup_poll_add_for_either_byte_order() {
    let mut sqe = dirty();
    Packer::new(&mut sqe).packup_poll_add_for(8, PollEvent::pollout(), false);
    assert_eq!(sqe.op_flags, 0x4);
    Packer::new(&mut sqe).packup_poll_add_for(8, PollEvent::pollout(), true);
    assert_eq!(sqe.op_flags, 0x4_0000);
    assert_eq!(sqe.opcode, IORING_OP_POLL_ADD);
}

#[test]
fn poll32_events_exchanges_the_halves() {
    assert_eq!(poll32_events(0x0000_0001, false), 0x0000_0001);
    assert_eq!(poll32_events(0x0000_0001, true), 0x0001_0000);
    assert_eq!(poll32_events(0x1234_5678, true), 0x5678_1234);
    assert_eq!(poll32_events(0x1234_5678, false), 0x1234_5678);
    assert_eq!(poll32_events(0, true), 0);
    assert_eq!(poll32_events(u32::MAX, true), u32::MAX);
}

#[test]
fn poll_events_have_their_bits() {
    assert_eq!(PollEvent::pollin().bits(), 0x01);
    assert_eq!(PollEvent::pollpri().bits(), 0x02);
    assert_eq!(PollEvent::pollout().bits(), 0x04);
    assert_eq!(PollEvent::pollerr().bits(), 0x08);
    assert_eq!(PollEvent::pollhup().bits(), 0x10);
    assert_eq!(PollEvent::pollnval().bits(), 0x20);
    assert_eq!(PollEvent::pollin().union(PollEvent::pollout()).bits(), 0x05);
    assert_eq!(PollEvent::pollin().union(PollEvent::pollin()), PollEvent::pollin());
}

#[test]
fn fsync_flags_have_their_bits() {
    assert_eq!(FsyncFlags::filesync().bits(), 0);
    assert_eq!(FsyncFlags::datasync().bits(), 1);
    assert_ne!(FsyncFlags::filesync(), FsyncFlags::datasync());
}

#[test]
fn a_completion_carries_tag_result_and_flags() {
    let cqe = Cqe::new(&io_uring_cqe { user_data: 0xfeed, res: 12, flags: 2 });
    assert_eq!(cqe.user_data(), 0xfeed);
    assert_eq!(cqe.result(), Ok(12));
    assert_eq!(cqe.flags(), 2);
    let failed = Cqe::new(&io_uring_cqe { user_data: 1, res: -11, flags: 0 });
    assert_eq!(failed.result(), Err(OsError::from_raw_os_error(11)));
}

#[test]
fn resultify_splits_at_zero() {
    assert_eq!(resultify(0), Ok(0));
    assert_eq!(resultify(1), Ok(1));
    assert_eq!(resultify(i32::MAX), Ok(i32::MAX as u32));
    assert_eq!(resultify(-1).unwrap_err().raw_os_error(), 1);
    assert_eq!(resultify(-22), Err(OsError::from_raw_os_error(22)));
    assert_eq!(resultify(-i32::MAX).unwrap_err().raw_os_error(), i32::MAX);
    assert_eq!(resultify(i32::MIN).unwrap_err().raw_os_error(), i32::MAX);
}

#[test]
fn syscall_result_takes_errno() {
    assert_eq!(syscall_result(3, 99), Ok(3));
    assert_eq!(syscall_result(0, 99), Ok(0));
    assert_eq!(syscall_result(-1, 12), Err(OsError::from_raw_os_error(12)));
    assert_eq!(syscall_result(-5, 0).unwrap_err().raw_os_error(), 0);
}

#[test]
fn errors_say_what_failed() {
    assert_eq!(RingError::QueueFull.message(), "Submission Queue is full");
    assert_eq!(
        RingError::InsufficientCompletions.message(),
        "Failed to get cqes as much as you want"
    );
    assert_ne!(RingError::QueueFull, RingError::InsufficientCompletions);
}

#[test]
fn uring_knows_its_modes() {
    assert!(!Uring::new(3, 0, 0).is_io_polled());
    assert!(!Uring::new(3, 0, 0).has_sqpoll());
    assert!(Uring::new(3, 1, 0).is_io_polled());
    assert!(!Uring::new(3, 1, 0).has_sqpoll());
    assert!(Uring::new(3, 2, 0).has_sqpoll());
    assert!(!Uring::new(3, 2, 0).is_io_polled());
    assert!(Uring::new(3, 0x7f, 0).has_sqpoll() && Uring::new(3, 0x7f, 0).is_io_polled());
    assert!(!Uring::new(3, 0x7c, 3).has_sqpoll());
    let uring = Uring::new(-1, 0x10, 0x1ff);
    assert_eq!((uring.as_raw_fd(), uring.flags(), uring.features()), (-1, 0x10, 0x1ff));
}

fn answer(sq_entries: u32, cq_entries: u32, array: u32, cqes: u32, features: u32) -> io_uring_params {
    let mut p = io_uring_params::default();
    p.sq_entries = sq_entries;
    p.cq_entries = cq_entries;
    p.sq_off.array = array;
    p.cq_off.cqes = cqes;
    p.features = features;
    p
}

#[test]
fn mmap_lays_out_two_rings() {
    let plan = mmap(&answer(8, 16, 128, 64, 0));
    assert_eq!(
        plan,
        MmapPlan {
            sq_ring: Mapping { len: 128 + 8 * 4, offset: 0 },
            cq_ring: Some(Mapping { len: 64 + 16 * 16, offset: 0x0800_0000 }),
            sqes: Mapping { len: 8 * 64, offset: 0x1000_0000 },
        }
    );
}

#[test]
fn mmap_lays_out_one_ring_for_both() {
    let plan = mmap(&answer(8, 16, 128, 64, IORING_FEAT_SINGLE_MMAP | 0x6));
    assert_eq!(plan.sq_ring, Mapping { len: 320, offset: 0 });
    assert_eq!(plan.cq_ring, None);
    assert_eq!(plan.sqes, Mapping { len: 512, offset: 0x1000_0000 });
    // the submission ring is the longer one
    let plan = mmap(&answer(128, 4, 1024, 64, IORING_FEAT_SINGLE_MMAP));
    assert_eq!(plan.sq_ring, Mapping { len: 1024 + 512, offset: 0 });
    assert_eq!(plan.cq_ring, None);
}

#[test]
fn mmap_does_not_overflow() {
    let plan = mmap(&answer(u32::MAX, u32::MAX, u32::MAX, u32::MAX, 0));
    assert_eq!(plan.sq_ring.len, u32::MAX as u64 * 5);
    assert_eq!(plan.cq_ring.unwrap().len, u32::MAX as u64 * 17);
    assert_eq!(plan.sqes.len, u32::MAX as u64 * 64);
    let plan = mmap(&io_uring_params::default());
    assert_eq!(plan.sq_ring.len, 0);
    assert_eq!(plan.sqes.len, 0);
}

#[test]
fn ring_geometry_is_a_power_of_two() {
    for shift in 0..32 {
        let entries = 1u32 << shift;
        assert!(is_ring_geometry(entries - 1, entries));
        assert!(!is_ring_geometry(entries, entries));
    }
    assert!(!is_ring_geometry(0, 0));
    assert!(!is_ring_geometry(u32::MAX, 0));
    assert!(!is_ring_geometry(2, 3));
    assert!(!is_ring_geometry(11, 12));
    assert!(!is_ring_geometry(0, 2));
}

#[test]
fn registrar_describes_its_calls() {
    let registrar = Registrar::new(std::sync::Arc::new(Uring::new(5, 0, 0)));
    assert_eq!(
        registrar.register_buffers(0x1000, 3),
        RegisterCall { fd: 5, opcode: 0, arg: 0x1000, nr_args: 3 }
    );
    assert_eq!(
        registrar.unregister_buffers(),
        RegisterCall { fd: 5, opcode: 1, arg: 0, nr_args: 0 }
    );
    assert_eq!(register_result(0, 7), Ok(()));
    assert_eq!(register_result(-1, 7), Err(OsError::from_raw_os_error(7)));
}

#[test]
fn defaults_are_zero() {
    let p = io_uring_params::default();
    assert_eq!((p.sq_entries, p.cq_entries, p.flags, p.features), (0, 0, 0, 0));
    assert_eq!(p.resv, [0, 0, 0]);
    assert_eq!((p.sq_off.head, p.sq_off.array, p.cq_off.cqes, p.cq_off.flags), (0, 0, 0, 0));
    let sqe = io_uring_sqe::default();
    assert_eq!((sqe.opcode, sqe.fd, sqe.user_data, sqe.pad2), (0, 0, 0, [0, 0]));
    let cqe = io_uring_cqe::default();
    assert_eq!((cqe.user_data, cqe.res, cqe.flags), (0, 0, 0));
}
