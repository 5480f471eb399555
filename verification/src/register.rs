//! Registering long-lived resources with the kernel.
use crate::error::{spec_syscall_result, syscall_result, OsError};
use crate::sys::{IORING_REGISTER_BUFFERS, IORING_UNREGISTER_BUFFERS};
use crate::Uring;
use std::sync::Arc;
use vstd::prelude::*;

verus! {

/// The arguments of one `io_uring_register(2)` call.
#[derive(Debug, Clone, Copy, PartialEq, Eq, Structural)]
pub struct RegisterCall {
    /// The descriptor of the instance.
    pub fd: i32,
    /// What to register or unregister.
    pub opcode: u32,
    /// The address of the resources, or zero.
    pub arg: u64,
    /// The number of resources at `arg`.
    pub nr_args: u32,
}

/// What `io_uring_register` reported: success, or the error that the call left in
/// `errno`.
pub open spec fn spec_register_result(ret: i32, errno: i32) -> Result<(), OsError> {
    match spec_syscall_result(ret, errno) {
        Ok(_) => Ok(()),
        Err(e) => Err(e),
    }
}

/// Turn the return value of `io_uring_register` into a result. `errno` is the thread's
/// error code read right after the call.
pub fn register_result(ret: i32, errno: i32) -> (r: Result<(), OsError>)
    ensures
        r == spec_register_result(ret, errno),
        r is Ok <==> ret >= 0,
{
    match syscall_result(ret, errno) {
        Ok(_) => Ok(()),
        Err(e) => Err(e),
    }
}

/// A Registrar, registering long term kernel references to resources (e.g. user
/// buffers).
///
/// Registering user buffers allows the kernel to create long term mappings of
/// application memory, greatly reducing per-I/O overhead.
pub struct Registrar {
    uring: Arc<Uring>,
}

impl Registrar {
    /// The instance that resources are registered with.
    pub closed spec fn spec_uring(&self) -> Uring {
        *self.uring
    }

    /// A registrar for the instance `uring`.
    pub fn new(uring: Arc<Uring>) -> (registrar: Self)
        ensures
            registrar.spec_uring() == *uring,
    {
        Self { uring }
    }

    /// Returns the reference to the [`Uring`].
    pub fn uring(&self) -> (uring: &Uring)
        ensures
            *uring == self.spec_uring(),
    {
        &self.uring
    }

    /// The call that registers the `count` buffers described by the iovecs at address
    /// `iovecs`.
    ///
    /// The buffers are locked in memory and charged against the user's
    /// `RLIMIT_MEMLOCK` resource limit. After a successful call they are mapped into
    /// the kernel and eligible for I/O. They must stay where they are for as long as
    /// an operation that refers to them is in flight, and until they are unregistered.
    pub fn register_buffers(&self, iovecs: u64, count: u32) -> (call: RegisterCall)
        ensures
            call == (RegisterCall {
                fd: self.spec_uring().spec_fd(),
                opcode: IORING_REGISTER_BUFFERS,
                arg: iovecs,
                nr_args: count,
            }),
    {
        RegisterCall {
            fd: self.uring.as_raw_fd(),
            opcode: IORING_REGISTER_BUFFERS,
            arg: iovecs,
            nr_args: count,
        }
    }

    /// The call that unregisters all previously registered buffers.
    pub fn unregister_buffers(&self) -> (call: RegisterCall)
        ensures
            call == (RegisterCall {
                fd: self.spec_uring().spec_fd(),
                opcode: IORING_UNREGISTER_BUFFERS,
                arg: 0,
                nr_args: 0,
            }),
    {
        RegisterCall {
            fd: self.uring.as_raw_fd(),
            opcode: IORING_UNREGISTER_BUFFERS,
            arg: 0,
            nr_args: 0,
        }
    }
}

} // verus!
