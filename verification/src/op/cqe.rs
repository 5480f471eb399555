//! Completions, and the continuations that wait for them.
use super::storage::{Id, Unpack};
use crate::error::{resultify, spec_resultify, OsError};
use crate::sys::io_uring_cqe;
use vstd::prelude::*;

verus! {

/// A continuation waiting for a completion: a handler, the data it was registered with,
/// and the id under which the slot store keeps it. When the completion arrives the
/// handler is called, once, with the data and the result of the operation.
pub struct Unpacker<T, F: FnOnce(T, Result<u32, OsError>)> {
    id: Id,
    data: T,
    handler: F,
}

impl<T, F: FnOnce(T, Result<u32, OsError>)> Unpacker<T, F> {
    /// The handler can be called with the data, whatever the result.
    #[verifier::type_invariant]
    spec fn callable(self) -> bool {
        forall|result: Result<u32, OsError>| call_requires(self.handler, (self.data, result))
    }

    /// The data given at registration.
    pub closed spec fn spec_data(&self) -> T {
        self.data
    }

    /// The handler given at registration.
    pub closed spec fn spec_handler(&self) -> F {
        self.handler
    }

    /// A continuation for slot `id`, which will hand `data` and the result of the
    /// operation to `handler`.
    pub fn new(id: Id, data: T, handler: F) -> (unpacker: Self)
        requires
            forall|result: Result<u32, OsError>| call_requires(handler, (data, result)),
        ensures
            unpacker.spec_id() == id,
            unpacker.spec_data() == data,
            unpacker.spec_handler() == handler,
    {
        Self { id, data, handler }
    }
}

impl<T, F: FnOnce(T, Result<u32, OsError>)> Unpack for Unpacker<T, F> {
    closed spec fn spec_id(&self) -> Id {
        self.id
    }

    #[inline]
    fn id(&self) -> (id: Id) {
        self.id
    }

    /// Call the handler with the data given at registration and the result.
    fn unpack(self, result: Result<u32, OsError>)
        ensures
            call_ensures(self.spec_handler(), (self.spec_data(), result), ()),
    {
        proof {
            use_type_invariant(&self);
        }
        (self.handler)(self.data, result)
    }
}

/// CQE(Completion Queue Event), which represents a completed IO event.
///
/// The kernel adds one to the completion queue for each submission queue entry that was
/// submitted. It carries the result of the operation, and the `user_data` of its
/// submission.
#[derive(Debug, Clone, Copy)]
pub struct Cqe(io_uring_cqe);

impl View for Cqe {
    type V = io_uring_cqe;

    closed spec fn view(&self) -> io_uring_cqe {
        self.0
    }
}

impl Cqe {
    /// A copy of the completion entry `cqe`.
    #[inline]
    pub fn new(cqe: &io_uring_cqe) -> (c: Self)
        ensures
            c@ == *cqe,
    {
        Self(*cqe)
    }

    /// The `user_data` that the submission carried.
    #[inline]
    pub fn user_data(&self) -> (tag: u64)
        ensures
            tag == self@.user_data,
    {
        self.0.user_data
    }

    /// The outcome of the operation: its result when the kernel reported one, the
    /// error when it reported a negative code.
    #[inline]
    pub fn result(&self) -> (r: Result<u32, OsError>)
        ensures
            r == spec_resultify(self@.res),
    {
        resultify(self.0.res)
    }

    /// The `IORING_CQE_F_*` flags of the completion.
    #[inline]
    pub fn flags(&self) -> (flags: u32)
        ensures
            flags == self@.flags,
    {
        self.0.flags
    }
}

} // verus!
