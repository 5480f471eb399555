//! The failures that ring operations report.
use vstd::prelude::*;

verus! {

/// A ring operation that could not be carried out. The ring is left as it was; the
/// caller decides whether and when to try again.
#[derive(Debug, Clone, Copy, PartialEq, Eq, Structural)]
pub enum RingError {
    /// The submission queue holds as many entries as the ring has room for. Submitting
    /// what is pending makes room.
    QueueFull,
    /// Fewer completions are available than were asked for.
    InsufficientCompletions,
}

impl RingError {
    /// The failure in words.
    pub open spec fn spec_message(&self) -> Seq<char> {
        match self {
            RingError::QueueFull => "Submission Queue is full"@,
            RingError::InsufficientCompletions => "Failed to get cqes as much as you want"@,
        }
    }

    /// The failure in words.
    pub fn message(&self) -> (text: &'static str)
        ensures
            text@ == self.spec_message(),
    {
        match self {
            RingError::QueueFull => "Submission Queue is full",
            RingError::InsufficientCompletions => "Failed to get cqes as much as you want",
        }
    }
}

/// An error code of the operating system (an `errno` value).
#[derive(Debug, Clone, Copy, PartialEq, Eq, Structural)]
pub struct OsError {
    /// The code of the error.
    pub code: i32,
}

impl OsError {
    /// The error with the given code.
    pub fn from_raw_os_error(code: i32) -> (err: Self)
        ensures
            err.code == code,
    {
        OsError { code }
    }

    /// The code of the error.
    pub fn raw_os_error(&self) -> (code: i32)
        ensures
            code == self.code,
    {
        self.code
    }
}

/// The error code that a negative kernel result `ret` stands for: `-ret`, and
/// `i32::MAX` for the one value whose negation does not fit.
pub open spec fn errno_of(ret: i32) -> i32 {
    if ret == i32::MIN {
        i32::MAX
    } else {
        (-ret) as i32
    }
}

/// What a kernel result code means: a count when it is not negative, the error code
/// `-ret` when it is.
pub open spec fn spec_resultify(ret: i32) -> Result<u32, OsError> {
    if ret >= 0 {
        Ok(ret as u32)
    } else {
        Err(OsError { code: errno_of(ret) })
    }
}

/// Turn a result code of the kernel, as found in a completion entry or returned by a
/// raw system call that reports errors in-band, into a `Result`.
pub fn resultify(ret: i32) -> (r: Result<u32, OsError>)
    ensures
        r == spec_resultify(ret),
        ret >= 0 ==> r == Ok::<u32, OsError>(ret as u32),
        ret < 0 ==> r is Err && r->Err_0.code == errno_of(ret),
{
    if ret >= 0 {
        Ok(ret as u32)
    } else if ret == i32::MIN {
        Err(OsError { code: i32::MAX })
    } else {
        Err(OsError { code: -ret })
    }
}

/// What the return value of a system call made through the C library means: `ret`
/// itself when it is not negative, and otherwise the error that the C library left in
/// `errno`.
pub open spec fn spec_syscall_result(ret: i32, errno: i32) -> Result<u32, OsError> {
    if ret >= 0 {
        Ok(ret as u32)
    } else {
        Err(OsError { code: errno })
    }
}

/// Turn the return value of a system call made through the C library into a `Result`.
/// `errno` is the thread's error code read right after the call; it is looked at only
/// when `ret` is negative.
pub fn syscall_result(ret: i32, errno: i32) -> (r: Result<u32, OsError>)
    ensures
        r == spec_syscall_result(ret, errno),
        ret >= 0 ==> r == Ok::<u32, OsError>(ret as u32),
        ret < 0 ==> r is Err && r->Err_0.code == errno,
{
    if ret >= 0 {
        Ok(ret as u32)
    } else {
        Err(OsError { code: errno })
    }
}

} // verus!
