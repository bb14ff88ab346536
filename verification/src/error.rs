//! The conditions the stream core reports to its callers.

use vstd::prelude::*;

verus! {

/// A write asked for more room than the buffer had free. Nothing was written.
#[derive(Clone, Copy, Debug, PartialEq, Eq, Structural)]
pub struct Overflow;

/// A read asked for more bytes than were queued.
#[derive(Clone, Copy, Debug, PartialEq, Eq, Structural)]
pub struct Underflow {
    /// The bytes that were queued. The read has removed them.
    pub available: usize,
}

/// The kinds of condition the stream core knows. Only `RuntimeInitFailure` is
/// fatal; the others are recovered from where they arise.
#[derive(Clone, Copy, Debug, PartialEq, Eq, Structural)]
pub enum FastError {
    /// The worker pool could not be created.
    RuntimeInitFailure,
    /// A write asked for more room than the buffer had free.
    Overflow,
    /// A read asked for more bytes than were queued.
    Underflow,
    /// A refill was requested while another one was still running.
    Busy,
    /// The work was abandoned because the stream has been torn down.
    Cancelled,
}

impl FastError {
    /// The status code that stands for this condition across the C boundary.
    pub open spec fn spec_status_code(self) -> int {
        match self {
            FastError::Overflow => 1,
            FastError::Underflow => 2,
            FastError::Busy => 3,
            FastError::Cancelled => 4,
            FastError::RuntimeInitFailure => 5,
        }
    }

    /// The status code that stands for this condition across the C boundary.
    /// Zero is reserved for success.
    pub fn status_code(&self) -> (code: i32)
        ensures
            code == self.spec_status_code(),
            code != 0,
    {
        match self {
            FastError::Overflow => 1,
            FastError::Underflow => 2,
            FastError::Busy => 3,
            FastError::Cancelled => 4,
            FastError::RuntimeInitFailure => 5,
        }
    }
}

/// The status code of success.
pub const STATUS_OK: i32 = 0;

/// The status code that reports `result` across the C boundary: zero for
/// success, and the code of the condition otherwise.
pub fn status<T>(result: &Result<T, FastError>) -> (code: i32)
    ensures
        code == match result {
            Ok(_) => STATUS_OK as int,
            Err(e) => e.spec_status_code(),
        },
        code == STATUS_OK <==> result is Ok,
{
    match result {
        Ok(_) => STATUS_OK,
        Err(e) => e.status_code(),
    }
}

/// Status codes and conditions correspond one to one: no condition has the
/// code of success, and two conditions share a code only if they are the same.
pub proof fn lemma_status_codes_one_to_one(a: FastError, b: FastError)
    ensures
        a.spec_status_code() != 0,
        a.spec_status_code() == b.spec_status_code() <==> a == b,
{
}

} // verus!
