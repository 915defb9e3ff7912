use vstd::prelude::*;

verus! {

/// The error carried inside a completed operation's output.
#[derive(Clone, Copy, Debug, PartialEq, Eq, Structural)]
pub enum IoError {
    /// The kernel reported this positive errno value.
    Os(i32),
    /// The completion could not be interpreted (an unknown address family, a
    /// truncated address, a result the kernel cannot have produced).
    InvalidInput,
}

/// The error a negative completion result stands for: the negated errno.
/// `i32::MIN` has no errno to negate into and is reported as malformed.
pub open spec fn error_of(res: i32) -> IoError {
    if res == i32::MIN {
        IoError::InvalidInput
    } else {
        IoError::Os(-res as i32)
    }
}

/// What a completion result means: a non-negative value is a success count,
/// a negative value an error.
pub open spec fn result_of(res: i32) -> Result<usize, IoError> {
    if res >= 0 {
        Ok(res as usize)
    } else {
        Err(error_of(res))
    }
}

/// Decodes a negative `res` field of a completion-queue entry into its error.
pub fn cqe_error(res: i32) -> (e: IoError)
    requires
        res < 0,
    ensures
        e == error_of(res),
{
    if res == i32::MIN {
        IoError::InvalidInput
    } else {
        IoError::Os(-res)
    }
}

/// Decodes the `res` field of a completion-queue entry.
pub fn cqe_result(res: i32) -> (r: Result<usize, IoError>)
    ensures
        r == result_of(res),
{
    if res >= 0 {
        Ok(res as usize)
    } else {
        Err(cqe_error(res))
    }
}

} // verus!
