//! Driver status words and the errors they stand for.

use vstd::prelude::*;

verus! {

/// The native code with which a driver reports that a transfer was aborted
/// by a cancellation.
pub const CANCELLED_CODE: u64 = 9;

/// Why an operation on a buffer failed.
#[derive(Debug, Clone, Copy, PartialEq, Eq, Structural)]
pub enum Error {
    /// The operation was stopped on purpose by a cancellation.
    Cancelled,
    /// The driver failed; the payload is its native error code.
    Driver(u64),
}

/// The error that a negative status word `ret` stands for: its magnitude is
/// the native code, and the cancellation code is told apart from the rest.
pub open spec fn status_error(ret: int) -> Error {
    if -ret == CANCELLED_CODE as int {
        Error::Cancelled
    } else {
        Error::Driver((-ret) as u64)
    }
}

/// What a driver call that returned the status word `ret` amounts to:
/// `value` when the word is not negative, the error it encodes otherwise.
pub open spec fn status_result<T>(ret: int, value: T) -> Result<T, Error> {
    if ret < 0 {
        Err(status_error(ret))
    } else {
        Ok(value)
    }
}

impl Error {
    /// The native error code: the driver's own for a driver failure, the
    /// cancellation code for a cancellation.
    pub open spec fn code_spec(self) -> u64 {
        match self {
            Error::Cancelled => CANCELLED_CODE,
            Error::Driver(code) => code,
        }
    }

    /// Whether this error reports an intentional stop.
    pub open spec fn is_cancelled_spec(self) -> bool {
        self == Error::Cancelled
    }

    #[verifier::when_used_as_spec(code_spec)]
    pub fn code(self) -> (c: u64)
        ensures
            c == self.code_spec(),
    {
        match self {
            Error::Cancelled => CANCELLED_CODE,
            Error::Driver(code) => code,
        }
    }

    #[verifier::when_used_as_spec(is_cancelled_spec)]
    pub fn is_cancelled(self) -> (b: bool)
        ensures
            b == self.is_cancelled_spec(),
    {
        match self {
            Error::Cancelled => true,
            Error::Driver(_) => false,
        }
    }
}

/// Checks the status word of a driver call: a negative word is the negated
/// native error code and becomes an error, any other word lets `value`
/// through.
pub fn sys_result<T>(ret: isize, value: T) -> (r: Result<T, Error>)
    ensures
        r == status_result(ret as int, value),
{
    if ret < 0 {
        let wide: i128 = ret as i128;
        let code: u64 = (-wide) as u64;
        if code == CANCELLED_CODE {
            Err(Error::Cancelled)
        } else {
            Err(Error::Driver(code))
        }
    } else {
        Ok(value)
    }
}

} // verus!
