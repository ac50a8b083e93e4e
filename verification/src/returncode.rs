//! Result encodings shared between the kernel and userspace processes.
//!
//! The encodings cross the process/kernel boundary, so their numeric values
//! must stay bit-exact across kernel versions for binary userspace
//! compatibility. Both encodings are specified here as spec functions and
//! every conversion is proved against them.

use vstd::prelude::*;

verus! {

/// Classic kernel-wide return code: `SUCCESS` or one of the failure codes.
///
/// The numeric encoding is `0` for success and small negative numbers for the
/// failures, in declaration order.
#[derive(Clone, Copy, Debug, PartialEq, Eq, Structural)]
pub enum ReturnCode {
    /// Operation completed successfully.
    SUCCESS,
    /// Generic failure condition.
    FAIL,
    /// Underlying system is busy; retry.
    EBUSY,
    /// The state requested is already set.
    EALREADY,
    /// The component is powered down.
    EOFF,
    /// Reservation required before use.
    ERESERVE,
    /// An invalid parameter was passed.
    EINVAL,
    /// Parameter passed was too large.
    ESIZE,
    /// Operation cancelled by a call.
    ECANCEL,
    /// Memory required not available.
    ENOMEM,
    /// Operation or command is unsupported.
    ENOSUPPORT,
    /// Device does not exist.
    ENODEVICE,
    /// Device is not physically installed.
    EUNINSTALLED,
    /// Packet transmission not acknowledged.
    ENOACK,
}

/// The stable numeric encoding of a [`ReturnCode`].
pub open spec fn return_code_num(rc: ReturnCode) -> int {
    match rc {
        ReturnCode::SUCCESS => 0,
        ReturnCode::FAIL => -1,
        ReturnCode::EBUSY => -2,
        ReturnCode::EALREADY => -3,
        ReturnCode::EOFF => -4,
        ReturnCode::ERESERVE => -5,
        ReturnCode::EINVAL => -6,
        ReturnCode::ESIZE => -7,
        ReturnCode::ECANCEL => -8,
        ReturnCode::ENOMEM => -9,
        ReturnCode::ENOSUPPORT => -10,
        ReturnCode::ENODEVICE => -11,
        ReturnCode::EUNINSTALLED => -12,
        ReturnCode::ENOACK => -13,
    }
}

impl ReturnCode {
    /// Encode this code as the number handed across the syscall boundary.
    pub fn to_num(&self) -> (r: isize)
        ensures
            r as int == return_code_num(*self),
    {
        match *self {
            ReturnCode::SUCCESS => 0,
            ReturnCode::FAIL => -1,
            ReturnCode::EBUSY => -2,
            ReturnCode::EALREADY => -3,
            ReturnCode::EOFF => -4,
            ReturnCode::ERESERVE => -5,
            ReturnCode::EINVAL => -6,
            ReturnCode::ESIZE => -7,
            ReturnCode::ECANCEL => -8,
            ReturnCode::ENOMEM => -9,
            ReturnCode::ENOSUPPORT => -10,
            ReturnCode::ENODEVICE => -11,
            ReturnCode::EUNINSTALLED => -12,
            ReturnCode::ENOACK => -13,
        }
    }

    /// Decode a number received from the boundary; `None` for numbers
    /// outside the closed enumeration.
    pub fn from_num(n: isize) -> (r: Option<ReturnCode>)
        ensures
            r matches Some(rc) ==> return_code_num(rc) == n as int,
            r is None <==> !(-13 <= n as int <= 0),
    {
        match n {
            0 => Some(ReturnCode::SUCCESS),
            -1 => Some(ReturnCode::FAIL),
            -2 => Some(ReturnCode::EBUSY),
            -3 => Some(ReturnCode::EALREADY),
            -4 => Some(ReturnCode::EOFF),
            -5 => Some(ReturnCode::ERESERVE),
            -6 => Some(ReturnCode::EINVAL),
            -7 => Some(ReturnCode::ESIZE),
            -8 => Some(ReturnCode::ECANCEL),
            -9 => Some(ReturnCode::ENOMEM),
            -10 => Some(ReturnCode::ENOSUPPORT),
            -11 => Some(ReturnCode::ENODEVICE),
            -12 => Some(ReturnCode::EUNINSTALLED),
            -13 => Some(ReturnCode::ENOACK),
            _ => None,
        }
    }
}

/// Decoding inverts encoding: every code survives a round trip through its
/// numeric form unchanged.
pub proof fn lemma_return_code_roundtrip(rc: ReturnCode)
    ensures
        ReturnCode::from_num_spec(return_code_num(rc)) == Some(rc),
{
}

impl ReturnCode {
    /// What [`ReturnCode::from_num`] returns, as a spec-level function.
    pub open spec fn from_num_spec(n: int) -> Option<ReturnCode> {
        if n == 0 {
            Some(ReturnCode::SUCCESS)
        } else if n == -1 {
            Some(ReturnCode::FAIL)
        } else if n == -2 {
            Some(ReturnCode::EBUSY)
        } else if n == -3 {
            Some(ReturnCode::EALREADY)
        } else if n == -4 {
            Some(ReturnCode::EOFF)
        } else if n == -5 {
            Some(ReturnCode::ERESERVE)
        } else if n == -6 {
            Some(ReturnCode::EINVAL)
        } else if n == -7 {
            Some(ReturnCode::ESIZE)
        } else if n == -8 {
            Some(ReturnCode::ECANCEL)
        } else if n == -9 {
            Some(ReturnCode::ENOMEM)
        } else if n == -10 {
            Some(ReturnCode::ENOSUPPORT)
        } else if n == -11 {
            Some(ReturnCode::ENODEVICE)
        } else if n == -12 {
            Some(ReturnCode::EUNINSTALLED)
        } else if n == -13 {
            Some(ReturnCode::ENOACK)
        } else {
            None
        }
    }
}

/// Failure-only error code, used where an API separates success from failure
/// structurally (`Result<_, ErrorCode>`).
///
/// The numeric encoding is the small positive numbers, in declaration order
/// starting from `1`.
#[derive(Clone, Copy, Debug, PartialEq, Eq, Structural)]
pub enum ErrorCode {
    /// Generic failure condition.
    FAIL,
    /// Underlying system is busy; retry.
    BUSY,
    /// The state requested is already set.
    ALREADY,
    /// The component is powered down.
    OFF,
    /// Reservation required before use.
    RESERVE,
    /// An invalid parameter was passed.
    INVAL,
    /// Parameter passed was too large.
    SIZE,
    /// Operation cancelled by a call.
    CANCEL,
    /// Memory required not available.
    NOMEM,
    /// Operation is unsupported.
    NOSUPPORT,
    /// Device does not exist.
    NODEVICE,
    /// Device is not physically installed.
    UNINSTALLED,
    /// Packet transmission not acknowledged.
    NOACK,
}

/// The stable numeric encoding of an [`ErrorCode`].
pub open spec fn error_code_num(e: ErrorCode) -> int {
    match e {
        ErrorCode::FAIL => 1,
        ErrorCode::BUSY => 2,
        ErrorCode::ALREADY => 3,
        ErrorCode::OFF => 4,
        ErrorCode::RESERVE => 5,
        ErrorCode::INVAL => 6,
        ErrorCode::SIZE => 7,
        ErrorCode::CANCEL => 8,
        ErrorCode::NOMEM => 9,
        ErrorCode::NOSUPPORT => 10,
        ErrorCode::NODEVICE => 11,
        ErrorCode::UNINSTALLED => 12,
        ErrorCode::NOACK => 13,
    }
}

/// The [`ReturnCode`] equivalent of an [`ErrorCode`].
pub open spec fn error_code_as_return_code(e: ErrorCode) -> ReturnCode {
    match e {
        ErrorCode::FAIL => ReturnCode::FAIL,
        ErrorCode::BUSY => ReturnCode::EBUSY,
        ErrorCode::ALREADY => ReturnCode::EALREADY,
        ErrorCode::OFF => ReturnCode::EOFF,
        ErrorCode::RESERVE => ReturnCode::ERESERVE,
        ErrorCode::INVAL => ReturnCode::EINVAL,
        ErrorCode::SIZE => ReturnCode::ESIZE,
        ErrorCode::CANCEL => ReturnCode::ECANCEL,
        ErrorCode::NOMEM => ReturnCode::ENOMEM,
        ErrorCode::NOSUPPORT => ReturnCode::ENOSUPPORT,
        ErrorCode::NODEVICE => ReturnCode::ENODEVICE,
        ErrorCode::UNINSTALLED => ReturnCode::EUNINSTALLED,
        ErrorCode::NOACK => ReturnCode::ENOACK,
    }
}

impl ErrorCode {
    /// Encode this error as the number handed across the syscall boundary.
    pub fn to_num(&self) -> (r: usize)
        ensures
            r as int == error_code_num(*self),
    {
        match *self {
            ErrorCode::FAIL => 1,
            ErrorCode::BUSY => 2,
            ErrorCode::ALREADY => 3,
            ErrorCode::OFF => 4,
            ErrorCode::RESERVE => 5,
            ErrorCode::INVAL => 6,
            ErrorCode::SIZE => 7,
            ErrorCode::CANCEL => 8,
            ErrorCode::NOMEM => 9,
            ErrorCode::NOSUPPORT => 10,
            ErrorCode::NODEVICE => 11,
            ErrorCode::UNINSTALLED => 12,
            ErrorCode::NOACK => 13,
        }
    }

    /// Widen this error to the kernel-wide [`ReturnCode`] enumeration.
    pub fn into_return_code(self) -> (r: ReturnCode)
        ensures
            r == error_code_as_return_code(self),
    {
        match self {
            ErrorCode::FAIL => ReturnCode::FAIL,
            ErrorCode::BUSY => ReturnCode::EBUSY,
            ErrorCode::ALREADY => ReturnCode::EALREADY,
            ErrorCode::OFF => ReturnCode::EOFF,
            ErrorCode::RESERVE => ReturnCode::ERESERVE,
            ErrorCode::INVAL => ReturnCode::EINVAL,
            ErrorCode::SIZE => ReturnCode::ESIZE,
            ErrorCode::CANCEL => ReturnCode::ECANCEL,
            ErrorCode::NOMEM => ReturnCode::ENOMEM,
            ErrorCode::NOSUPPORT => ReturnCode::ENOSUPPORT,
            ErrorCode::NODEVICE => ReturnCode::ENODEVICE,
            ErrorCode::UNINSTALLED => ReturnCode::EUNINSTALLED,
            ErrorCode::NOACK => ReturnCode::ENOACK,
        }
    }
}

/// Widening an error to a [`ReturnCode`] preserves the failure: the
/// encodings agree up to sign, and success is never produced.
pub proof fn lemma_error_code_is_failure(e: ErrorCode)
    ensures
        return_code_num(error_code_as_return_code(e)) == -error_code_num(e),
        error_code_as_return_code(e) != ReturnCode::SUCCESS,
{
}

} // verus!
