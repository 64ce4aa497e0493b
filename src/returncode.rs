use vstd::prelude::*;

verus! {

/// Result of a system call or of a driver operation, as seen by a process.
#[derive(Clone, Copy, Debug, PartialEq, Eq, Structural)]
pub enum ReturnCode {
    SuccessWithValue { value: usize },
    SUCCESS,
    FAIL,
    EBUSY,
    EALREADY,
    EINVAL,
    ENOMEM,
    ENOSUPPORT,
    ENODEVICE,
}

/// Negated error number of each failure code.
pub open spec fn error_number(rc: ReturnCode) -> nat {
    match rc {
        ReturnCode::SuccessWithValue { .. } => 0,
        ReturnCode::SUCCESS => 0,
        ReturnCode::FAIL => 1,
        ReturnCode::EBUSY => 2,
        ReturnCode::EALREADY => 3,
        ReturnCode::EINVAL => 6,
        ReturnCode::ENOMEM => 9,
        ReturnCode::ENOSUPPORT => 10,
        ReturnCode::ENODEVICE => 11,
    }
}

/// The register word that carries a return code back to a process: the value
/// for a success with value, zero for plain success, and the two's complement
/// of the negated error number for a failure.
pub open spec fn register_word(rc: ReturnCode) -> usize {
    match rc {
        ReturnCode::SuccessWithValue { value } => value,
        _ => if error_number(rc) == 0 {
            0usize
        } else {
            (usize::MAX - error_number(rc) + 1) as usize
        },
    }
}

impl ReturnCode {
    /// Encodes the code as the word written into the process's return register.
    pub fn to_register(self) -> (r: usize)
        ensures
            r == register_word(self),
    {
        match self {
            ReturnCode::SuccessWithValue { value } => value,
            ReturnCode::SUCCESS => 0,
            ReturnCode::FAIL => usize::MAX,
            ReturnCode::EBUSY => usize::MAX - 1,
            ReturnCode::EALREADY => usize::MAX - 2,
            ReturnCode::EINVAL => usize::MAX - 5,
            ReturnCode::ENOMEM => usize::MAX - 8,
            ReturnCode::ENOSUPPORT => usize::MAX - 9,
            ReturnCode::ENODEVICE => usize::MAX - 10,
        }
    }
}

} // verus!
