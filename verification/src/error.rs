//! Failures of kernel calls, and the errors the handle reports for them.

use vstd::prelude::*;

verus! {

/// Error number: the descriptor is not open.
pub const EBADF: i32 = 9;

/// Error number: the call would have had to wait, on a non-blocking counter.
pub const EAGAIN: i32 = 11;

/// Error number: the kernel is out of memory.
pub const ENOMEM: i32 = 12;

/// Error number: the anonymous inode device could not be had.
pub const ENODEV: i32 = 19;

/// Error number: an argument is not valid.
pub const EINVAL: i32 = 22;

/// Error number: the system-wide limit on open files is reached.
pub const ENFILE: i32 = 23;

/// Error number: the process's limit on open descriptors is reached.
pub const EMFILE: i32 = 24;

/// Why a kernel call came back without its result.
#[derive(Clone, Copy, Debug, PartialEq, Eq, Hash, Structural)]
pub enum Failure {
    /// The operating system gave this error number.
    Os(i32),
    /// The call failed and no error number came with the failure.
    Unspecified,
    /// The call came back, but not with the kind of answer it has: a
    /// transfer of other than eight bytes, a negative descriptor, or the
    /// answer to another call.
    Mismatch,
}

/// The error of a read, a write or a duplication.
#[derive(Clone, Copy, Debug, PartialEq, Eq, Hash, Structural)]
pub enum IoError {
    /// The operation would have had to wait, and the counter is
    /// non-blocking. The caller may try again.
    WouldBlock,
    /// Any other failure of the kernel call.
    Other(Failure),
}

/// What kept a counter from being created.
#[derive(Clone, Copy, Debug, PartialEq, Eq, Hash, Structural)]
pub enum CreationCause {
    /// The kernel refused the flags, or the initial value is outside the
    /// range of a counter.
    InvalidArgument,
    /// The process has no descriptor left.
    DescriptorLimit,
    /// The system has no room for another open file.
    SystemLimit,
    /// The kernel could not set up the device behind the counter.
    NoDevice,
    /// The kernel is out of memory.
    OutOfMemory,
    /// Any other failure.
    Other(Failure),
}

/// The error of a creation. No handle exists when it is returned.
#[derive(Clone, Copy, Debug, PartialEq, Eq, Hash, Structural)]
pub struct CreationError {
    /// What kept the counter from being created.
    pub cause: CreationCause,
}

/// The failure that an optional error number stands for.
pub open spec fn failure_of(code: Option<i32>) -> Failure {
    match code {
        Some(number) => Failure::Os(number),
        None => Failure::Unspecified,
    }
}

/// The error a read, a write or a duplication reports for a failure: "would
/// block" for the error number `EAGAIN`, and the failure itself otherwise.
pub open spec fn io_error_of(failure: Failure) -> IoError {
    if failure == Failure::Os(EAGAIN) {
        IoError::WouldBlock
    } else {
        IoError::Other(failure)
    }
}

/// The failure behind an error; "would block" stands for `EAGAIN`.
pub open spec fn failure_behind(error: IoError) -> Failure {
    match error {
        IoError::WouldBlock => Failure::Os(EAGAIN),
        IoError::Other(inner) => inner,
    }
}

/// The typed cause a creation reports for a failure.
pub open spec fn creation_cause_of(failure: Failure) -> CreationCause {
    match failure {
        Failure::Os(number) => if number == EINVAL {
            CreationCause::InvalidArgument
        } else if number == EMFILE {
            CreationCause::DescriptorLimit
        } else if number == ENFILE {
            CreationCause::SystemLimit
        } else if number == ENODEV {
            CreationCause::NoDevice
        } else if number == ENOMEM {
            CreationCause::OutOfMemory
        } else {
            CreationCause::Other(failure)
        },
        _ => CreationCause::Other(failure),
    }
}

/// The error type of nix, carried through as an opaque value.
#[verifier::external_type_specification]
#[verifier::external_body]
pub struct ExNixError(nix::Error);

/// The error number that an error of nix carries: the number of the
/// `nix::errno::Errno` inside its variant `Sys`, and none for its other
/// variants. It is read off the error alone, so one error has one number.
pub uninterp spec fn nix_errno(error: nix::Error) -> Option<i32>;

/// The error number inside an error of nix, through `nix::Error::as_errno`
/// and the cast of `nix::errno::Errno` to its number. nix gives `Some` for
/// its variant `Sys` and `None` for the others. The contract claims that
/// the result is the number the error carries, and nothing of which number
/// that is.
#[verifier::external_body]
fn errno_number(error: nix::Error) -> (code: Option<i32>)
    ensures
        code == nix_errno(error),
{
    match error.as_errno() {
        Some(errno) => Some(errno as i32),
        None => None,
    }
}

impl Failure {
    /// The failure that an optional error number stands for.
    pub fn from_code(code: Option<i32>) -> (failure: Failure)
        ensures
            failure == failure_of(code),
    {
        match code {
            Some(number) => Failure::Os(number),
            None => Failure::Unspecified,
        }
    }

    /// The failure that an error of nix stands for: the error number it
    /// carries, or an unspecified failure where it carries none. It is never
    /// a mismatch.
    pub fn from_nix(error: nix::Error) -> (failure: Failure)
        ensures
            failure == failure_of(nix_errno(error)),
            failure != Failure::Mismatch,
    {
        Failure::from_code(errno_number(error))
    }
}

impl IoError {
    /// The error for a failed kernel call.
    pub fn from_failure(failure: Failure) -> (error: IoError)
        ensures
            error == io_error_of(failure),
    {
        match failure {
            Failure::Os(number) => if number == EAGAIN {
                IoError::WouldBlock
            } else {
                IoError::Other(failure)
            },
            _ => IoError::Other(failure),
        }
    }

    /// Whether the operation may succeed when tried again later.
    pub fn is_would_block(&self) -> (r: bool)
        ensures
            r == (*self == IoError::WouldBlock),
    {
        match self {
            IoError::WouldBlock => true,
            IoError::Other(_) => false,
        }
    }

    /// The failure behind the error; "would block" stands for `EAGAIN`.
    pub fn failure(&self) -> (failure: Failure)
        ensures
            failure == failure_behind(*self),
    {
        match self {
            IoError::WouldBlock => Failure::Os(EAGAIN),
            IoError::Other(inner) => *inner,
        }
    }
}

impl CreationError {
    /// The error for a failed kernel call during creation.
    pub fn from_failure(failure: Failure) -> (error: CreationError)
        ensures
            error == (CreationError { cause: creation_cause_of(failure) }),
    {
        let cause = match failure {
            Failure::Os(number) => if number == EINVAL {
                CreationCause::InvalidArgument
            } else if number == EMFILE {
                CreationCause::DescriptorLimit
            } else if number == ENFILE {
                CreationCause::SystemLimit
            } else if number == ENODEV {
                CreationCause::NoDevice
            } else if number == ENOMEM {
                CreationCause::OutOfMemory
            } else {
                CreationCause::Other(failure)
            },
            _ => CreationCause::Other(failure),
        };
        CreationError { cause }
    }
}

/// An error keeps the failure it was made for: the failure behind the
/// error of a failure is that failure, and only `EAGAIN` gives "would
/// block".
pub proof fn law_error_keeps_failure(failure: Failure)
    ensures
        failure_behind(io_error_of(failure)) == failure,
        io_error_of(failure) == IoError::WouldBlock <==> failure == Failure::Os(EAGAIN),
{
}

} // verus!
