//! The handle on a kernel counter.
//!
//! An [`EventFD`] owns one descriptor and keeps the flags its counter was
//! created with. It makes no kernel call itself: for each operation it
//! names the call to make and says what the kernel's reply means. Creation
//! takes up to three calls and is led by [`Creation`].

use crate::error::{creation_cause_of, io_error_of, CreationCause, CreationError, Failure, IoError};
use crate::flags::EfdFlags;
use crate::syscall::{Reply, Syscall, MAX_VALUE};
use vstd::prelude::*;

verus! {

/// What a handle is: the descriptor it owns and the flags of its counter.
pub struct HandleView {
    /// The descriptor.
    pub fd: i32,
    /// The flags the counter was created with.
    pub flags: EfdFlags,
}

/// A handle on a kernel counter. It owns its descriptor: there is no way to
/// copy a handle, and closing consumes it, so a descriptor is closed at most
/// once through its handle.
#[derive(Debug)]
pub struct EventFD {
    fd: i32,
    flags: EfdFlags,
}

impl View for EventFD {
    type V = HandleView;

    closed spec fn view(&self) -> HandleView {
        HandleView { fd: self.fd, flags: self.flags }
    }
}

/// What a read reports for the kernel's reply: the value that was read; the
/// error of a failure; a mismatch for any other reply.
pub open spec fn read_outcome(reply: Reply) -> Result<u64, IoError> {
    match reply {
        Reply::Value(value) => Ok(value),
        Reply::Failed(failure) => Err(io_error_of(failure)),
        _ => Err(IoError::Other(Failure::Mismatch)),
    }
}

/// What a write reports for the kernel's reply: success where all was
/// written; the error of a failure; a mismatch for any other reply.
pub open spec fn write_outcome(reply: Reply) -> Result<(), IoError> {
    match reply {
        Reply::Written => Ok(()),
        Reply::Failed(failure) => Err(io_error_of(failure)),
        _ => Err(IoError::Other(Failure::Mismatch)),
    }
}

/// What a duplication of a handle with the given flags reports for the
/// kernel's reply: a handle on the new descriptor with the same flags; the
/// error of a failure; a mismatch for a negative descriptor or any other
/// reply.
pub open spec fn duplicate_outcome(flags: EfdFlags, reply: Reply) -> Result<HandleView, IoError> {
    match reply {
        Reply::Descriptor(fd) => if fd >= 0 {
            Ok(HandleView { fd, flags })
        } else {
            Err(IoError::Other(Failure::Mismatch))
        },
        Reply::Failed(failure) => Err(io_error_of(failure)),
        _ => Err(IoError::Other(Failure::Mismatch)),
    }
}

/// The view of a result that holds a handle.
pub open spec fn handle_view<E>(result: Result<EventFD, E>) -> Result<HandleView, E> {
    match result {
        Ok(handle) => Ok(handle@),
        Err(error) => Err(error),
    }
}

impl EventFD {
    #[verifier::type_invariant]
    spec fn descriptor_in_range(self) -> bool {
        self.fd >= 0
    }

    /// Starts the creation of a counter that holds `initval`, with the given
    /// flags. See [`Creation`].
    pub fn new(initval: u64, flags: EfdFlags) -> (creation: Creation)
        ensures
            creation@ == begin(initval, flags),
    {
        if initval > MAX_VALUE {
            return Creation::Done(Err(CreationError { cause: CreationCause::InvalidArgument }));
        }
        let seed: u32 = if initval <= u32::MAX as u64 {
            initval as u32
        } else {
            u32::MAX
        };
        Creation::Call(
            Syscall::Eventfd { initval: seed, flags },
            Pending { initval, flags, stage: Stage::Opening },
        )
    }

    /// The descriptor, for use with a poller. It stays open as long as the
    /// handle lives and is the handle's to close.
    pub fn as_raw_fd(&self) -> (fd: i32)
        ensures
            fd == self@.fd,
            fd >= 0,
    {
        proof {
            use_type_invariant(self);
        }
        self.fd
    }

    /// The flags the counter was created with.
    pub fn flags(&self) -> (flags: EfdFlags)
        ensures
            flags == self@.flags,
    {
        self.flags
    }

    /// The call that reads the counter.
    pub fn read_call(&self) -> (call: Syscall)
        ensures
            call == (Syscall::Read { fd: self@.fd }),
    {
        Syscall::Read { fd: self.fd }
    }

    /// What the read has brought, from the kernel's reply to
    /// [`read_call`](EventFD::read_call).
    pub fn read(&self, reply: Reply) -> (result: Result<u64, IoError>)
        ensures
            result == read_outcome(reply),
    {
        match reply {
            Reply::Value(value) => Ok(value),
            Reply::Failed(failure) => Err(IoError::from_failure(failure)),
            _ => Err(IoError::Other(Failure::Mismatch)),
        }
    }

    /// The call that adds `delta` to the counter.
    pub fn write_call(&self, delta: u64) -> (call: Syscall)
        ensures
            call == (Syscall::Write { fd: self@.fd, value: delta }),
    {
        Syscall::Write { fd: self.fd, value: delta }
    }

    /// How the write went, from the kernel's reply to
    /// [`write_call`](EventFD::write_call).
    pub fn write(&self, reply: Reply) -> (result: Result<(), IoError>)
        ensures
            result == write_outcome(reply),
    {
        match reply {
            Reply::Written => Ok(()),
            Reply::Failed(failure) => Err(IoError::from_failure(failure)),
            _ => Err(IoError::Other(Failure::Mismatch)),
        }
    }

    /// The call that opens another descriptor on the same counter.
    pub fn dup_call(&self) -> (call: Syscall)
        ensures
            call == (Syscall::Dup { fd: self@.fd }),
    {
        Syscall::Dup { fd: self.fd }
    }

    /// A second handle on the same counter, from the kernel's reply to
    /// [`dup_call`](EventFD::dup_call). It owns the new descriptor and
    /// carries the flags of this one.
    pub fn duplicate(&self, reply: Reply) -> (result: Result<EventFD, IoError>)
        ensures
            handle_view(result) == duplicate_outcome(self@.flags, reply),
    {
        match reply {
            Reply::Descriptor(fd) => if fd >= 0 {
                Ok(EventFD { fd, flags: self.flags })
            } else {
                Err(IoError::Other(Failure::Mismatch))
            },
            Reply::Failed(failure) => Err(IoError::from_failure(failure)),
            _ => Err(IoError::Other(Failure::Mismatch)),
        }
    }

    /// Gives the handle up, and names the call that closes its descriptor.
    pub fn close(self) -> (call: Syscall)
        ensures
            call == (Syscall::Close { fd: self@.fd }),
    {
        Syscall::Close { fd: self.fd }
    }
}

/// Where a creation stands between two calls.
#[derive(Clone, Copy, Debug, PartialEq, Eq, Structural)]
pub enum Stage {
    /// The counter is being created.
    Opening,
    /// The counter exists behind `fd` and the rest of the initial value is
    /// being written to it.
    Filling { fd: i32 },
    /// The write failed with `error` and `fd` is being closed again.
    Unwinding { error: CreationError },
}

/// A creation that waits for the reply to its last call.
#[derive(Debug)]
pub struct Pending {
    initval: u64,
    flags: EfdFlags,
    stage: Stage,
}

/// What a pending creation is.
pub struct PendingView {
    /// The value the counter is to hold.
    pub initval: u64,
    /// The flags of the counter.
    pub flags: EfdFlags,
    /// The call that is under way.
    pub stage: Stage,
}

impl View for Pending {
    type V = PendingView;

    closed spec fn view(&self) -> PendingView {
        PendingView { initval: self.initval, flags: self.flags, stage: self.stage }
    }
}

/// A creation in progress: either the next kernel call to make, with the
/// state that takes its reply, or the end.
///
/// The kernel takes a 32-bit initial value. A larger one is reached by a
/// write of the rest to the fresh counter; if that write fails the
/// descriptor is closed again, so that a failed creation leaves nothing
/// open.
#[derive(Debug)]
pub enum Creation {
    /// Make this call and hand the reply to [`Pending::resume`].
    Call(Syscall, Pending),
    /// The creation is over.
    Done(Result<EventFD, CreationError>),
}

/// What a creation in progress is.
pub enum CreationView {
    /// A call is to be made.
    Call(Syscall, PendingView),
    /// The creation is over.
    Done(Result<HandleView, CreationError>),
}

impl View for Creation {
    type V = CreationView;

    open spec fn view(&self) -> CreationView {
        match *self {
            Creation::Call(call, pending) => CreationView::Call(call, pending@),
            Creation::Done(result) => CreationView::Done(handle_view(result)),
        }
    }
}

/// The part of an initial value that the creating call carries: all of it
/// where it fits in 32 bits, and the largest 32-bit value otherwise.
pub open spec fn seed_of(initval: u64) -> u32 {
    if initval <= u32::MAX {
        initval as u32
    } else {
        u32::MAX
    }
}

/// How a creation starts: an initial value beyond the range of a counter is
/// refused at once as an invalid argument; any other starts with the call
/// that creates the counter.
pub open spec fn begin(initval: u64, flags: EfdFlags) -> CreationView {
    if initval > MAX_VALUE {
        CreationView::Done(Err(CreationError { cause: CreationCause::InvalidArgument }))
    } else {
        CreationView::Call(
            Syscall::Eventfd { initval: seed_of(initval), flags },
            PendingView { initval, flags, stage: Stage::Opening },
        )
    }
}

/// How a creation goes on when the reply to its call arrives.
///
/// While opening: a descriptor that is not negative ends the creation with
/// a handle where the creating call carried the whole value, and otherwise
/// leads to the write of the rest; a failure ends it with the typed cause;
/// any other reply ends it as a mismatch. While filling: a completed write
/// ends the creation with the handle; any other reply leads to the close of
/// the descriptor, keeping the error. While unwinding: any reply ends the
/// creation with the error kept.
pub open spec fn resume(pending: PendingView, reply: Reply) -> CreationView {
    match pending.stage {
        Stage::Opening => match reply {
            Reply::Descriptor(fd) => if fd < 0 {
                CreationView::Done(
                    Err(CreationError { cause: CreationCause::Other(Failure::Mismatch) }),
                )
            } else if pending.initval <= u32::MAX {
                CreationView::Done(Ok(HandleView { fd, flags: pending.flags }))
            } else {
                CreationView::Call(
                    Syscall::Write { fd, value: (pending.initval - u32::MAX) as u64 },
                    PendingView {
                        initval: pending.initval,
                        flags: pending.flags,
                        stage: Stage::Filling { fd },
                    },
                )
            },
            Reply::Failed(failure) => CreationView::Done(
                Err(CreationError { cause: creation_cause_of(failure) }),
            ),
            _ => CreationView::Done(
                Err(CreationError { cause: CreationCause::Other(Failure::Mismatch) }),
            ),
        },
        Stage::Filling { fd } => match reply {
            Reply::Written => CreationView::Done(Ok(HandleView { fd, flags: pending.flags })),
            _ => CreationView::Call(
                Syscall::Close { fd },
                PendingView {
                    initval: pending.initval,
                    flags: pending.flags,
                    stage: Stage::Unwinding {
                        error: CreationError {
                            cause: match reply {
                                Reply::Failed(failure) => creation_cause_of(failure),
                                _ => CreationCause::Other(Failure::Mismatch),
                            },
                        },
                    },
                },
            ),
        },
        Stage::Unwinding { error } => CreationView::Done(Err(error)),
    }
}

impl Pending {
    #[verifier::type_invariant]
    spec fn descriptor_in_range(self) -> bool {
        self.stage matches Stage::Filling { fd } ==> fd >= 0
    }

    /// Takes the reply to the call that was handed out with this state, and
    /// gives the next call or the end of the creation.
    pub fn resume(self, reply: Reply) -> (creation: Creation)
        ensures
            creation@ == resume(self@, reply),
    {
        proof {
            use_type_invariant(&self);
        }
        let mismatch = CreationError { cause: CreationCause::Other(Failure::Mismatch) };
        match self.stage {
            Stage::Opening => match reply {
                Reply::Descriptor(fd) => if fd < 0 {
                    Creation::Done(Err(mismatch))
                } else if self.initval <= u32::MAX as u64 {
                    Creation::Done(Ok(EventFD { fd, flags: self.flags }))
                } else {
                    Creation::Call(
                        Syscall::Write { fd, value: self.initval - u32::MAX as u64 },
                        Pending {
                            initval: self.initval,
                            flags: self.flags,
                            stage: Stage::Filling { fd },
                        },
                    )
                },
                Reply::Failed(failure) => Creation::Done(
                    Err(CreationError::from_failure(failure)),
                ),
                _ => Creation::Done(Err(mismatch)),
            },
            Stage::Filling { fd } => match reply {
                Reply::Written => Creation::Done(Ok(EventFD { fd, flags: self.flags })),
                _ => {
                    let error = match reply {
                        Reply::Failed(failure) => CreationError::from_failure(failure),
                        _ => mismatch,
                    };
                    Creation::Call(
                        Syscall::Close { fd },
                        Pending {
                            initval: self.initval,
                            flags: self.flags,
                            stage: Stage::Unwinding { error },
                        },
                    )
                },
            },
            Stage::Unwinding { error } => Creation::Done(Err(error)),
        }
    }
}

/// What a creation in progress becomes when a reply arrives: a creation
/// that waits takes it, and one that is over stays as it is.
pub open spec fn answer(creation: CreationView, reply: Reply) -> CreationView {
    match creation {
        CreationView::Call(_, pending) => resume(pending, reply),
        CreationView::Done(_) => creation,
    }
}

/// A creation is over after three replies at most, whatever the kernel
/// says. A handle it ends with has a descriptor that is not negative and
/// the flags that were asked for.
pub proof fn law_creation_ends(
    initval: u64,
    flags: EfdFlags,
    first: Reply,
    second: Reply,
    third: Reply,
)
    ensures
        answer(answer(answer(begin(initval, flags), first), second), third) is Done,
        answer(
            answer(answer(begin(initval, flags), first), second),
            third,
        ) matches CreationView::Done(Ok(handle)) ==> handle.fd >= 0 && handle.flags == flags,
{
}

/// A failed creation leaves nothing open. Once the kernel has opened the
/// descriptor `fd` for a creation, the creation either ends with a handle
/// on `fd`, at once or after the write of the rest, or it asks for the close
/// of `fd` when that write has not gone through, and ends with an error
/// when the close has been answered.
pub proof fn law_failed_creation_closes(
    initval: u64,
    flags: EfdFlags,
    fd: i32,
    second: Reply,
    third: Reply,
)
    requires
        initval <= MAX_VALUE,
        fd >= 0,
    ensures
        ({
            let handle = CreationView::Done(Ok(HandleView { fd, flags }));
            let opened = answer(begin(initval, flags), Reply::Descriptor(fd));
            let filled = answer(opened, second);
            let closed = answer(filled, third);
            if initval <= u32::MAX {
                opened == handle
            } else if second == Reply::Written {
                filled == handle
            } else {
                &&& filled matches CreationView::Call(Syscall::Close { fd: closing }, _)
                &&& closing == fd
                &&& closed matches CreationView::Done(Err(_))
            }
        }),
{
}

} // verus!
