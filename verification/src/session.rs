//! A handle at work on the model kernel.
//!
//! Each function here makes the call a handle names on a [`Kernel`] and has
//! the handle read the reply, so that one can be used where the other is
//! wanted. `None` stands for a call that waits: the model has not changed
//! and the caller would be suspended.

use crate::error::{CreationCause, CreationError, IoError};
use crate::flags::EfdFlags;
use crate::handle::{
    begin, duplicate_outcome, handle_view, read_outcome, resume, seed_of, write_outcome, Creation,
    CreationView, EventFD, HandleView,
};
use crate::kernel::{
    install, lemma_free_from, lemma_step_keeps_wf, Answer, Counter, Kernel, KernelState,
};
use crate::syscall::{Syscall, MAX_VALUE};
use vstd::prelude::*;

verus! {

/// A creation carried on against the model for up to `rounds` calls: each
/// call is answered by the model and the reply handed to the creation. It
/// stops early where the creation is over or a call waits.
pub open spec fn drive(kernel: KernelState, creation: CreationView, rounds: nat) -> (
    KernelState,
    CreationView,
)
    decreases rounds,
{
    match creation {
        CreationView::Call(call, pending) if rounds > 0 => match kernel.step(call) {
            (next, Answer::Ready(reply)) => drive(next, resume(pending, reply), (rounds - 1) as nat),
            (_, Answer::Blocked) => (kernel, creation),
        },
        _ => (kernel, creation),
    }
}

/// The model after a handle was created on it, and how the creation ended.
/// A creation needs at most three calls.
pub open spec fn create_on(kernel: KernelState, initval: u64, flags: EfdFlags) -> (
    KernelState,
    CreationView,
) {
    drive(kernel, begin(initval, flags), 3)
}

/// The model after a read through `handle`, and what the read reports.
pub open spec fn read_on(kernel: KernelState, handle: HandleView) -> (
    KernelState,
    Option<Result<u64, IoError>>,
) {
    match kernel.step(Syscall::Read { fd: handle.fd }) {
        (next, Answer::Ready(reply)) => (next, Some(read_outcome(reply))),
        (next, Answer::Blocked) => (next, None),
    }
}

/// The model after a write of `delta` through `handle`, and what the write
/// reports.
pub open spec fn write_on(kernel: KernelState, handle: HandleView, delta: u64) -> (
    KernelState,
    Option<Result<(), IoError>>,
) {
    match kernel.step(Syscall::Write { fd: handle.fd, value: delta }) {
        (next, Answer::Ready(reply)) => (next, Some(write_outcome(reply))),
        (next, Answer::Blocked) => (next, None),
    }
}

/// The model after `handle` was duplicated, and what the duplication
/// reports.
pub open spec fn duplicate_on(kernel: KernelState, handle: HandleView) -> (
    KernelState,
    Option<Result<HandleView, IoError>>,
) {
    match kernel.step(Syscall::Dup { fd: handle.fd }) {
        (next, Answer::Ready(reply)) => (next, Some(duplicate_outcome(handle.flags, reply))),
        (next, Answer::Blocked) => (next, None),
    }
}

/// The model after `handle` was closed.
pub open spec fn close_on(kernel: KernelState, handle: HandleView) -> KernelState {
    kernel.step(Syscall::Close { fd: handle.fd }).0
}

/// Whether a handle is live on the model: its descriptor is open, on a
/// counter that carries the handle's flags.
pub open spec fn live_on(kernel: KernelState, handle: HandleView) -> bool {
    kernel.is_open(handle.fd) && kernel.counter(handle.fd).flags == handle.flags
}

/// On a well-formed model a creation always comes to its end within three
/// calls. It fails as an invalid argument for an initial value beyond the
/// range of a counter, as out of memory where the model can hold no further
/// counter, and as out of descriptors where the model has none left; in
/// these cases the model is unchanged. Otherwise it gives a handle
/// on the lowest free descriptor, which is then open on a new counter that
/// holds the initial value and the flags, and all descriptors and counters
/// that were there before are as they were.
pub proof fn lemma_create_on(kernel: KernelState, initval: u64, flags: EfdFlags)
    requires
        kernel.wf(),
    ensures
        ({
            let (after, end) = create_on(kernel, initval, flags);
            let fd = kernel.next_descriptor();
            let room = kernel.counters.len() < usize::MAX;
            &&& after.wf()
            &&& after.limit == kernel.limit
            &&& initval > MAX_VALUE ==> after == kernel && end == CreationView::Done(
                Err(CreationError { cause: CreationCause::InvalidArgument }),
            )
            &&& initval <= MAX_VALUE && !room ==> after == kernel && end == CreationView::Done(
                Err(CreationError { cause: CreationCause::OutOfMemory }),
            )
            &&& initval <= MAX_VALUE && room && fd >= kernel.limit ==> after == kernel && end
                == CreationView::Done(Err(CreationError { cause: CreationCause::DescriptorLimit }))
            &&& initval <= MAX_VALUE && room && fd < kernel.limit ==> {
                &&& end == CreationView::Done(Ok(HandleView { fd: fd as i32, flags }))
                &&& after.is_open(fd as i32)
                &&& after.object(fd as i32) == kernel.counters.len()
                &&& after.counters == kernel.counters.push(Counter { value: initval, flags })
                &&& after.table == install(kernel.table, fd, kernel.counters.len() as usize)
            }
        }),
{
    lemma_free_from(kernel.table, 0);
    if initval <= MAX_VALUE {
        let fd = kernel.next_descriptor();
        let open = Syscall::Eventfd { initval: seed_of(initval), flags };
        lemma_step_keeps_wf(kernel, open);
        if fd < kernel.limit && kernel.counters.len() < usize::MAX {
            let opened = kernel.step(open).0;
            if initval > u32::MAX {
                let fill = Syscall::Write { fd: fd as i32, value: (initval - u32::MAX) as u64 };
                lemma_step_keeps_wf(opened, fill);
                let filled = opened.step(fill).0;
                assert(filled.counters =~= kernel.counters.push(Counter { value: initval, flags }));
                reveal_with_fuel(drive, 3);
            } else {
                reveal_with_fuel(drive, 2);
            }
        } else {
            reveal_with_fuel(drive, 2);
        }
    }
}

impl Kernel {
    /// Creates a counter on the model and gives the handle on it. The model
    /// answers every call of a creation at once, and the creation is over
    /// after two of them at most.
    pub fn create(&mut self, initval: u64, flags: EfdFlags) -> (result: Result<
        EventFD,
        CreationError,
    >)
        requires
            old(self)@.wf(),
        ensures
            final(self)@.wf(),
            (final(self)@, CreationView::Done(handle_view(result))) == create_on(
                old(self)@,
                initval,
                flags,
            ),
    {
        proof {
            lemma_create_on(self@, initval, flags);
            reveal_with_fuel(drive, 3);
        }
        let (call, pending) = match EventFD::new(initval, flags) {
            Creation::Done(result) => {
                return result;
            },
            Creation::Call(call, pending) => (call, pending),
        };
        let reply = match self.perform(call) {
            Answer::Ready(reply) => reply,
            Answer::Blocked => vstd::pervasive::unreached(),
        };
        let (call, pending) = match pending.resume(reply) {
            Creation::Done(result) => {
                return result;
            },
            Creation::Call(call, pending) => (call, pending),
        };
        let reply = match self.perform(call) {
            Answer::Ready(reply) => reply,
            Answer::Blocked => vstd::pervasive::unreached(),
        };
        match pending.resume(reply) {
            Creation::Done(result) => result,
            Creation::Call(_, _) => vstd::pervasive::unreached(),
        }
    }

    /// Reads the counter through `handle`; `None` where the read waits.
    pub fn read(&mut self, handle: &EventFD) -> (result: Option<Result<u64, IoError>>)
        requires
            old(self)@.wf(),
        ensures
            final(self)@.wf(),
            (final(self)@, result) == read_on(old(self)@, handle@),
    {
        match self.perform(handle.read_call()) {
            Answer::Ready(reply) => Some(handle.read(reply)),
            Answer::Blocked => None,
        }
    }

    /// Adds `delta` to the counter through `handle`; `None` where the write
    /// waits.
    pub fn write(&mut self, handle: &EventFD, delta: u64) -> (result: Option<Result<(), IoError>>)
        requires
            old(self)@.wf(),
        ensures
            final(self)@.wf(),
            (final(self)@, result) == write_on(old(self)@, handle@, delta),
    {
        match self.perform(handle.write_call(delta)) {
            Answer::Ready(reply) => Some(handle.write(reply)),
            Answer::Blocked => None,
        }
    }

    /// Gives a second handle on the counter of `handle`.
    pub fn duplicate(&mut self, handle: &EventFD) -> (result: Option<Result<EventFD, IoError>>)
        requires
            old(self)@.wf(),
        ensures
            final(self)@.wf(),
            (
                final(self)@,
                match result {
                    Some(inner) => Some(handle_view(inner)),
                    None => None,
                },
            ) == duplicate_on(old(self)@, handle@),
    {
        match self.perform(handle.dup_call()) {
            Answer::Ready(reply) => Some(handle.duplicate(reply)),
            Answer::Blocked => None,
        }
    }

    /// Closes `handle`.
    pub fn close(&mut self, handle: EventFD)
        requires
            old(self)@.wf(),
        ensures
            final(self)@.wf(),
            final(self)@ == close_on(old(self)@, handle@),
    {
        let _ = self.perform(handle.close());
    }
}

} // verus!
