//! What holds of handles at work on the kernel's contract.
//!
//! Each law speaks of the model of [`crate::kernel`] and of what a handle
//! reports there, as [`crate::session`] defines it. A state of the model is
//! any well-formed one: other counters and descriptors may be around.

use crate::error::{Failure, IoError, EBADF};
use crate::flags::EfdFlags;
use crate::handle::{CreationView, HandleView};
use crate::kernel::{lemma_free_from, lemma_step_keeps_wf, Answer, Counter, KernelState};
use crate::session::{
    close_on, create_on, duplicate_on, lemma_create_on, live_on, read_on, write_on,
};
use crate::syscall::{Reply, Syscall, MAX_VALUE};
use vstd::prelude::*;

verus! {

/// The model after `times` reads through `handle`, one after the other.
pub open spec fn read_times(kernel: KernelState, handle: HandleView, times: nat) -> KernelState
    decreases times,
{
    if times == 0 {
        kernel
    } else {
        read_times(read_on(kernel, handle).0, handle, (times - 1) as nat)
    }
}

/// A counter that is not a semaphore and was created with a value above
/// zero gives exactly that value to the first read, and holds zero then.
pub proof fn law_create_then_read(kernel: KernelState, value: u64, flags: EfdFlags)
    requires
        kernel.wf(),
        value > 0,
        !flags.semaphore,
    ensures
        create_on(kernel, value, flags).1 matches CreationView::Done(Ok(handle)) ==> {
            let created = create_on(kernel, value, flags).0;
            &&& live_on(created, handle)
            &&& read_on(created, handle).1 == Some(Ok::<u64, IoError>(value))
            &&& live_on(read_on(created, handle).0, handle)
            &&& read_on(created, handle).0.counter(handle.fd).value == 0
        },
{
    lemma_create_on(kernel, value, flags);
    lemma_free_from(kernel.table, 0);
}

/// Writes add up: on a counter that is not a semaphore and was created with
/// zero, a read after a write of `a` and a write of `b` gives `a + b`,
/// where that sum is above zero and within the range of a counter. Both
/// writes succeed, and the counter holds zero after the read.
pub proof fn law_writes_add_up(kernel: KernelState, a: u64, b: u64, flags: EfdFlags)
    requires
        kernel.wf(),
        !flags.semaphore,
        0 < a + b <= MAX_VALUE,
    ensures
        create_on(kernel, 0, flags).1 matches CreationView::Done(Ok(handle)) ==> {
            let created = create_on(kernel, 0, flags).0;
            let first = write_on(created, handle, a);
            let second = write_on(first.0, handle, b);
            let last = read_on(second.0, handle);
            &&& first.1 == Some(Ok::<(), IoError>(()))
            &&& second.1 == Some(Ok::<(), IoError>(()))
            &&& last.1 == Some(Ok::<u64, IoError>((a + b) as u64))
            &&& live_on(last.0, handle)
            &&& last.0.counter(handle.fd).value == 0
        },
{
    lemma_create_on(kernel, 0, flags);
    lemma_free_from(kernel.table, 0);
}

/// A read of a counter at zero takes nothing: it fails with "would block"
/// on a non-blocking counter and waits on any other, and the model stays as
/// it is.
pub proof fn law_read_of_zero(kernel: KernelState, handle: HandleView)
    requires
        kernel.wf(),
        live_on(kernel, handle),
        kernel.counter(handle.fd).value == 0,
    ensures
        read_on(kernel, handle).0 == kernel,
        read_on(kernel, handle).1 == if handle.flags.nonblock {
            Some(Err::<u64, IoError>(IoError::WouldBlock))
        } else {
            None
        },
{
    let index = kernel.object(handle.fd);
    assert(kernel.counters.update(index, kernel.counters[index]) =~= kernel.counters);
}

/// A write that does not fit takes nothing: where the sum would pass the
/// largest value of a counter, the write fails with "would block" on a
/// non-blocking counter and waits on any other, and the model stays as it
/// is.
pub proof fn law_write_beyond_range(kernel: KernelState, handle: HandleView, delta: u64)
    requires
        kernel.wf(),
        live_on(kernel, handle),
        kernel.counter(handle.fd).value + delta > MAX_VALUE,
    ensures
        write_on(kernel, handle, delta).0 == kernel,
        write_on(kernel, handle, delta).1 == if handle.flags.nonblock {
            Some(Err::<(), IoError>(IoError::WouldBlock))
        } else {
            None
        },
{
    let index = kernel.object(handle.fd);
    assert(kernel.counters.update(index, kernel.counters[index]) =~= kernel.counters);
}

/// A semaphore counts down by one: as long as it holds more than zero,
/// every read gives 1. After `times` reads, for any `times` up to the value
/// it held, it holds that much less.
pub proof fn law_semaphore_counts_down(kernel: KernelState, handle: HandleView, times: nat)
    requires
        kernel.wf(),
        live_on(kernel, handle),
        handle.flags.semaphore,
        times <= kernel.counter(handle.fd).value,
    ensures
        forall|earlier: nat|
            earlier < times ==> (#[trigger] read_on(
                read_times(kernel, handle, earlier),
                handle,
            )).1 == Some(Ok::<u64, IoError>(1)),
        read_times(kernel, handle, times).wf(),
        live_on(read_times(kernel, handle, times), handle),
        read_times(kernel, handle, times).counter(handle.fd) == (Counter {
            value: (kernel.counter(handle.fd).value - times) as u64,
            flags: handle.flags,
        }),
    decreases times,
{
    if times > 0 {
        let next = read_on(kernel, handle).0;
        lemma_step_keeps_wf(kernel, Syscall::Read { fd: handle.fd });
        law_semaphore_counts_down(next, handle, (times - 1) as nat);
        assert forall|earlier: nat| earlier < times implies (#[trigger] read_on(
            read_times(kernel, handle, earlier),
            handle,
        )).1 == Some(Ok::<u64, IoError>(1)) by {
            if earlier > 0 {
                assert(read_times(kernel, handle, earlier) == read_times(
                    next,
                    handle,
                    (earlier - 1) as nat,
                ));
            }
        }
    }
}

/// A duplicate is a second descriptor on the same counter. Where the
/// duplication succeeds, the new handle has another descriptor and the same
/// flags; both descriptors are open on one counter, which is as it was; and
/// a write through the first handle that fits is seen by the next read
/// through the second: 1 from a semaphore, and otherwise all the counter
/// held and the write added.
pub proof fn law_duplicate_shares_counter(kernel: KernelState, handle: HandleView, delta: u64)
    requires
        kernel.wf(),
        live_on(kernel, handle),
        0 < kernel.counter(handle.fd).value + delta <= MAX_VALUE,
    ensures
        duplicate_on(kernel, handle).1 matches Some(Ok(twin)) ==> {
            let shared = duplicate_on(kernel, handle).0;
            let held = kernel.counter(handle.fd);
            let written = write_on(shared, handle, delta);
            let read = read_on(written.0, twin);
            &&& twin.fd != handle.fd
            &&& twin.flags == handle.flags
            &&& live_on(shared, handle) && live_on(shared, twin)
            &&& shared.object(twin.fd) == shared.object(handle.fd)
            &&& shared.counter(handle.fd) == held
            &&& written.1 == Some(Ok::<(), IoError>(()))
            &&& read.1 == Some(
                Ok::<u64, IoError>(
                    if handle.flags.semaphore {
                        1
                    } else {
                        (held.value + delta) as u64
                    },
                ),
            )
        },
{
    lemma_free_from(kernel.table, 0);
    lemma_step_keeps_wf(kernel, Syscall::Dup { fd: handle.fd });
}

/// Closing one descriptor leaves every other as it is: another descriptor
/// is open after the close exactly if it was before, on the same counter
/// with the same value, and a read or a write through it is answered as it
/// would have been without the close.
pub proof fn law_close_spares_others(
    kernel: KernelState,
    handle: HandleView,
    other: HandleView,
    delta: u64,
)
    requires
        kernel.wf(),
        other.fd != handle.fd,
    ensures
        close_on(kernel, handle).wf(),
        !close_on(kernel, handle).is_open(handle.fd),
        live_on(close_on(kernel, handle), other) == live_on(kernel, other),
        kernel.is_open(other.fd) ==> close_on(kernel, handle).counter(other.fd) == kernel.counter(
            other.fd,
        ),
        read_on(close_on(kernel, handle), other).1 == read_on(kernel, other).1,
        write_on(close_on(kernel, handle), other, delta).1 == write_on(kernel, other, delta).1,
{
    lemma_step_keeps_wf(kernel, Syscall::Close { fd: handle.fd });
}

/// A handle stays live until it is closed: no call but the close of its own
/// descriptor takes the descriptor away, moves it to another counter or
/// changes the flags of its counter.
pub proof fn law_handle_stays_live(kernel: KernelState, handle: HandleView, call: Syscall)
    requires
        kernel.wf(),
        live_on(kernel, handle),
        call != (Syscall::Close { fd: handle.fd }),
    ensures
        live_on(kernel.step(call).0, handle),
        kernel.step(call).0.object(handle.fd) == kernel.object(handle.fd),
{
    lemma_free_from(kernel.table, 0);
}

/// A descriptor that was closed is closed: every call on it fails with "bad
/// descriptor" and changes nothing, until a creation or a duplication opens
/// the number again.
pub proof fn law_closed_descriptor_is_refused(kernel: KernelState, call: Syscall)
    requires
        kernel.wf(),
        call.target() matches Some(fd) && !kernel.is_open(fd),
    ensures
        kernel.step(call) == (
            kernel,
            Answer::Ready(Reply::Failed(Failure::Os(EBADF))),
        ),
{
}

} // verus!
