//! The stream of counter values: a worker that reads the counter again and
//! again and offers each value to a consumer through a channel of one slot.
//!
//! The worker is a state machine. Whoever runs it performs the action the
//! worker names, hands back what happened, and asks again, until the worker
//! says to exit. The worker never has more than one value in hand, so a
//! slow consumer holds the worker back and the counter gathers what is
//! written meanwhile.

use crate::error::IoError;
use crate::flags::EfdFlags;
use crate::handle::{duplicate_outcome, read_outcome, EventFD, HandleView};
use crate::syscall::{Reply, Syscall};
use vstd::prelude::*;

verus! {

/// What the worker is doing.
#[derive(Clone, Copy, Debug, PartialEq, Eq)]
pub enum Phase {
    /// A read of the counter is to be made.
    Reading,
    /// This item is to be pushed into the channel: a value that was read, or
    /// the error that ended the reading.
    Delivering(Result<u64, IoError>),
    /// The worker's descriptor is to be closed.
    Closing,
    /// The worker is done.
    Stopped,
}

/// What the worker asks for next.
#[derive(Clone, Copy, Debug, PartialEq, Eq)]
pub enum Action {
    /// Make this kernel call and answer with [`Event::Reply`].
    Call(Syscall),
    /// Push this item into the channel, waiting while the slot is taken, and
    /// answer with [`Event::Pushed`] or [`Event::Disconnected`].
    Push(Result<u64, IoError>),
    /// Leave the loop: the worker has closed its descriptor.
    Exit,
}

/// What happened to the action the worker asked for.
#[derive(Clone, Copy, Debug, PartialEq, Eq)]
pub enum Event {
    /// The kernel call returned with this reply.
    Reply(Reply),
    /// The consumer's channel took the item.
    Pushed,
    /// The item could not be pushed: the consumer is gone.
    Disconnected,
    /// The owner of the stream asks the worker to stop.
    Cancel,
}

/// The worker behind a stream. It owns a handle of its own on the counter,
/// and closes it before it exits.
#[derive(Debug)]
pub struct Worker {
    handle: EventFD,
    phase: Phase,
}

/// What a worker is: its handle and what it is doing.
pub struct WorkerView {
    /// The worker's own handle on the counter.
    pub handle: HandleView,
    /// What the worker is doing.
    pub phase: Phase,
}

impl View for Worker {
    type V = WorkerView;

    closed spec fn view(&self) -> WorkerView {
        WorkerView { handle: self.handle@, phase: self.phase }
    }
}

/// The action a worker asks for: a read of its descriptor while reading, the
/// push of its item while delivering, the close of its descriptor while
/// closing, and the exit once stopped.
pub open spec fn action_of(worker: WorkerView) -> Action {
    match worker.phase {
        Phase::Reading => Action::Call(Syscall::Read { fd: worker.handle.fd }),
        Phase::Delivering(item) => Action::Push(item),
        Phase::Closing => Action::Call(Syscall::Close { fd: worker.handle.fd }),
        Phase::Stopped => Action::Exit,
    }
}

/// What the worker does after an event.
///
/// While reading, the reply to the read decides: a value is to be
/// delivered; "would block" means to read again; any other error is to be
/// delivered too, as the last item. While delivering, a pushed value leads
/// back to reading and a pushed error to closing; a consumer that is gone
/// leads to closing. A request to stop leads from reading or delivering to
/// closing. While closing, the reply to the close stops the worker. An event
/// that does not answer what the worker asked for changes nothing.
pub open spec fn phase_after(phase: Phase, event: Event) -> Phase {
    match (phase, event) {
        (Phase::Reading, Event::Reply(reply)) => match read_outcome(reply) {
            Ok(value) => Phase::Delivering(Ok(value)),
            Err(IoError::WouldBlock) => Phase::Reading,
            Err(error) => Phase::Delivering(Err(error)),
        },
        (Phase::Delivering(Ok(_)), Event::Pushed) => Phase::Reading,
        (Phase::Delivering(Err(_)), Event::Pushed) => Phase::Closing,
        (Phase::Delivering(_), Event::Disconnected) => Phase::Closing,
        (Phase::Reading, Event::Cancel) => Phase::Closing,
        (Phase::Delivering(_), Event::Cancel) => Phase::Closing,
        (Phase::Closing, Event::Reply(_)) => Phase::Stopped,
        _ => phase,
    }
}

/// The worker after an event: the same handle, in the phase that follows.
pub open spec fn advance(worker: WorkerView, event: Event) -> WorkerView {
    WorkerView { handle: worker.handle, phase: phase_after(worker.phase, event) }
}

/// The view of a result that holds a worker.
pub open spec fn worker_view<E>(result: Result<Worker, E>) -> Result<WorkerView, E> {
    match result {
        Ok(worker) => Ok(worker@),
        Err(error) => Err(error),
    }
}

/// What starting a stream on a handle with the given flags reports for the
/// kernel's reply to the duplication: a worker that is about to read, on the
/// duplicate; or the error of the duplication.
pub open spec fn events_outcome(flags: EfdFlags, reply: Reply) -> Result<
    WorkerView,
    IoError,
> {
    match duplicate_outcome(flags, reply) {
        Ok(handle) => Ok(WorkerView { handle, phase: Phase::Reading }),
        Err(error) => Err(error),
    }
}

impl EventFD {
    /// The worker of a stream of the counter's values, from the kernel's
    /// reply to [`dup_call`](EventFD::dup_call): the worker gets a handle of
    /// its own, so the stream goes on when this handle is closed.
    pub fn events(&self, reply: Reply) -> (result: Result<Worker, IoError>)
        ensures
            worker_view(result) == events_outcome(self@.flags, reply),
    {
        match self.duplicate(reply) {
            Ok(handle) => Ok(Worker::new(handle)),
            Err(error) => Err(error),
        }
    }
}

impl Worker {
    /// A worker that reads through `handle` and closes it at the end.
    pub fn new(handle: EventFD) -> (worker: Worker)
        ensures
            worker@ == (WorkerView { handle: handle@, phase: Phase::Reading }),
    {
        Worker { handle, phase: Phase::Reading }
    }

    /// What the worker is doing.
    pub fn phase(&self) -> (phase: Phase)
        ensures
            phase == self@.phase,
    {
        self.phase
    }

    /// What the worker asks for next.
    pub fn action(&self) -> (action: Action)
        ensures
            action == action_of(self@),
    {
        match self.phase {
            Phase::Reading => Action::Call(self.handle.read_call()),
            Phase::Delivering(item) => Action::Push(item),
            Phase::Closing => Action::Call(Syscall::Close { fd: self.handle.as_raw_fd() }),
            Phase::Stopped => Action::Exit,
        }
    }

    /// Takes what happened to the action the worker asked for.
    pub fn advance(&mut self, event: Event)
        ensures
            final(self)@ == advance(old(self)@, event),
    {
        let next = match (self.phase, event) {
            (Phase::Reading, Event::Reply(reply)) => match self.handle.read(reply) {
                Ok(value) => Phase::Delivering(Ok(value)),
                Err(IoError::WouldBlock) => Phase::Reading,
                Err(error) => Phase::Delivering(Err(error)),
            },
            (Phase::Delivering(Ok(_)), Event::Pushed) => Phase::Reading,
            (Phase::Delivering(Err(_)), Event::Pushed) => Phase::Closing,
            (Phase::Delivering(_), Event::Disconnected) => Phase::Closing,
            (Phase::Reading, Event::Cancel) => Phase::Closing,
            (Phase::Delivering(_), Event::Cancel) => Phase::Closing,
            (Phase::Closing, Event::Reply(_)) => Phase::Stopped,
            (phase, _) => phase,
        };
        self.phase = next;
    }
}

/// The worker after a run of events, taken one after the other.
pub open spec fn run(start: WorkerView, events: Seq<Event>) -> WorkerView
    decreases events.len(),
{
    if events.len() == 0 {
        start
    } else {
        advance(run(start, events.drop_last()), events.last())
    }
}

/// The values the worker has read from the counter in a run of events: one
/// for each reply with a value that reached it while it was reading.
pub open spec fn values_read(start: WorkerView, events: Seq<Event>) -> Seq<u64>
    decreases events.len(),
{
    if events.len() == 0 {
        Seq::empty()
    } else {
        let earlier = values_read(start, events.drop_last());
        match (run(start, events.drop_last()).phase, events.last()) {
            (Phase::Reading, Event::Reply(Reply::Value(value))) => earlier.push(value),
            _ => earlier,
        }
    }
}

/// The values the consumer has taken in a run of events: one for each push
/// that succeeded while the worker was delivering a value.
pub open spec fn values_delivered(start: WorkerView, events: Seq<Event>) -> Seq<u64>
    decreases events.len(),
{
    if events.len() == 0 {
        Seq::empty()
    } else {
        let earlier = values_delivered(start, events.drop_last());
        match (run(start, events.drop_last()).phase, events.last()) {
            (Phase::Delivering(Ok(value)), Event::Pushed) => earlier.push(value),
            _ => earlier,
        }
    }
}

/// How often the worker's descriptor was closed in a run of events: once for
/// each reply that reached the worker while it was closing.
pub open spec fn closes(start: WorkerView, events: Seq<Event>) -> nat
    decreases events.len(),
{
    if events.len() == 0 {
        0
    } else {
        let earlier = closes(start, events.drop_last());
        match (run(start, events.drop_last()).phase, events.last()) {
            (Phase::Closing, Event::Reply(_)) => earlier + 1,
            _ => earlier,
        }
    }
}

/// Whether the worker has given up reading: it is delivering the error that
/// ended the reading, closing, or stopped.
pub open spec fn winding_down(phase: Phase) -> bool {
    phase matches Phase::Delivering(Err(_)) || phase == Phase::Closing || phase == Phase::Stopped
}

/// The stream hands on what it reads, in order, and holds at most one value
/// back. After any run of events on a fresh worker, the values delivered
/// are the values read but for at most the last one. Nothing is held back
/// while the worker is about to read, and the value held back is the one
/// being delivered while the worker delivers one. The worker keeps its
/// handle throughout.
pub proof fn law_stream_keeps_order(start: WorkerView, events: Seq<Event>)
    requires
        start.phase == Phase::Reading,
    ensures
        ({
            let read = values_read(start, events);
            let delivered = values_delivered(start, events);
            let phase = run(start, events).phase;
            &&& run(start, events).handle == start.handle
            &&& delivered.len() <= read.len() <= delivered.len() + 1
            &&& delivered == read.take(delivered.len() as int)
            &&& phase == Phase::Reading ==> delivered == read
            &&& phase matches Phase::Delivering(Ok(value)) ==> read == delivered.push(value)
            &&& phase matches Phase::Delivering(Err(_)) ==> delivered == read
        }),
    decreases events.len(),
{
    let read = values_read(start, events);
    let delivered = values_delivered(start, events);
    if events.len() == 0 {
        assert(delivered =~= read.take(0));
    } else {
        let before = events.drop_last();
        law_stream_keeps_order(start, before);
        let read_before = values_read(start, before);
        let delivered_before = values_delivered(start, before);
        assert(delivered_before =~= read_before.take(delivered_before.len() as int));
        match (run(start, before).phase, events.last()) {
            (Phase::Reading, Event::Reply(Reply::Value(value))) => {
                assert(read == read_before.push(value));
                assert(delivered == delivered_before);
                assert(delivered =~= read.take(delivered.len() as int));
            },
            (Phase::Delivering(Ok(value)), Event::Pushed) => {
                assert(delivered == delivered_before.push(value));
                assert(read == read_before);
                assert(read.take(delivered.len() as int) =~= read);
            },
            _ => {
                assert(read == read_before);
                assert(delivered == delivered_before);
            },
        }
    }
}

/// The worker closes its descriptor at most once, and has closed it exactly
/// when it has stopped: after any run of events on a worker that has not
/// begun to close, the number of closes is 1 if the worker has stopped and 0
/// otherwise.
pub proof fn law_worker_closes_once(start: WorkerView, events: Seq<Event>)
    requires
        start.phase != Phase::Closing,
        start.phase != Phase::Stopped,
    ensures
        closes(start, events) == if run(start, events).phase == Phase::Stopped {
            1nat
        } else {
            0nat
        },
    decreases events.len(),
{
    if events.len() > 0 {
        law_worker_closes_once(start, events.drop_last());
    }
}

/// An error ends the reading for good. Once the worker is winding down, it
/// stays so under every run of events: it never asks for another read and
/// reads no further value.
pub proof fn law_error_is_last(start: WorkerView, events: Seq<Event>)
    requires
        winding_down(start.phase),
    ensures
        winding_down(run(start, events).phase),
        !(action_of(run(start, events)) matches Action::Call(Syscall::Read { .. })),
        values_read(start, events) == Seq::<u64>::empty(),
        values_delivered(start, events) == Seq::<u64>::empty(),
    decreases events.len(),
{
    if events.len() > 0 {
        law_error_is_last(start, events.drop_last());
    }
}

/// A worker that has stopped stays stopped, whatever happens.
pub proof fn law_stopped_is_final(start: WorkerView, events: Seq<Event>)
    requires
        start.phase == Phase::Stopped,
    ensures
        run(start, events) == start,
    decreases events.len(),
{
    if events.len() > 0 {
        law_stopped_is_final(start, events.drop_last());
    }
}

/// Every way out leads through the close. From any phase, the worker is
/// stopped after a request to stop and the reply to the close that follows,
/// and asks for the close of its own descriptor in between unless it had
/// stopped already.
pub proof fn law_cancel_stops(worker: WorkerView, reply: Reply)
    ensures
        advance(advance(worker, Event::Cancel), Event::Reply(reply)).phase == Phase::Stopped,
        worker.phase != Phase::Stopped ==> action_of(advance(worker, Event::Cancel))
            == Action::Call(Syscall::Close { fd: worker.handle.fd }),
{
}

} // verus!
