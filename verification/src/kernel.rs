//! The contract of the kernel's event counters, as an executable model.
//!
//! A [`Kernel`] holds counters and a table of descriptors that refer to
//! them, and answers each [`Syscall`] as the kernel's contract says: a read
//! takes the counter (or one from it, in semaphore mode), a write adds to
//! it, both wait or fail when they cannot go on, and descriptors on one
//! counter share it. Every answer is a function of the state and the call,
//! given by [`KernelState::step`].

use crate::error::{Failure, EAGAIN, EBADF, EMFILE, ENOMEM};
use crate::flags::EfdFlags;
use crate::syscall::{Reply, Syscall, MAX_VALUE};
use vstd::prelude::*;

verus! {

/// How a call on the model ended.
#[derive(Clone, Copy, Debug, PartialEq, Eq, Hash, Structural)]
pub enum Answer {
    /// The call returned with this reply.
    Ready(Reply),
    /// The call has to wait: the caller is suspended, and nothing changed.
    Blocked,
}

/// One kernel counter: its value and the flags it was created with.
#[derive(Clone, Copy, Debug, PartialEq, Eq, Hash, Structural)]
pub struct Counter {
    /// What the counter holds now.
    pub value: u64,
    /// The flags of its creation.
    pub flags: EfdFlags,
}

impl Counter {
    /// The value is in the range of a counter.
    pub open spec fn wf(self) -> bool {
        self.value <= MAX_VALUE
    }

    /// What a read finds, and the counter it leaves. At zero the read waits,
    /// or fails with `EAGAIN` on a non-blocking counter, and the counter
    /// stays as it is. Otherwise a semaphore gives 1 and keeps the rest, and
    /// any other counter gives all it holds and goes to zero.
    pub open spec fn read_spec(self) -> (Counter, Answer) {
        if self.value == 0 {
            if self.flags.nonblock {
                (self, Answer::Ready(Reply::Failed(Failure::Os(EAGAIN))))
            } else {
                (self, Answer::Blocked)
            }
        } else if self.flags.semaphore {
            (
                Counter { value: (self.value - 1) as u64, flags: self.flags },
                Answer::Ready(Reply::Value(1)),
            )
        } else {
            (Counter { value: 0, flags: self.flags }, Answer::Ready(Reply::Value(self.value)))
        }
    }

    /// What a write of `delta` finds, and the counter it leaves. Where the
    /// sum would pass the largest value, the write waits, or fails with
    /// `EAGAIN` on a non-blocking counter, and the counter stays as it is.
    /// Otherwise the counter holds the sum. (A write of the one value
    /// 2^64 - 1 can never fit and is treated like any other that does not;
    /// Linux refuses that value as invalid instead.)
    pub open spec fn write_spec(self, delta: u64) -> (Counter, Answer) {
        if self.value + delta > MAX_VALUE {
            if self.flags.nonblock {
                (self, Answer::Ready(Reply::Failed(Failure::Os(EAGAIN))))
            } else {
                (self, Answer::Blocked)
            }
        } else {
            (
                Counter { value: (self.value + delta) as u64, flags: self.flags },
                Answer::Ready(Reply::Written),
            )
        }
    }

    /// A counter that starts at `initval`.
    pub fn new(initval: u32, flags: EfdFlags) -> (counter: Counter)
        ensures
            counter == (Counter { value: initval as u64, flags }),
            counter.wf(),
    {
        Counter { value: initval as u64, flags }
    }

    /// Reads from the counter.
    pub fn read(&mut self) -> (answer: Answer)
        ensures
            (*final(self), answer) == old(self).read_spec(),
            old(self).wf() ==> final(self).wf(),
    {
        if self.value == 0 {
            if self.flags.nonblock {
                Answer::Ready(Reply::Failed(Failure::Os(EAGAIN)))
            } else {
                Answer::Blocked
            }
        } else if self.flags.semaphore {
            self.value = self.value - 1;
            Answer::Ready(Reply::Value(1))
        } else {
            let taken = self.value;
            self.value = 0;
            Answer::Ready(Reply::Value(taken))
        }
    }

    /// Adds `delta` to the counter.
    pub fn write(&mut self, delta: u64) -> (answer: Answer)
        ensures
            (*final(self), answer) == old(self).write_spec(delta),
            old(self).wf() ==> final(self).wf(),
    {
        if delta > MAX_VALUE || self.value > MAX_VALUE - delta {
            if self.flags.nonblock {
                Answer::Ready(Reply::Failed(Failure::Os(EAGAIN)))
            } else {
                Answer::Blocked
            }
        } else {
            self.value = self.value + delta;
            Answer::Ready(Reply::Written)
        }
    }
}

/// The first index from `from` on at which the table has no descriptor; the
/// length of the table where every one from there on is taken.
pub open spec fn free_from(table: Seq<Option<usize>>, from: int) -> int
    decreases table.len() - from,
{
    if from < 0 || from >= table.len() {
        table.len() as int
    } else if table[from] is None {
        from
    } else {
        free_from(table, from + 1)
    }
}

/// The table with descriptor `fd` referring to counter `counter`: the slot
/// is filled where the table has it, and added at the end otherwise.
pub open spec fn install(table: Seq<Option<usize>>, fd: int, counter: usize) -> Seq<
    Option<usize>,
> {
    if 0 <= fd < table.len() {
        table.update(fd, Some(counter))
    } else {
        table.push(Some(counter))
    }
}

/// What a kernel holds: the counters ever created, the descriptor table,
/// whose entry `fd` names the counter that descriptor `fd` refers to, and
/// the number of descriptors the process may have.
pub struct KernelState {
    /// The counters, in the order of their creation.
    pub counters: Seq<Counter>,
    /// For each descriptor, the index of its counter; `None` when closed.
    pub table: Seq<Option<usize>>,
    /// How many descriptors may be open at once.
    pub limit: usize,
}

impl KernelState {
    /// A kernel with no counter and no descriptor.
    pub open spec fn empty(limit: usize) -> KernelState {
        KernelState { counters: Seq::empty(), table: Seq::empty(), limit }
    }

    /// The table stays within the limit, the counters can be numbered,
    /// every descriptor refers to a counter, and every counter is in range.
    pub open spec fn wf(self) -> bool {
        &&& self.table.len() <= self.limit <= i32::MAX
        &&& self.counters.len() <= usize::MAX
        &&& forall|fd: int|
            0 <= fd < self.table.len() ==> (#[trigger] self.table[fd] matches Some(c) ==> c
                < self.counters.len())
        &&& forall|c: int| 0 <= c < self.counters.len() ==> (#[trigger] self.counters[c]).wf()
    }

    /// Whether `fd` is an open descriptor.
    pub open spec fn is_open(self, fd: i32) -> bool {
        0 <= fd < self.table.len() && self.table[fd as int] is Some
    }

    /// The index of the counter that the open descriptor `fd` refers to.
    pub open spec fn object(self, fd: i32) -> int
        recommends
            self.is_open(fd),
    {
        self.table[fd as int]->0 as int
    }

    /// The counter that the open descriptor `fd` refers to.
    pub open spec fn counter(self, fd: i32) -> Counter
        recommends
            self.is_open(fd),
    {
        self.counters[self.object(fd)]
    }

    /// The descriptor that the next creation or duplication opens: the
    /// lowest one that is not open.
    pub open spec fn next_descriptor(self) -> int {
        free_from(self.table, 0)
    }

    /// The kernel after descriptor `self.next_descriptor()` is opened on
    /// counter `counter`, with the reply; where the limit is reached, the
    /// kernel as it is, with the failure `EMFILE`.
    pub open spec fn open_on(self, counters: Seq<Counter>, counter: usize) -> (
        KernelState,
        Answer,
    ) {
        let fd = self.next_descriptor();
        if fd >= self.limit {
            (self, Answer::Ready(Reply::Failed(Failure::Os(EMFILE))))
        } else {
            (
                KernelState {
                    counters,
                    table: install(self.table, fd, counter),
                    limit: self.limit,
                },
                Answer::Ready(Reply::Descriptor(fd as i32)),
            )
        }
    }

    /// The kernel with counter number `index` replaced.
    pub open spec fn with_counter(self, index: int, counter: Counter) -> KernelState {
        KernelState {
            counters: self.counters.update(index, counter),
            table: self.table,
            limit: self.limit,
        }
    }

    /// The kernel after a call, and how the call ended.
    ///
    /// A call on a descriptor that is not open fails with `EBADF` and
    /// changes nothing. A creation adds a counter and opens the lowest free
    /// descriptor on it; a duplication opens the lowest free descriptor on
    /// the counter of `fd`; both fail with `EMFILE` at the limit, and a
    /// creation fails with `ENOMEM` where no further counter can be held. A read and
    /// a write act on the counter of `fd` as [`Counter::read_spec`] and
    /// [`Counter::write_spec`] say. A close frees the descriptor and leaves
    /// the counter to the descriptors that remain.
    pub open spec fn step(self, call: Syscall) -> (KernelState, Answer) {
        match call {
            Syscall::Eventfd { initval, flags } => if self.counters.len() < usize::MAX {
                self.open_on(
                    self.counters.push(Counter { value: initval as u64, flags }),
                    self.counters.len() as usize,
                )
            } else {
                (self, Answer::Ready(Reply::Failed(Failure::Os(ENOMEM))))
            },
            Syscall::Read { fd } => if self.is_open(fd) {
                let (counter, answer) = self.counter(fd).read_spec();
                (self.with_counter(self.object(fd), counter), answer)
            } else {
                (self, Answer::Ready(Reply::Failed(Failure::Os(EBADF))))
            },
            Syscall::Write { fd, value } => if self.is_open(fd) {
                let (counter, answer) = self.counter(fd).write_spec(value);
                (self.with_counter(self.object(fd), counter), answer)
            } else {
                (self, Answer::Ready(Reply::Failed(Failure::Os(EBADF))))
            },
            Syscall::Dup { fd } => if self.is_open(fd) {
                self.open_on(self.counters, self.table[fd as int]->0)
            } else {
                (self, Answer::Ready(Reply::Failed(Failure::Os(EBADF))))
            },
            Syscall::Close { fd } => if self.is_open(fd) {
                (
                    KernelState {
                        counters: self.counters,
                        table: self.table.update(fd as int, None),
                        limit: self.limit,
                    },
                    Answer::Ready(Reply::Closed),
                )
            } else {
                (self, Answer::Ready(Reply::Failed(Failure::Os(EBADF))))
            },
        }
    }
}

/// The first free descriptor from `from` on lies between `from` and the end
/// of the table, is free where it is inside the table, and every descriptor
/// from `from` up to it is taken.
pub proof fn lemma_free_from(table: Seq<Option<usize>>, from: int)
    requires
        0 <= from <= table.len(),
    ensures
        from <= free_from(table, from) <= table.len(),
        free_from(table, from) < table.len() ==> table[free_from(table, from)] is None,
        forall|i: int| from <= i < free_from(table, from) ==> (#[trigger] table[i]) is Some,
    decreases table.len() - from,
{
    if from < table.len() && table[from] is Some {
        lemma_free_from(table, from + 1);
    }
}

/// Every call leaves a well-formed kernel well-formed.
pub proof fn lemma_step_keeps_wf(state: KernelState, call: Syscall)
    requires
        state.wf(),
    ensures
        state.step(call).0.wf(),
        state.step(call).0.limit == state.limit,
{
    lemma_free_from(state.table, 0);
}

/// The model kernel: counters and the descriptors open on them.
pub struct Kernel {
    counters: Vec<Counter>,
    table: Vec<Option<usize>>,
    limit: usize,
}

impl View for Kernel {
    type V = KernelState;

    closed spec fn view(&self) -> KernelState {
        KernelState { counters: self.counters@, table: self.table@, limit: self.limit }
    }
}

impl Kernel {
    /// A kernel without counters, in which at most `limit` descriptors can
    /// be open at once; a limit beyond the largest descriptor number is cut
    /// down to it.
    pub fn new(limit: usize) -> (kernel: Kernel)
        ensures
            kernel@ == KernelState::empty(
                if limit <= i32::MAX {
                    limit
                } else {
                    i32::MAX as usize
                },
            ),
            kernel@.wf(),
    {
        let limit = if limit <= i32::MAX as usize {
            limit
        } else {
            i32::MAX as usize
        };
        Kernel { counters: Vec::new(), table: Vec::new(), limit }
    }

    /// The lowest descriptor that is not open.
    fn lowest_free(&self) -> (fd: usize)
        ensures
            fd == self@.next_descriptor(),
            fd <= self.table@.len(),
    {
        let mut fd: usize = 0;
        while fd < self.table.len()
            invariant
                fd <= self.table@.len(),
                free_from(self.table@, 0) == free_from(self.table@, fd as int),
            decreases self.table@.len() - fd,
        {
            if self.table[fd].is_none() {
                return fd;
            }
            fd = fd + 1;
        }
        fd
    }

    /// The index of the counter that `fd` refers to, where `fd` is open.
    fn lookup(&self, fd: i32) -> (index: Option<usize>)
        requires
            self@.wf(),
        ensures
            self@.is_open(fd) ==> index == Some(self@.object(fd) as usize),
            !self@.is_open(fd) ==> index is None,
            index matches Some(i) ==> i < self.counters@.len(),
    {
        if fd < 0 || fd as usize >= self.table.len() {
            return None;
        }
        self.table[fd as usize]
    }

    /// Whether `fd` is an open descriptor.
    pub fn is_open(&self, fd: i32) -> (open: bool)
        requires
            self@.wf(),
        ensures
            open == self@.is_open(fd),
    {
        self.lookup(fd).is_some()
    }

    /// What the counter behind `fd` holds, where `fd` is open. Nothing is
    /// taken from the counter.
    pub fn value(&self, fd: i32) -> (value: Option<u64>)
        requires
            self@.wf(),
        ensures
            value == if self@.is_open(fd) {
                Some(self@.counter(fd).value)
            } else {
                None
            },
    {
        match self.lookup(fd) {
            Some(index) => Some(self.counters[index].value),
            None => None,
        }
    }

    /// Opens the lowest free descriptor on counter `index`.
    fn open_descriptor(&mut self, index: usize) -> (answer: Answer)
        requires
            old(self)@.wf(),
            index < old(self).counters@.len(),
        ensures
            (final(self)@, answer) == old(self)@.open_on(old(self)@.counters, index),
    {
        proof {
            lemma_free_from(self.table@, 0);
        }
        let fd = self.lowest_free();
        if fd >= self.limit {
            return Answer::Ready(Reply::Failed(Failure::Os(EMFILE)));
        }
        if fd < self.table.len() {
            self.table[fd] = Some(index);
        } else {
            self.table.push(Some(index));
        }
        assert(self.table@ =~= install(old(self).table@, fd as int, index));
        Answer::Ready(Reply::Descriptor(fd as i32))
    }

    /// Answers one call, as [`KernelState::step`] says.
    pub fn perform(&mut self, call: Syscall) -> (answer: Answer)
        requires
            old(self)@.wf(),
        ensures
            (final(self)@, answer) == old(self)@.step(call),
            final(self)@.wf(),
    {
        proof {
            lemma_step_keeps_wf(self@, call);
        }
        match call {
            Syscall::Eventfd { initval, flags } => {
                let index = self.counters.len();
                if index == usize::MAX {
                    return Answer::Ready(Reply::Failed(Failure::Os(ENOMEM)));
                }
                let fd = self.lowest_free();
                if fd >= self.limit {
                    return Answer::Ready(Reply::Failed(Failure::Os(EMFILE)));
                }
                self.counters.push(Counter::new(initval, flags));
                self.open_descriptor(index)
            },
            Syscall::Read { fd } => match self.lookup(fd) {
                Some(index) => {
                    let mut counter = self.counters[index];
                    let answer = counter.read();
                    self.counters[index] = counter;
                    assert(self@ =~= old(self)@.step(call).0);
                    answer
                },
                None => Answer::Ready(Reply::Failed(Failure::Os(EBADF))),
            },
            Syscall::Write { fd, value } => match self.lookup(fd) {
                Some(index) => {
                    let mut counter = self.counters[index];
                    let answer = counter.write(value);
                    self.counters[index] = counter;
                    assert(self@ =~= old(self)@.step(call).0);
                    answer
                },
                None => Answer::Ready(Reply::Failed(Failure::Os(EBADF))),
            },
            Syscall::Dup { fd } => match self.lookup(fd) {
                Some(index) => self.open_descriptor(index),
                None => Answer::Ready(Reply::Failed(Failure::Os(EBADF))),
            },
            Syscall::Close { fd } => match self.lookup(fd) {
                Some(_) => {
                    self.table[fd as usize] = None;
                    assert(self@ =~= old(self)@.step(call).0);
                    Answer::Ready(Reply::Closed)
                },
                None => Answer::Ready(Reply::Failed(Failure::Os(EBADF))),
            },
        }
    }
}

} // verus!
