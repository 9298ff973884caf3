//! Creation flags of an event counter.

use vstd::prelude::*;

verus! {

/// The set of flags a counter is created with, drawn from "non-blocking" and
/// "semaphore". The flags belong to the kernel object, so every handle that
/// refers to one counter carries the same set.
#[derive(Clone, Copy, Debug, PartialEq, Eq, Hash, Structural)]
pub struct EfdFlags {
    /// Reads and writes fail with "would block" instead of suspending the
    /// caller.
    pub nonblock: bool,
    /// Every read takes exactly one from the counter.
    pub semaphore: bool,
}

impl EfdFlags {
    /// The set of the flags that are in `self` or in `other`.
    pub open spec fn join(self, other: EfdFlags) -> EfdFlags {
        EfdFlags {
            nonblock: self.nonblock || other.nonblock,
            semaphore: self.semaphore || other.semaphore,
        }
    }

    /// Whether `self` holds every flag that `other` holds.
    pub open spec fn includes(self, other: EfdFlags) -> bool {
        (other.nonblock ==> self.nonblock) && (other.semaphore ==> self.semaphore)
    }

    /// The set without any flag: reads and writes suspend the caller when
    /// they have to wait, and a read takes the whole counter.
    pub fn empty() -> (r: EfdFlags)
        ensures
            r == (EfdFlags { nonblock: false, semaphore: false }),
    {
        EfdFlags { nonblock: false, semaphore: false }
    }

    /// The set that holds only "non-blocking".
    pub fn nonblock() -> (r: EfdFlags)
        ensures
            r == (EfdFlags { nonblock: true, semaphore: false }),
    {
        EfdFlags { nonblock: true, semaphore: false }
    }

    /// The set that holds only "semaphore".
    pub fn semaphore() -> (r: EfdFlags)
        ensures
            r == (EfdFlags { nonblock: false, semaphore: true }),
    {
        EfdFlags { nonblock: false, semaphore: true }
    }

    /// The flags that are in `self` or in `other`.
    pub fn union(self, other: EfdFlags) -> (r: EfdFlags)
        ensures
            r == self.join(other),
    {
        EfdFlags {
            nonblock: self.nonblock || other.nonblock,
            semaphore: self.semaphore || other.semaphore,
        }
    }

    /// Whether every flag of `other` is in `self`.
    pub fn contains(&self, other: EfdFlags) -> (r: bool)
        ensures
            r == self.includes(other),
    {
        (!other.nonblock || self.nonblock) && (!other.semaphore || self.semaphore)
    }

    /// Whether the set holds no flag.
    pub fn is_empty(&self) -> (r: bool)
        ensures
            r == (!self.nonblock && !self.semaphore),
    {
        !self.nonblock && !self.semaphore
    }
}

} // verus!
