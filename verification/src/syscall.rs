//! The kernel calls a handle asks for and the answers it takes, as plain
//! values.
//!
//! Nothing here reaches the kernel. Whoever does makes the call that a
//! [`Syscall`] names and hands back what came of it as a [`Reply`]; the
//! functions of this module turn the bytes and counts of a real call into a
//! reply and a call into the bytes to send.

use crate::codec::{bytes_of, decode, decoded, encode, ByteOrder, VALUE_BYTES};
use crate::error::{failure_of, nix_errno, Failure};
use crate::flags::EfdFlags;
use vstd::prelude::*;

verus! {

/// The largest value a counter can hold: one less than the largest 64-bit
/// number.
pub const MAX_VALUE: u64 = 0xffff_ffff_ffff_fffe;

/// One call on the kernel.
#[derive(Clone, Copy, Debug, PartialEq, Eq, Hash, Structural)]
pub enum Syscall {
    /// Create a counter that starts at `initval` and open a descriptor on it.
    Eventfd { initval: u32, flags: EfdFlags },
    /// Read eight bytes from the descriptor.
    Read { fd: i32 },
    /// Write the eight bytes of `value` to the descriptor.
    Write { fd: i32, value: u64 },
    /// Open another descriptor on what `fd` refers to.
    Dup { fd: i32 },
    /// Close the descriptor.
    Close { fd: i32 },
}

/// What came of a call that returned.
#[derive(Clone, Copy, Debug, PartialEq, Eq, Hash, Structural)]
pub enum Reply {
    /// A creation or a duplication opened this descriptor.
    Descriptor(i32),
    /// A read brought the eight bytes of this value.
    Value(u64),
    /// A write took all eight bytes.
    Written,
    /// The descriptor is closed.
    Closed,
    /// The call failed.
    Failed(Failure),
}

/// The reply that stands for the bytes a read has brought.
pub open spec fn reply_of_read(order: ByteOrder, bytes: Seq<u8>) -> Reply {
    match decoded(order, bytes) {
        Some(value) => Reply::Value(value),
        None => Reply::Failed(Failure::Mismatch),
    }
}

/// The reply that stands for the number of bytes a write has taken.
pub open spec fn reply_of_written(count: usize) -> Reply {
    if count == 8 {
        Reply::Written
    } else {
        Reply::Failed(Failure::Mismatch)
    }
}

/// The reply that stands for the descriptor a creation or a duplication has
/// returned.
pub open spec fn reply_of_descriptor(fd: i32) -> Reply {
    if fd >= 0 {
        Reply::Descriptor(fd)
    } else {
        Reply::Failed(Failure::Mismatch)
    }
}

impl Syscall {
    /// The descriptor the call works on; a creation works on none.
    pub open spec fn target(self) -> Option<i32> {
        match self {
            Syscall::Eventfd { .. } => None,
            Syscall::Read { fd } => Some(fd),
            Syscall::Write { fd, .. } => Some(fd),
            Syscall::Dup { fd } => Some(fd),
            Syscall::Close { fd } => Some(fd),
        }
    }

    /// The bytes to hand to the kernel with the call: those of the value for
    /// a write, in the given byte order, and none for any other call.
    pub fn payload(&self, order: ByteOrder) -> (bytes: Option<Vec<u8>>)
        ensures
            match *self {
                Syscall::Write { value, .. } => bytes matches Some(b) && b@ == bytes_of(
                    order,
                    value,
                ),
                _ => bytes is None,
            },
    {
        match self {
            Syscall::Write { value, .. } => Some(encode(order, *value)),
            _ => None,
        }
    }
}

impl Reply {
    /// The reply for a read that brought `bytes`, in the given byte order:
    /// the value they spell when they are eight, a mismatch otherwise.
    pub fn from_read(order: ByteOrder, bytes: &[u8]) -> (reply: Reply)
        ensures
            reply == reply_of_read(order, bytes@),
    {
        match decode(order, bytes) {
            Some(value) => Reply::Value(value),
            None => Reply::Failed(Failure::Mismatch),
        }
    }

    /// The reply for a write that took `count` bytes: written when all eight
    /// were taken, a mismatch otherwise.
    pub fn from_written(count: usize) -> (reply: Reply)
        ensures
            reply == reply_of_written(count),
    {
        if count == VALUE_BYTES {
            Reply::Written
        } else {
            Reply::Failed(Failure::Mismatch)
        }
    }

    /// The reply for a creation or a duplication that returned `fd`: the
    /// descriptor when it is not negative, a mismatch otherwise.
    pub fn from_descriptor(fd: i32) -> (reply: Reply)
        ensures
            reply == reply_of_descriptor(fd),
    {
        if fd >= 0 {
            Reply::Descriptor(fd)
        } else {
            Reply::Failed(Failure::Mismatch)
        }
    }

    /// The reply for a call that nix reported as failed: the failure that
    /// the error stands for. It is never a mismatch.
    pub fn from_nix_error(error: nix::Error) -> (reply: Reply)
        ensures
            reply == Reply::Failed(failure_of(nix_errno(error))),
            reply != Reply::Failed(Failure::Mismatch),
    {
        Reply::Failed(Failure::from_nix(error))
    }
}

/// What a write sends is what a read of the same bytes brings, in either
/// byte order: the two ends of the exchange agree on every value.
pub proof fn lemma_wire_round_trip(order: ByteOrder, value: u64)
    ensures
        reply_of_read(order, bytes_of(order, value)) == Reply::Value(value),
{
    crate::codec::lemma_decode_encode(order, value);
}

} // verus!
