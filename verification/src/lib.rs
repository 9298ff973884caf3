//! A verified, I/O-free core for handles on a kernel event counter.
//!
//! An event counter is a 64-bit counter that lives in the kernel behind a
//! descriptor: a write adds to it, a read takes what it holds (or one from
//! it, in semaphore mode), and descriptors duplicated from one another share
//! it. This crate holds everything about such a handle that can be decided
//! without the kernel: the calls to make and what their replies mean
//! ([`handle`], [`syscall`]), the bytes on the wire ([`codec`]), the errors
//! ([`error`]), the worker behind a stream of values ([`stream`]), and the
//! kernel's side of the contract as a model ([`kernel`], [`session`]) with
//! what follows from it ([`laws`]).

pub mod codec;
pub mod error;
pub mod flags;
pub mod handle;
pub mod kernel;
pub mod laws;
pub mod session;
pub mod stream;
pub mod syscall;

pub use error::{CreationError, IoError};
pub use flags::EfdFlags;
pub use handle::EventFD;
