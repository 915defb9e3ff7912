//! A single-threaded io_uring runtime, reduced to the decisions it makes.
//!
//! The library describes each kernel operation as a value ([`event::Event`]),
//! turns it into the fields of a submission entry, interprets the kernel's
//! completion result into a typed output, keeps the table of control blocks in
//! flight (bounded by the submission-queue depth), and decides each step of the
//! block-on loop. Writing submission entries, waiting on the ring and polling
//! futures happen around it.

pub mod completion;
pub mod event;
pub mod inflight;
pub mod schedule;
pub mod sockaddr;
