//! Coordination of many threads that wait on, poll, or kill one child process.
//!
//! A child may be waited on by one thread only at a time, and once it has been
//! reaped its identifier may be reused by the system. The types here decide,
//! under the caller's lock, which thread performs the blocking wait, when the
//! child is reaped, and whether a kill signal may still be sent. The caller
//! performs the system calls and hands their results back.

pub mod coordinator;
pub mod model;
