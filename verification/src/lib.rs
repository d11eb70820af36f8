//! Server lifecycle coordination: a handle that records when the server is
//! listening, whether shutdown (hard or graceful) has been requested, and how
//! many connections are in flight, so that a graceful shutdown can wait for
//! them to drain.
//!
//! The handle here is the state machine itself: every control operation and
//! every wait primitive is a verified transition or poll over plain state.
//! The asynchronous layer that shares one state among many tasks and actually
//! suspends on it lives outside the verified library.

pub mod handle;
pub mod laws;
