//! The per-channel journal of status-panel transitions.
//!
//! A channel holds at most one status panel. Replacing it goes through four
//! recorded steps: a transition is prepared, the message that was sent is
//! authorized to be bound, the bind is committed, and the prior message is
//! retired. Each step is a compare-and-swap on the stored snapshot: the functions
//! here decide what a step stores and what it answers, and the caller performs the
//! reads and writes under the channel lock.
//!
//! The journal gives crash-consistent local durability, not a transaction with
//! Discord: a message that was sent can still be orphaned before it is recorded.

pub mod model;
pub mod digest;
pub mod codec;
pub mod operations;
pub mod laws;
pub mod step_laws;
pub mod replay_laws;
pub mod record_laws;
pub mod storage;
pub mod storage_laws;
pub mod channel;
