//! Verified core of a runtime that runs functions in separate worker
//! processes.
//!
//! - [`stamp`]: a worker's creation time and its eight-byte form on a channel.
//! - [`guard`]: the identity guard that keeps a reused PID from being signalled.
//! - [`wrapper`]: the caller's handle: wait, wait with a deadline, abort.
//! - [`decimal`], [`protocol`]: how a spawned worker learns its assignment,
//!   and how its reply is framed on the result channel.
//! - [`registry`]: signature hashes and the table of invokable functions.
//!
//! The operations on processes, pipes and signals are left to the caller:
//! each method here decides the next step and takes back what came of it.

pub mod decimal;
pub mod error;
pub mod guard;
pub mod protocol;
pub mod registry;
pub mod stamp;
pub mod wrapper;

pub use error::ProcessFunError;
pub use wrapper::ProcessWrapper;
