//! Verified core of a synchronous bridge around an asynchronous
//! anonymity-network client.
//!
//! The bridge turns a small set of blocking entry points (start a client,
//! re-run its bootstrap, read the last failure) into decisions that can be
//! checked: which phase of the start sequence comes next, when a failure is
//! fatal, what the error channel holds afterwards, and when a handle may be
//! issued. The outside work of each phase (creating the scheduler, building
//! the client, bootstrapping, spawning the proxy task) is performed by the
//! unverified shell around this crate, which reports each outcome back to
//! the state machine in [`start`].

pub mod channel;
pub mod errors;
pub mod limits;
pub mod paths;
pub mod runtime;
pub mod start;
