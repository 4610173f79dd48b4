//! Fair sharing of a bathroom with a fixed number of cabins between two
//! genders: the bathroom's queueing and switching policy, the router that
//! forwards events between the participants, and the statistics that are
//! gathered while the simulation runs.
//!
//! Time is a count of simulated time units that the caller supplies with
//! each call; identifiers are 128-bit numbers.

pub mod bathroom;
pub mod event;
pub mod metrics_collector;
pub mod outside;
pub mod person;
pub mod router;
pub mod scan;
pub mod simulation;
