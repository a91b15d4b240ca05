//! A time-bounded sampling engine: workers poll a price feed until a shared
//! deadline, each folds its observations into a local average, and the
//! averages are combined into one mean of means.
//!
//! The numeric type of an observation is a parameter. Addition and division
//! by a count are handed in by the caller as functions, and every contract
//! is stated in terms of what those functions promise.

pub mod aggregator;
pub mod cli;
pub mod deadline;
pub mod ensemble;
pub mod orchestrator;
pub mod sampler;
pub mod store;
pub mod worker;
