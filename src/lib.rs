//! Cold-start latency monitoring: which probe responses count as cold starts,
//! how a polling cycle gathers them, and what batch of latency data points is
//! handed to the monitoring backend.
pub mod aggregate;
pub mod cycle;
pub mod laws;
pub mod probe;
pub mod publish;
pub mod registry;
pub mod response;
pub mod schedule;
