//! Core of a load generator that simulates market making: a freshness oracle
//! that tracks the chain's validity anchor and height, a per-worker rate gate,
//! the per-worker order synthesis, and the fan-out of workers.
pub mod rate_gate;
pub mod sampler;
pub mod oracle;
pub mod worker;
pub mod orders;
pub mod fanout;
