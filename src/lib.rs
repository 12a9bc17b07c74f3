//! Measurement engine of a network speed test: payload sizes, sample
//! arithmetic, the retry policy, the adaptive scheduler, the statistics
//! aggregator and the run's event protocol.

pub mod payload;
pub mod stats;
pub mod retry;
pub mod scheduler;
pub mod text;
pub mod error;
pub mod trace;
pub mod timing;
pub mod sample;
pub mod results;
pub mod events;
pub mod format;
pub mod options;
pub mod direction;
