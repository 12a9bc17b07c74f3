//! Errors of a speed test run.

use vstd::prelude::*;

verus! {

#[derive(Debug, Clone, PartialEq, Eq)]
pub enum SpeedTestError {
    /// An HTTP request failed; the text describes the failure.
    Http(String),
    /// The connection metadata could not be read.
    MetadataParse(String),
    /// The event channel was closed.
    ChannelClosed,
    Other(String),
}

} // verus!
