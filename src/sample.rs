//! Turning one timed transfer into a sample (see the fixed-point convention
//! of `stats`).

use vstd::prelude::*;

verus! {

/// Throughput of `bytes` moved in `elapsed_us` microseconds, in thousandths
/// of a megabit per second: `bytes * 8 / elapsed_us` megabits per second.
pub open spec fn throughput_spec(bytes: u64, elapsed_us: u64) -> Option<u64> {
    if elapsed_us == 0 {
        None
    } else {
        let v = (bytes * 8000) / (elapsed_us as int);
        if v <= u64::MAX {
            Some(v as u64)
        } else {
            None
        }
    }
}

/// The throughput of a transfer; `None` when no time was measured or the
/// value does not fit.
pub fn throughput_milli_mbps(bytes: u64, elapsed_us: u64) -> (r: Option<u64>)
    ensures
        r == throughput_spec(bytes, elapsed_us),
{
    if elapsed_us == 0 {
        return None;
    }
    let bits_k = bytes as u128 * 8000;
    let v = bits_k / elapsed_us as u128;
    if v <= u64::MAX as u128 {
        Some(v as u64)
    } else {
        None
    }
}

/// Computes latency samples: round-trip time minus the server's own
/// processing time, clamped at zero. The clamp is reported once per run.
pub struct LatencyProbe {
    /// Whether a clamped sample has already been reported.
    pub warned: bool,
}

impl LatencyProbe {
    pub fn new() -> (r: LatencyProbe)
        ensures
            !r.warned,
    {
        LatencyProbe { warned: false }
    }

    /// The latency of one probe from its round-trip time and the server's
    /// processing time (both in thousandths of a millisecond). Also says
    /// whether to warn now: the first time a sample had to be clamped.
    pub fn latency(&mut self, total: u64, server: u64) -> (r: (u64, bool))
        ensures
            r.0 == (if total >= server { total - server } else { 0 }),
            r.1 == (total < server && !old(self).warned),
            final(self).warned == (old(self).warned || total < server),
    {
        if total >= server {
            (total - server, false)
        } else {
            let warn = !self.warned;
            self.warned = true;
            (0, warn)
        }
    }
}

} // verus!
