//! Human-readable byte counts and payload-size labels.

use vstd::prelude::*;
use crate::payload::PayloadSize;

verus! {

pub open spec fn digit_char(d: nat) -> char {
    if d == 0 { '0' }
    else if d == 1 { '1' }
    else if d == 2 { '2' }
    else if d == 3 { '3' }
    else if d == 4 { '4' }
    else if d == 5 { '5' }
    else if d == 6 { '6' }
    else if d == 7 { '7' }
    else if d == 8 { '8' }
    else { '9' }
}

/// Decimal digits of `n`, most significant first, without leading zeros.
pub open spec fn decimal_of(n: nat) -> Seq<char>
    decreases n,
{
    if n < 10 {
        seq![digit_char(n)]
    } else {
        decimal_of(n / 10).push(digit_char(n % 10))
    }
}

/// Relies on the standard `Display` of `u64` (through `to_string`): the
/// number in decimal digits, without sign, grouping or padding.
#[verifier::external_body]
fn decimal_string(n: u64) -> (r: String)
    ensures
        r@ == decimal_of(n as nat),
{
    n.to_string()
}

/// A byte count for people: whole kilobytes from a thousand bytes on, whole
/// megabytes from a million, and plain bytes below and from a billion.
pub open spec fn format_bytes_spec(bytes: nat) -> Seq<char> {
    if 1_000 <= bytes <= 999_999 {
        decimal_of(bytes / 1_000) + "KB"@
    } else if 1_000_000 <= bytes <= 999_999_999 {
        decimal_of(bytes / 1_000_000) + "MB"@
    } else {
        decimal_of(bytes) + " bytes"@
    }
}

pub fn format_bytes(bytes: usize) -> (r: String)
    ensures
        r@ == format_bytes_spec(bytes as nat),
{
    if 1_000 <= bytes && bytes <= 999_999 {
        let mut s = decimal_string((bytes / 1_000) as u64);
        s.append("KB");
        s
    } else if 1_000_000 <= bytes && bytes <= 999_999_999 {
        let mut s = decimal_string((bytes / 1_000_000) as u64);
        s.append("MB");
        s
    } else {
        let mut s = decimal_string(bytes as u64);
        s.append(" bytes");
        s
    }
}

impl PayloadSize {
    /// The size as people read it: `100KB`, `1MB`, `10MB`, `25MB`, `100MB`.
    pub fn to_string(&self) -> (r: String)
        ensures
            r@ == format_bytes_spec(self.spec_bytes()),
    {
        format_bytes(self.bytes())
    }
}

} // verus!
