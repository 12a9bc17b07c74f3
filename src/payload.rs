//! Payload sizes and test directions.

use vstd::prelude::*;

verus! {

/// Which direction a throughput test measures.
#[derive(Debug, Clone, Copy, PartialEq, Eq, Structural, Hash)]
pub enum TestType {
    Download,
    Upload,
}

/// Payload sizes used for throughput tests, in ascending order of bytes.
#[derive(Debug, Clone, Copy, PartialEq, Eq, Structural, PartialOrd, Ord, Hash)]
pub enum PayloadSize {
    K100,
    M1,
    M10,
    M25,
    M100,
}

/// Every payload size, smallest first.
pub open spec fn all_sizes() -> Seq<PayloadSize> {
    seq![PayloadSize::K100, PayloadSize::M1, PayloadSize::M10, PayloadSize::M25, PayloadSize::M100]
}

impl PayloadSize {
    /// Position of the size in ascending order.
    pub open spec fn rank(self) -> nat {
        match self {
            PayloadSize::K100 => 0,
            PayloadSize::M1 => 1,
            PayloadSize::M10 => 2,
            PayloadSize::M25 => 3,
            PayloadSize::M100 => 4,
        }
    }

    /// Number of bytes transferred by one attempt of this size.
    pub open spec fn spec_bytes(self) -> nat {
        match self {
            PayloadSize::K100 => 100_000,
            PayloadSize::M1 => 1_000_000,
            PayloadSize::M10 => 10_000_000,
            PayloadSize::M25 => 25_000_000,
            PayloadSize::M100 => 100_000_000,
        }
    }

    /// Position of the size in ascending order.
    pub fn index(self) -> (r: usize)
        ensures
            r as nat == self.rank(),
            all_sizes()[r as int] == self,
    {
        match self {
            PayloadSize::K100 => 0,
            PayloadSize::M1 => 1,
            PayloadSize::M10 => 2,
            PayloadSize::M25 => 3,
            PayloadSize::M100 => 4,
        }
    }

    pub fn bytes(self) -> (r: usize)
        ensures
            r as nat == self.spec_bytes(),
    {
        match self {
            PayloadSize::K100 => 100_000,
            PayloadSize::M1 => 1_000_000,
            PayloadSize::M10 => 10_000_000,
            PayloadSize::M25 => 25_000_000,
            PayloadSize::M100 => 100_000_000,
        }
    }

    /// All sizes up to and including `max`, smallest first.
    pub fn sizes_up_to(max: PayloadSize) -> (r: Vec<PayloadSize>)
        ensures
            r@ == all_sizes().take(max.rank() + 1 as int),
    {
        let all: Vec<PayloadSize> = vec![
            PayloadSize::K100,
            PayloadSize::M1,
            PayloadSize::M10,
            PayloadSize::M25,
            PayloadSize::M100,
        ];
        assert(all@ =~= all_sizes());
        let n = max.index() + 1;
        let mut r: Vec<PayloadSize> = Vec::new();
        let mut i: usize = 0;
        while i < n
            invariant
                n == max.rank() + 1,
                n <= 5,
                i <= n,
                all@ == all_sizes(),
                r@ == all_sizes().take(i as int),
            decreases n - i,
        {
            assert(all_sizes().take(i + 1) =~= all_sizes().take(i as int).push(all_sizes()[i as int]));
            r.push(all[i]);
            i = i + 1;
        }
        r
    }

    /// Byte counts of all sizes up to and including `max`, smallest first.
    pub fn sizes_from_max(max_payload_size: PayloadSize) -> (r: Vec<usize>)
        ensures
            r@.len() == max_payload_size.rank() + 1,
            forall|i: int| 0 <= i < r@.len() ==> r@[i] as nat == #[trigger] all_sizes()[i].spec_bytes(),
    {
        let sizes = PayloadSize::sizes_up_to(max_payload_size);
        let mut r: Vec<usize> = Vec::new();
        let mut i: usize = 0;
        while i < sizes.len()
            invariant
                i <= sizes@.len(),
                sizes@ == all_sizes().take(max_payload_size.rank() + 1 as int),
                r@.len() == i,
                forall|k: int| 0 <= k < i ==> r@[k] as nat == #[trigger] all_sizes()[k].spec_bytes(),
            decreases sizes.len() - i,
        {
            r.push(sizes[i].bytes());
            i = i + 1;
        }
        r
    }
}

} // verus!
