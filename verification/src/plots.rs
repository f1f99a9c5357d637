//! Terminal plotting of amplitude data with box-drawing characters.
//! Amplitudes are integer square roots of the exact squared
//! magnitudes, so thresholds are decided in whole numbers.
use vstd::prelude::*;

use crate::packet::CSIPacket;

verus! {

/// Largest `r` with `r * r <= n`.
pub open spec fn isqrt_spec(n: int, r: int) -> bool {
    r >= 0 && r * r <= n && (r + 1) * (r + 1) > n
}

/// Integer square root by bisection.
pub fn isqrt(n: u64) -> (r: u64)
    ensures
        isqrt_spec(n as int, r as int),
{
    if n == 0 {
        proof {
            assert(isqrt_spec(0, 0)) by (nonlinear_arith);
        }
        return 0;
    }
    let mut lo: u64 = 0;
    let mut hi: u64 = 4294967296;
    proof {
        assert((4294967296int) * (4294967296int) > u64::MAX) by (nonlinear_arith);
    }
    while hi - lo > 1
        invariant
            lo < hi,
            hi <= 4294967296,
            (lo as int) * (lo as int) <= n as int,
            (hi as int) * (hi as int) > n as int,
        decreases hi - lo,
    {
        let mid = lo + (hi - lo) / 2;
        proof {
            assert(lo < mid < hi);
        }
        proof {
            assert(mid < 4294967296);
            assert((mid as int) * (mid as int) < (4294967296int) * (4294967296int))
                by (nonlinear_arith)
                requires
                    0 <= (mid as int) && (mid as int) < 4294967296,
            ;
            assert((4294967296int) * (4294967296int) == 0x10000000000000000) by (nonlinear_arith);
        }
        let sq = mid * mid;
        if sq <= n {
            lo = mid;
        } else {
            hi = mid;
        }
    }
    proof {
        assert(isqrt_spec(n as int, lo as int));
    }
    lo
}

/// Plots amplitude bars as text with a fixed width and height.
pub struct ASCIIPlotter {
    pub width: usize,
    pub height: usize,
}

impl ASCIIPlotter {
    pub fn new(width: usize, height: usize) -> (r: Self)
        ensures
            r.width == width,
            r.height == height,
    {
        ASCIIPlotter { width, height }
    }
}

impl Default for ASCIIPlotter {
    /// The plot area the terminal view uses by default.
    fn default() -> (r: Self)
        ensures
            r.width == 50,
            r.height == 10,
    {
        ASCIIPlotter::new(50, 10)
    }
}

} // verus!
