use vstd::prelude::*;

verus! {

/// A non-negative fraction `num / den` with `den > 0`; used for usage shares.
#[derive(Debug, Clone, Copy, PartialEq, Eq, Structural)]
pub struct Ratio {
    pub num: u64,
    pub den: u64,
}

impl Ratio {
    pub open spec fn wf(&self) -> bool {
        self.den > 0
    }

    /// This fraction equals `n / d`, where a zero denominator stands for the share zero.
    pub open spec fn represents(&self, n: int, d: int) -> bool {
        &&& self.den > 0
        &&& if d == 0 {
            self.num == 0
        } else {
            self.num * d == n * self.den
        }
    }

    /// The share zero.
    pub fn zero() -> (r: Ratio)
        ensures
            r.wf(),
            r.num == 0,
            r.den == 1,
    {
        Ratio { num: 0, den: 1 }
    }
}

} // verus!
