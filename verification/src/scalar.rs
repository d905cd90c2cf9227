use vstd::prelude::*;

verus! {

/// A real scalar of the sampler, carried as the bit pattern of an IEEE 754
/// double. The verified core never computes with these values: it stores,
/// moves and compares them, and hands every numeric kernel to the
/// `Potential` capability, whose implementor interprets the bits.
#[derive(Clone, Copy, PartialEq, Eq, Structural, Debug)]
pub struct Scalar {
    pub bits: u64,
}

impl Scalar {
    /// The scalar zero (all bits clear is the IEEE 754 encoding of `0.0`).
    pub fn zero() -> (r: Scalar)
        ensures
            r.bits == 0,
    {
        Scalar { bits: 0 }
    }
}

} // verus!
