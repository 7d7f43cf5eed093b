//! Radix-2 evaluation domains.
//!
//! A domain is a set of field points sized to the quantity it indexes:
//! public input length, constraint count, or nonzero-entry count. Its size
//! is the least power of two holding that quantity, and is fixed once at
//! construction.

use vstd::prelude::*;

verus! {

/// The largest domain size a machine word can hold: the greatest power of
/// two representable in `usize`.
pub const MAX_DOMAIN_SIZE: usize = usize::MAX / 2 + 1;

/// Whether `n` is a power of two.
pub open spec fn is_power_of_two(n: int) -> bool
    decreases n,
{
    if n <= 0 {
        false
    } else if n == 1 {
        true
    } else {
        n % 2 == 0 && is_power_of_two(n / 2)
    }
}

/// A radix-2 evaluation domain, held by its size.
#[derive(Clone, Copy, Debug, PartialEq, Eq, Structural)]
pub struct EvaluationDomain {
    /// The number of evaluation points.
    pub size: usize,
}

impl EvaluationDomain {
    /// A domain is well formed when its size is a power of two.
    pub open spec fn wf(self) -> bool {
        is_power_of_two(self.size as int)
    }

    /// Builds the smallest domain able to hold `num_coeffs` coefficients:
    /// its size is the least power of two that is at least `num_coeffs`.
    /// Fails only when that power of two does not fit in a machine word.
    pub fn new(num_coeffs: usize) -> (r: Option<EvaluationDomain>)
        ensures
            r is Some <==> num_coeffs <= MAX_DOMAIN_SIZE,
            r matches Some(d) ==> {
                &&& d.wf()
                &&& num_coeffs <= d.size
                &&& num_coeffs <= 1 ==> d.size == 1
                &&& num_coeffs > 1 ==> d.size < 2 * num_coeffs
            },
    {
        if num_coeffs > MAX_DOMAIN_SIZE {
            return None;
        }
        let mut size: usize = 1;
        while size < num_coeffs
            invariant
                1 <= size,
                is_power_of_two(size as int),
                num_coeffs <= MAX_DOMAIN_SIZE,
                size == 1 || size / 2 < num_coeffs,
            decreases 2 * num_coeffs - size,
        {
            proof {
                assert(is_power_of_two(2 * size as int)) by {
                    assert((2 * size as int) / 2 == size as int);
                };
            }
            size = size * 2;
        }
        proof {
            if num_coeffs > 1 {
                assert(size % 2 == 0);
            }
        }
        Some(EvaluationDomain { size })
    }
}

} // verus!
