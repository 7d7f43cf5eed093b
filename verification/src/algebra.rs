//! Stand-ins for the algebraic values the prover stores.
//!
//! The prover core never computes with field elements or polynomials; it
//! stores them, moves them between rounds and hands them to the commitment
//! scheme. Each is therefore modelled by its shape: a field element as one
//! scalar, a polynomial as its coefficient vector, a labeled polynomial as
//! a polynomial tagged with its stable oracle label.

use vstd::prelude::*;

verus! {

/// An element of the prime field supplied by the surrounding cryptographic
/// configuration.
#[derive(Clone, Copy, Debug, PartialEq, Eq, Structural)]
pub struct FieldElement {
    pub repr: u64,
}

impl FieldElement {
    /// The additive identity, used to pad the public input.
    pub open spec fn zero_spec() -> FieldElement {
        FieldElement { repr: 0 }
    }

    /// Returns the additive identity.
    pub fn zero() -> (r: FieldElement)
        ensures
            r == FieldElement::zero_spec(),
    {
        FieldElement { repr: 0 }
    }
}

/// A univariate polynomial, held by its coefficients.
#[derive(Clone, Debug, PartialEq, Eq)]
pub struct Polynomial {
    pub coeffs: Vec<FieldElement>,
}

/// The stable labels of the prover's oracle polynomials. The label sequence
/// must be identical across proof attempts for the transcript that derives
/// verifier challenges to bind correctly.
#[derive(Clone, Copy, Debug, PartialEq, Eq, Structural)]
pub enum PolyLabel {
    /// The witness polynomial of the first round.
    W,
    /// The product of the first constraint matrix with the assignment.
    ZA,
    /// The product of the second constraint matrix with the assignment.
    ZB,
    /// The masking polynomial hiding witness-dependent leakage.
    Mask,
}

/// A polynomial tagged with its oracle label.
#[derive(Clone, Debug, PartialEq, Eq)]
pub struct LabeledPolynomial {
    pub label: PolyLabel,
    pub polynomial: Polynomial,
}

} // verus!
