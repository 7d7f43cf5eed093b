//! The indexed circuit: the preprocessed constraint system the prover is
//! bound to.
//!
//! Arithmetization — turning the rank-1 constraint matrices into
//! domain-aligned polynomials — is a collaborator of the surrounding
//! system; the prover state machine reads only the counts that size its
//! evaluation domains, so the circuit is held here by those counts. It is
//! never mutated by the prover.

use vstd::prelude::*;

verus! {

/// The domain-sizing summary of a preprocessed constraint system.
#[derive(Clone, Copy, Debug, PartialEq, Eq, Structural)]
pub struct IndexedCircuit {
    /// Number of constraint rows; domain H must hold at least this many
    /// points so each row has a unique evaluation point.
    pub num_constraints: usize,
    /// Total count of nonzero entries across the three constraint
    /// matrices; domain K indexes this sparse representation.
    pub num_non_zero: usize,
}

} // verus!
