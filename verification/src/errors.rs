//! Errors surfaced by witness assembly and prover-state initialization.
//!
//! Both are recoverable, caller-facing failures: a malformed transition
//! request is rejected, never retried. Out-of-order round access is not an
//! error value at all; the round transitions exclude it by precondition.

use vstd::prelude::*;

verus! {

/// Names the witness-bundle vector whose length disagreed with the network
/// configuration.
#[derive(Clone, Copy, Debug, PartialEq, Eq, Structural)]
pub enum WitnessVector {
    InputRecords,
    InputWitnesses,
    Signatures,
    OutputRecords,
    EncryptedRecordRandomizers,
    LocalDataLeafRandomizers,
}

/// Names one of the three evaluation domains of a prover state.
#[derive(Clone, Copy, Debug, PartialEq, Eq, Structural)]
pub enum DomainLabel {
    /// Domain X, sized for the public input.
    X,
    /// Domain H, sized for the constraint count.
    H,
    /// Domain K, sized for the nonzero matrix entries.
    K,
}

/// A recoverable construction-time failure.
#[derive(Clone, Copy, Debug, PartialEq, Eq, Structural)]
pub enum ProverError {
    /// A witness-bundle vector's length disagreed with the configured record
    /// count: `vector` held `found` elements where `expected` were required.
    ShapeMismatch { vector: WitnessVector, expected: usize, found: usize },
    /// An evaluation domain of `size` points cannot hold the `required`
    /// data it must index.
    DomainTooSmall { domain: DomainLabel, required: usize, size: usize },
}

} // verus!
