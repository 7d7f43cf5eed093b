//! Prover core for an algebraic holographic proof (AHP) over a rank-1
//! constraint system.
//!
//! Two components form the crate. The witness assembler collects the
//! per-record and per-signature materials of a private state transition into
//! a bundle whose vector lengths are validated against the network
//! configuration. The prover state machine holds the padded public input,
//! the private assignment and the three evaluation domains of one proof
//! attempt, and advances strictly round by round, never overwriting an
//! oracle a round has already produced.
//!
//! Field arithmetic, polynomial commitments, Merkle trees, signatures and
//! encryption are collaborators of the surrounding system; this crate only
//! stores and moves their values, modelled here as plain scalars.

mod algebra;
mod config;
mod domain;
mod errors;
mod indexer;
mod prover;
mod witness;

pub use algebra::{FieldElement, LabeledPolynomial, PolyLabel, Polynomial};
pub use config::{CircuitType, Executable, NetworkConfig};
pub use domain::{is_power_of_two, EvaluationDomain, MAX_DOMAIN_SIZE};
pub use errors::{DomainLabel, ProverError, WitnessVector};
pub use indexer::IndexedCircuit;
pub use prover::{
    first_domain_error, initialization_ok, lemma_domain_h_monotonicity,
    lemma_public_input_round_trip, pad_public_input, pad_public_input_spec,
    unpad_public_input_spec, FirstRoundOracles, ProverState, RoundStage, SecondRoundOracles,
    VerifierFirstMessage,
};
pub use witness::{
    AccountSignature, CommitmentRandomness, EncryptionRandomness, InnerPrivateVariables,
    MerklePath, Record,
};
