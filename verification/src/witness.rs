//! The witness assembler: collects the private materials of one state
//! transition into a validated bundle.
//!
//! The assembler is pure data shaping. It checks every length invariant the
//! network configuration imposes before constructing the bundle, and it
//! performs no cryptographic checks: whether a Merkle witness actually
//! proves membership is decided inside the constraint system the bundle
//! feeds, not here. The record, witness, signature and randomizer values
//! are produced by the surrounding cryptographic schemes; the assembler
//! only stores them, so each is modelled by plain scalars.

use vstd::prelude::*;

use crate::config::{CircuitType, Executable, NetworkConfig};
use crate::errors::{ProverError, WitnessVector};

verus! {

/// A secret asset entry consumed or produced by a transition.
#[derive(Clone, Copy, Debug, PartialEq, Eq, Structural)]
pub struct Record {
    pub owner: u64,
    pub value: u64,
    pub payload: u64,
    pub commitment_randomness: u64,
}

impl Record {
    /// The semantically meaningless placeholder value.
    pub open spec fn is_blank(self) -> bool {
        self.owner == 0 && self.value == 0 && self.payload == 0 && self.commitment_randomness == 0
    }
}

impl Default for Record {
    /// Returns the placeholder record.
    fn default() -> (r: Self)
        ensures
            r.is_blank(),
    {
        Record { owner: 0, value: 0, payload: 0, commitment_randomness: 0 }
    }
}

/// A Merkle-tree membership witness for one input record's commitment.
#[derive(Clone, Debug, PartialEq, Eq)]
pub struct MerklePath {
    /// Sibling digests along the path from the leaf to the root.
    pub siblings: Vec<u64>,
    /// The leaf's position in the tree.
    pub leaf_index: u64,
}

impl MerklePath {
    /// The semantically meaningless placeholder value.
    pub open spec fn is_blank(self) -> bool {
        self.siblings@.len() == 0 && self.leaf_index == 0
    }
}

impl Default for MerklePath {
    /// Returns the placeholder path.
    fn default() -> (r: Self)
        ensures
            r.is_blank(),
    {
        MerklePath { siblings: Vec::new(), leaf_index: 0 }
    }
}

/// An authorization signature bound to one input record.
#[derive(Clone, Copy, Debug, PartialEq, Eq, Structural)]
pub struct AccountSignature {
    pub prover_response: u64,
    pub verifier_challenge: u64,
}

impl AccountSignature {
    /// The semantically meaningless placeholder value.
    pub open spec fn is_blank(self) -> bool {
        self.prover_response == 0 && self.verifier_challenge == 0
    }
}

impl Default for AccountSignature {
    /// Returns the placeholder signature.
    fn default() -> (r: Self)
        ensures
            r.is_blank(),
    {
        AccountSignature { prover_response: 0, verifier_challenge: 0 }
    }
}

/// Randomness used to encrypt one output record.
#[derive(Clone, Copy, Debug, PartialEq, Eq, Structural)]
pub struct EncryptionRandomness {
    pub randomness: u64,
}

impl EncryptionRandomness {
    /// The semantically meaningless placeholder value.
    pub open spec fn is_blank(self) -> bool {
        self.randomness == 0
    }
}

impl Default for EncryptionRandomness {
    /// Returns the placeholder randomness.
    fn default() -> (r: Self)
        ensures
            r.is_blank(),
    {
        EncryptionRandomness { randomness: 0 }
    }
}

/// Commitment randomness binding one record into the local-data commitment.
#[derive(Clone, Copy, Debug, PartialEq, Eq, Structural)]
pub struct CommitmentRandomness {
    pub randomness: u64,
}

impl CommitmentRandomness {
    /// The semantically meaningless placeholder value.
    pub open spec fn is_blank(self) -> bool {
        self.randomness == 0
    }
}

impl Default for CommitmentRandomness {
    /// Returns the placeholder randomness.
    fn default() -> (r: Self)
        ensures
            r.is_blank(),
    {
        CommitmentRandomness { randomness: 0 }
    }
}

/// The validated private witness bundle of one state transition.
#[derive(Clone, Debug, PartialEq, Eq)]
pub struct InnerPrivateVariables {
    /// Records the transition consumes; one Merkle witness and one
    /// signature each, paired by position.
    pub input_records: Vec<Record>,
    pub input_witnesses: Vec<MerklePath>,
    pub signatures: Vec<AccountSignature>,
    /// Records the transition produces; one encryption randomizer each,
    /// paired by position.
    pub output_records: Vec<Record>,
    pub encrypted_record_randomizers: Vec<EncryptionRandomness>,
    /// Derived from the executable at assembly time, never supplied by the
    /// caller.
    pub circuit_type: CircuitType,
    /// One randomizer per record across the combined input and output set.
    pub local_data_leaf_randomizers: Vec<CommitmentRandomness>,
}

impl InnerPrivateVariables {
    /// The length invariants a bundle must satisfy under `config`.
    pub open spec fn shape_ok(self, config: NetworkConfig) -> bool {
        &&& self.input_records@.len() == config.num_input_records
        &&& self.input_witnesses@.len() == config.num_input_records
        &&& self.signatures@.len() == config.num_input_records
        &&& self.output_records@.len() == config.num_output_records
        &&& self.encrypted_record_randomizers@.len() == config.num_output_records
        &&& self.local_data_leaf_randomizers@.len() == config.total_records()
    }

    /// Every vector holds only placeholder elements and the circuit type is
    /// the no-operation one: the shape of a blank bundle.
    pub open spec fn is_blank(self) -> bool {
        &&& forall|i: int| 0 <= i < self.input_records@.len() ==> self.input_records@[i].is_blank()
        &&& forall|i: int|
            0 <= i < self.input_witnesses@.len() ==> self.input_witnesses@[i].is_blank()
        &&& forall|i: int| 0 <= i < self.signatures@.len() ==> self.signatures@[i].is_blank()
        &&& forall|i: int| 0 <= i < self.output_records@.len() ==> self.output_records@[i].is_blank()
        &&& forall|i: int|
            0 <= i < self.encrypted_record_randomizers@.len()
                ==> self.encrypted_record_randomizers@[i].is_blank()
        &&& self.circuit_type == CircuitType::Noop
        &&& forall|i: int|
            0 <= i < self.local_data_leaf_randomizers@.len()
                ==> self.local_data_leaf_randomizers@[i].is_blank()
    }

    /// The first length invariant that `new` finds violated, in the order
    /// the vectors are listed in the bundle.
    pub open spec fn first_shape_mismatch(
        config: NetworkConfig,
        inputs: usize,
        witnesses: usize,
        sigs: usize,
        outputs: usize,
        enc: usize,
        local: usize,
    ) -> ProverError {
        if inputs != config.num_input_records {
            ProverError::ShapeMismatch {
                vector: WitnessVector::InputRecords,
                expected: config.num_input_records,
                found: inputs,
            }
        } else if witnesses != config.num_input_records {
            ProverError::ShapeMismatch {
                vector: WitnessVector::InputWitnesses,
                expected: config.num_input_records,
                found: witnesses,
            }
        } else if sigs != config.num_input_records {
            ProverError::ShapeMismatch {
                vector: WitnessVector::Signatures,
                expected: config.num_input_records,
                found: sigs,
            }
        } else if outputs != config.num_output_records {
            ProverError::ShapeMismatch {
                vector: WitnessVector::OutputRecords,
                expected: config.num_output_records,
                found: outputs,
            }
        } else if enc != config.num_output_records {
            ProverError::ShapeMismatch {
                vector: WitnessVector::EncryptedRecordRandomizers,
                expected: config.num_output_records,
                found: enc,
            }
        } else {
            ProverError::ShapeMismatch {
                vector: WitnessVector::LocalDataLeafRandomizers,
                expected: (config.num_input_records + config.num_output_records) as usize,
                found: local,
            }
        }
    }

    /// Produces a structurally valid but semantically meaningless bundle:
    /// every vector sized to the configured record counts, every element a
    /// placeholder. It drives circuit-shape synthesis only and must never
    /// feed a real proof.
    pub fn blank(config: &NetworkConfig) -> (r: Self)
        requires
            config.wf(),
        ensures
            r.shape_ok(*config),
            r.is_blank(),
    {
        let total = config.num_total_records();
        InnerPrivateVariables {
            input_records: blank_records(config.num_input_records),
            input_witnesses: blank_paths(config.num_input_records),
            signatures: blank_signatures(config.num_input_records),
            output_records: blank_records(config.num_output_records),
            encrypted_record_randomizers: blank_encryption_randomizers(
                config.num_output_records,
            ),
            circuit_type: CircuitType::Noop,
            local_data_leaf_randomizers: blank_commitment_randomizers(total),
        }
    }

    /// Validates every length invariant against `config` and assembles the
    /// bundle, deriving the circuit type from `executable`. Fails with the
    /// first violated invariant, constructing nothing.
    pub fn new(
        input_records: Vec<Record>,
        input_witnesses: Vec<MerklePath>,
        signatures: Vec<AccountSignature>,
        output_records: Vec<Record>,
        encrypted_record_randomizers: Vec<EncryptionRandomness>,
        executable: &Executable,
        local_data_leaf_randomizers: Vec<CommitmentRandomness>,
        config: &NetworkConfig,
    ) -> (r: Result<Self, ProverError>)
        requires
            config.wf(),
        ensures
            r is Ok <==> {
                &&& input_records@.len() == config.num_input_records
                &&& input_witnesses@.len() == config.num_input_records
                &&& signatures@.len() == config.num_input_records
                &&& output_records@.len() == config.num_output_records
                &&& encrypted_record_randomizers@.len() == config.num_output_records
                &&& local_data_leaf_randomizers@.len() == config.total_records()
            },
            r matches Ok(b) ==> {
                &&& b.shape_ok(*config)
                &&& b.input_records@ == input_records@
                &&& b.input_witnesses@ == input_witnesses@
                &&& b.signatures@ == signatures@
                &&& b.output_records@ == output_records@
                &&& b.encrypted_record_randomizers@ == encrypted_record_randomizers@
                &&& b.circuit_type == executable.circuit_type_spec()
                &&& b.local_data_leaf_randomizers@ == local_data_leaf_randomizers@
            },
            r matches Err(e) ==> e == Self::first_shape_mismatch(
                *config,
                input_records@.len() as usize,
                input_witnesses@.len() as usize,
                signatures@.len() as usize,
                output_records@.len() as usize,
                encrypted_record_randomizers@.len() as usize,
                local_data_leaf_randomizers@.len() as usize,
            ),
    {
        let total = config.num_total_records();
        if input_records.len() != config.num_input_records {
            return Err(ProverError::ShapeMismatch {
                vector: WitnessVector::InputRecords,
                expected: config.num_input_records,
                found: input_records.len(),
            });
        }
        if input_witnesses.len() != config.num_input_records {
            return Err(ProverError::ShapeMismatch {
                vector: WitnessVector::InputWitnesses,
                expected: config.num_input_records,
                found: input_witnesses.len(),
            });
        }
        if signatures.len() != config.num_input_records {
            return Err(ProverError::ShapeMismatch {
                vector: WitnessVector::Signatures,
                expected: config.num_input_records,
                found: signatures.len(),
            });
        }
        if output_records.len() != config.num_output_records {
            return Err(ProverError::ShapeMismatch {
                vector: WitnessVector::OutputRecords,
                expected: config.num_output_records,
                found: output_records.len(),
            });
        }
        if encrypted_record_randomizers.len() != config.num_output_records {
            return Err(ProverError::ShapeMismatch {
                vector: WitnessVector::EncryptedRecordRandomizers,
                expected: config.num_output_records,
                found: encrypted_record_randomizers.len(),
            });
        }
        if local_data_leaf_randomizers.len() != total {
            return Err(ProverError::ShapeMismatch {
                vector: WitnessVector::LocalDataLeafRandomizers,
                expected: total,
                found: local_data_leaf_randomizers.len(),
            });
        }
        Ok(InnerPrivateVariables {
            input_records,
            input_witnesses,
            signatures,
            output_records,
            encrypted_record_randomizers,
            circuit_type: executable.circuit_type(),
            local_data_leaf_randomizers,
        })
    }
}

/// Builds `n` placeholder records.
fn blank_records(n: usize) -> (v: Vec<Record>)
    ensures
        v@.len() == n,
        forall|i: int| 0 <= i < n ==> v@[i].is_blank(),
{
    let mut v: Vec<Record> = Vec::new();
    while v.len() < n
        invariant
            v@.len() <= n,
            forall|i: int| 0 <= i < v@.len() ==> v@[i].is_blank(),
        decreases n - v@.len(),
    {
        v.push(Record::default());
    }
    v
}

/// Builds `n` placeholder Merkle paths.
fn blank_paths(n: usize) -> (v: Vec<MerklePath>)
    ensures
        v@.len() == n,
        forall|i: int| 0 <= i < n ==> v@[i].is_blank(),
{
    let mut v: Vec<MerklePath> = Vec::new();
    while v.len() < n
        invariant
            v@.len() <= n,
            forall|i: int| 0 <= i < v@.len() ==> v@[i].is_blank(),
        decreases n - v@.len(),
    {
        v.push(MerklePath::default());
    }
    v
}

/// Builds `n` placeholder signatures.
fn blank_signatures(n: usize) -> (v: Vec<AccountSignature>)
    ensures
        v@.len() == n,
        forall|i: int| 0 <= i < n ==> v@[i].is_blank(),
{
    let mut v: Vec<AccountSignature> = Vec::new();
    while v.len() < n
        invariant
            v@.len() <= n,
            forall|i: int| 0 <= i < v@.len() ==> v@[i].is_blank(),
        decreases n - v@.len(),
    {
        v.push(AccountSignature::default());
    }
    v
}

/// Builds `n` placeholder encryption randomizers.
fn blank_encryption_randomizers(n: usize) -> (v: Vec<EncryptionRandomness>)
    ensures
        v@.len() == n,
        forall|i: int| 0 <= i < n ==> v@[i].is_blank(),
{
    let mut v: Vec<EncryptionRandomness> = Vec::new();
    while v.len() < n
        invariant
            v@.len() <= n,
            forall|i: int| 0 <= i < v@.len() ==> v@[i].is_blank(),
        decreases n - v@.len(),
    {
        v.push(EncryptionRandomness::default());
    }
    v
}

/// Builds `n` placeholder commitment randomizers.
fn blank_commitment_randomizers(n: usize) -> (v: Vec<CommitmentRandomness>)
    ensures
        v@.len() == n,
        forall|i: int| 0 <= i < n ==> v@[i].is_blank(),
{
    let mut v: Vec<CommitmentRandomness> = Vec::new();
    while v.len() < n
        invariant
            v@.len() <= n,
            forall|i: int| 0 <= i < v@.len() ==> v@[i].is_blank(),
        decreases n - v@.len(),
    {
        v.push(CommitmentRandomness::default());
    }
    v
}

} // verus!
