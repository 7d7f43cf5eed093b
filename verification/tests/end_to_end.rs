use ahp_prover::{
    AccountSignature, CommitmentRandomness, EncryptionRandomness, EvaluationDomain, Executable,
    FieldElement, IndexedCircuit, InnerPrivateVariables, MerklePath, NetworkConfig, ProverState,
    Record,
};

fn felts(reprs: &[u64]) -> Vec<FieldElement> {
    reprs.iter().map(|r| FieldElement { repr: *r }).collect()
}

#[test]
fn two_in_two_out_transition_reaches_an_initialized_prover() {
    // A network of two input and two output records: assemble the witness
    // bundle, then initialize a prover state whose domains are sized by the
    // circuit, and read the public input back unchanged.
    let config = NetworkConfig::new(2, 2).unwrap();
    let bundle = InnerPrivateVariables::new(
        vec![
            Record { owner: 1, value: 50, payload: 0, commitment_randomness: 7 },
            Record { owner: 2, value: 25, payload: 0, commitment_randomness: 8 },
        ],
        vec![
            MerklePath { siblings: vec![10, 11], leaf_index: 0 },
            MerklePath { siblings: vec![12, 13], leaf_index: 1 },
        ],
        vec![
            AccountSignature { prover_response: 3, verifier_challenge: 4 },
            AccountSignature { prover_response: 5, verifier_challenge: 6 },
        ],
        vec![
            Record { owner: 3, value: 40, payload: 0, commitment_randomness: 9 },
            Record { owner: 4, value: 35, payload: 0, commitment_randomness: 10 },
        ],
        vec![
            EncryptionRandomness { randomness: 14 },
            EncryptionRandomness { randomness: 15 },
        ],
        &Executable::Noop,
        vec![
            CommitmentRandomness { randomness: 16 },
            CommitmentRandomness { randomness: 17 },
            CommitmentRandomness { randomness: 18 },
            CommitmentRandomness { randomness: 19 },
        ],
        &config,
    )
    .unwrap();
    assert_eq!(bundle.input_records.len(), 2);
    assert_eq!(bundle.local_data_leaf_randomizers.len(), 4);

    let index = IndexedCircuit { num_constraints: 20, num_non_zero: 48 };
    let domain_x = EvaluationDomain::new(3).unwrap();
    let domain_h = EvaluationDomain::new(index.num_constraints).unwrap();
    let domain_k = EvaluationDomain::new(index.num_non_zero).unwrap();
    let public_input = felts(&[50, 25, 75]);
    let private_variables = felts(&[7, 8, 9, 10]);
    let st = ProverState::initialize(
        public_input.clone(),
        private_variables,
        2,
        &index,
        domain_x,
        domain_h,
        domain_k,
    )
    .unwrap();
    assert_eq!(st.public_input(), public_input);
    assert_eq!(st.padded_public_input().len(), 4);
}
