use ahp_prover::{
    DomainLabel, EvaluationDomain, FieldElement, FirstRoundOracles, IndexedCircuit,
    LabeledPolynomial, PolyLabel, Polynomial, ProverError, ProverState, SecondRoundOracles,
    VerifierFirstMessage,
};

fn felt(repr: u64) -> FieldElement {
    FieldElement { repr }
}

fn felts(reprs: &[u64]) -> Vec<FieldElement> {
    reprs.iter().map(|r| felt(*r)).collect()
}

fn poly(label: PolyLabel, coeffs: &[u64]) -> LabeledPolynomial {
    LabeledPolynomial { label, polynomial: Polynomial { coeffs: felts(coeffs) } }
}

fn small_circuit() -> IndexedCircuit {
    IndexedCircuit { num_constraints: 6, num_non_zero: 12 }
}

#[test]
fn domain_size_is_least_power_of_two() {
    assert_eq!(EvaluationDomain::new(0).unwrap().size, 1);
    assert_eq!(EvaluationDomain::new(1).unwrap().size, 1);
    assert_eq!(EvaluationDomain::new(2).unwrap().size, 2);
    assert_eq!(EvaluationDomain::new(3).unwrap().size, 4);
    assert_eq!(EvaluationDomain::new(8).unwrap().size, 8);
    assert_eq!(EvaluationDomain::new(9).unwrap().size, 16);
    assert_eq!(EvaluationDomain::new(1000).unwrap().size, 1024);
}

#[test]
fn domain_rejects_sizes_beyond_a_machine_word() {
    assert!(EvaluationDomain::new(usize::MAX).is_none());
    assert!(EvaluationDomain::new(usize::MAX / 2 + 2).is_none());
    assert!(EvaluationDomain::new(usize::MAX / 2 + 1).is_some());
}

#[test]
fn public_input_round_trips_through_padding() {
    // A trailing zero in the input must survive the round trip: unpadding
    // goes by the recorded input length, not by stripping zeros.
    let input = felts(&[4, 7, 0]);
    let index = small_circuit();
    let st = ProverState::initialize(
        input.clone(),
        felts(&[9, 9]),
        2,
        &index,
        EvaluationDomain { size: 8 },
        EvaluationDomain { size: 8 },
        EvaluationDomain { size: 16 },
    )
    .unwrap();
    assert_eq!(st.public_input(), input);
}

#[test]
fn public_input_of_full_domain_round_trips() {
    let input = felts(&[1, 2, 3, 4]);
    let index = small_circuit();
    let st = ProverState::initialize(
        input.clone(),
        Vec::new(),
        1,
        &index,
        EvaluationDomain { size: 4 },
        EvaluationDomain { size: 8 },
        EvaluationDomain { size: 16 },
    )
    .unwrap();
    assert_eq!(st.public_input(), input);
}

#[test]
fn padded_public_input_fills_domain_with_zeros() {
    let index = small_circuit();
    let st = ProverState::initialize(
        felts(&[4, 7]),
        Vec::new(),
        2,
        &index,
        EvaluationDomain { size: 8 },
        EvaluationDomain { size: 8 },
        EvaluationDomain { size: 16 },
    )
    .unwrap();
    let padded = st.padded_public_input();
    assert_eq!(padded.len(), 8);
    assert_eq!(padded[..2], [felt(4), felt(7)]);
    for entry in &padded[2..] {
        assert_eq!(*entry, felt(0));
    }
    // A second read returns the same stored vector, not a recomputation.
    assert_eq!(st.padded_public_input(), padded.clone().as_slice());
}

#[test]
fn initialize_rejects_public_input_longer_than_domain_x() {
    let index = small_circuit();
    let result = ProverState::initialize(
        felts(&[1, 2, 3, 4, 5]),
        Vec::new(),
        2,
        &index,
        EvaluationDomain { size: 4 },
        EvaluationDomain { size: 8 },
        EvaluationDomain { size: 16 },
    );
    let err = match result {
        Err(e) => e,
        Ok(_) => panic!("expected initialization to fail"),
    };
    assert_eq!(
        err,
        ProverError::DomainTooSmall { domain: DomainLabel::X, required: 5, size: 4 }
    );
}

#[test]
fn initialize_rejects_domain_h_below_constraint_count() {
    let index = small_circuit();
    let result = ProverState::initialize(
        felts(&[1]),
        Vec::new(),
        2,
        &index,
        EvaluationDomain { size: 4 },
        EvaluationDomain { size: 4 },
        EvaluationDomain { size: 16 },
    );
    let err = match result {
        Err(e) => e,
        Ok(_) => panic!("expected initialization to fail"),
    };
    assert_eq!(
        err,
        ProverError::DomainTooSmall { domain: DomainLabel::H, required: 6, size: 4 }
    );
}

#[test]
fn initialize_accepts_domain_h_at_or_above_constraint_count() {
    let index = IndexedCircuit { num_constraints: 8, num_non_zero: 12 };
    for h_size in [8usize, 16, 32] {
        let st = ProverState::initialize(
            felts(&[1]),
            Vec::new(),
            2,
            &index,
            EvaluationDomain { size: 4 },
            EvaluationDomain { size: h_size },
            EvaluationDomain { size: 16 },
        );
        assert!(st.is_ok());
    }
}

#[test]
fn initialize_rejects_domain_k_below_nonzero_count() {
    let index = small_circuit();
    let result = ProverState::initialize(
        felts(&[1]),
        Vec::new(),
        2,
        &index,
        EvaluationDomain { size: 4 },
        EvaluationDomain { size: 8 },
        EvaluationDomain { size: 8 },
    );
    let err = match result {
        Err(e) => e,
        Ok(_) => panic!("expected initialization to fail"),
    };
    assert_eq!(
        err,
        ProverError::DomainTooSmall { domain: DomainLabel::K, required: 12, size: 8 }
    );
}

#[test]
fn rounds_advance_and_keep_earlier_oracles() {
    let index = small_circuit();
    let mut st = ProverState::initialize(
        felts(&[4, 7]),
        felts(&[2, 3, 5]),
        1,
        &index,
        EvaluationDomain { size: 4 },
        EvaluationDomain { size: 8 },
        EvaluationDomain { size: 16 },
    )
    .unwrap();

    let z_a = felts(&[1, 2, 3, 4, 5, 6, 7, 8]);
    let z_b = felts(&[8, 7, 6, 5, 4, 3, 2, 1]);
    st.round_one(FirstRoundOracles {
        z_a: z_a.clone(),
        z_b: z_b.clone(),
        w_poly: poly(PolyLabel::W, &[3, 1, 4, 1, 5]),
        mask_poly: poly(PolyLabel::Mask, &[2, 6]),
    });

    let message = VerifierFirstMessage {
        alpha: felt(17),
        eta_a: felt(19),
        eta_b: felt(23),
        eta_c: felt(29),
    };
    st.round_two(SecondRoundOracles {
        verifier_first_message: message,
        mz_polys: (poly(PolyLabel::ZA, &[1, 1, 2]), poly(PolyLabel::ZB, &[3, 5, 8])),
        mz_poly_randomizer: (felt(31), felt(37)),
        t_poly: Polynomial { coeffs: felts(&[0, 1, 0, 1]) },
    });

    // The state still answers for what initialization fixed.
    assert_eq!(st.public_input(), felts(&[4, 7]));
    assert_eq!(st.padded_public_input().len(), 4);

    let (first, second) = st.finalize();
    assert_eq!(first.z_a, z_a);
    assert_eq!(first.z_b, z_b);
    assert_eq!(first.w_poly, poly(PolyLabel::W, &[3, 1, 4, 1, 5]));
    assert_eq!(first.mask_poly, poly(PolyLabel::Mask, &[2, 6]));
    assert_eq!(second.verifier_first_message, message);
    assert_eq!(second.mz_polys.0, poly(PolyLabel::ZA, &[1, 1, 2]));
    assert_eq!(second.mz_polys.1, poly(PolyLabel::ZB, &[3, 5, 8]));
    assert_eq!(second.mz_poly_randomizer, (felt(31), felt(37)));
    assert_eq!(second.t_poly, Polynomial { coeffs: felts(&[0, 1, 0, 1]) });
}

#[test]
fn padding_alone_rejects_an_overlong_input() {
    let input = felts(&[1, 2, 3]);
    let err =
        ahp_prover::pad_public_input(&input, &EvaluationDomain { size: 2 }).unwrap_err();
    assert_eq!(
        err,
        ProverError::DomainTooSmall { domain: DomainLabel::X, required: 3, size: 2 }
    );
    let padded = ahp_prover::pad_public_input(&input, &EvaluationDomain { size: 4 }).unwrap();
    assert_eq!(padded, felts(&[1, 2, 3, 0]));
}
