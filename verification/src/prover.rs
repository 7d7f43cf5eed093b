//! The prover state machine of the algebraic holographic proof.
//!
//! A `ProverState` is created once per proof attempt. It stores the padded
//! public input, the private assignment, the zero-knowledge blinding bound
//! and the three evaluation domains, all fixed at initialization, and a
//! round stage that advances strictly in order: initialized, first round
//! done, second round done, then finalized by handing the oracles out. Each
//! round's oracle polynomials are a pure function of earlier state and the
//! most recent verifier challenge; once a round has produced an oracle, no
//! later round overwrites it, and an oracle cannot be read before its round
//! has run — the stage enumeration leaves no such state representable.
//!
//! The field and polynomial arithmetic behind each round (matrix-vector
//! products, interpolation, sampling of blinding polynomials) belongs to
//! the surrounding algebraic collaborators; the state machine receives the
//! computed oracles, checks their shape against the domains, and enforces
//! the round order and the immutability of what earlier rounds fixed.

use vstd::prelude::*;

use crate::algebra::{FieldElement, LabeledPolynomial, PolyLabel, Polynomial};
use crate::domain::EvaluationDomain;
use crate::errors::{DomainLabel, ProverError};
use crate::indexer::IndexedCircuit;

verus! {

/// The challenge scalars the verifier sends after the first round: the
/// evaluation point and the three matrix-combining scalars of the sum-check
/// over domain H.
#[derive(Clone, Copy, Debug, PartialEq, Eq, Structural)]
pub struct VerifierFirstMessage {
    pub alpha: FieldElement,
    pub eta_a: FieldElement,
    pub eta_b: FieldElement,
    pub eta_c: FieldElement,
}

/// The oracles the first round produces: the two matrix-product vectors,
/// the witness polynomial over domain H, and the masking polynomial whose
/// degree the zero-knowledge bound limits.
#[derive(Clone, Debug, PartialEq, Eq)]
pub struct FirstRoundOracles {
    /// Product of the first constraint matrix with the full assignment,
    /// one entry per point of domain H.
    pub z_a: Vec<FieldElement>,
    /// Product of the second constraint matrix with the full assignment.
    pub z_b: Vec<FieldElement>,
    /// The witness polynomial.
    pub w_poly: LabeledPolynomial,
    /// The blinding polynomial hiding witness-dependent leakage.
    pub mask_poly: LabeledPolynomial,
}

/// The oracles the second round produces, after the verifier's first
/// message arrived: the two re-randomized matrix-product polynomials with
/// their paired blinding scalars, and the sum-check polynomial over
/// domain K.
pub struct SecondRoundOracles {
    /// The verifier challenges this round consumed.
    pub verifier_first_message: VerifierFirstMessage,
    /// The matrix-product oracle polynomials.
    pub mz_polys: (LabeledPolynomial, LabeledPolynomial),
    /// The blinding scalar re-randomizing each product polynomial.
    pub mz_poly_randomizer: (FieldElement, FieldElement),
    /// The sum-check polynomial encoding the nonzero-entry structure of the
    /// constraint matrices.
    pub t_poly: Polynomial,
}

/// How far the proof attempt has advanced. Each variant carries exactly
/// the oracles valid at that stage, so no round's output can be read
/// before the round has run, and a later stage carries the earlier
/// stage's oracles unchanged.
pub enum RoundStage {
    /// No round has run.
    Initialized,
    /// The first round's oracles are fixed.
    Round1Done(FirstRoundOracles),
    /// Both rounds' oracles are fixed.
    Round2Done(FirstRoundOracles, SecondRoundOracles),
}

/// Per-proof prover state: the assignment, the blinding bound, the three
/// evaluation domains and the circuit binding, all fixed at initialization,
/// plus the advancing round stage.
pub struct ProverState<'a> {
    /// The public input, zero-padded at the end to the size of domain X.
    pub padded_public_variables: Vec<FieldElement>,
    /// How many leading entries of the padded vector are genuine public
    /// input; the remainder is padding.
    pub public_input_len: usize,
    /// The private portion of the variable assignment.
    pub private_variables: Vec<FieldElement>,
    /// Upper bound on blinding-polynomial degree (the query bound b).
    pub zk_bound: usize,
    /// The preprocessed circuit this proof is bound to; owned elsewhere and
    /// never mutated here.
    pub index: &'a IndexedCircuit,
    /// Domain X, sized for the public input.
    pub domain_x: EvaluationDomain,
    /// Domain H, sized for the constraint count.
    pub domain_h: EvaluationDomain,
    /// Domain K, sized for the nonzero matrix entries.
    pub domain_k: EvaluationDomain,
    /// The rounds run so far and the oracles they fixed.
    pub round: RoundStage,
}

/// The public input padded to `size` entries: the input itself, then zeros.
pub open spec fn pad_public_input_spec(input: Seq<FieldElement>, size: int) -> Seq<FieldElement>
    recommends
        input.len() <= size,
{
    input + Seq::new((size - input.len()) as nat, |i: int| FieldElement::zero_spec())
}

/// The padding removed again: the first `input_len` entries.
pub open spec fn unpad_public_input_spec(padded: Seq<FieldElement>, input_len: int) -> Seq<
    FieldElement,
>
    recommends
        0 <= input_len <= padded.len(),
{
    padded.subrange(0, input_len)
}

/// Whether domains X, H and K can hold a public input of `input_len`
/// entries, the constraint rows of `index`, and its nonzero matrix
/// entries. Initialization succeeds on exactly these inputs.
pub open spec fn initialization_ok(
    input_len: int,
    index: IndexedCircuit,
    domain_x: EvaluationDomain,
    domain_h: EvaluationDomain,
    domain_k: EvaluationDomain,
) -> bool {
    &&& input_len <= domain_x.size
    &&& index.num_constraints <= domain_h.size
    &&& index.num_non_zero <= domain_k.size
}

/// The first domain that `initialize` finds too small, in the order X, H, K.
pub open spec fn first_domain_error(
    input_len: usize,
    index: IndexedCircuit,
    domain_x: EvaluationDomain,
    domain_h: EvaluationDomain,
    domain_k: EvaluationDomain,
) -> ProverError {
    if domain_x.size < input_len {
        ProverError::DomainTooSmall { domain: DomainLabel::X, required: input_len, size: domain_x.size }
    } else if domain_h.size < index.num_constraints {
        ProverError::DomainTooSmall {
            domain: DomainLabel::H,
            required: index.num_constraints,
            size: domain_h.size,
        }
    } else {
        ProverError::DomainTooSmall {
            domain: DomainLabel::K,
            required: index.num_non_zero,
            size: domain_k.size,
        }
    }
}

/// Pads a public input to the size of domain X by appending zeros. Fails,
/// rather than truncating, when the input is longer than the domain.
pub fn pad_public_input(input: &Vec<FieldElement>, domain_x: &EvaluationDomain) -> (r: Result<
    Vec<FieldElement>,
    ProverError,
>)
    ensures
        r is Ok <==> input@.len() <= domain_x.size,
        r matches Ok(p) ==> p@ == pad_public_input_spec(input@, domain_x.size as int),
        r matches Err(e) ==> e == (ProverError::DomainTooSmall {
            domain: DomainLabel::X,
            required: input@.len() as usize,
            size: domain_x.size,
        }),
{
    if input.len() > domain_x.size {
        return Err(ProverError::DomainTooSmall {
            domain: DomainLabel::X,
            required: input.len(),
            size: domain_x.size,
        });
    }
    let mut padded: Vec<FieldElement> = Vec::new();
    let mut i: usize = 0;
    while i < input.len()
        invariant
            i <= input@.len(),
            padded@ == input@.subrange(0, i as int),
        decreases input@.len() - i,
    {
        padded.push(input[i]);
        proof {
            assert(padded@ =~= input@.subrange(0, i + 1 as int));
        }
        i = i + 1;
    }
    assert(padded@ =~= input@);
    while padded.len() < domain_x.size
        invariant
            input@.len() <= domain_x.size,
            input@.len() <= padded@.len() <= domain_x.size,
            padded@.subrange(0, input@.len() as int) == input@,
            forall|j: int|
                input@.len() <= j < padded@.len() ==> padded@[j] == FieldElement::zero_spec(),
        decreases domain_x.size - padded@.len(),
    {
        let ghost before = padded@;
        padded.push(FieldElement::zero());
        proof {
            assert(padded@.subrange(0, input@.len() as int) =~= before.subrange(
                0,
                input@.len() as int,
            ));
        }
    }
    proof {
        assert(padded@ =~= pad_public_input_spec(input@, domain_x.size as int));
    }
    Ok(padded)
}

/// Removing the padding returns exactly the public input that was padded,
/// for every input that fits the domain: padding loses nothing and
/// reorders nothing.
pub proof fn lemma_public_input_round_trip(input: Seq<FieldElement>, size: int)
    requires
        input.len() <= size,
    ensures
        unpad_public_input_spec(pad_public_input_spec(input, size), input.len() as int) == input,
{
    assert(unpad_public_input_spec(pad_public_input_spec(input, size), input.len() as int)
        =~= input);
}

/// Enlarging domain H never turns a succeeding initialization into a
/// failing one, and a domain H smaller than the constraint count always
/// fails: success depends on the domain sizes monotonically.
pub proof fn lemma_domain_h_monotonicity(
    input_len: int,
    index: IndexedCircuit,
    domain_x: EvaluationDomain,
    smaller_h: EvaluationDomain,
    larger_h: EvaluationDomain,
    domain_k: EvaluationDomain,
)
    requires
        smaller_h.size <= larger_h.size,
    ensures
        initialization_ok(input_len, index, domain_x, smaller_h, domain_k)
            ==> initialization_ok(input_len, index, domain_x, larger_h, domain_k),
        smaller_h.size < index.num_constraints ==> !initialization_ok(
            input_len,
            index,
            domain_x,
            smaller_h,
            domain_k,
        ),
{
}

impl<'a> ProverState<'a> {
    /// The genuine public input held by this state: the padded vector with
    /// its padding removed.
    pub open spec fn public_input_view(self) -> Seq<FieldElement> {
        unpad_public_input_spec(self.padded_public_variables@, self.public_input_len as int)
    }

    /// The shape the first round's oracles must have under this state's
    /// domains and blinding bound, and the labels the transcript expects
    /// of them.
    pub open spec fn first_round_shape_ok(self, oracles: FirstRoundOracles) -> bool {
        &&& oracles.z_a@.len() == self.domain_h.size
        &&& oracles.z_b@.len() == self.domain_h.size
        &&& oracles.w_poly.label == PolyLabel::W
        &&& oracles.mask_poly.label == PolyLabel::Mask
        &&& oracles.mask_poly.polynomial.coeffs@.len() <= self.zk_bound + 1
    }

    /// The shape the second round's oracles must have: stable labels for
    /// the matrix-product polynomials, and a sum-check polynomial that
    /// domain K can hold.
    pub open spec fn second_round_shape_ok(self, oracles: SecondRoundOracles) -> bool {
        &&& oracles.mz_polys.0.label == PolyLabel::ZA
        &&& oracles.mz_polys.1.label == PolyLabel::ZB
        &&& oracles.t_poly.coeffs@.len() <= self.domain_k.size
    }

    /// The oracles fixed so far have the shape their round promised.
    pub open spec fn round_wf(self) -> bool {
        match self.round {
            RoundStage::Initialized => true,
            RoundStage::Round1Done(first) => self.first_round_shape_ok(first),
            RoundStage::Round2Done(first, second) => self.first_round_shape_ok(first)
                && self.second_round_shape_ok(second),
        }
    }

    /// Well-formedness: the padded vector fills domain X exactly, all
    /// padding is zero, each domain holds what it must index, and the
    /// fixed oracles keep their promised shape.
    pub open spec fn wf(self) -> bool {
        &&& self.padded_public_variables@.len() == self.domain_x.size
        &&& self.public_input_len <= self.domain_x.size
        &&& self.padded_public_variables@ == pad_public_input_spec(
            self.public_input_view(),
            self.domain_x.size as int,
        )
        &&& self.index.num_constraints <= self.domain_h.size
        &&& self.index.num_non_zero <= self.domain_k.size
        &&& self.round_wf()
    }

    /// The only constructor: stores the assignment, the blinding bound,
    /// the circuit binding and the domains, pads the public input to
    /// domain X, and starts with no round run. Fails, constructing
    /// nothing, when any domain is too small for what it must hold.
    pub fn initialize(
        public_input: Vec<FieldElement>,
        private_variables: Vec<FieldElement>,
        zk_bound: usize,
        index: &'a IndexedCircuit,
        domain_x: EvaluationDomain,
        domain_h: EvaluationDomain,
        domain_k: EvaluationDomain,
    ) -> (r: Result<ProverState<'a>, ProverError>)
        ensures
            r is Ok <==> initialization_ok(
                public_input@.len() as int,
                *index,
                domain_x,
                domain_h,
                domain_k,
            ),
            r matches Ok(st) ==> {
                &&& st.wf()
                &&& st.public_input_view() == public_input@
                &&& st.public_input_len == public_input@.len()
                &&& st.padded_public_variables@ == pad_public_input_spec(
                    public_input@,
                    domain_x.size as int,
                )
                &&& st.private_variables@ == private_variables@
                &&& st.zk_bound == zk_bound
                &&& st.index == index
                &&& st.domain_x == domain_x
                &&& st.domain_h == domain_h
                &&& st.domain_k == domain_k
                &&& st.round is Initialized
            },
            r matches Err(e) ==> e == first_domain_error(
                public_input@.len() as usize,
                *index,
                domain_x,
                domain_h,
                domain_k,
            ),
    {
        if domain_x.size < public_input.len() {
            return Err(ProverError::DomainTooSmall {
                domain: DomainLabel::X,
                required: public_input.len(),
                size: domain_x.size,
            });
        }
        if domain_h.size < index.num_constraints {
            return Err(ProverError::DomainTooSmall {
                domain: DomainLabel::H,
                required: index.num_constraints,
                size: domain_h.size,
            });
        }
        if domain_k.size < index.num_non_zero {
            return Err(ProverError::DomainTooSmall {
                domain: DomainLabel::K,
                required: index.num_non_zero,
                size: domain_k.size,
            });
        }
        let public_input_len = public_input.len();
        let padded = match pad_public_input(&public_input, &domain_x) {
            Ok(p) => p,
            Err(e) => {
                return Err(e);
            },
        };
        let st = ProverState {
            padded_public_variables: padded,
            public_input_len,
            private_variables,
            zk_bound,
            index,
            domain_x,
            domain_h,
            domain_k,
            round: RoundStage::Initialized,
        };
        proof {
            assert(st.public_input_view() =~= public_input@);
        }
        Ok(st)
    }

    /// Returns the public input with the padding removed: the exact
    /// left-inverse of the padding that initialization applied.
    pub fn public_input(&self) -> (r: Vec<FieldElement>)
        requires
            self.wf(),
        ensures
            r@ == self.public_input_view(),
            r@ == unpad_public_input_spec(
                self.padded_public_variables@,
                self.public_input_len as int,
            ),
    {
        let mut r: Vec<FieldElement> = Vec::new();
        let mut i: usize = 0;
        while i < self.public_input_len
            invariant
                i <= self.public_input_len,
                self.public_input_len <= self.padded_public_variables@.len(),
                r@ == self.padded_public_variables@.subrange(0, i as int),
            decreases self.public_input_len - i,
        {
            r.push(self.padded_public_variables[i]);
            proof {
                assert(r@ =~= self.padded_public_variables@.subrange(0, i + 1 as int));
            }
            i = i + 1;
        }
        r
    }

    /// Returns the stored padded vector unchanged: a read-only view of
    /// exactly one entry per point of domain X, never recomputed from the
    /// unpadded input.
    pub fn padded_public_input(&self) -> (r: &Vec<FieldElement>)
        requires
            self.wf(),
        ensures
            r@ == self.padded_public_variables@,
            r@.len() == self.domain_x.size,
    {
        &self.padded_public_variables
    }

    /// Fixes the first round's oracles. May run only once, directly after
    /// initialization; everything fixed at initialization stays unchanged.
    pub fn round_one(&mut self, oracles: FirstRoundOracles)
        requires
            old(self).wf(),
            old(self).round is Initialized,
            old(self).first_round_shape_ok(oracles),
        ensures
            final(self).wf(),
            final(self).round == RoundStage::Round1Done(oracles),
            final(self).padded_public_variables@ == old(self).padded_public_variables@,
            final(self).public_input_len == old(self).public_input_len,
            final(self).private_variables@ == old(self).private_variables@,
            final(self).zk_bound == old(self).zk_bound,
            final(self).index == old(self).index,
            final(self).domain_x == old(self).domain_x,
            final(self).domain_h == old(self).domain_h,
            final(self).domain_k == old(self).domain_k,
    {
        self.round = RoundStage::Round1Done(oracles);
    }

    /// Consumes the verifier's first message and fixes the second round's
    /// oracles. May run only once, directly after the first round; the
    /// first round's oracles and everything fixed at initialization stay
    /// unchanged.
    pub fn round_two(&mut self, oracles: SecondRoundOracles)
        requires
            old(self).wf(),
            old(self).round is Round1Done,
            old(self).second_round_shape_ok(oracles),
        ensures
            final(self).wf(),
            old(self).round matches RoundStage::Round1Done(first) ==> final(self).round
                == RoundStage::Round2Done(first, oracles),
            final(self).padded_public_variables@ == old(self).padded_public_variables@,
            final(self).public_input_len == old(self).public_input_len,
            final(self).private_variables@ == old(self).private_variables@,
            final(self).zk_bound == old(self).zk_bound,
            final(self).index == old(self).index,
            final(self).domain_x == old(self).domain_x,
            final(self).domain_h == old(self).domain_h,
            final(self).domain_k == old(self).domain_k,
    {
        let mut previous = RoundStage::Initialized;
        core::mem::swap(&mut previous, &mut self.round);
        match previous {
            RoundStage::Round1Done(first) => {
                self.round = RoundStage::Round2Done(first, oracles);
            },
            _ => vstd::pervasive::unreached(),
        }
    }

    /// Hands both rounds' oracles to the caller for the commitment scheme,
    /// consuming the state: the proof attempt is over. Returns exactly the
    /// oracles the rounds fixed.
    pub fn finalize(self) -> (r: (FirstRoundOracles, SecondRoundOracles))
        requires
            self.wf(),
            self.round is Round2Done,
        ensures
            self.round matches RoundStage::Round2Done(first, second) && r.0 == first && r.1
                == second,
            self.first_round_shape_ok(r.0),
            self.second_round_shape_ok(r.1),
    {
        match self.round {
            RoundStage::Round2Done(first, second) => (first, second),
            _ => vstd::pervasive::unreached(),
        }
    }
}

} // verus!
