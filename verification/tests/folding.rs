use ff::Field;
use lurk::circuit::{Assignment, MultiFrame, Synthesized};
use lurk::eval::{Frame, IO};
use lurk::nova::{
    check_assignments, initial_acc, FinalSNARK, Nova, NovaProver, Oracle, Proof, ProofError,
};
use lurk::r1cs::{Fr, R1CSGens, R1CSInstance, R1CSShape, R1CSWitness, ShapeCS};
use lurk::store::{ContPtr, Ptr};
use nova_snark::errors::NovaError;
use nova_snark::frontend::solver::SatisfyingAssignment;
use nova_snark::frontend::{ConstraintSystem, Index, SynthesisError, Variable};
use nova_snark::provider::PallasEngine;
use std::marker::PhantomData;

/// The circuit `x^3 + x + 5 = y`, with `x` and `y` public.
fn synthesize<CS: ConstraintSystem<Fr>>(cs: &mut CS, x: Fr, y: Fr) -> Result<(), SynthesisError> {
    let x_in = cs.alloc_input(|| "x", || Ok(x))?;
    let y_in = cs.alloc_input(|| "y", || Ok(y))?;
    let sq = cs.alloc(|| "x^2", || Ok(x * x))?;
    let cu = cs.alloc(|| "x^3", || Ok(x * x * x))?;
    cs.enforce(|| "square", |lc| lc + x_in, |lc| lc + x_in, |lc| lc + sq);
    cs.enforce(|| "cube", |lc| lc + sq, |lc| lc + x_in, |lc| lc + cu);
    cs.enforce(
        || "sum",
        |lc| lc + cu + x_in + (Fr::from(5), CS::one()),
        |lc| lc + CS::one(),
        |lc| lc + y_in,
    );
    Ok(())
}

fn blank() -> ShapeCS {
    let mut cs = nova_snark::frontend::shape_cs::ShapeCS::<PallasEngine>::new();
    synthesize(&mut cs, Fr::ZERO, Fr::ZERO).unwrap();
    ShapeCS { inner: cs }
}

fn assignment_of(x: Fr, y: Fr) -> Assignment {
    let mut cs = SatisfyingAssignment::<PallasEngine>::new();
    synthesize(&mut cs, x, y).unwrap();
    Assignment {
        inputs: cs.input_assignment()[1..].to_vec(),
        vars: cs.aux_assignment().to_vec(),
    }
}

fn assignment(x: u64) -> Assignment {
    let x = Fr::from(x);
    assignment_of(x, x * x * x + x + Fr::from(5))
}

fn frames(count: usize) -> Vec<Frame<Fr>> {
    let io = IO {
        expr: Ptr { raw: 0, _p: PhantomData },
        env: Ptr { raw: 0, _p: PhantomData },
        cont: ContPtr { raw: 0, _p: PhantomData },
    };
    vec![Frame { input: io, output: io }; count]
}

fn synthesized<'a>(
    chunks: &'a [MultiFrame<Fr>],
    assignments: &'a [Assignment],
    at: usize,
) -> Synthesized<'a, Fr> {
    Synthesized { multi_frame: &chunks[at], assignment: &assignments[at] }
}

fn prover(chunk: usize) -> NovaProver<Fr> {
    NovaProver::new(chunk)
}

fn params() -> (R1CSShape, R1CSGens) {
    prover(1).make_shape_and_gens(&blank()).unwrap()
}

#[test]
fn made_proof_verifies() {
    let assignments = [assignment(3), assignment(7), assignment(0)];
    let (proof, instance) =
        prover(2).evaluate_and_prove(&frames(6), &assignments, &blank()).unwrap();
    assert_eq!(proof.step_proofs.len(), 3);
    // the shape and the generators are made anew, and are the same
    let shape_and_gens = params();
    assert!(proof.verify(&shape_and_gens, &instance));
    assert!(proof.verify(&shape_and_gens, &proof.final_instance));
}

#[test]
fn proof_of_another_trace_does_not_verify() {
    let shape_and_gens = params();
    let (proof, _) = prover(1).evaluate_and_prove(&frames(1), &[assignment(3)], &blank()).unwrap();
    let (_, other) = prover(1).evaluate_and_prove(&frames(1), &[assignment(4)], &blank()).unwrap();
    assert!(!proof.verify(&shape_and_gens, &other));
    let (start, _) = initial_acc(&shape_and_gens.1, &shape_and_gens.0);
    assert!(!proof.verify(&shape_and_gens, &start));
}

#[test]
fn unmet_constraints_are_folded_and_do_not_verify() {
    let shape_and_gens = params();
    let bad = assignment_of(Fr::from(3), Fr::from(36));
    let assignments = [assignment(3), bad];
    let (proof, instance) =
        prover(1).evaluate_and_prove(&frames(2), &assignments, &blank()).unwrap();
    assert_eq!(proof.step_proofs.len(), 2);
    assert!(!proof.verify(&shape_and_gens, &instance));
}

#[test]
fn satisfaction_of_a_chunk() {
    let (shape, gens) = params();
    let good = [assignment(3)];
    let bad = [assignment_of(Fr::from(3), Fr::from(36))];
    let short = [Assignment { inputs: vec![Fr::ONE], vars: vec![Fr::ONE, Fr::ONE] }];
    let frames = frames(1);
    let check = |assignments: &[Assignment]| {
        let chunks = MultiFrame::from_frames(1, &frames);
        NovaProver::<Fr>::is_satisfied(&synthesized(&chunks, assignments, 0), &shape, &gens)
    };
    assert!(matches!(check(&good), Ok(true)));
    assert!(matches!(check(&bad), Ok(false)));
    assert!(matches!(check(&short), Err(NovaError::InvalidInputLength)));
}

#[test]
fn steps_that_are_not_verified_are_not_kept() {
    let (shape, gens) = params();
    let assignments = [assignment(3), assignment(7)];
    let (proof, instance) =
        prover(3).make_proof(&frames(6), &assignments, &shape, &gens, false).unwrap();
    assert!(proof.step_proofs.is_empty());
    assert!(proof.verify(&(shape, gens), &instance));
}

#[test]
fn steps_that_are_verified_are_kept() {
    let (shape, gens) = params();
    let assignments = [assignment(3), assignment(7)];
    let (proof, instance) =
        prover(3).make_proof(&frames(6), &assignments, &shape, &gens, true).unwrap();
    assert_eq!(proof.step_proofs.len(), 2);
    assert!(proof.verify(&(shape, gens), &instance));
}

#[test]
fn a_proof_without_its_steps_still_verifies() {
    let shape_and_gens = params();
    let assignments = [assignment(3), assignment(7)];
    let (proof, instance) =
        prover(1).evaluate_and_prove(&frames(2), &assignments, &blank()).unwrap();
    let (start, _) = initial_acc(&shape_and_gens.1, &shape_and_gens.0);
    let bare = Proof { step_proofs: vec![], final_proof: proof.final_proof, final_instance: start };
    assert!(bare.verify(&shape_and_gens, &instance));
    assert!(bare.verify(&shape_and_gens, &proof.final_instance));
    assert!(!bare.verify(&shape_and_gens, &bare.final_instance));
}

#[test]
fn empty_trace() {
    let shape_and_gens = params();
    let (proof, instance) = prover(4).evaluate_and_prove(&[], &[], &blank()).unwrap();
    assert!(proof.step_proofs.is_empty());
    assert!(proof.verify(&shape_and_gens, &instance));
    let (start, _) = initial_acc(&shape_and_gens.1, &shape_and_gens.0);
    assert!(proof.verify(&shape_and_gens, &start));
}

#[test]
fn initial_acc_is_satisfied() {
    let (shape, gens) = params();
    let (instance, witness) = initial_acc(&gens, &shape);
    assert!(FinalSNARK::prove(&witness).verify(&gens, &shape, &instance).is_ok());
}

#[test]
fn steps_replay_without_witnesses() {
    let (shape, gens) = params();
    let oracle = Oracle::new(&shape);
    let frames = frames(2);
    let assignments = [assignment(3), assignment(7)];
    let chunks = MultiFrame::from_frames(1, &frames);
    let chunk = synthesized(&chunks, &assignments, 0);
    let first = NovaProver::<Fr>::make_r1cs(&chunk, &shape, &gens).unwrap();
    let chunk = synthesized(&chunks, &assignments, 1);
    let second = NovaProver::<Fr>::make_r1cs(&chunk, &shape, &gens).unwrap();

    let start = initial_acc(&gens, &shape);
    let (step1, acc1) = NovaProver::<Fr>::make_step_snark(&gens, &shape, &start, &first, &oracle);
    let (step2, acc2) = NovaProver::<Fr>::make_step_snark(&gens, &shape, &acc1, &second, &oracle);
    let final_proof = NovaProver::<Fr>::make_final_snark(&acc2.1);

    let (replayed, _) = initial_acc(&gens, &shape);
    let replayed = step1.verify(&replayed, &first.0, &oracle).unwrap();
    let replayed = step2.verify(&replayed, &second.0, &oracle).unwrap();
    assert!(final_proof.verify(&gens, &shape, &replayed).is_ok());

    // a step for another instance leads elsewhere
    let (strayed, _) = initial_acc(&gens, &shape);
    let strayed = step1.verify(&strayed, &first.0, &oracle).unwrap();
    let strayed = step1.verify(&strayed, &second.0, &oracle).unwrap();
    assert!(final_proof.verify(&gens, &shape, &strayed).is_err());
}

#[test]
fn a_step_depends_on_the_oracle() {
    let (shape, gens) = params();
    let oracle = Oracle::new(&shape);
    let other = Oracle { constants: Oracle::new(&shape).constants, digest: Fr::from(1) };
    let frames = frames(1);
    let assignments = [assignment(3)];
    let chunks = MultiFrame::from_frames(1, &frames);
    let chunk = synthesized(&chunks, &assignments, 0);
    let pair = NovaProver::<Fr>::make_r1cs(&chunk, &shape, &gens).unwrap();
    let start = initial_acc(&gens, &shape);
    let (step, acc) = NovaProver::<Fr>::make_step_snark(&gens, &shape, &start, &pair, &oracle);
    let final_proof = FinalSNARK::prove(&acc.1);
    let verified = step.verify(&start.0, &pair.0, &oracle).unwrap();
    assert!(final_proof.verify(&gens, &shape, &verified).is_ok());
    let verified = step.verify(&start.0, &pair.0, &other).unwrap();
    assert!(final_proof.verify(&gens, &shape, &verified).is_err());
}

#[test]
fn frames_that_are_no_whole_chunks_are_refused() {
    let assignments = [assignment(3), assignment(7)];
    let res = prover(2).evaluate_and_prove(&frames(3), &assignments, &blank());
    assert!(matches!(res, Err(ProofError::InvalidFrameCount)));
    let res = prover(2).evaluate_and_prove(&frames(2), &assignments, &blank());
    assert!(matches!(res, Err(ProofError::InvalidFrameCount)));
    let res = prover(2).evaluate_and_prove(&frames(6), &assignments, &blank());
    assert!(matches!(res, Err(ProofError::InvalidFrameCount)));
}

#[test]
fn assignments_that_do_not_fit_are_refused() {
    let mut inputs = assignment(3);
    inputs.inputs.push(Fr::ONE);
    let res = prover(1).evaluate_and_prove(&frames(2), &[assignment(7), inputs], &blank());
    assert!(matches!(res, Err(ProofError::InvalidInputLength)));

    let (shape, _) = params();
    let inputs = Assignment { inputs: vec![], vars: vec![Fr::ONE, Fr::ONE] };
    assert!(!check_assignments(&shape, &[assignment(3), inputs]));
    assert!(check_assignments(&shape, &[assignment(3)]));
    assert!(check_assignments(&shape, &[]));
}

#[test]
fn private_variables_are_cut_or_filled_with_zeros() {
    let (shape, gens) = params();
    let frames = frames(1);
    let chunks = MultiFrame::from_frames(1, &frames);
    let check = |assignment: Assignment| {
        let assignments = [assignment];
        NovaProver::<Fr>::is_satisfied(&synthesized(&chunks, &assignments, 0), &shape, &gens)
    };
    let mut long = assignment(3);
    long.vars.push(Fr::from(8));
    assert!(matches!(check(long), Ok(true)));
    let mut short = assignment(3);
    short.vars.pop();
    assert!(matches!(check(short), Ok(false)));
    // with x = 0 the square and the cube are zero
    let mut empty = assignment(0);
    empty.vars.clear();
    assert!(matches!(check(empty), Ok(true)));

    let mut long = assignment(3);
    long.vars.push(Fr::from(8));
    let mut empty = assignment(0);
    empty.vars.clear();
    let (proof, instance) =
        prover(1).evaluate_and_prove(&[frames[0]; 2], &[long, empty], &blank()).unwrap();
    assert!(proof.verify(&(shape, gens), &instance));
}

#[test]
fn a_chunk_that_does_not_fit_has_no_instance() {
    let (shape, gens) = params();
    let frames = frames(1);
    let chunks = MultiFrame::from_frames(1, &frames);
    let short = [Assignment { inputs: vec![Fr::ONE], vars: vec![Fr::ONE, Fr::ONE] }];
    let res = NovaProver::<Fr>::make_r1cs(&synthesized(&chunks, &short, 0), &shape, &gens);
    assert!(matches!(res, Err(NovaError::InvalidInputLength)));
    let long = [Assignment { inputs: vec![Fr::ONE; 3], vars: vec![] }];
    let res = NovaProver::<Fr>::make_r1cs(&synthesized(&chunks, &long, 0), &shape, &gens);
    assert!(matches!(res, Err(NovaError::InvalidInputLength)));
    let long = [Assignment { inputs: vec![Fr::ONE; 2], vars: vec![Fr::ONE; 3] }];
    let res = NovaProver::<Fr>::make_r1cs(&synthesized(&chunks, &long, 0), &shape, &gens);
    assert!(res.is_ok());
}

/// A circuit of `count` squares.
fn squares(count: usize) -> ShapeCS {
    let mut cs = nova_snark::frontend::shape_cs::ShapeCS::<PallasEngine>::new();
    for _ in 0..count {
        let a = cs.alloc(|| "a", || Ok(Fr::ZERO)).unwrap();
        cs.enforce(|| "square", |lc| lc + a, |lc| lc + a, |lc| lc + a);
    }
    ShapeCS { inner: cs }
}

#[test]
fn more_generators_than_needed_will_do() {
    let (shape, few) = params();
    let (large, gens) = prover(1).make_shape_and_gens(&squares(50)).unwrap();
    assert!(few.fits(&shape));
    assert!(gens.fits(&shape));
    assert!(gens.fits(&large));
    assert!(!few.fits(&large));
    let assignments = [assignment(3), assignment(7)];
    let (proof, instance) =
        prover(3).make_proof(&frames(6), &assignments, &shape, &gens, true).unwrap();
    assert!(proof.verify(&(shape, gens), &instance));
}

#[test]
fn a_constraint_on_an_unknown_variable_is_refused() {
    let mut cs = nova_snark::frontend::shape_cs::ShapeCS::<PallasEngine>::new();
    cs.enforce(
        || "unknown",
        |lc| lc + Variable::new_unchecked(Index::Aux(9)),
        |lc| lc,
        |lc| lc,
    );
    let blank = ShapeCS { inner: cs };
    assert!(matches!(prover(1).make_shape_and_gens(&blank), Err(ProofError::Nova(_))));
    let res = prover(1).evaluate_and_prove(&frames(1), &[assignment(3)], &blank);
    assert!(matches!(res, Err(ProofError::Nova(_))));
}

#[test]
fn a_public_input_without_a_column_is_refused() {
    let mut cs = nova_snark::frontend::shape_cs::ShapeCS::<PallasEngine>::new();
    cs.alloc(|| "a", || Ok(Fr::ZERO)).unwrap();
    cs.enforce(
        || "far off",
        |lc| lc + Variable::new_unchecked(Index::Input(usize::MAX)),
        |lc| lc,
        |lc| lc,
    );
    let blank = ShapeCS { inner: cs };
    assert!(!blank.has_columns());
    assert!(!blank.is_allocated());
    assert!(matches!(prover(1).make_shape_and_gens(&blank), Err(ProofError::IndexOverflow)));
    let res = prover(1).evaluate_and_prove(&frames(1), &[assignment(3)], &blank);
    assert!(matches!(res, Err(ProofError::IndexOverflow)));
}

#[test]
fn the_last_column_is_no_overflow() {
    // without private variables the index itself is the column
    let mut cs = nova_snark::frontend::shape_cs::ShapeCS::<PallasEngine>::new();
    cs.enforce(
        || "far off",
        |lc| lc + Variable::new_unchecked(Index::Input(usize::MAX)),
        |lc| lc,
        |lc| lc,
    );
    let blank = ShapeCS { inner: cs };
    assert!(blank.has_columns());
    assert!(matches!(prover(1).make_shape_and_gens(&blank), Err(ProofError::Nova(_))));
}

#[test]
fn allocated_variables_are_accepted() {
    assert!(blank().has_columns());
    assert!(blank().is_allocated());
    let mut cs = nova_snark::frontend::shape_cs::ShapeCS::<PallasEngine>::new();
    let a = cs.alloc(|| "a", || Ok(Fr::ZERO)).unwrap();
    cs.enforce(
        || "one past the last",
        |lc| lc + a,
        |lc| lc,
        |lc| lc + Variable::new_unchecked(Index::Aux(1)),
    );
    let blank = ShapeCS { inner: cs };
    assert!(!blank.is_allocated());
    let mut cs = nova_snark::frontend::shape_cs::ShapeCS::<PallasEngine>::new();
    cs.enforce(
        || "one past the last",
        |lc| lc,
        |lc| lc + Variable::new_unchecked(Index::Input(1)),
        |lc| lc,
    );
    let blank = ShapeCS { inner: cs };
    assert!(!blank.is_allocated());
}

#[test]
fn the_shape_has_the_dimensions_of_the_circuit() {
    let (shape, _) = params();
    assert!(shape.has_dimensions_of(&blank()));
    assert!(!shape.has_dimensions_of(&squares(2)));
    let (two, _) = prover(1).make_shape_and_gens(&squares(2)).unwrap();
    assert!(two.has_dimensions_of(&squares(2)));
    assert!(!two.has_dimensions_of(&squares(3)));
    assert!(!two.has_dimensions_of(&blank()));
}

#[test]
fn an_instance_commits_to_its_own_witness_only() {
    let (shape, gens) = params();
    let oracle = Oracle::new(&shape);
    let frames = frames(1);
    let chunks = MultiFrame::from_frames(1, &frames);
    let assignments = [assignment(3)];
    let chunk = synthesized(&chunks, &assignments, 0);
    let one = NovaProver::<Fr>::make_r1cs(&chunk, &shape, &gens).unwrap();
    let other = NovaProver::<Fr>::make_r1cs(&chunk, &shape, &gens).unwrap();

    let folded = |pair: &(R1CSInstance, R1CSWitness)| {
        let start = initial_acc(&gens, &shape);
        let (_, acc) = NovaProver::<Fr>::make_step_snark(&gens, &shape, &start, pair, &oracle);
        FinalSNARK::prove(&acc.1).verify(&gens, &shape, &acc.0).is_ok()
    };
    assert!(folded(&one));
    assert!(folded(&other));
    // the blinds differ
    assert!(!folded(&(one.0, other.1)));
}

#[test]
fn the_challenge_depends_on_the_running_instance() {
    let (shape, gens) = params();
    let oracle = Oracle::new(&shape);
    let frames = frames(2);
    let chunks = MultiFrame::from_frames(1, &frames);
    let assignments = [assignment(3), assignment(7)];
    let make = |at: usize| {
        NovaProver::<Fr>::make_r1cs(&synthesized(&chunks, &assignments, at), &shape, &gens).unwrap()
    };
    let (first, second) = (make(0), make(1));
    let start = initial_acc(&gens, &shape);
    let (step1, acc1) = NovaProver::<Fr>::make_step_snark(&gens, &shape, &start, &first, &oracle);
    let (step2, acc2) = NovaProver::<Fr>::make_step_snark(&gens, &shape, &acc1, &second, &oracle);
    let final_proof = NovaProver::<Fr>::make_final_snark(&acc2.1);
    let swapped = step2.verify(&start.0, &second.0, &oracle).unwrap();
    let swapped = step1.verify(&swapped, &first.0, &oracle).unwrap();
    assert!(final_proof.verify(&gens, &shape, &swapped).is_err());
}

#[test]
fn more_inputs_than_a_step_takes_are_refused() {
    let mut cs = nova_snark::frontend::shape_cs::ShapeCS::<PallasEngine>::new();
    for _ in 0..0x0fff_fffeu32 {
        cs.alloc_input(|| "x", || Ok(Fr::ZERO)).unwrap();
    }
    let res = prover(1).evaluate_and_prove(&[], &[], &ShapeCS { inner: cs });
    assert!(matches!(res, Err(ProofError::TooManyInputs)));
}
