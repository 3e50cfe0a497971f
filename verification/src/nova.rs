//! Proofs that fold the chunks of a trace, one after the other, into one
//! relaxed instance.

use crate::circuit::{Assignment, MultiFrame, Synthesized};
use crate::eval::Frame;
use crate::prover::Prover;
use crate::r1cs::{
    clone_instance, clone_witness, default_instance, default_witness, gens_length,
    instance_and_witness, is_sat, is_sat_relaxed, list_aux, list_inputs, num_aux, num_constraints,
    num_inputs, r1cs_gens, r1cs_shape, relax_instance, relax_witness, ro_constants, shape_digest,
    shape_num_cons, shape_num_io, shape_num_vars, step_prove, step_verify, Fr, R1CSGens,
    R1CSInstance, R1CSShape, R1CSWitness, ROConstants, RelaxedR1CSInstance, RelaxedR1CSWitness,
    ShapeCS, StepSNARK, MAX_INPUTS,
};
#[allow(unused_imports)]
use crate::{folding, prover, r1cs};
use nova_snark::errors::NovaError;
use std::marker::PhantomData;
use vstd::prelude::*;

verus! {

/// Why a proof could not be made.
#[derive(Debug)]
pub enum ProofError {
    /// The constraint system is refused.
    Nova(NovaError),
    /// An assignment has another number of public inputs than the shape.
    InvalidInputLength,
    /// The frames are not one chunk for each assignment.
    InvalidFrameCount,
    /// The shape has more public inputs than a folding step takes.
    TooManyInputs,
    /// There are more columns than can be counted, or a constraint names a public
    /// input so far off that its column has no number.
    IndexOverflow,
}

/// What the challenges of the folding steps are drawn from, with the two
/// instances that a step folds and its commitment. Each challenge is drawn
/// afresh: it depends on the earlier steps only in that the instance which they
/// lead to is one of the two.
pub struct Oracle {
    pub constants: ROConstants,
    /// A digest of the shape, which every challenge depends on.
    pub digest: Fr,
}

/// The oracle for a shape.
pub open spec fn oracle_of(shape: R1CSShape) -> Oracle {
    Oracle {
        constants: r1cs::ro_constants_of(shape),
        digest: r1cs::digest_of(shape),
    }
}

impl Oracle {
    /// The oracle for a shape.
    pub fn new(shape: &R1CSShape) -> (res: Oracle)
        ensures
            res == oracle_of(*shape),
            res.constants == r1cs::ro_constants_of(*shape),
            res.digest == r1cs::digest_of(*shape),
    {
        Oracle { constants: ro_constants(), digest: shape_digest(shape) }
    }
}

impl StepSNARK {
    /// Checks a step from `acc` that folds in `instance`, and returns the
    /// instance that it leads to.
    pub fn verify(
        &self,
        acc: &RelaxedR1CSInstance,
        instance: &R1CSInstance,
        oracle: &Oracle,
    ) -> (res: Result<RelaxedR1CSInstance, NovaError>)
        requires
            r1cs::relaxed_inputs(*acc).len() <= MAX_INPUTS,
            r1cs::instance_inputs(*instance).len() <= MAX_INPUTS,
        ensures
            res is Ok,
            folding::verified(*oracle, *self, *acc, *instance) == Some(res->Ok_0),
            res == r1cs::step_verified(
                *self,
                oracle.constants,
                oracle.digest,
                *acc,
                r1cs::relaxed_of(*instance),
            ),
            r1cs::relaxed_inputs(res->Ok_0).len() <= r1cs::relaxed_inputs(*acc).len(),
            r1cs::relaxed_inputs(res->Ok_0).len() <= r1cs::instance_inputs(*instance).len(),
            r1cs::relaxed_inputs(res->Ok_0).len() == r1cs::relaxed_inputs(*acc).len()
                || r1cs::relaxed_inputs(res->Ok_0).len() == r1cs::instance_inputs(*instance).len(),
            r1cs::relaxed_inputs(res->Ok_0).len() == r1cs::shorter(
                r1cs::relaxed_inputs(*acc).len(),
                r1cs::instance_inputs(*instance).len(),
            ),
    {
        let relaxed = relax_instance(instance);
        step_verify(self, &oracle.constants, &oracle.digest, acc, &relaxed)
    }
}

/// The instance, and its witness, that folding starts from.
pub fn initial_acc(gens: &R1CSGens, shape: &R1CSShape) -> (res: (
    RelaxedR1CSInstance,
    RelaxedR1CSWitness,
))
    ensures
        res.0 == r1cs::default_instance_of(*gens, *shape),
        res.1 == r1cs::default_witness_of(*shape),
        folding::relaxed_fits(*shape, res),
        r1cs::key_fits(*shape, *gens) ==> r1cs::relaxed_sat(*shape, *gens, res.0, res.1),
        r1cs::relaxed_inputs(res.0).len() == r1cs::num_io(*shape),
        r1cs::relaxed_vars(res.1).len() == r1cs::num_vars(*shape),
        r1cs::relaxed_error(res.1).len() == r1cs::num_cons(*shape),
        r1cs::relaxed_satisfied(
            *shape,
            r1cs::relaxed_scalar(res.0),
            r1cs::relaxed_inputs(res.0),
            r1cs::relaxed_vars(res.1),
            r1cs::relaxed_error(res.1),
        ),
        r1cs::num_vars(*shape) <= r1cs::key_size(*gens) && r1cs::num_cons(*shape)
            <= r1cs::key_size(*gens) ==> r1cs::relaxed_committed(*gens, res.0, res.1),
{
    (default_instance(gens, shape), default_witness(shape))
}

impl R1CSGens {
    /// Whether there are generators enough for a shape.
    pub fn fits(&self, shape: &R1CSShape) -> (res: bool)
        ensures
            res == r1cs::key_fits(*shape, *self),
            res == (r1cs::num_vars(*shape) <= r1cs::key_size(*self) && r1cs::num_cons(*shape)
                <= r1cs::key_size(*self)),
    {
        let size: usize = gens_length(self);
        shape_num_vars(shape) <= size && shape_num_cons(shape) <= size
    }
}

/// A proof of the instance that a trace was folded into: its witness.
pub struct FinalSNARK {
    pub witness: RelaxedR1CSWitness,
}

impl FinalSNARK {
    /// Proves an instance by its witness.
    pub fn prove(witness: &RelaxedR1CSWitness) -> (res: FinalSNARK)
        ensures
            res.witness == *witness,
    {
        FinalSNARK { witness: clone_witness(witness) }
    }

    /// Checks that the witness satisfies an instance.
    pub fn verify(
        &self,
        gens: &R1CSGens,
        shape: &R1CSShape,
        instance: &RelaxedR1CSInstance,
    ) -> (res: Result<(), NovaError>)
        requires
            r1cs::num_vars(*shape) <= r1cs::key_size(*gens),
            r1cs::num_cons(*shape) <= r1cs::key_size(*gens),
        ensures
            (res is Ok) == r1cs::relaxed_sat(*shape, *gens, *instance, self.witness),
            (res is Ok) == (r1cs::relaxed_inputs(*instance).len() == r1cs::num_io(*shape)
                && r1cs::relaxed_vars(self.witness).len() == r1cs::num_vars(*shape)
                && r1cs::relaxed_error(self.witness).len() == r1cs::num_cons(*shape)
                && r1cs::relaxed_satisfied(
                *shape,
                r1cs::relaxed_scalar(*instance),
                r1cs::relaxed_inputs(*instance),
                r1cs::relaxed_vars(self.witness),
                r1cs::relaxed_error(self.witness),
            ) && r1cs::relaxed_committed(*gens, *instance, self.witness)),
    {
        is_sat_relaxed(shape, gens, instance, &self.witness)
    }
}

/// A proof of a trace.
pub struct Proof {
    /// The proofs of the folding steps, where they were verified.
    pub step_proofs: Vec<StepSNARK>,
    /// The proof of the instance that the trace was folded into.
    pub final_proof: FinalSNARK,
    /// The instance that the trace was folded into.
    pub final_instance: RelaxedR1CSInstance,
}

impl Proof {
    /// Whether the proof is one of `instance`.
    pub open spec fn proves(
        self,
        shape: R1CSShape,
        gens: R1CSGens,
        instance: RelaxedR1CSInstance,
    ) -> bool {
        r1cs::relaxed_sat(shape, gens, instance, self.final_proof.witness)
    }

    /// Whether the proof is one of `instance`, for the shape of the circuit and
    /// its generators.
    pub fn verify(
        &self,
        shape_and_gens: &(R1CSShape, R1CSGens),
        instance: &RelaxedR1CSInstance,
    ) -> (res: bool)
        requires
            r1cs::num_vars(shape_and_gens.0) <= r1cs::key_size(shape_and_gens.1),
            r1cs::num_cons(shape_and_gens.0) <= r1cs::key_size(shape_and_gens.1),
        ensures
            res == self.proves(shape_and_gens.0, shape_and_gens.1, *instance),
            res == (r1cs::relaxed_inputs(*instance).len() == r1cs::num_io(shape_and_gens.0)
                && r1cs::relaxed_vars(self.final_proof.witness).len() == r1cs::num_vars(
                shape_and_gens.0,
            ) && r1cs::relaxed_error(self.final_proof.witness).len() == r1cs::num_cons(
                shape_and_gens.0,
            )
                && r1cs::relaxed_satisfied(
                shape_and_gens.0,
                r1cs::relaxed_scalar(*instance),
                r1cs::relaxed_inputs(*instance),
                r1cs::relaxed_vars(self.final_proof.witness),
                r1cs::relaxed_error(self.final_proof.witness),
            ) && r1cs::relaxed_committed(shape_and_gens.1, *instance, self.final_proof.witness)),
    {
        self.final_proof.verify(&shape_and_gens.1, &shape_and_gens.0, instance).is_ok()
    }
}

/// Whether every assignment has as many public inputs as a shape.
pub fn check_assignments(shape: &R1CSShape, assignments: &[Assignment]) -> (res: bool)
    ensures
        res == folding::all_fit(*shape, assignments@),
        res == (forall|i: int|
            0 <= i < assignments@.len() ==> (#[trigger] assignments@[i]).inputs@.len()
                == r1cs::num_io(*shape)),
{
    for i in 0..assignments.len()
        invariant
            forall|k: int| 0 <= k < i ==> folding::fits(*shape, #[trigger] assignments@[k]),
    {
        if assignments[i].inputs.len() != shape_num_io(shape) {
            assert(!folding::fits(*shape, assignments@[i as int]));
            assert(assignments@[i as int].inputs@.len() != r1cs::num_io(*shape));
            return false;
        }
    }
    true
}

/// The columns of a circuit, the public inputs behind the private variables, can
/// be counted, and every public input that occurs in a constraint has one.
pub open spec fn columns_fit(blank: ShapeCS) -> bool {
    &&& r1cs::input_count(blank) + r1cs::aux_count(blank) <= usize::MAX
    &&& forall|k: int|
        0 <= k < r1cs::input_indices(blank).len() ==> #[trigger] r1cs::input_indices(blank)[k]
            + r1cs::aux_count(blank) <= usize::MAX
}

impl ShapeCS {
    /// Whether the columns can be counted, and every public input that occurs in
    /// a constraint has one.
    pub fn has_columns(&self) -> (res: bool)
        ensures
            res == columns_fit(*self),
            res == (r1cs::input_count(*self) + r1cs::aux_count(*self) <= usize::MAX && forall|
                k: int,
            |
                0 <= k < r1cs::input_indices(*self).len() ==> #[trigger] r1cs::input_indices(
                    *self,
                )[k] + r1cs::aux_count(*self) <= usize::MAX),
    {
        let aux: usize = num_aux(self);
        if num_inputs(self) > usize::MAX - aux {
            return false;
        }
        let indices = list_inputs(self);
        for i in 0..indices.len()
            invariant
                r1cs::input_count(*self) + aux <= usize::MAX,
                aux == r1cs::aux_count(*self),
                indices@ == r1cs::input_indices(*self),
                forall|k: int|
                    0 <= k < i ==> #[trigger] r1cs::input_indices(*self)[k] + aux <= usize::MAX,
        {
            if indices[i] > usize::MAX - aux {
                assert(r1cs::input_indices(*self)[i as int] + aux > usize::MAX);
                return false;
            }
        }
        true
    }

    /// Whether every variable that occurs in a constraint was allocated.
    pub fn is_allocated(&self) -> (res: bool)
        ensures
            res == r1cs::allocated(*self),
            res == ((forall|k: int|
                0 <= k < r1cs::input_indices(*self).len() ==> #[trigger] r1cs::input_indices(
                    *self,
                )[k] < r1cs::input_count(*self)) && (forall|k: int|
                0 <= k < r1cs::aux_indices(*self).len() ==> #[trigger] r1cs::aux_indices(*self)[k]
                    < r1cs::aux_count(*self))),
    {
        let inputs: usize = num_inputs(self);
        let indices = list_inputs(self);
        for i in 0..indices.len()
            invariant
                inputs == r1cs::input_count(*self),
                indices@ == r1cs::input_indices(*self),
                forall|k: int| 0 <= k < i ==> #[trigger] r1cs::input_indices(*self)[k] < inputs,
        {
            if indices[i] >= inputs {
                assert(r1cs::input_indices(*self)[i as int] >= inputs);
                return false;
            }
        }
        let aux: usize = num_aux(self);
        let indices = list_aux(self);
        for i in 0..indices.len()
            invariant
                aux == r1cs::aux_count(*self),
                indices@ == r1cs::aux_indices(*self),
                forall|k: int| 0 <= k < i ==> #[trigger] r1cs::aux_indices(*self)[k] < aux,
        {
            if indices[i] >= aux {
                assert(r1cs::aux_indices(*self)[i as int] >= aux);
                return false;
            }
        }
        true
    }
}

/// The shape of a circuit, and the generators for it.
pub open spec fn shape_and_gens_of(blank: ShapeCS) -> Result<(R1CSShape, R1CSGens), ProofError> {
    if !columns_fit(blank) {
        Err(ProofError::IndexOverflow)
    } else {
        match r1cs::r1cs_shape_of(blank) {
            Ok(shape) => Ok((shape, r1cs::gens_of(shape))),
            Err(e) => Err(ProofError::Nova(e)),
        }
    }
}

/// A shape has the dimensions of a circuit. The constant one is no input of it.
pub open spec fn dimensions_of(blank: ShapeCS, shape: R1CSShape) -> bool {
    &&& r1cs::num_io(shape) + 1 == r1cs::input_count(blank)
    &&& r1cs::num_vars(shape) == r1cs::aux_count(blank)
    &&& r1cs::num_cons(shape) == r1cs::constraint_count(blank)
}

impl R1CSShape {
    /// Whether the shape has the dimensions of a circuit.
    pub fn has_dimensions_of(&self, blank: &ShapeCS) -> (res: bool)
        ensures
            res == dimensions_of(*blank, *self),
            res == (r1cs::num_io(*self) + 1 == r1cs::input_count(*blank) && r1cs::num_vars(*self)
                == r1cs::aux_count(*blank) && r1cs::num_cons(*self) == r1cs::constraint_count(
                *blank,
            )),
    {
        let inputs: usize = num_inputs(blank);
        inputs != 0 && shape_num_io(self) == inputs - 1 && shape_num_vars(self) == num_aux(blank)
            && shape_num_cons(self) == num_constraints(blank)
    }
}

/// Whether a trace of `count` frames can be proved, or why not.
pub open spec fn provable(
    chunk_size: usize,
    count: nat,
    assignments: Seq<Assignment>,
    blank: ShapeCS,
) -> Result<(), ProofError> {
    match shape_and_gens_of(blank) {
        Err(e) => Err(e),
        Ok((shape, _)) => if count != chunk_size * assignments.len() {
            Err(ProofError::InvalidFrameCount)
        } else if r1cs::num_io(shape) > MAX_INPUTS {
            Err(ProofError::TooManyInputs)
        } else if !folding::all_fit(shape, assignments) {
            Err(ProofError::InvalidInputLength)
        } else {
            Ok(())
        },
    }
}

/// What proving a trace gives: a proof of it, and the instance that it is folded
/// into.
pub open spec fn proved(
    shape: R1CSShape,
    gens: R1CSGens,
    assignments: Seq<Assignment>,
    verify_steps: bool,
    made: (Proof, RelaxedR1CSInstance),
) -> bool {
    &&& folding::proof_of(shape, gens, assignments, verify_steps, made.0)
    &&& made.1 == made.0.final_instance
}

/// What making the shape and the generators for a circuit, and proving a trace
/// with them, gives.
pub open spec fn evaluated(
    chunk_size: usize,
    count: nat,
    assignments: Seq<Assignment>,
    blank: ShapeCS,
    res: Result<(Proof, RelaxedR1CSInstance), ProofError>,
) -> bool {
    match provable(chunk_size, count, assignments, blank) {
        Err(e) => res == Err::<(Proof, RelaxedR1CSInstance), ProofError>(e),
        Ok(()) => {
            let (shape, gens) = shape_and_gens_of(blank)->Ok_0;
            res is Ok && proved(shape, gens, assignments, true, res->Ok_0)
        },
    }
}

/// Evaluating gives what proving the same trace does, with the shape and the
/// generators made for the circuit and the steps verified: one may come to a
/// result exactly where the other may.
pub proof fn evaluating_is_proving(
    chunk_size: usize,
    count: nat,
    assignments: Seq<Assignment>,
    blank: ShapeCS,
    made: (Proof, RelaxedR1CSInstance),
)
    requires
        provable(chunk_size, count, assignments, blank) is Ok,
    ensures
        shape_and_gens_of(blank) is Ok,
        evaluated(chunk_size, count, assignments, blank, Ok(made)) <==> {
            let (shape, gens) = shape_and_gens_of(blank)->Ok_0;
            proved(shape, gens, assignments, true, made)
        },
{
}

/// A proof system that folds the chunks of a trace.
pub trait Nova<F>: Prover<F> {
    /// The instance and the witness of a chunk, made of its assignment. Private
    /// variables that the shape has not are cut off, and those that the
    /// assignment has not are zero.
    fn make_r1cs(
        chunk: &Synthesized<'_, Fr>,
        shape: &R1CSShape,
        gens: &R1CSGens,
    ) -> (res: Result<(R1CSInstance, R1CSWitness), NovaError>)
        requires
            r1cs::num_vars(*shape) <= r1cs::key_size(*gens),
            r1cs::num_cons(*shape) <= r1cs::key_size(*gens),
        ensures
            (res is Ok) <==> chunk.assignment.inputs@.len() == r1cs::num_io(*shape),
            res is Ok ==> r1cs::instance_inputs(res->Ok_0.0) == chunk.assignment.inputs@,
            res is Ok ==> r1cs::witness_vars(res->Ok_0.1).len() == r1cs::num_vars(*shape),
            res is Ok ==> forall|i: int|
                0 <= i < r1cs::num_vars(*shape) && i < chunk.assignment.vars@.len()
                    ==> #[trigger] r1cs::witness_vars(res->Ok_0.1)[i]
                    == chunk.assignment.vars@[i],
            res is Ok ==> forall|i: int|
                chunk.assignment.vars@.len() <= i < r1cs::num_vars(*shape)
                    ==> #[trigger] r1cs::witness_vars(res->Ok_0.1)[i] == r1cs::zero_of(*shape),
            res is Ok ==> r1cs::committed(*gens, res->Ok_0.0, res->Ok_0.1),
            (res is Ok) <==> folding::fits(*shape, *chunk.assignment),
            res is Ok ==> folding::carries(
                *shape,
                *gens,
                *chunk.assignment,
                res->Ok_0,
            ),
            res is Err ==> res->Err_0 == r1cs::input_error(*shape, chunk.assignment.inputs@),
    {
        let assignment = chunk.assignment;
        let res = instance_and_witness(&assignment.inputs, &assignment.vars, shape, gens);
        proof {
            if res is Ok {
                assert(r1cs::witness_vars(res->Ok_0.1) == r1cs::resized(*shape, assignment.vars@));
            }
        }
        res
    }

    /// One folding step: the proof of it, and what it folds into.
    fn make_step_snark(
        gens: &R1CSGens,
        shape: &R1CSShape,
        acc: &(RelaxedR1CSInstance, RelaxedR1CSWitness),
        pair: &(R1CSInstance, R1CSWitness),
        oracle: &Oracle,
    ) -> (res: (StepSNARK, (RelaxedR1CSInstance, RelaxedR1CSWitness)))
        requires
            r1cs::num_vars(*shape) <= r1cs::key_size(*gens),
            r1cs::num_cons(*shape) <= r1cs::key_size(*gens),
            r1cs::num_io(*shape) <= MAX_INPUTS,
            r1cs::relaxed_inputs(acc.0).len() == r1cs::num_io(*shape),
            r1cs::relaxed_vars(acc.1).len() == r1cs::num_vars(*shape),
            r1cs::instance_inputs(pair.0).len() == r1cs::num_io(*shape),
            r1cs::witness_vars(pair.1).len() == r1cs::num_vars(*shape),
        ensures
            r1cs::step_verified(
                res.0,
                oracle.constants,
                oracle.digest,
                acc.0,
                r1cs::relaxed_of(pair.0),
            ) == Ok::<RelaxedR1CSInstance, NovaError>(res.1.0),
            r1cs::relaxed_vars(res.1.1) == r1cs::folded_vars(
                res.0,
                oracle.constants,
                oracle.digest,
                acc.0,
                r1cs::relaxed_of(pair.0),
                r1cs::relaxed_vars(acc.1),
                r1cs::witness_vars(pair.1),
            ),
            folding::step_folds(*shape, *gens, *oracle, *acc, *pair, res.0, res.1),
    {
        let instance = relax_instance(&pair.0);
        let witness = relax_witness(shape, &pair.1);
        let res = step_prove(
            gens,
            &oracle.constants,
            &oracle.digest,
            shape,
            &acc.0,
            &acc.1,
            &instance,
            &witness,
        );
        match res {
            Ok(step) => step,
            Err(_) => vstd::pervasive::unreached(),
        }
    }

    /// The proof of what a trace was folded into.
    fn make_final_snark(witness: &RelaxedR1CSWitness) -> (res: FinalSNARK)
        ensures
            res.witness == *witness,
    {
        FinalSNARK::prove(witness)
    }

    /// The shape of the circuit that checks a chunk, and the generators for it.
    fn make_shape_and_gens(&self, blank: &ShapeCS) -> (res: Result<
        (R1CSShape, R1CSGens),
        ProofError,
    >)
        ensures
            res == shape_and_gens_of(*blank),
            res is Ok ==> dimensions_of(*blank, res->Ok_0.0),
            res is Ok ==> r1cs::key_fits(res->Ok_0.0, res->Ok_0.1),
            r1cs::allocated(*blank) && columns_fit(*blank) ==> res is Ok,
            r1cs::input_count(*blank) + r1cs::aux_count(*blank) <= usize::MAX && (forall|k: int|
                0 <= k < r1cs::input_indices(*blank).len() ==> #[trigger] r1cs::input_indices(
                    *blank,
                )[k] < r1cs::input_count(*blank)) && (forall|k: int|
                0 <= k < r1cs::aux_indices(*blank).len() ==> #[trigger] r1cs::aux_indices(*blank)[k]
                    < r1cs::aux_count(*blank)) ==> res is Ok,
            (res matches Err(ProofError::IndexOverflow)) <==> {
                ||| r1cs::input_count(*blank) + r1cs::aux_count(*blank) > usize::MAX
                ||| exists|k: int|
                    0 <= k < r1cs::input_indices(*blank).len() && #[trigger] r1cs::input_indices(
                        *blank,
                    )[k] + r1cs::aux_count(*blank) > usize::MAX
            },
            res is Ok ==> r1cs::r1cs_shape_of(*blank) == Ok::<R1CSShape, NovaError>(res->Ok_0.0),
            res is Ok ==> res->Ok_0.1 == r1cs::gens_of(res->Ok_0.0),
            res is Err && !(res->Err_0 is IndexOverflow) ==> r1cs::r1cs_shape_of(*blank) is Err
                && res->Err_0 == ProofError::Nova(r1cs::r1cs_shape_of(*blank)->Err_0),
            res is Ok ==> r1cs::num_io(res->Ok_0.0) + 1 == r1cs::input_count(*blank),
            res is Ok ==> r1cs::num_vars(res->Ok_0.0) == r1cs::aux_count(*blank),
            res is Ok ==> r1cs::num_cons(res->Ok_0.0) == r1cs::constraint_count(*blank),
            res is Ok ==> r1cs::num_vars(res->Ok_0.0) <= r1cs::key_size(res->Ok_0.1),
            res is Ok ==> r1cs::num_cons(res->Ok_0.0) <= r1cs::key_size(res->Ok_0.1),
    ;

    /// Folds the chunks of a trace, in order, and proves what they fold into. What
    /// is folded of a chunk is the assignment of its circuit: the frames only say
    /// how many chunks there are. With `verify_steps` every step is verified and its proof kept.
    fn make_proof(
        &self,
        frames: &[Frame<Fr>],
        assignments: &[Assignment],
        shape: &R1CSShape,
        gens: &R1CSGens,
        verify_steps: bool,
    ) -> (res: Result<(Proof, RelaxedR1CSInstance), ProofError>)
        requires
            r1cs::num_vars(*shape) <= r1cs::key_size(*gens),
            r1cs::num_cons(*shape) <= r1cs::key_size(*gens),
            r1cs::num_io(*shape) <= MAX_INPUTS,
            self.chunk_size() != 0,
            frames@.len() == self.chunk_size() * assignments@.len(),
            forall|i: int|
                0 <= i < assignments@.len() ==> (#[trigger] assignments@[i]).inputs@.len()
                    == r1cs::num_io(*shape),
        ensures
            res is Ok,
            proved(*shape, *gens, assignments@, verify_steps, res->Ok_0),
            folding::proof_of(*shape, *gens, assignments@, verify_steps, res->Ok_0.0),
            res->Ok_0.1 == res->Ok_0.0.final_instance,
            verify_steps ==> res->Ok_0.0.step_proofs@.len() == assignments@.len(),
            !verify_steps ==> res->Ok_0.0.step_proofs@.len() == 0,
    {
        proof {
            prover::whole_chunks(
                self.chunk_size() as nat,
                frames@.len(),
                assignments@.len(),
            );
        }
        let multiframes = MultiFrame::from_frames(self.chunk_frame_count(), frames);
        let mut r1cs_instances: Vec<(R1CSInstance, R1CSWitness)> = Vec::new();
        for i in 0..multiframes.len()
            invariant
                r1cs::num_vars(*shape) <= r1cs::key_size(*gens),
                r1cs::num_cons(*shape) <= r1cs::key_size(*gens),
                multiframes@.len() == assignments@.len(),
                folding::all_fit(*shape, assignments@),
                r1cs_instances@.len() == i,
                folding::carry(
                    *shape,
                    *gens,
                    assignments@.subrange(0, i as int),
                    r1cs_instances@,
                ),
        {
            let chunk = Synthesized { multi_frame: &multiframes[i], assignment: &assignments[i] };
            match Self::make_r1cs(&chunk, shape, gens) {
                Ok(pair) => {
                    r1cs_instances.push(pair);
                },
                Err(_) => {
                    assert(folding::fits(*shape, assignments@[i as int]));
                    vstd::pervasive::unreached::<()>()
                },
            }
        }
        assert(assignments@.subrange(0, assignments@.len() as int) == assignments@);

        let oracle = Oracle::new(shape);
        let mut step_proofs: Vec<StepSNARK> = Vec::new();
        let mut acc = initial_acc(gens, shape);
        let ghost mut steps: Seq<StepSNARK> = Seq::empty();
        let ghost mut accs: Seq<(RelaxedR1CSInstance, RelaxedR1CSWitness)> = seq![acc];
        let ghost pairs = r1cs_instances@;

        for i in 0..r1cs_instances.len()
            invariant
                r1cs::num_vars(*shape) <= r1cs::key_size(*gens),
                r1cs::num_cons(*shape) <= r1cs::key_size(*gens),
                oracle == oracle_of(*shape),
                r1cs::num_io(*shape) <= MAX_INPUTS,
                pairs == r1cs_instances@,
                forall|k: int|
                    0 <= k < pairs.len() ==> folding::pair_fits(*shape, #[trigger] pairs[k]),
                folding::relaxed_fits(*shape, acc),
                accs.len() == i + 1,
                acc == accs.last(),
                folding::folds(*shape, *gens, pairs.subrange(0, i as int), steps, accs),
                step_proofs@ == (if verify_steps {
                    steps
                } else {
                    Seq::<StepSNARK>::empty()
                }),
        {
            let (step_proof, next) = Self::make_step_snark(
                gens,
                shape,
                &acc,
                &r1cs_instances[i],
                &oracle,
            );
            proof {
                steps = steps.push(step_proof);
                accs = accs.push(next);
            }
            if verify_steps {
                let verified = step_proof.verify(&acc.0, &r1cs_instances[i].0, &oracle);
                assert(verified is Ok);
                step_proofs.push(step_proof);
            }
            acc = next;
        }
        assert(pairs.subrange(0, pairs.len() as int) == pairs);

        let final_proof = Self::make_final_snark(&acc.1);
        let proof = Proof { step_proofs, final_proof, final_instance: clone_instance(&acc.0) };
        assert(folding::traces(
            *shape,
            *gens,
            assignments@,
            verify_steps,
            proof,
            pairs,
            steps,
            accs,
        ));
        Ok((proof, acc.0))
    }

    /// Whether the assignment of a chunk meets the constraints of the shape.
    fn is_satisfied(
        chunk: &Synthesized<'_, Fr>,
        shape: &R1CSShape,
        gens: &R1CSGens,
    ) -> (res: Result<bool, NovaError>)
        requires
            r1cs::num_vars(*shape) <= r1cs::key_size(*gens),
            r1cs::num_cons(*shape) <= r1cs::key_size(*gens),
        ensures
            (res is Ok) <==> chunk.assignment.inputs@.len() == r1cs::num_io(*shape),
            res is Ok ==> forall|full: Seq<Fr>|
                #![trigger r1cs::satisfied(*shape, chunk.assignment.inputs@, full)]
                full.len() == r1cs::num_vars(*shape) && (forall|i: int|
                    0 <= i < full.len() ==> #[trigger] full[i] == (if i
                        < chunk.assignment.vars@.len() {
                        chunk.assignment.vars@[i]
                    } else {
                        r1cs::zero_of(*shape)
                    })) ==> res->Ok_0 == r1cs::satisfied(
                    *shape,
                    chunk.assignment.inputs@,
                    full,
                ),
            (res is Ok) <==> folding::fits(*shape, *chunk.assignment),
            res is Ok ==> res->Ok_0 == folding::meets(*shape, *chunk.assignment),
            res is Err ==> res->Err_0 == r1cs::input_error(*shape, chunk.assignment.inputs@),
    {
        match Self::make_r1cs(chunk, shape, gens) {
            Ok((instance, witness)) => {
                assert forall|full: Seq<Fr>|
                    #![trigger r1cs::satisfied(*shape, chunk.assignment.inputs@, full)]
                    full.len() == r1cs::num_vars(*shape) && (forall|i: int|
                        0 <= i < full.len() ==> #[trigger] full[i] == (if i
                            < chunk.assignment.vars@.len() {
                            chunk.assignment.vars@[i]
                        } else {
                            r1cs::zero_of(*shape)
                        })) implies full == r1cs::witness_vars(witness) by {
                    assert(full =~= r1cs::witness_vars(witness));
                }
                Ok(is_sat(shape, gens, &instance, &witness).is_ok())
            },
            Err(e) => Err(e),
        }
    }

    /// Makes the shape and the generators for a circuit, and proves a trace
    /// with them, verifying every step.
    fn evaluate_and_prove(
        &self,
        frames: &[Frame<Fr>],
        assignments: &[Assignment],
        blank: &ShapeCS,
    ) -> (res: Result<(Proof, RelaxedR1CSInstance), ProofError>)
        requires
            self.chunk_size() != 0,
        ensures
            r1cs::input_count(*blank) + r1cs::aux_count(*blank) <= usize::MAX && (forall|k: int|
                0 <= k < r1cs::input_indices(*blank).len() ==> #[trigger] r1cs::input_indices(
                    *blank,
                )[k] < r1cs::input_count(*blank)) && (forall|k: int|
                0 <= k < r1cs::aux_indices(*blank).len() ==> #[trigger] r1cs::aux_indices(*blank)[k]
                    < r1cs::aux_count(*blank)) && frames@.len() == self.chunk_size()
                * assignments@.len() && r1cs::input_count(*blank) <= MAX_INPUTS + 1 && (forall|
                i: int,
            |
                0 <= i < assignments@.len() ==> (#[trigger] assignments@[i]).inputs@.len() + 1
                    == r1cs::input_count(*blank)) ==> res is Ok,
            (res matches Err(ProofError::IndexOverflow)) <==> {
                ||| r1cs::input_count(*blank) + r1cs::aux_count(*blank) > usize::MAX
                ||| exists|k: int|
                    0 <= k < r1cs::input_indices(*blank).len() && #[trigger] r1cs::input_indices(
                        *blank,
                    )[k] + r1cs::aux_count(*blank) > usize::MAX
            },
            (res matches Err(ProofError::Nova(_))) ==> r1cs::r1cs_shape_of(*blank) is Err
                && res->Err_0 == ProofError::Nova(r1cs::r1cs_shape_of(*blank)->Err_0),
            (res matches Err(ProofError::InvalidFrameCount)) ==> frames@.len() != self.chunk_size()
                * assignments@.len(),
            (res matches Err(ProofError::TooManyInputs)) ==> r1cs::input_count(*blank) > MAX_INPUTS
                + 1,
            (res matches Err(ProofError::InvalidInputLength)) ==> exists|i: int|
                0 <= i < assignments@.len() && (#[trigger] assignments@[i]).inputs@.len() + 1
                    != r1cs::input_count(*blank),
            res is Ok ==> {
                let shape = r1cs::r1cs_shape_of(*blank)->Ok_0;
                &&& r1cs::r1cs_shape_of(*blank) is Ok
                &&& r1cs::num_io(shape) + 1 == r1cs::input_count(*blank)
                &&& r1cs::num_io(shape) <= MAX_INPUTS
                &&& frames@.len() == self.chunk_size() * assignments@.len()
                &&& forall|i: int|
                    0 <= i < assignments@.len() ==> (#[trigger] assignments@[i]).inputs@.len()
                        == r1cs::num_io(shape)
                &&& folding::proof_of(
                    shape,
                    r1cs::gens_of(shape),
                    assignments@,
                    true,
                    res->Ok_0.0,
                )
                &&& res->Ok_0.0.step_proofs@.len() == assignments@.len()
                &&& res->Ok_0.1 == res->Ok_0.0.final_instance
            },
            evaluated(self.chunk_size(), frames@.len(), assignments@, *blank, res),
            res is Ok ==> {
                let (shape, gens) = shape_and_gens_of(*blank)->Ok_0;
                folding::all_meet(shape, assignments@) ==> res->Ok_0.0.proves(
                    shape,
                    gens,
                    res->Ok_0.1,
                )
            },
    {
        let (shape, gens) = match self.make_shape_and_gens(blank) {
            Ok(shape_and_gens) => shape_and_gens,
            Err(e) => {
                return Err(e);
            },
        };
        let count: usize = frames.len();
        let chunk_size: usize = self.chunk_frame_count();
        proof {
            prover::whole_chunks(
                chunk_size as nat,
                count as nat,
                assignments@.len(),
            );
        }
        if self.needs_frame_padding(count) || count / chunk_size != assignments.len() {
            return Err(ProofError::InvalidFrameCount);
        }
        if shape_num_io(&shape) > MAX_INPUTS {
            return Err(ProofError::TooManyInputs);
        }
        if !check_assignments(&shape, assignments) {
            return Err(ProofError::InvalidInputLength);
        }
        let res = self.make_proof(frames, assignments, &shape, &gens, true);
        proof {
            let made = res->Ok_0.0;
            folding::steps_kept(shape, gens, assignments@, true, made);
            if folding::all_meet(shape, assignments@) {
                folding::satisfied_trace_verifies(shape, gens, assignments@, true, made);
            }
        }
        res
    }
}

/// A prover for traces cut into chunks of one size.
pub struct NovaProver<F> {
    chunk_frame_count: usize,
    _p: PhantomData<F>,
}

impl<F> NovaProver<F> {
    /// A prover with chunks of `chunk_frame_count` frames.
    pub fn new(chunk_frame_count: usize) -> (res: Self)
        ensures
            res.chunk_size() == chunk_frame_count,
    {
        NovaProver::<F> { chunk_frame_count, _p: PhantomData::<F> }
    }
}

impl<F> Prover<F> for NovaProver<F> {
    closed spec fn chunk_size(&self) -> usize {
        self.chunk_frame_count
    }

    fn chunk_frame_count(&self) -> (res: usize) {
        self.chunk_frame_count
    }
}

impl<F> Nova<F> for NovaProver<F> {
    fn make_shape_and_gens(&self, blank: &ShapeCS) -> (res: Result<
        (R1CSShape, R1CSGens),
        ProofError,
    >) {
        if !blank.has_columns() {
            return Err(ProofError::IndexOverflow);
        }
        match r1cs_shape(blank) {
            Ok(shape) => match r1cs_gens(&shape) {
                Ok(gens) => Ok((shape, gens)),
                Err(e) => Err(ProofError::Nova(e)),
            },
            Err(e) => Err(ProofError::Nova(e)),
        }
    }
}

} // verus!
