//! The constraint systems, instances, witnesses and folding steps of the
//! `nova-snark` crate, over the Pallas curve.
//!
//! Every item below that is marked `external_body` is trusted: its contract is
//! what the crate's source shows of the function it calls, and is not proved.
//!
//! The crate's types are generic over its engine trait, which Verus does not
//! know, so each is held in a struct of this module. The fields are private,
//! but for that of [`ShapeCS`]: a value of another of these types always comes
//! from one of the calls below.

use nova_snark::errors::NovaError;
use nova_snark::frontend::r1cs::{NovaShape, NovaWitness};
use nova_snark::frontend::solver::SatisfyingAssignment;
use nova_snark::frontend::ConstraintSystem;
use nova_snark::nova::nifs::NIFSRelaxed;
use nova_snark::provider::pasta::pallas;
use nova_snark::provider::pedersen::CommitmentKey;
use nova_snark::provider::PallasEngine;
use nova_snark::traits::commitment::Len;
use nova_snark::traits::snark::default_ck_hint;
use rand_core::OsRng;
use vstd::prelude::*;

verus! {

/// The errors of `nova-snark`, carried through unread.
#[verifier::external_type_specification]
#[verifier::external_body]
pub struct ExNovaError(NovaError);

/// An element of the scalar field of the Pallas curve.
#[verifier::external_type_specification]
#[verifier::external_body]
pub struct ExScalar(pallas::Scalar);

/// The scalar field over which circuits are written.
pub type Fr = pallas::Scalar;

/// A constraint system into which a circuit without values was synthesized:
/// its variables are counted and its constraints recorded.
#[verifier::external_body]
pub struct ShapeCS {
    pub inner: nova_snark::frontend::shape_cs::ShapeCS<PallasEngine>,
}

/// The matrices of a rank-1 constraint system.
#[verifier::external_body]
pub struct R1CSShape {
    inner: nova_snark::r1cs::R1CSShape<PallasEngine>,
}

/// The generators with which witnesses are committed to.
#[verifier::external_body]
pub struct R1CSGens {
    inner: CommitmentKey<PallasEngine>,
}

/// A rank-1 constraint system instance: public inputs and a commitment.
#[verifier::external_body]
pub struct R1CSInstance {
    inner: nova_snark::r1cs::R1CSInstance<PallasEngine>,
}

/// A witness of an [`R1CSInstance`].
#[verifier::external_body]
pub struct R1CSWitness {
    inner: nova_snark::r1cs::R1CSWitness<PallasEngine>,
}

/// What instances are folded into.
#[verifier::external_body]
pub struct RelaxedR1CSInstance {
    inner: nova_snark::r1cs::RelaxedR1CSInstance<PallasEngine>,
}

/// A witness of a [`RelaxedR1CSInstance`].
#[verifier::external_body]
pub struct RelaxedR1CSWitness {
    inner: nova_snark::r1cs::RelaxedR1CSWitness<PallasEngine>,
}

/// The proof of one folding step.
#[verifier::external_body]
pub struct StepSNARK {
    inner: NIFSRelaxed<PallasEngine>,
}

/// The constants of the random oracle from which folding challenges are drawn.
#[verifier::external_body]
pub struct ROConstants {
    inner: nova_snark::traits::ROConstants<PallasEngine>,
}

/// What `ShapeCS::num_inputs` returns: how many public inputs were allocated,
/// with the constant one.
pub uninterp spec fn input_count(cs: ShapeCS) -> usize;

/// Calls `ShapeCS::num_inputs`.
#[verifier::external_body]
pub(crate) fn num_inputs(cs: &ShapeCS) -> (res: usize)
    ensures
        res == input_count(*cs),
{
    cs.inner.num_inputs()
}

/// What `ShapeCS::num_aux` returns: how many private variables were allocated.
pub uninterp spec fn aux_count(cs: ShapeCS) -> usize;

/// Calls `ShapeCS::num_aux`.
#[verifier::external_body]
pub(crate) fn num_aux(cs: &ShapeCS) -> (res: usize)
    ensures
        res == aux_count(*cs),
{
    cs.inner.num_aux()
}

/// What `ShapeCS::num_constraints` returns: how many constraints were recorded.
pub uninterp spec fn constraint_count(cs: ShapeCS) -> usize;

/// Calls `ShapeCS::num_constraints`.
#[verifier::external_body]
pub(crate) fn num_constraints(cs: &ShapeCS) -> (res: usize)
    ensures
        res == constraint_count(*cs),
{
    cs.inner.num_constraints()
}

/// What `LinearCombination::iter_inputs` walks over, for all the constraints:
/// the indices of the public inputs that occur in them.
pub uninterp spec fn input_indices(cs: ShapeCS) -> Seq<usize>;

/// Calls `LinearCombination::iter_inputs` on the three sides of each constraint.
/// Claimed: the indices depend on the constraint system alone.
#[verifier::external_body]
pub(crate) fn list_inputs(cs: &ShapeCS) -> (res: Vec<usize>)
    ensures
        res@ == input_indices(*cs),
{
    let sides = cs.inner.constraints.iter().flat_map(|(a, b, c)| [a, b, c]);
    sides.flat_map(|side| side.iter_inputs()).map(|(index, _)| *index).collect()
}

/// What `LinearCombination::iter_aux` walks over, for all the constraints: the
/// indices of the private variables that occur in them.
pub uninterp spec fn aux_indices(cs: ShapeCS) -> Seq<usize>;

/// Calls `LinearCombination::iter_aux` on the three sides of each constraint.
/// Claimed: the indices depend on the constraint system alone.
#[verifier::external_body]
pub(crate) fn list_aux(cs: &ShapeCS) -> (res: Vec<usize>)
    ensures
        res@ == aux_indices(*cs),
{
    let sides = cs.inner.constraints.iter().flat_map(|(a, b, c)| [a, b, c]);
    sides.flat_map(|side| side.iter_aux()).map(|(index, _)| *index).collect()
}

/// Every variable that occurs in a constraint was allocated.
pub open spec fn allocated(cs: ShapeCS) -> bool {
    &&& forall|k: int|
        0 <= k < input_indices(cs).len() ==> #[trigger] input_indices(cs)[k] < input_count(cs)
    &&& forall|k: int|
        0 <= k < aux_indices(cs).len() ==> #[trigger] aux_indices(cs)[k] < aux_count(cs)
}

/// What `NovaShape::r1cs_shape` returns for a constraint system.
pub uninterp spec fn r1cs_shape_of(cs: ShapeCS) -> Result<R1CSShape, NovaError>;

/// Calls `NovaShape::r1cs_shape`, which lays out the recorded constraints as
/// three matrices, the public inputs in the columns behind the private
/// variables. It adds up the two to find a column, and to count the columns,
/// without a check, so the sums must fit. It fails where a matrix has an entry
/// past its last column. Claimed: the result depends on the constraint system
/// alone, the shape has the dimensions of the constraint system, and with
/// allocated variables only the call succeeds. Which other constraint systems
/// are refused is not said.
#[verifier::external_body]
pub(crate) fn r1cs_shape(cs: &ShapeCS) -> (res: Result<R1CSShape, NovaError>)
    requires
        input_count(*cs) + aux_count(*cs) <= usize::MAX,
        forall|k: int|
            0 <= k < input_indices(*cs).len() ==> #[trigger] input_indices(*cs)[k] + aux_count(*cs)
                <= usize::MAX,
    ensures
        res == r1cs_shape_of(*cs),
        res is Ok ==> num_io(res->Ok_0) + 1 == input_count(*cs),
        res is Ok ==> num_vars(res->Ok_0) == aux_count(*cs),
        res is Ok ==> num_cons(res->Ok_0) == constraint_count(*cs),
        allocated(*cs) ==> res is Ok,
{
    match cs.inner.r1cs_shape() {
        Ok(inner) => Ok(R1CSShape { inner }),
        Err(e) => Err(e),
    }
}

/// The generators that `R1CSShape::commitment_key` returns for one shape.
pub uninterp spec fn gens_of(shape: R1CSShape) -> R1CSGens;

/// Calls `R1CSShape::commitment_key` on one shape, with the hint that asks for
/// no more generators than the shape needs. The generators are hashed from a
/// fixed label, and for the Pedersen commitments of the Pallas engine the call
/// has no error. Claimed: it succeeds, with a result that depends on the shape
/// alone and has generators enough for the shape.
#[verifier::external_body]
pub(crate) fn r1cs_gens(shape: &R1CSShape) -> (res: Result<R1CSGens, NovaError>)
    ensures
        res is Ok,
        res->Ok_0 == gens_of(*shape),
        num_vars(*shape) <= key_size(res->Ok_0),
        num_cons(*shape) <= key_size(res->Ok_0),
{
    match nova_snark::r1cs::R1CSShape::commitment_key(&[&shape.inner], &[&*default_ck_hint()]) {
        Ok(inner) => Ok(R1CSGens { inner }),
        Err(e) => Err(e),
    }
}

/// What `Len::length` returns for generators: how many values they can commit to.
pub uninterp spec fn key_size(gens: R1CSGens) -> usize;

/// Calls `Len::length`.
#[verifier::external_body]
pub(crate) fn gens_length(gens: &R1CSGens) -> (res: usize)
    ensures
        res == key_size(*gens),
{
    gens.inner.length()
}

/// There are generators enough to commit to what a shape makes of a witness: its
/// private variables, or an error for each constraint.
pub open spec fn key_fits(shape: R1CSShape, gens: R1CSGens) -> bool {
    &&& num_vars(shape) <= key_size(gens)
    &&& num_cons(shape) <= key_size(gens)
}

/// What `R1CSShape::num_io` returns: how many public inputs a shape has.
pub uninterp spec fn num_io(shape: R1CSShape) -> usize;

/// Calls `R1CSShape::num_io`.
#[verifier::external_body]
pub(crate) fn shape_num_io(shape: &R1CSShape) -> (res: usize)
    ensures
        res == num_io(*shape),
{
    shape.inner.num_io()
}

/// What `R1CSShape::num_vars` returns: how many private variables a shape has.
pub uninterp spec fn num_vars(shape: R1CSShape) -> usize;

/// Calls `R1CSShape::num_vars`.
#[verifier::external_body]
pub(crate) fn shape_num_vars(shape: &R1CSShape) -> (res: usize)
    ensures
        res == num_vars(*shape),
{
    shape.inner.num_vars()
}

/// What `R1CSShape::num_cons` returns: how many constraints a shape has.
pub uninterp spec fn num_cons(shape: R1CSShape) -> usize;

/// Calls `R1CSShape::num_cons`.
#[verifier::external_body]
pub(crate) fn shape_num_cons(shape: &R1CSShape) -> (res: usize)
    ensures
        res == num_cons(*shape),
{
    shape.inner.num_cons()
}

/// The zero of the field that a shape is over. The field is the same for every
/// shape here: the shape is an argument for want of another.
pub uninterp spec fn zero_of(shape: R1CSShape) -> Fr;

/// Zeros alone.
pub open spec fn zeros(shape: R1CSShape, count: nat) -> Seq<Fr> {
    Seq::new(count, |i: int| zero_of(shape))
}

/// Values for the private variables of a shape: those given, as far as there are
/// variables for them, and zeros for the rest.
pub open spec fn resized(shape: R1CSShape, vars: Seq<Fr>) -> Seq<Fr> {
    Seq::new(
        num_vars(shape) as nat,
        |i: int|
            if i < vars.len() {
                vars[i]
            } else {
                zero_of(shape)
            },
    )
}

/// What `R1CSInstance::X` returns: the public inputs of an instance.
pub uninterp spec fn instance_inputs(u: R1CSInstance) -> Seq<Fr>;

/// What `R1CSWitness::W` returns: the private variables of a witness.
pub uninterp spec fn witness_vars(w: R1CSWitness) -> Seq<Fr>;

/// Whether the commitment of an instance is the one that `R1CSWitness::commit`
/// returns: to the variables of the witness, with its blind.
pub uninterp spec fn committed(gens: R1CSGens, u: R1CSInstance, w: R1CSWitness) -> bool;

/// Whether public inputs and private variables meet every constraint of a
/// shape: the part of `R1CSShape::is_sat` that is not about lengths or
/// commitments.
pub uninterp spec fn satisfied(shape: R1CSShape, inputs: Seq<Fr>, vars: Seq<Fr>) -> bool;

/// The error that `R1CSInstance::new` returns for public inputs that are not as
/// many as those of a shape.
pub uninterp spec fn input_error(shape: R1CSShape, inputs: Seq<Fr>) -> NovaError;

/// Calls `NovaWitness::r1cs_instance_and_witness` on an assignment made of the
/// values. The call draws a blind from the operating system's randomness and
/// commits to the private variables with it, so two results for one assignment
/// differ; it panics where the system has no randomness, or where the generators
/// are too few. It cuts off private variables that the shape has not, and sets
/// those that were not given to zero. Claimed, whatever the blind: the call
/// succeeds exactly where the public inputs are as many as those of the shape;
/// the instance and the witness then carry the values, and the instance commits
/// to the witness. An error depends on the shape and the inputs alone.
#[verifier::external_body]
pub(crate) fn instance_and_witness(
    inputs: &Vec<Fr>,
    vars: &Vec<Fr>,
    shape: &R1CSShape,
    gens: &R1CSGens,
) -> (res: Result<(R1CSInstance, R1CSWitness), NovaError>)
    requires
        key_fits(*shape, *gens),
    ensures
        (res is Ok) == (inputs@.len() == num_io(*shape)),
        res is Err ==> res->Err_0 == input_error(*shape, inputs@),
        res is Ok ==> instance_inputs(res->Ok_0.0) == inputs@,
        res is Ok ==> witness_vars(res->Ok_0.1).len() == num_vars(*shape),
        res is Ok ==> forall|i: int|
            0 <= i < num_vars(*shape) && i < vars@.len() ==> #[trigger] witness_vars(
                res->Ok_0.1,
            )[i] == vars@[i],
        res is Ok ==> forall|i: int|
            vars@.len() <= i < num_vars(*shape) ==> #[trigger] witness_vars(res->Ok_0.1)[i]
                == zero_of(*shape),
        res is Ok ==> committed(*gens, res->Ok_0.0, res->Ok_0.1),
{
    let mut cs = SatisfyingAssignment::<PallasEngine>::new();
    cs.extend_inputs(inputs);
    cs.extend_aux(vars);
    match cs.r1cs_instance_and_witness(&shape.inner, &gens.inner, &mut OsRng) {
        Ok((u, w)) => Ok((R1CSInstance { inner: u }, R1CSWitness { inner: w })),
        Err(e) => Err(e),
    }
}

/// A witness satisfies an instance: the lengths are those of the shape, the
/// constraints are met, and the instance commits to the witness.
pub open spec fn r1cs_sat(
    shape: R1CSShape,
    gens: R1CSGens,
    u: R1CSInstance,
    w: R1CSWitness,
) -> bool {
    &&& instance_inputs(u).len() == num_io(shape)
    &&& witness_vars(w).len() == num_vars(shape)
    &&& satisfied(shape, instance_inputs(u), witness_vars(w))
    &&& committed(gens, u, w)
}

/// Calls `R1CSShape::is_sat`. Claimed: it accepts where the lengths are those of
/// the shape, the constraints are met and the instance commits to the witness,
/// and nowhere else. Which error it returns is not said.
#[verifier::external_body]
pub(crate) fn is_sat(
    shape: &R1CSShape,
    gens: &R1CSGens,
    u: &R1CSInstance,
    w: &R1CSWitness,
) -> (res: Result<(), NovaError>)
    requires
        key_fits(*shape, *gens),
    ensures
        (res is Ok) == (instance_inputs(*u).len() == num_io(*shape) && witness_vars(*w).len()
            == num_vars(*shape) && satisfied(*shape, instance_inputs(*u), witness_vars(*w))
            && committed(*gens, *u, *w)),
{
    shape.inner.is_sat(&gens.inner, &u.inner, &w.inner)
}

/// What `RelaxedR1CSInstance::X` returns: the public inputs of an instance.
pub uninterp spec fn relaxed_inputs(u: RelaxedR1CSInstance) -> Seq<Fr>;

/// What `RelaxedR1CSInstance::u` returns: the factor that the constraints of an
/// instance are relaxed by.
pub uninterp spec fn relaxed_scalar(u: RelaxedR1CSInstance) -> Fr;

/// What `RelaxedR1CSWitness::W` returns: the private variables of a witness.
pub uninterp spec fn relaxed_vars(w: RelaxedR1CSWitness) -> Seq<Fr>;

/// What `RelaxedR1CSWitness::E` returns: how far a witness is off each
/// constraint.
pub uninterp spec fn relaxed_error(w: RelaxedR1CSWitness) -> Seq<Fr>;

/// Whether the two commitments of an instance are those that
/// `RelaxedR1CSWitness::commit` returns: to the variables and the error of the
/// witness, with its blinds.
pub uninterp spec fn relaxed_committed(
    gens: R1CSGens,
    u: RelaxedR1CSInstance,
    w: RelaxedR1CSWitness,
) -> bool;

/// Whether values meet every relaxed constraint of a shape: the part of
/// `R1CSShape::is_sat_relaxed` that is not about lengths or commitments.
pub uninterp spec fn relaxed_satisfied(
    shape: R1CSShape,
    scalar: Fr,
    inputs: Seq<Fr>,
    vars: Seq<Fr>,
    error: Seq<Fr>,
) -> bool;

/// A witness satisfies a relaxed instance: the lengths are those of the shape,
/// the relaxed constraints are met, and the instance commits to the witness.
pub open spec fn relaxed_sat(
    shape: R1CSShape,
    gens: R1CSGens,
    u: RelaxedR1CSInstance,
    w: RelaxedR1CSWitness,
) -> bool {
    &&& relaxed_inputs(u).len() == num_io(shape)
    &&& relaxed_vars(w).len() == num_vars(shape)
    &&& relaxed_error(w).len() == num_cons(shape)
    &&& relaxed_satisfied(
        shape,
        relaxed_scalar(u),
        relaxed_inputs(u),
        relaxed_vars(w),
        relaxed_error(w),
    )
    &&& relaxed_committed(gens, u, w)
}

/// Calls `R1CSShape::is_sat_relaxed`. Claimed: it accepts where the lengths are
/// those of the shape, the relaxed constraints are met and the instance commits
/// to the witness, and nowhere else. Which error it returns is not said.
#[verifier::external_body]
pub(crate) fn is_sat_relaxed(
    shape: &R1CSShape,
    gens: &R1CSGens,
    u: &RelaxedR1CSInstance,
    w: &RelaxedR1CSWitness,
) -> (res: Result<(), NovaError>)
    requires
        key_fits(*shape, *gens),
    ensures
        (res is Ok) == (relaxed_inputs(*u).len() == num_io(*shape) && relaxed_vars(*w).len()
            == num_vars(*shape) && relaxed_error(*w).len() == num_cons(*shape)
            && relaxed_satisfied(
            *shape,
            relaxed_scalar(*u),
            relaxed_inputs(*u),
            relaxed_vars(*w),
            relaxed_error(*w),
        ) && relaxed_committed(*gens, *u, *w)),
{
    shape.inner.is_sat_relaxed(&gens.inner, &u.inner, &w.inner)
}

/// What `RelaxedR1CSInstance::from_r1cs_instance_unchecked` returns.
pub uninterp spec fn relaxed_of(u: R1CSInstance) -> RelaxedR1CSInstance;

/// Calls `RelaxedR1CSInstance::from_r1cs_instance_unchecked` with the commitment
/// and the public inputs of an instance. The error is committed to as zero, and
/// the factor is one. Claimed: the result depends on the instance alone and has
/// its inputs.
#[verifier::external_body]
pub(crate) fn relax_instance(u: &R1CSInstance) -> (res: RelaxedR1CSInstance)
    ensures
        res == relaxed_of(*u),
        relaxed_inputs(res) == instance_inputs(*u),
{
    RelaxedR1CSInstance {
        inner: nova_snark::r1cs::RelaxedR1CSInstance::from_r1cs_instance_unchecked(
            u.inner.comm_W(),
            u.inner.X(),
        ),
    }
}

/// What `RelaxedR1CSWitness::from_r1cs_witness` returns.
pub uninterp spec fn relaxed_witness_of(shape: R1CSShape, w: R1CSWitness) -> RelaxedR1CSWitness;

/// Calls `RelaxedR1CSWitness::from_r1cs_witness`, which adds an error that is
/// zero throughout, with a zero blind. Claimed: the result depends on the
/// arguments alone and has the variables of the witness and no error; an instance
/// commits to the witness no less when both are
/// relaxed, and meets its constraints exactly where it did.
#[verifier::external_body]
pub(crate) fn relax_witness(shape: &R1CSShape, w: &R1CSWitness) -> (res: RelaxedR1CSWitness)
    ensures
        res == relaxed_witness_of(*shape, *w),
        relaxed_vars(res) == witness_vars(*w),
        relaxed_error(res) == zeros(*shape, num_cons(*shape) as nat),
        forall|gens: R1CSGens, u: R1CSInstance|
            key_fits(*shape, gens) && #[trigger] committed(gens, u, *w) ==> relaxed_committed(
                gens,
                relaxed_of(u),
                res,
            ),
        forall|u: R1CSInstance|
            instance_inputs(u).len() == num_io(*shape) && witness_vars(*w).len() == num_vars(*shape)
                ==> relaxed_satisfied(
                *shape,
                relaxed_scalar(#[trigger] relaxed_of(u)),
                instance_inputs(u),
                relaxed_vars(res),
                relaxed_error(res),
            ) == satisfied(*shape, instance_inputs(u), witness_vars(*w)),
{
    RelaxedR1CSWitness {
        inner: nova_snark::r1cs::RelaxedR1CSWitness::from_r1cs_witness(&shape.inner, &w.inner),
    }
}

/// What `RelaxedR1CSInstance::default` returns.
pub uninterp spec fn default_instance_of(gens: R1CSGens, shape: R1CSShape) -> RelaxedR1CSInstance;

/// Calls `RelaxedR1CSInstance::default`, which is zero throughout. Claimed: the
/// result depends on the arguments alone and has as many inputs as the shape, all
/// zero.
#[verifier::external_body]
pub(crate) fn default_instance(gens: &R1CSGens, shape: &R1CSShape) -> (res: RelaxedR1CSInstance)
    ensures
        res == default_instance_of(*gens, *shape),
        relaxed_inputs(res) == zeros(*shape, num_io(*shape) as nat),
{
    RelaxedR1CSInstance {
        inner: nova_snark::r1cs::RelaxedR1CSInstance::default(&gens.inner, &shape.inner),
    }
}

/// What `RelaxedR1CSWitness::default` returns.
pub uninterp spec fn default_witness_of(shape: R1CSShape) -> RelaxedR1CSWitness;

/// Calls `RelaxedR1CSWitness::default`, which is zero throughout. Claimed: the
/// result depends on the shape alone, has the dimensions of the shape, meets the
/// relaxed constraints with the default instance, and is what that instance
/// commits to, whatever the generators.
#[verifier::external_body]
pub(crate) fn default_witness(shape: &R1CSShape) -> (res: RelaxedR1CSWitness)
    ensures
        res == default_witness_of(*shape),
        relaxed_vars(res) == zeros(*shape, num_vars(*shape) as nat),
        relaxed_error(res) == zeros(*shape, num_cons(*shape) as nat),
        forall|gens: R1CSGens|
            relaxed_satisfied(
                *shape,
                relaxed_scalar(#[trigger] default_instance_of(gens, *shape)),
                relaxed_inputs(default_instance_of(gens, *shape)),
                relaxed_vars(res),
                relaxed_error(res),
            ),
        forall|gens: R1CSGens|
            key_fits(*shape, gens) ==> relaxed_committed(
                gens,
                #[trigger] default_instance_of(gens, *shape),
                res,
            ),
{
    RelaxedR1CSWitness { inner: nova_snark::r1cs::RelaxedR1CSWitness::default(&shape.inner) }
}

/// Calls the `Clone` that is derived for `RelaxedR1CSInstance`. Claimed: the
/// clone equals what it was made from.
#[verifier::external_body]
pub(crate) fn clone_instance(u: &RelaxedR1CSInstance) -> (res: RelaxedR1CSInstance)
    ensures
        res == *u,
{
    RelaxedR1CSInstance { inner: u.inner.clone() }
}

/// Calls the `Clone` that is derived for `RelaxedR1CSWitness`. Claimed: the
/// clone equals what it was made from.
#[verifier::external_body]
pub(crate) fn clone_witness(w: &RelaxedR1CSWitness) -> (res: RelaxedR1CSWitness)
    ensures
        res == *w,
{
    RelaxedR1CSWitness { inner: w.inner.clone() }
}

/// The default random-oracle constants of the engine that a shape is over.
pub uninterp spec fn ro_constants_of(shape: R1CSShape) -> ROConstants;

/// Calls `ROConstants::default` for the one engine. Claimed: the result is always
/// the same, and so the same for every shape.
#[verifier::external_body]
pub(crate) fn ro_constants() -> (res: ROConstants)
    ensures
        forall|shape: R1CSShape| res == #[trigger] ro_constants_of(shape),
{
    ROConstants { inner: nova_snark::traits::ROConstants::<PallasEngine>::default() }
}

/// What `R1CSShape::digest` returns.
pub uninterp spec fn digest_of(shape: R1CSShape) -> Fr;

/// Calls `R1CSShape::digest`, a hash of the matrices. Claimed: the result
/// depends on the shape alone.
#[verifier::external_body]
pub(crate) fn shape_digest(shape: &R1CSShape) -> (res: Fr)
    ensures
        res == digest_of(*shape),
{
    shape.inner.digest()
}

/// The most public inputs that an instance can have for a folding step. The
/// random oracle absorbs four limbs of each input of two instances and eighteen
/// elements more, and takes fewer than two to the power of 31.
pub const MAX_INPUTS: usize = 0x0fff_fffd;

/// What `NIFSRelaxed::verify` returns: the instance that a step folds two into.
pub uninterp spec fn step_verified(
    step: StepSNARK,
    constants: ROConstants,
    digest: Fr,
    u1: RelaxedR1CSInstance,
    u2: RelaxedR1CSInstance,
) -> Result<RelaxedR1CSInstance, NovaError>;

/// The lesser of two lengths.
pub open spec fn shorter(one: nat, other: nat) -> nat {
    if one <= other {
        one
    } else {
        other
    }
}

/// Calls `NIFSRelaxed::verify`, which draws the challenge of a step again, from
/// the digest, the two instances and the step, and folds the instances by it.
/// Claimed: it succeeds, with a result that depends on the arguments alone and
/// has as many inputs as the instance with fewer.
#[verifier::external_body]
pub(crate) fn step_verify(
    step: &StepSNARK,
    constants: &ROConstants,
    digest: &Fr,
    u1: &RelaxedR1CSInstance,
    u2: &RelaxedR1CSInstance,
) -> (res: Result<RelaxedR1CSInstance, NovaError>)
    requires
        relaxed_inputs(*u1).len() <= MAX_INPUTS,
        relaxed_inputs(*u2).len() <= MAX_INPUTS,
    ensures
        res == step_verified(*step, *constants, *digest, *u1, *u2),
        res is Ok,
        relaxed_inputs(res->Ok_0).len() == shorter(
            relaxed_inputs(*u1).len(),
            relaxed_inputs(*u2).len(),
        ),
{
    match step.inner.verify(&constants.inner, digest, &u1.inner, &u2.inner) {
        Ok(inner) => Ok(RelaxedR1CSInstance { inner }),
        Err(e) => Err(e),
    }
}

/// The variables that `RelaxedR1CSWitness::fold_relaxed` returns for two
/// witnesses, by the challenge of a step between two instances: the first plus
/// the challenge times the second.
pub uninterp spec fn folded_vars(
    step: StepSNARK,
    constants: ROConstants,
    digest: Fr,
    u1: RelaxedR1CSInstance,
    u2: RelaxedR1CSInstance,
    vars1: Seq<Fr>,
    vars2: Seq<Fr>,
) -> Seq<Fr>;

/// The error that `RelaxedR1CSWitness::fold_relaxed` returns for two witnesses,
/// by the challenge of a step between two instances and their cross term, which
/// `R1CSShape::commit_T_relaxed` takes from the shape, the instances and the
/// witnesses.
pub uninterp spec fn folded_error(
    step: StepSNARK,
    constants: ROConstants,
    digest: Fr,
    shape: R1CSShape,
    u1: RelaxedR1CSInstance,
    u2: RelaxedR1CSInstance,
    vars1: Seq<Fr>,
    vars2: Seq<Fr>,
    error1: Seq<Fr>,
    error2: Seq<Fr>,
) -> Seq<Fr>;

/// Calls `NIFSRelaxed::prove`. It commits to the cross term of the two pairs with
/// a blind from the operating system's randomness, draws a challenge from the
/// digest, the two instances and the commitment, and folds instances and
/// witnesses by it, so two results for one input differ; it panics where the
/// system has no randomness. Claimed, whatever the blind: with dimensions that
/// fit the shape the call succeeds and keeps them; `NIFSRelaxed::verify` accepts
/// the step and folds into the same instance; given the step, the variables and
/// the error of the folded witness depend on the arguments alone; where both
/// instances commit to their witnesses, so does the folded one, and where both
/// meet the relaxed constraints, so does the folded one. That a pair which does
/// not meet them gives a folded one which does not is not said: it holds but for
/// unlucky challenges.
#[verifier::external_body]
pub(crate) fn step_prove(
    gens: &R1CSGens,
    constants: &ROConstants,
    digest: &Fr,
    shape: &R1CSShape,
    u1: &RelaxedR1CSInstance,
    w1: &RelaxedR1CSWitness,
    u2: &RelaxedR1CSInstance,
    w2: &RelaxedR1CSWitness,
) -> (res: Result<(StepSNARK, (RelaxedR1CSInstance, RelaxedR1CSWitness)), NovaError>)
    requires
        key_fits(*shape, *gens),
        num_io(*shape) <= MAX_INPUTS,
        relaxed_inputs(*u1).len() == num_io(*shape),
        relaxed_vars(*w1).len() == num_vars(*shape),
        relaxed_inputs(*u2).len() == num_io(*shape),
        relaxed_vars(*w2).len() == num_vars(*shape),
    ensures
        res is Ok,
        step_verified(res->Ok_0.0, *constants, *digest, *u1, *u2) is Ok,
        step_verified(res->Ok_0.0, *constants, *digest, *u1, *u2)->Ok_0 == res->Ok_0.1.0,
        relaxed_inputs(res->Ok_0.1.0).len() == num_io(*shape),
        relaxed_vars(res->Ok_0.1.1).len() == num_vars(*shape),
        relaxed_vars(res->Ok_0.1.1) == folded_vars(
            res->Ok_0.0,
            *constants,
            *digest,
            *u1,
            *u2,
            relaxed_vars(*w1),
            relaxed_vars(*w2),
        ),
        relaxed_error(res->Ok_0.1.1) == folded_error(
            res->Ok_0.0,
            *constants,
            *digest,
            *shape,
            *u1,
            *u2,
            relaxed_vars(*w1),
            relaxed_vars(*w2),
            relaxed_error(*w1),
            relaxed_error(*w2),
        ),
        relaxed_error(*w1).len() == num_cons(*shape) && relaxed_error(*w2).len() == num_cons(*shape)
            ==> relaxed_error(res->Ok_0.1.1).len() == num_cons(*shape),
        relaxed_error(*w1).len() == num_cons(*shape) && relaxed_error(*w2).len() == num_cons(*shape)
            && relaxed_committed(*gens, *u1, *w1) && relaxed_committed(*gens, *u2, *w2)
            ==> relaxed_committed(*gens, res->Ok_0.1.0, res->Ok_0.1.1),
        relaxed_error(*w1).len() == num_cons(*shape) && relaxed_error(*w2).len() == num_cons(*shape)
            && relaxed_satisfied(
            *shape,
            relaxed_scalar(*u1),
            relaxed_inputs(*u1),
            relaxed_vars(*w1),
            relaxed_error(*w1),
        ) && relaxed_satisfied(
            *shape,
            relaxed_scalar(*u2),
            relaxed_inputs(*u2),
            relaxed_vars(*w2),
            relaxed_error(*w2),
        ) ==> relaxed_satisfied(
            *shape,
            relaxed_scalar(res->Ok_0.1.0),
            relaxed_inputs(res->Ok_0.1.0),
            relaxed_vars(res->Ok_0.1.1),
            relaxed_error(res->Ok_0.1.1),
        ),
{
    let (k, c, s) = (&gens.inner, &constants.inner, &shape.inner);
    match NIFSRelaxed::prove(k, c, digest, s, &u1.inner, &w1.inner, &u2.inner, &w2.inner) {
        Ok((step, (u, w))) => Ok((
            StepSNARK { inner: step },
            (RelaxedR1CSInstance { inner: u }, RelaxedR1CSWitness { inner: w }),
        )),
        Err(e) => Err(e),
    }
}

} // verus!
