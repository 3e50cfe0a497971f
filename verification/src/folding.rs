//! What it means that a proof folds a trace, and what follows from it.

use crate::circuit::Assignment;
use crate::nova::{Oracle, Proof};
use crate::r1cs::{
    Fr, R1CSGens, R1CSInstance, R1CSShape, R1CSWitness, RelaxedR1CSInstance, RelaxedR1CSWitness,
    StepSNARK,
};
#[allow(unused_imports)]
use crate::{nova, r1cs};
use vstd::prelude::*;

verus! {

/// An assignment has a value for each public input of a shape, and no more.
pub open spec fn fits(shape: R1CSShape, assignment: Assignment) -> bool {
    assignment.inputs@.len() == r1cs::num_io(shape)
}

/// An assignment, with a value for each private variable of a shape, meets the
/// constraints of the shape.
pub open spec fn meets(shape: R1CSShape, assignment: Assignment) -> bool {
    r1cs::satisfied(shape, assignment.inputs@, r1cs::resized(shape, assignment.vars@))
}

/// An assignment with as many private variables as the shape has them all kept.
pub proof fn enough_vars_are_kept(shape: R1CSShape, vars: Seq<Fr>)
    requires
        vars.len() == r1cs::num_vars(shape),
    ensures
        r1cs::resized(shape, vars) == vars,
{
}

/// Every assignment fits a shape.
pub open spec fn all_fit(shape: R1CSShape, assignments: Seq<Assignment>) -> bool {
    forall|i: int| 0 <= i < assignments.len() ==> fits(shape, #[trigger] assignments[i])
}

/// Every assignment meets the constraints of a shape.
pub open spec fn all_meet(shape: R1CSShape, assignments: Seq<Assignment>) -> bool {
    forall|i: int| 0 <= i < assignments.len() ==> meets(shape, #[trigger] assignments[i])
}

/// An instance and its witness have the dimensions of a shape.
pub open spec fn pair_fits(shape: R1CSShape, pair: (R1CSInstance, R1CSWitness)) -> bool {
    &&& r1cs::instance_inputs(pair.0).len() == r1cs::num_io(shape)
    &&& r1cs::witness_vars(pair.1).len() == r1cs::num_vars(shape)
}

/// A relaxed instance and its witness have the dimensions of a shape.
pub open spec fn relaxed_fits(
    shape: R1CSShape,
    acc: (RelaxedR1CSInstance, RelaxedR1CSWitness),
) -> bool {
    &&& r1cs::relaxed_inputs(acc.0).len() == r1cs::num_io(shape)
    &&& r1cs::relaxed_vars(acc.1).len() == r1cs::num_vars(shape)
}

/// An instance and its witness hold the values of an assignment that fits, and
/// the instance commits to the witness.
pub open spec fn carries(
    shape: R1CSShape,
    gens: R1CSGens,
    assignment: Assignment,
    pair: (R1CSInstance, R1CSWitness),
) -> bool {
    &&& fits(shape, assignment)
    &&& r1cs::instance_inputs(pair.0) == assignment.inputs@
    &&& r1cs::witness_vars(pair.1) == r1cs::resized(shape, assignment.vars@)
    &&& r1cs::committed(gens, pair.0, pair.1)
}

/// Instances hold the values of assignments, one each, in order.
pub open spec fn carry(
    shape: R1CSShape,
    gens: R1CSGens,
    assignments: Seq<Assignment>,
    pairs: Seq<(R1CSInstance, R1CSWitness)>,
) -> bool {
    &&& pairs.len() == assignments.len()
    &&& forall|i: int|
        0 <= i < pairs.len() ==> carries(shape, gens, assignments[i], #[trigger] pairs[i])
}

/// A relaxed instance commits to its witness, which has an error of the length
/// of the shape.
pub open spec fn opens(
    shape: R1CSShape,
    gens: R1CSGens,
    acc: (RelaxedR1CSInstance, RelaxedR1CSWitness),
) -> bool {
    &&& r1cs::relaxed_error(acc.1).len() == r1cs::num_cons(shape)
    &&& r1cs::relaxed_committed(gens, acc.0, acc.1)
}

/// What verifying a step yields: the instance that the step folds into.
pub open spec fn verified(
    oracle: Oracle,
    step: StepSNARK,
    acc: RelaxedR1CSInstance,
    instance: R1CSInstance,
) -> Option<RelaxedR1CSInstance> {
    match r1cs::step_verified(
        step,
        oracle.constants,
        oracle.digest,
        acc,
        r1cs::relaxed_of(instance),
    ) {
        Ok(next) => Some(next),
        Err(_) => None,
    }
}

/// The witness reached has the variables and the error that the step folds
/// those of the two witnesses into.
pub open spec fn witness_folds(
    shape: R1CSShape,
    oracle: Oracle,
    acc: (RelaxedR1CSInstance, RelaxedR1CSWitness),
    pair: (R1CSInstance, R1CSWitness),
    step: StepSNARK,
    witness: RelaxedR1CSWitness,
) -> bool {
    &&& r1cs::relaxed_vars(witness) == r1cs::folded_vars(
        step,
        oracle.constants,
        oracle.digest,
        acc.0,
        r1cs::relaxed_of(pair.0),
        r1cs::relaxed_vars(acc.1),
        r1cs::witness_vars(pair.1),
    )
    &&& r1cs::relaxed_error(witness) == r1cs::folded_error(
        step,
        oracle.constants,
        oracle.digest,
        shape,
        acc.0,
        r1cs::relaxed_of(pair.0),
        r1cs::relaxed_vars(acc.1),
        r1cs::witness_vars(pair.1),
        r1cs::relaxed_error(acc.1),
        r1cs::zeros(shape, r1cs::num_cons(shape) as nat),
    )
}

/// A step folds `pair` into `acc` and reaches `next`: the step verifies and
/// leads to the instance reached, the witness reached is the fold of the two
/// witnesses, instances that commit to their witnesses give one that does, and
/// satisfied ones a satisfied one.
pub open spec fn step_folds(
    shape: R1CSShape,
    gens: R1CSGens,
    oracle: Oracle,
    acc: (RelaxedR1CSInstance, RelaxedR1CSWitness),
    pair: (R1CSInstance, R1CSWitness),
    step: StepSNARK,
    next: (RelaxedR1CSInstance, RelaxedR1CSWitness),
) -> bool {
    &&& verified(oracle, step, acc.0, pair.0) == Some(next.0)
    &&& witness_folds(shape, oracle, acc, pair, step, next.1)
    &&& relaxed_fits(shape, next)
    &&& opens(shape, gens, acc) && r1cs::committed(gens, pair.0, pair.1) ==> opens(
        shape,
        gens,
        next,
    )
    &&& r1cs::relaxed_sat(shape, gens, acc.0, acc.1) && r1cs::r1cs_sat(
        shape,
        gens,
        pair.0,
        pair.1,
    ) ==> r1cs::relaxed_sat(shape, gens, next.0, next.1)
}

/// Steps fold `pairs`, in order, starting from the default instance: `accs`
/// are the instances and witnesses passed through.
pub open spec fn folds(
    shape: R1CSShape,
    gens: R1CSGens,
    pairs: Seq<(R1CSInstance, R1CSWitness)>,
    steps: Seq<StepSNARK>,
    accs: Seq<(RelaxedR1CSInstance, RelaxedR1CSWitness)>,
) -> bool {
    &&& steps.len() == pairs.len()
    &&& accs.len() == pairs.len() + 1
    &&& accs[0].0 == r1cs::default_instance_of(gens, shape)
    &&& accs[0].1 == r1cs::default_witness_of(shape)
    &&& relaxed_fits(shape, accs[0])
    &&& r1cs::relaxed_sat(shape, gens, accs[0].0, accs[0].1)
    &&& forall|i: int|
        0 <= i < pairs.len() ==> step_folds(
            shape,
            gens,
            nova::oracle_of(shape),
            accs[i],
            pairs[i],
            #[trigger] steps[i],
            accs[i + 1],
        )
}

/// `proof` is of the trace with these assignments, by way of these instances,
/// steps and accumulators.
pub open spec fn traces(
    shape: R1CSShape,
    gens: R1CSGens,
    assignments: Seq<Assignment>,
    verify_steps: bool,
    proof: Proof,
    pairs: Seq<(R1CSInstance, R1CSWitness)>,
    steps: Seq<StepSNARK>,
    accs: Seq<(RelaxedR1CSInstance, RelaxedR1CSWitness)>,
) -> bool {
    &&& carry(shape, gens, assignments, pairs)
    &&& folds(shape, gens, pairs, steps, accs)
    &&& proof.step_proofs@ == (if verify_steps {
        steps
    } else {
        Seq::<StepSNARK>::empty()
    })
    &&& proof.final_instance == accs.last().0
    &&& proof.final_proof.witness == accs.last().1
}

/// `proof` is what folding the trace with these assignments gives.
pub open spec fn proof_of(
    shape: R1CSShape,
    gens: R1CSGens,
    assignments: Seq<Assignment>,
    verify_steps: bool,
    proof: Proof,
) -> bool {
    exists|
        pairs: Seq<(R1CSInstance, R1CSWitness)>,
        steps: Seq<StepSNARK>,
        accs: Seq<(RelaxedR1CSInstance, RelaxedR1CSWitness)>,
    |
        traces(shape, gens, assignments, verify_steps, proof, pairs, steps, accs)
}

/// The instances, steps and accumulators by way of which a proof is of a trace.
pub proof fn trace_of(
    shape: R1CSShape,
    gens: R1CSGens,
    assignments: Seq<Assignment>,
    verify_steps: bool,
    proof: Proof,
) -> (trace: (
    Seq<(R1CSInstance, R1CSWitness)>,
    Seq<StepSNARK>,
    Seq<(RelaxedR1CSInstance, RelaxedR1CSWitness)>,
))
    requires
        proof_of(shape, gens, assignments, verify_steps, proof),
    ensures
        traces(shape, gens, assignments, verify_steps, proof, trace.0, trace.1, trace.2),
{
    choose|
        pairs: Seq<(R1CSInstance, R1CSWitness)>,
        steps: Seq<StepSNARK>,
        accs: Seq<(RelaxedR1CSInstance, RelaxedR1CSWitness)>,
    |
        traces(shape, gens, assignments, verify_steps, proof, pairs, steps, accs)
}

/// As long as the instances folded in are satisfied, so is what they are folded
/// into.
pub proof fn folding_keeps_satisfaction(
    shape: R1CSShape,
    gens: R1CSGens,
    pairs: Seq<(R1CSInstance, R1CSWitness)>,
    steps: Seq<StepSNARK>,
    accs: Seq<(RelaxedR1CSInstance, RelaxedR1CSWitness)>,
    n: nat,
)
    requires
        folds(shape, gens, pairs, steps, accs),
        n <= pairs.len(),
        forall|i: int|
            0 <= i < n ==> r1cs::r1cs_sat(
                shape,
                gens,
                (#[trigger] pairs[i]).0,
                pairs[i].1,
            ),
    ensures
        r1cs::relaxed_sat(shape, gens, accs[n as int].0, accs[n as int].1),
    decreases n,
{
    if n > 0 {
        folding_keeps_satisfaction(shape, gens, pairs, steps, accs, (n - 1) as nat);
        let (oracle, last) = (nova::oracle_of(shape), steps[n - 1]);
        assert(step_folds(shape, gens, oracle, accs[n - 1], pairs[n - 1], last, accs[n as int]));
    }
}

/// A proof of a trace whose assignments all meet the constraints verifies, for
/// the instance that it came with.
pub proof fn satisfied_trace_verifies(
    shape: R1CSShape,
    gens: R1CSGens,
    assignments: Seq<Assignment>,
    verify_steps: bool,
    proof: Proof,
)
    requires
        proof_of(shape, gens, assignments, verify_steps, proof),
        all_meet(shape, assignments),
    ensures
        proof.proves(shape, gens, proof.final_instance),
{
    let (pairs, steps, accs) = trace_of(shape, gens, assignments, verify_steps, proof);
    assert forall|i: int| 0 <= i < pairs.len() implies r1cs::r1cs_sat(
        shape,
        gens,
        (#[trigger] pairs[i]).0,
        pairs[i].1,
    ) by {
        assert(meets(shape, assignments[i]));
        assert(carries(shape, gens, assignments[i], pairs[i]));
    }
    folding_keeps_satisfaction(shape, gens, pairs, steps, accs, pairs.len());
}

/// Whatever is folded in, as long as it commits to its witness, what it is folded
/// into has the dimensions of the shape and commits to its witness.
pub proof fn folding_keeps_commitments(
    shape: R1CSShape,
    gens: R1CSGens,
    pairs: Seq<(R1CSInstance, R1CSWitness)>,
    steps: Seq<StepSNARK>,
    accs: Seq<(RelaxedR1CSInstance, RelaxedR1CSWitness)>,
    n: nat,
)
    requires
        folds(shape, gens, pairs, steps, accs),
        n <= pairs.len(),
        forall|i: int|
            0 <= i < n ==> r1cs::committed(gens, (#[trigger] pairs[i]).0, pairs[i].1),
    ensures
        relaxed_fits(shape, accs[n as int]),
        opens(shape, gens, accs[n as int]),
    decreases n,
{
    if n > 0 {
        folding_keeps_commitments(shape, gens, pairs, steps, accs, (n - 1) as nat);
        let (oracle, last) = (nova::oracle_of(shape), steps[n - 1]);
        assert(step_folds(shape, gens, oracle, accs[n - 1], pairs[n - 1], last, accs[n as int]));
    }
}

/// The final instance of a proof commits to the witness that proves it, whether
/// or not the trace meets the constraints: what decides whether the proof
/// verifies is the relaxed constraints alone.
pub proof fn constraints_decide(
    shape: R1CSShape,
    gens: R1CSGens,
    assignments: Seq<Assignment>,
    verify_steps: bool,
    proof: Proof,
)
    requires
        proof_of(shape, gens, assignments, verify_steps, proof),
    ensures
        opens(shape, gens, (proof.final_instance, proof.final_proof.witness)),
        proof.proves(shape, gens, proof.final_instance) == r1cs::relaxed_satisfied(
            shape,
            r1cs::relaxed_scalar(proof.final_instance),
            r1cs::relaxed_inputs(proof.final_instance),
            r1cs::relaxed_vars(proof.final_proof.witness),
            r1cs::relaxed_error(proof.final_proof.witness),
        ),
{
    let (pairs, steps, accs) = trace_of(shape, gens, assignments, verify_steps, proof);
    assert forall|i: int| 0 <= i < pairs.len() implies r1cs::committed(
        gens,
        (#[trigger] pairs[i]).0,
        pairs[i].1,
    ) by {
        assert(carries(shape, gens, assignments[i], pairs[i]));
    }
    folding_keeps_commitments(shape, gens, pairs, steps, accs, pairs.len());
}

/// Verifies steps one after the other, from the instance `acc`: the instance
/// that they lead to, if every one of them verifies.
pub open spec fn replay(
    shape: R1CSShape,
    acc: RelaxedR1CSInstance,
    steps: Seq<StepSNARK>,
    instances: Seq<R1CSInstance>,
) -> Option<RelaxedR1CSInstance>
    decreases steps.len(),
{
    if steps.len() == 0 {
        Some(acc)
    } else {
        match replay(shape, acc, steps.drop_last(), instances) {
            Some(before) => verified(
                nova::oracle_of(shape),
                steps.last(),
                before,
                instances[steps.len() - 1],
            ),
            None => None,
        }
    }
}

/// The instances alone.
pub open spec fn instances_of(pairs: Seq<(R1CSInstance, R1CSWitness)>) -> Seq<R1CSInstance> {
    pairs.map_values(|pair: (R1CSInstance, R1CSWitness)| pair.0)
}

/// Whoever has the steps and the instances, and no witness, comes to the same
/// instance after each of them.
pub proof fn steps_replay(
    shape: R1CSShape,
    gens: R1CSGens,
    pairs: Seq<(R1CSInstance, R1CSWitness)>,
    steps: Seq<StepSNARK>,
    accs: Seq<(RelaxedR1CSInstance, RelaxedR1CSWitness)>,
    n: nat,
)
    requires
        folds(shape, gens, pairs, steps, accs),
        n <= pairs.len(),
    ensures
        replay(
            shape,
            r1cs::default_instance_of(gens, shape),
            steps.take(n as int),
            instances_of(pairs),
        ) == Some(accs[n as int].0),
    decreases n,
{
    if n > 0 {
        steps_replay(shape, gens, pairs, steps, accs, (n - 1) as nat);
        assert(steps.take(n as int).drop_last() == steps.take(n - 1));
        let (oracle, last) = (nova::oracle_of(shape), steps[n - 1]);
        assert(step_folds(shape, gens, oracle, accs[n - 1], pairs[n - 1], last, accs[n as int]));
    }
}

/// The steps of a proof that kept them lead, from the default instance, to its
/// final instance.
pub proof fn proof_replays(
    shape: R1CSShape,
    gens: R1CSGens,
    assignments: Seq<Assignment>,
    proof: Proof,
) -> (instances: Seq<R1CSInstance>)
    requires
        proof_of(shape, gens, assignments, true, proof),
    ensures
        instances.len() == assignments.len(),
        forall|i: int|
            0 <= i < instances.len() ==> r1cs::instance_inputs(#[trigger] instances[i])
                == assignments[i].inputs@,
        replay(
            shape,
            r1cs::default_instance_of(gens, shape),
            proof.step_proofs@,
            instances,
        ) == Some(proof.final_instance),
{
    let (pairs, steps, accs) = trace_of(shape, gens, assignments, true, proof);
    steps_replay(shape, gens, pairs, steps, accs, pairs.len());
    assert(steps.take(pairs.len() as int) == steps);
    assert forall|i: int| 0 <= i < pairs.len() implies r1cs::instance_inputs(
        #[trigger] instances_of(pairs)[i],
    ) == assignments[i].inputs@ by {
        assert(carries(shape, gens, assignments[i], pairs[i]));
    }
    instances_of(pairs)
}

/// A proof keeps one step for each chunk where steps are verified, and none
/// where they are not.
pub proof fn steps_kept(
    shape: R1CSShape,
    gens: R1CSGens,
    assignments: Seq<Assignment>,
    verify_steps: bool,
    proof: Proof,
)
    requires
        proof_of(shape, gens, assignments, verify_steps, proof),
    ensures
        proof.step_proofs@.len() == if verify_steps {
            assignments.len()
        } else {
            0
        },
{
}

/// Verifying the steps changes nothing but that they are kept.
pub proof fn verifying_only_keeps_steps(
    shape: R1CSShape,
    gens: R1CSGens,
    assignments: Seq<Assignment>,
    proof: Proof,
    bare: Proof,
)
    requires
        proof_of(shape, gens, assignments, true, proof),
        bare.step_proofs@.len() == 0,
        bare.final_proof == proof.final_proof,
        bare.final_instance == proof.final_instance,
    ensures
        proof_of(shape, gens, assignments, false, bare),
{
    let (pairs, steps, accs) = trace_of(shape, gens, assignments, true, proof);
    assert(bare.step_proofs@ == Seq::<StepSNARK>::empty());
    assert(traces(shape, gens, assignments, false, bare, pairs, steps, accs));
}

/// A proof that kept no steps could have kept them: there are steps with which
/// it is one that verifying them gives.
pub proof fn steps_can_be_kept(
    shape: R1CSShape,
    gens: R1CSGens,
    assignments: Seq<Assignment>,
    bare: Proof,
) -> (steps: Seq<StepSNARK>)
    requires
        proof_of(shape, gens, assignments, false, bare),
    ensures
        steps.len() == assignments.len(),
        forall|proof: Proof|
            proof.step_proofs@ == steps && proof.final_proof == bare.final_proof
                && proof.final_instance == bare.final_instance ==> #[trigger] proof_of(
                shape,
                gens,
                assignments,
                true,
                proof,
            ),
{
    let (pairs, steps, accs) = trace_of(shape, gens, assignments, false, bare);
    assert forall|proof: Proof|
        proof.step_proofs@ == steps && proof.final_proof == bare.final_proof
            && proof.final_instance == bare.final_instance implies #[trigger] proof_of(
        shape,
        gens,
        assignments,
        true,
        proof,
    ) by {
        assert(traces(shape, gens, assignments, true, proof, pairs, steps, accs));
    }
    steps
}

/// Whether a proof verifies does not depend on the steps that it kept, nor on
/// the instance that it came with.
pub proof fn final_proof_decides(
    shape: R1CSShape,
    gens: R1CSGens,
    instance: RelaxedR1CSInstance,
    proof: Proof,
    other: Proof,
)
    requires
        proof.final_proof == other.final_proof,
    ensures
        proof.proves(shape, gens, instance) == other.proves(shape, gens, instance),
{
}

/// The first chunks of a trace are folded the same way whatever comes after.
pub proof fn prefix_folds(
    shape: R1CSShape,
    gens: R1CSGens,
    pairs: Seq<(R1CSInstance, R1CSWitness)>,
    steps: Seq<StepSNARK>,
    accs: Seq<(RelaxedR1CSInstance, RelaxedR1CSWitness)>,
    n: nat,
)
    requires
        folds(shape, gens, pairs, steps, accs),
        n <= pairs.len(),
    ensures
        folds(
            shape,
            gens,
            pairs.take(n as int),
            steps.take(n as int),
            accs.take(n + 1int),
        ),
{
    let first = steps.take(n as int);
    assert forall|i: int| 0 <= i < n implies step_folds(
        shape,
        gens,
        nova::oracle_of(shape),
        accs.take(n + 1int)[i],
        pairs.take(n as int)[i],
        #[trigger] first[i],
        accs.take(n + 1int)[i + 1],
    ) by {
        assert(first[i] == steps[i]);
    }
}

/// The first steps of a proof are those of a proof of the first chunks: with what
/// they lead to, they are one that folding these chunks alone gives.
pub proof fn first_steps_prove_first_chunks(
    shape: R1CSShape,
    gens: R1CSGens,
    assignments: Seq<Assignment>,
    more: Seq<Assignment>,
    proof: Proof,
) -> (acc: (RelaxedR1CSInstance, RelaxedR1CSWitness))
    requires
        proof_of(shape, gens, assignments + more, true, proof),
    ensures
        forall|first: Proof|
            first.step_proofs@ == proof.step_proofs@.take(assignments.len() as int)
                && first.final_instance == acc.0 && first.final_proof.witness == acc.1
                ==> #[trigger] proof_of(shape, gens, assignments, true, first),
{
    let whole = assignments + more;
    let (pairs, steps, accs) = trace_of(shape, gens, whole, true, proof);
    let n = assignments.len();
    prefix_folds(shape, gens, pairs, steps, accs, n);
    let first_pairs = pairs.take(n as int);
    assert forall|i: int| 0 <= i < n implies carries(
        shape,
        gens,
        assignments[i],
        #[trigger] first_pairs[i],
    ) by {
        assert(carries(shape, gens, whole[i], pairs[i]));
    }
    let first_steps = steps.take(n as int);
    let first_accs = accs.take(n + 1int);
    assert forall|first: Proof|
        first.step_proofs@ == proof.step_proofs@.take(assignments.len() as int)
            && first.final_instance == accs[n as int].0 && first.final_proof.witness
            == accs[n as int].1 implies #[trigger] proof_of(
        shape,
        gens,
        assignments,
        true,
        first,
    ) by {
        assert(traces(
            shape,
            gens,
            assignments,
            true,
            first,
            first_pairs,
            first_steps,
            first_accs,
        ));
    }
    accs[n as int]
}

/// A trace that is folded can be folded further, by one step from where it
/// stands.
pub proof fn folding_goes_on(
    shape: R1CSShape,
    gens: R1CSGens,
    pairs: Seq<(R1CSInstance, R1CSWitness)>,
    steps: Seq<StepSNARK>,
    accs: Seq<(RelaxedR1CSInstance, RelaxedR1CSWitness)>,
    pair: (R1CSInstance, R1CSWitness),
    step: StepSNARK,
    next: (RelaxedR1CSInstance, RelaxedR1CSWitness),
)
    requires
        folds(shape, gens, pairs, steps, accs),
        step_folds(shape, gens, nova::oracle_of(shape), accs.last(), pair, step, next),
    ensures
        folds(shape, gens, pairs.push(pair), steps.push(step), accs.push(next)),
{
    let more = steps.push(step);
    assert forall|i: int| 0 <= i < pairs.push(pair).len() implies step_folds(
        shape,
        gens,
        nova::oracle_of(shape),
        accs.push(next)[i],
        pairs.push(pair)[i],
        #[trigger] more[i],
        accs.push(next)[i + 1],
    ) by {
        if i < steps.len() {
            assert(more[i] == steps[i]);
        }
    }
}

/// A trace without chunks folds into the default instance, and its proof
/// verifies.
pub proof fn empty_trace_verifies(
    shape: R1CSShape,
    gens: R1CSGens,
    verify_steps: bool,
    proof: Proof,
)
    requires
        proof_of(shape, gens, Seq::empty(), verify_steps, proof),
    ensures
        proof.final_instance == r1cs::default_instance_of(gens, shape),
        proof.step_proofs@.len() == 0,
        proof.proves(shape, gens, proof.final_instance),
{
    satisfied_trace_verifies(shape, gens, Seq::empty(), verify_steps, proof);
}

} // verus!
