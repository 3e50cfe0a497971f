//! What the operations of the library do, said of their inputs and results in
//! the plainest terms at hand: fields, lengths, single elements, and the names
//! of what `nova-snark` returns.

#[allow(unused_imports)]
use crate::circuit::{Assignment, ToInputs};
#[allow(unused_imports)]
use crate::eval::{Frame, IO};
#[allow(unused_imports)]
use crate::nova::{Oracle, Proof, ProofError};
#[allow(unused_imports)]
use crate::r1cs::{
    Fr, R1CSGens, R1CSInstance, R1CSShape, R1CSWitness, RelaxedR1CSInstance, RelaxedR1CSWitness,
    ShapeCS, StepSNARK, MAX_INPUTS,
};
#[allow(unused_imports)]
use crate::store::{ContPtr, Ptr, ScalarContPtr, ScalarPtr, Store};
#[allow(unused_imports)]
use crate::{circuit, folding, nova, prover, r1cs};
#[allow(unused_imports)]
use nova_snark::errors::NovaError;
use vstd::prelude::*;

verus! {

/// A store has of a pointer what stands at its place, and nothing of a pointer
/// past its end.
pub proof fn store_is_indexed<F>(store: Store<F>, ptr: Ptr<F>, cont: ContPtr<F>)
    ensures
        ptr.raw < store.exprs@.len() ==> store.expr(ptr) == store.exprs@[ptr.raw as int],
        ptr.raw >= store.exprs@.len() ==> store.expr(ptr) is None,
        cont.raw < store.conts@.len() ==> store.cont(cont) == store.conts@[cont.raw as int],
        cont.raw >= store.conts@.len() ==> store.cont(cont) is None,
{
}

/// The public inputs of a state are tag and hash of its expression, then of its
/// environment, then of its continuation.
pub proof fn io_inputs_in_order<F: Copy>(
    io: IO<F>,
    store: Store<F>,
    expr: ScalarPtr<F>,
    env: ScalarPtr<F>,
    cont: ScalarContPtr<F>,
)
    requires
        io.expr.raw < store.exprs@.len(),
        io.env.raw < store.exprs@.len(),
        io.cont.raw < store.conts@.len(),
        store.exprs@[io.expr.raw as int] == Some(expr),
        store.exprs@[io.env.raw as int] == Some(env),
        store.conts@[io.cont.raw as int] == Some(cont),
    ensures
        io.hashed(&store),
        io.inputs(&store).len() == 6,
        io.inputs(&store)[0] == expr.tag,
        io.inputs(&store)[1] == expr.value,
        io.inputs(&store)[2] == env.tag,
        io.inputs(&store)[3] == env.value,
        io.inputs(&store)[4] == cont.tag,
        io.inputs(&store)[5] == cont.value,
{
}

/// A state has public inputs only where the store has all three of its hashes,
/// and the number of them is known beforehand.
pub proof fn io_is_hashed_by_the_store<F: Copy>(io: IO<F>, store: Store<F>)
    ensures
        io.hashed(&store) <==> {
            &&& io.expr.raw < store.exprs@.len() && store.exprs@[io.expr.raw as int] is Some
            &&& io.env.raw < store.exprs@.len() && store.exprs@[io.env.raw as int] is Some
            &&& io.cont.raw < store.conts@.len() && store.conts@[io.cont.raw as int] is Some
        },
        <IO<F> as ToInputs<F>>::sized(),
        <IO<F> as ToInputs<F>>::size() == 6,
{
}

/// States that agree in what their pointers stand for have the same public
/// inputs, and states with the same public inputs agree in it.
pub proof fn io_inputs_tell_states_apart<F: Copy>(
    one: IO<F>,
    other: IO<F>,
    store: Store<F>,
    more: Store<F>,
)
    requires
        one.hashed(&store),
        other.hashed(&more),
    ensures
        one.inputs(&store) == other.inputs(&more) <==> {
            &&& store.exprs@[one.expr.raw as int] == more.exprs@[other.expr.raw as int]
            &&& store.exprs@[one.env.raw as int] == more.exprs@[other.env.raw as int]
            &&& store.conts@[one.cont.raw as int] == more.conts@[other.cont.raw as int]
        },
{
    let (a, b) = (one.inputs(&store), other.inputs(&more));
    io_inputs_in_order(
        one,
        store,
        store.exprs@[one.expr.raw as int]->0,
        store.exprs@[one.env.raw as int]->0,
        store.conts@[one.cont.raw as int]->0,
    );
    io_inputs_in_order(
        other,
        more,
        more.exprs@[other.expr.raw as int]->0,
        more.exprs@[other.env.raw as int]->0,
        more.conts@[other.cont.raw as int]->0,
    );
    if store.exprs@[one.expr.raw as int] == more.exprs@[other.expr.raw as int]
        && store.exprs@[one.env.raw as int] == more.exprs@[other.env.raw as int]
        && store.conts@[one.cont.raw as int] == more.conts@[other.cont.raw as int] {
        assert(a =~= b);
    }
}

/// A present value has the inputs of what it holds, and an absent one has none.
pub proof fn option_inputs_are_its_values<F, T: ToInputs<F>>(value: T, store: Store<F>)
    ensures
        Some(value).hashed(&store) == value.hashed(&store),
        Some(value).inputs(&store) == value.inputs(&store),
        !None::<T>.hashed(&store),
        !<Option<T> as ToInputs<F>>::sized(),
{
}

/// A trace needs no padding exactly where the frames are some whole number of
/// chunks.
pub proof fn padding_is_for_whole_chunks(chunk_size: nat, count: nat)
    requires
        chunk_size != 0,
    ensures
        !prover::padding_needed(chunk_size, count) <==> exists|chunks: nat|
            count == #[trigger] (chunk_size * chunks),
{
    if !prover::padding_needed(chunk_size, count) {
        prover::whole_chunks(chunk_size, count, count / chunk_size);
        assert(count == chunk_size * (count / chunk_size));
    }
    if exists|chunks: nat| count == #[trigger] (chunk_size * chunks) {
        let chunks = choose|chunks: nat| count == #[trigger] (chunk_size * chunks);
        prover::whole_chunks(chunk_size, count, chunks);
    }
}

/// The chunk at `index` is the frames from `index * count` on, `count` of them.
pub proof fn chunk_is_a_run_of_frames<F>(
    frames: Seq<Frame<F>>,
    count: nat,
    chunks: nat,
    index: int,
    at: int,
)
    requires
        frames.len() == count * chunks,
        0 <= index < chunks,
        0 <= at < count,
    ensures
        circuit::chunk_of(frames, count, index).len() == count,
        circuit::chunk_of(frames, count, index)[at] == frames[index * count + at],
{
    circuit::chunks_have_count(frames, count, chunks, index);
    assert(0 <= index * count && (index + 1) * count <= count * chunks) by (nonlinear_arith)
        requires
            0 <= index < chunks,
    ;
    assert((index + 1) * count == index * count + count) by (nonlinear_arith);
}

/// The oracle for a shape has the constants of the engine and the digest of the
/// shape.
pub proof fn oracle_is_of_the_shape(shape: R1CSShape)
    ensures
        nova::oracle_of(shape).constants == r1cs::ro_constants_of(shape),
        nova::oracle_of(shape).digest == r1cs::digest_of(shape),
{
}

/// Private variables are kept, one by one, as far as the shape has them, and
/// those that were not given are zero.
pub proof fn vars_are_kept_or_zero(shape: R1CSShape, vars: Seq<Fr>, at: int)
    requires
        0 <= at < r1cs::num_vars(shape),
    ensures
        r1cs::resized(shape, vars).len() == r1cs::num_vars(shape),
        at < vars.len() ==> r1cs::resized(shape, vars)[at] == vars[at],
        at >= vars.len() ==> r1cs::resized(shape, vars)[at] == r1cs::zero_of(shape),
{
}

/// Zeros are as many as asked for, and zero.
pub proof fn zeros_are_zero(shape: R1CSShape, count: nat, at: int)
    requires
        0 <= at < count,
    ensures
        r1cs::zeros(shape, count).len() == count,
        r1cs::zeros(shape, count)[at] == r1cs::zero_of(shape),
{
}

/// An assignment meets the constraints of a shape exactly where its public inputs
/// and private variables satisfy it. Where it has other than `num_vars` of these,
/// `full` is what is left of them: the given ones, and zeros.
pub proof fn meeting_is_satisfying(shape: R1CSShape, assignment: Assignment, full: Seq<Fr>)
    requires
        full.len() == r1cs::num_vars(shape),
        forall|i: int|
            0 <= i < full.len() && i < assignment.vars@.len() ==> #[trigger] full[i]
                == assignment.vars@[i],
        forall|i: int|
            assignment.vars@.len() <= i < full.len() ==> #[trigger] full[i] == r1cs::zero_of(shape),
    ensures
        folding::meets(shape, assignment) == r1cs::satisfied(shape, assignment.inputs@, full),
{
    assert(r1cs::resized(shape, assignment.vars@) =~= full);
}

/// An assignment with a value for each private variable meets the constraints
/// exactly where its own values satisfy the shape.
pub proof fn full_assignment_is_judged_by_its_values(shape: R1CSShape, assignment: Assignment)
    requires
        assignment.vars@.len() == r1cs::num_vars(shape),
    ensures
        folding::meets(shape, assignment) == r1cs::satisfied(
            shape,
            assignment.inputs@,
            assignment.vars@,
        ),
{
    meeting_is_satisfying(shape, assignment, assignment.vars@);
}

/// Assignments fit, or meet the constraints, exactly where each of them does, and
/// one fits by the number of its public inputs alone.
pub proof fn assignments_are_judged_one_by_one(
    shape: R1CSShape,
    assignments: Seq<Assignment>,
)
    ensures
        folding::all_fit(shape, assignments) <==> forall|i: int|
            0 <= i < assignments.len() ==> (#[trigger] assignments[i]).inputs@.len()
                == r1cs::num_io(shape),
        folding::all_meet(shape, assignments) <==> forall|i: int|
            0 <= i < assignments.len() ==> folding::meets(shape, #[trigger] assignments[i]),
{
    if forall|i: int|
        0 <= i < assignments.len() ==> (#[trigger] assignments[i]).inputs@.len() == r1cs::num_io(
            shape,
        ) {
        assert(folding::all_fit(shape, assignments));
    }
    if folding::all_fit(shape, assignments) {
        assert forall|i: int| 0 <= i < assignments.len() implies (
        #[trigger] assignments[i]).inputs@.len() == r1cs::num_io(shape) by {
            assert(folding::fits(shape, assignments[i]));
        }
    }
}

/// The instance and the witness of a chunk hold its values: all its public inputs,
/// and its private variables one by one.
pub proof fn pair_holds_the_values(
    shape: R1CSShape,
    gens: R1CSGens,
    assignment: Assignment,
    pair: (R1CSInstance, R1CSWitness),
)
    ensures
        folding::carries(shape, gens, assignment, pair) <==> {
            &&& assignment.inputs@.len() == r1cs::num_io(shape)
            &&& r1cs::instance_inputs(pair.0) == assignment.inputs@
            &&& r1cs::witness_vars(pair.1).len() == r1cs::num_vars(shape)
            &&& forall|i: int|
                0 <= i < r1cs::num_vars(shape) && i < assignment.vars@.len()
                    ==> #[trigger] r1cs::witness_vars(pair.1)[i] == assignment.vars@[i]
            &&& forall|i: int|
                assignment.vars@.len() <= i < r1cs::num_vars(shape)
                    ==> #[trigger] r1cs::witness_vars(pair.1)[i] == r1cs::zero_of(shape)
            &&& r1cs::committed(gens, pair.0, pair.1)
        },
{
    if r1cs::witness_vars(pair.1).len() == r1cs::num_vars(shape) && (forall|i: int|
        0 <= i < r1cs::num_vars(shape) && i < assignment.vars@.len()
            ==> #[trigger] r1cs::witness_vars(pair.1)[i] == assignment.vars@[i]) && (forall|i: int|
        assignment.vars@.len() <= i < r1cs::num_vars(shape)
            ==> #[trigger] r1cs::witness_vars(pair.1)[i] == r1cs::zero_of(shape)) {
        assert(r1cs::witness_vars(pair.1) =~= r1cs::resized(shape, assignment.vars@));
    }
}

/// Where a witness satisfies an instance: the lengths, the constraints and the
/// commitment are right, and nothing else is asked.
pub proof fn satisfaction_has_three_parts(
    shape: R1CSShape,
    gens: R1CSGens,
    u: R1CSInstance,
    w: R1CSWitness,
)
    ensures
        r1cs::r1cs_sat(shape, gens, u, w) <==> {
            &&& r1cs::instance_inputs(u).len() == r1cs::num_io(shape)
            &&& r1cs::witness_vars(w).len() == r1cs::num_vars(shape)
            &&& r1cs::satisfied(shape, r1cs::instance_inputs(u), r1cs::witness_vars(w))
            &&& r1cs::committed(gens, u, w)
        },
{
}

/// A proof is one of an instance exactly where its witness has the right lengths,
/// meets the relaxed constraints with the instance and is committed to by it. The
/// steps and the instance that it came with do not matter.
pub proof fn proof_is_judged_by_its_witness(
    shape: R1CSShape,
    gens: R1CSGens,
    instance: RelaxedR1CSInstance,
    proof: Proof,
)
    ensures
        proof.proves(shape, gens, instance) <==> {
            let witness = proof.final_proof.witness;
            &&& r1cs::relaxed_inputs(instance).len() == r1cs::num_io(shape)
            &&& r1cs::relaxed_vars(witness).len() == r1cs::num_vars(shape)
            &&& r1cs::relaxed_error(witness).len() == r1cs::num_cons(shape)
            &&& r1cs::relaxed_satisfied(
                shape,
                r1cs::relaxed_scalar(instance),
                r1cs::relaxed_inputs(instance),
                r1cs::relaxed_vars(witness),
                r1cs::relaxed_error(witness),
            )
            &&& r1cs::relaxed_committed(gens, instance, witness)
        },
{
}

/// What verifying a step yields is what `NIFSRelaxed::verify` returns for it, from
/// the running instance and the relaxed one folded in.
pub proof fn verifying_a_step_is_outside_verifying(
    oracle: Oracle,
    step: StepSNARK,
    acc: RelaxedR1CSInstance,
    instance: R1CSInstance,
    next: RelaxedR1CSInstance,
)
    ensures
        folding::verified(oracle, step, acc, instance) == Some(next) <==> r1cs::step_verified(
            step,
            oracle.constants,
            oracle.digest,
            acc,
            r1cs::relaxed_of(instance),
        ) == Ok::<RelaxedR1CSInstance, NovaError>(next),
{
}

/// A folding step: the running pair first, the fresh pair second, folded by the
/// challenge of this step. The instance reached is what verifying the step gives,
/// and the witness reached is folded of these two. It keeps the lengths; it keeps
/// commitments; it keeps satisfaction.
pub proof fn step_folds_both_pairs(
    shape: R1CSShape,
    gens: R1CSGens,
    oracle: Oracle,
    acc: (RelaxedR1CSInstance, RelaxedR1CSWitness),
    pair: (R1CSInstance, R1CSWitness),
    step: StepSNARK,
    next: (RelaxedR1CSInstance, RelaxedR1CSWitness),
)
    requires
        folding::step_folds(shape, gens, oracle, acc, pair, step, next),
    ensures
        r1cs::step_verified(
            step,
            oracle.constants,
            oracle.digest,
            acc.0,
            r1cs::relaxed_of(pair.0),
        ) == Ok::<RelaxedR1CSInstance, NovaError>(next.0),
        r1cs::relaxed_vars(next.1) == r1cs::folded_vars(
            step,
            oracle.constants,
            oracle.digest,
            acc.0,
            r1cs::relaxed_of(pair.0),
            r1cs::relaxed_vars(acc.1),
            r1cs::witness_vars(pair.1),
        ),
        r1cs::relaxed_error(next.1) == r1cs::folded_error(
            step,
            oracle.constants,
            oracle.digest,
            shape,
            acc.0,
            r1cs::relaxed_of(pair.0),
            r1cs::relaxed_vars(acc.1),
            r1cs::witness_vars(pair.1),
            r1cs::relaxed_error(acc.1),
            Seq::new(r1cs::num_cons(shape) as nat, |i: int| r1cs::zero_of(shape)),
        ),
        r1cs::relaxed_inputs(next.0).len() == r1cs::num_io(shape),
        r1cs::relaxed_vars(next.1).len() == r1cs::num_vars(shape),
        r1cs::relaxed_error(acc.1).len() == r1cs::num_cons(shape) && r1cs::relaxed_committed(
            gens,
            acc.0,
            acc.1,
        ) && r1cs::committed(gens, pair.0, pair.1) ==> r1cs::relaxed_error(next.1).len()
            == r1cs::num_cons(shape) && r1cs::relaxed_committed(gens, next.0, next.1),
        r1cs::relaxed_sat(shape, gens, acc.0, acc.1) && r1cs::r1cs_sat(
            shape,
            gens,
            pair.0,
            pair.1,
        ) ==> r1cs::relaxed_satisfied(
            shape,
            r1cs::relaxed_scalar(next.0),
            r1cs::relaxed_inputs(next.0),
            r1cs::relaxed_vars(next.1),
            r1cs::relaxed_error(next.1),
        ),
{
    assert(r1cs::zeros(shape, r1cs::num_cons(shape) as nat) =~= Seq::new(
        r1cs::num_cons(shape) as nat,
        |i: int| r1cs::zero_of(shape),
    ));
}

/// A proof of a trace folds every chunk of it, each its own, in order. There is an
/// instance for each chunk, with the public inputs of the assignment of that chunk
/// and a witness with its private variables, to which it commits. From the default
/// instance on, each step leads by verifying it from one running instance to the
/// next, folding in the instance of its chunk, and the witnesses are folded along.
/// The proof is of where the last step leads. Its steps are these, or none.
pub proof fn each_chunk_is_folded_once_in_order(
    shape: R1CSShape,
    gens: R1CSGens,
    assignments: Seq<Assignment>,
    verify_steps: bool,
    proof: Proof,
) -> (trace: (
    Seq<(R1CSInstance, R1CSWitness)>,
    Seq<StepSNARK>,
    Seq<(RelaxedR1CSInstance, RelaxedR1CSWitness)>,
))
    requires
        folding::proof_of(shape, gens, assignments, verify_steps, proof),
    ensures
        trace.0.len() == assignments.len(),
        trace.1.len() == assignments.len(),
        trace.2.len() == assignments.len() + 1,
        forall|i: int|
            #![trigger assignments[i]]
            #![trigger trace.0[i]]
            0 <= i < assignments.len() ==> {
                &&& assignments[i].inputs@.len() == r1cs::num_io(shape)
                &&& r1cs::instance_inputs(trace.0[i].0) == assignments[i].inputs@
                &&& r1cs::witness_vars(trace.0[i].1).len() == r1cs::num_vars(shape)
                &&& r1cs::committed(gens, trace.0[i].0, trace.0[i].1)
            },
        forall|i: int, j: int|
            #![trigger r1cs::witness_vars(trace.0[i].1)[j]]
            0 <= i < assignments.len() && 0 <= j < r1cs::num_vars(shape) ==> r1cs::witness_vars(
                trace.0[i].1,
            )[j] == (if j < assignments[i].vars@.len() {
                assignments[i].vars@[j]
            } else {
                r1cs::zero_of(shape)
            }),
        trace.2[0].0 == r1cs::default_instance_of(gens, shape),
        trace.2[0].1 == r1cs::default_witness_of(shape),
        forall|i: int|
            #![trigger trace.1[i]]
            0 <= i < assignments.len() ==> {
                &&& r1cs::step_verified(
                    trace.1[i],
                    r1cs::ro_constants_of(shape),
                    r1cs::digest_of(shape),
                    trace.2[i].0,
                    r1cs::relaxed_of(trace.0[i].0),
                ) == Ok::<RelaxedR1CSInstance, NovaError>(trace.2[i + 1].0)
                &&& r1cs::relaxed_vars(trace.2[i + 1].1) == r1cs::folded_vars(
                    trace.1[i],
                    r1cs::ro_constants_of(shape),
                    r1cs::digest_of(shape),
                    trace.2[i].0,
                    r1cs::relaxed_of(trace.0[i].0),
                    r1cs::relaxed_vars(trace.2[i].1),
                    r1cs::witness_vars(trace.0[i].1),
                )
                &&& r1cs::relaxed_error(trace.2[i + 1].1) == r1cs::folded_error(
                    trace.1[i],
                    r1cs::ro_constants_of(shape),
                    r1cs::digest_of(shape),
                    shape,
                    trace.2[i].0,
                    r1cs::relaxed_of(trace.0[i].0),
                    r1cs::relaxed_vars(trace.2[i].1),
                    r1cs::witness_vars(trace.0[i].1),
                    r1cs::relaxed_error(trace.2[i].1),
                    Seq::new(r1cs::num_cons(shape) as nat, |j: int| r1cs::zero_of(shape)),
                )
            },
        forall|i: int|
            #![trigger trace.2[i]]
            0 <= i <= assignments.len() ==> {
                &&& r1cs::relaxed_inputs(trace.2[i].0).len() == r1cs::num_io(shape)
                &&& r1cs::relaxed_vars(trace.2[i].1).len() == r1cs::num_vars(shape)
                &&& r1cs::relaxed_error(trace.2[i].1).len() == r1cs::num_cons(shape)
                &&& r1cs::relaxed_committed(gens, trace.2[i].0, trace.2[i].1)
            },
        proof.final_instance == trace.2[assignments.len() as int].0,
        proof.final_proof.witness == trace.2[assignments.len() as int].1,
        verify_steps ==> proof.step_proofs@ == trace.1,
        !verify_steps ==> proof.step_proofs@.len() == 0,
{
    let (pairs, steps, accs) = folding::trace_of(shape, gens, assignments, verify_steps, proof);
    let oracle = nova::oracle_of(shape);
    assert forall|i: int|
        #![trigger assignments[i]]
        #![trigger pairs[i]]
        0 <= i < assignments.len() implies {
        &&& assignments[i].inputs@.len() == r1cs::num_io(shape)
        &&& r1cs::instance_inputs(pairs[i].0) == assignments[i].inputs@
        &&& r1cs::witness_vars(pairs[i].1).len() == r1cs::num_vars(shape)
        &&& r1cs::committed(gens, pairs[i].0, pairs[i].1)
    } by {
        assert(folding::carries(shape, gens, assignments[i], pairs[i]));
        pair_holds_the_values(shape, gens, assignments[i], pairs[i]);
    }
    assert forall|i: int, j: int|
        #![trigger r1cs::witness_vars(pairs[i].1)[j]]
        0 <= i < assignments.len() && 0 <= j < r1cs::num_vars(shape) implies r1cs::witness_vars(
        pairs[i].1,
    )[j] == (if j < assignments[i].vars@.len() {
        assignments[i].vars@[j]
    } else {
        r1cs::zero_of(shape)
    }) by {
        assert(folding::carries(shape, gens, assignments[i], pairs[i]));
        pair_holds_the_values(shape, gens, assignments[i], pairs[i]);
    }
    assert forall|i: int| #![trigger steps[i]] 0 <= i < assignments.len() implies {
        &&& r1cs::step_verified(
            steps[i],
            r1cs::ro_constants_of(shape),
            r1cs::digest_of(shape),
            accs[i].0,
            r1cs::relaxed_of(pairs[i].0),
        ) == Ok::<RelaxedR1CSInstance, NovaError>(accs[i + 1].0)
        &&& r1cs::relaxed_vars(accs[i + 1].1) == r1cs::folded_vars(
            steps[i],
            r1cs::ro_constants_of(shape),
            r1cs::digest_of(shape),
            accs[i].0,
            r1cs::relaxed_of(pairs[i].0),
            r1cs::relaxed_vars(accs[i].1),
            r1cs::witness_vars(pairs[i].1),
        )
        &&& r1cs::relaxed_error(accs[i + 1].1) == r1cs::folded_error(
            steps[i],
            r1cs::ro_constants_of(shape),
            r1cs::digest_of(shape),
            shape,
            accs[i].0,
            r1cs::relaxed_of(pairs[i].0),
            r1cs::relaxed_vars(accs[i].1),
            r1cs::witness_vars(pairs[i].1),
            r1cs::relaxed_error(accs[i].1),
            Seq::new(r1cs::num_cons(shape) as nat, |j: int| r1cs::zero_of(shape)),
        )
    } by {
        step_folds_both_pairs(shape, gens, oracle, accs[i], pairs[i], steps[i], accs[i + 1]);
    }
    assert forall|i: int| #![trigger accs[i]] 0 <= i <= assignments.len() implies {
        &&& r1cs::relaxed_inputs(accs[i].0).len() == r1cs::num_io(shape)
        &&& r1cs::relaxed_vars(accs[i].1).len() == r1cs::num_vars(shape)
        &&& r1cs::relaxed_error(accs[i].1).len() == r1cs::num_cons(shape)
        &&& r1cs::relaxed_committed(gens, accs[i].0, accs[i].1)
    } by {
        folding::folding_keeps_commitments(shape, gens, pairs, steps, accs, i as nat);
    }
    (pairs, steps, accs)
}

/// What proving gives is a proof of the very trace that was given, with every
/// chunk in it, and the instance that this proof came with.
pub proof fn proving_is_of_the_given_trace(
    shape: R1CSShape,
    gens: R1CSGens,
    assignments: Seq<Assignment>,
    verify_steps: bool,
    made: (Proof, RelaxedR1CSInstance),
)
    ensures
        nova::proved(shape, gens, assignments, verify_steps, made) <==> {
            &&& folding::proof_of(shape, gens, assignments, verify_steps, made.0)
            &&& made.1 == made.0.final_instance
        },
{
}

/// The proof of a trace of which every chunk satisfies the shape, by its own public
/// inputs and private variables, is accepted, however many chunks there are.
pub proof fn honest_proofs_are_accepted(
    shape: R1CSShape,
    gens: R1CSGens,
    assignments: Seq<Assignment>,
    fulls: Seq<Seq<Fr>>,
    verify_steps: bool,
    made: (Proof, RelaxedR1CSInstance),
)
    requires
        nova::proved(shape, gens, assignments, verify_steps, made),
        fulls.len() == assignments.len(),
        forall|i: int|
            0 <= i < fulls.len() ==> (#[trigger] fulls[i]).len() == r1cs::num_vars(shape)
                && r1cs::satisfied(shape, assignments[i].inputs@, fulls[i]),
        forall|i: int, j: int|
            #![trigger fulls[i][j]]
            0 <= i < fulls.len() && 0 <= j < r1cs::num_vars(shape) ==> fulls[i][j] == (if j
                < assignments[i].vars@.len() {
                assignments[i].vars@[j]
            } else {
                r1cs::zero_of(shape)
            }),
    ensures
        made.1 == made.0.final_instance,
        made.0.proves(shape, gens, made.1),
        r1cs::relaxed_satisfied(
            shape,
            r1cs::relaxed_scalar(made.1),
            r1cs::relaxed_inputs(made.1),
            r1cs::relaxed_vars(made.0.final_proof.witness),
            r1cs::relaxed_error(made.0.final_proof.witness),
        ),
        r1cs::relaxed_committed(gens, made.1, made.0.final_proof.witness),
{
    proving_is_of_the_given_trace(shape, gens, assignments, verify_steps, made);
    assert forall|i: int| 0 <= i < assignments.len() implies folding::meets(
        shape,
        #[trigger] assignments[i],
    ) by {
        assert(fulls[i].len() == r1cs::num_vars(shape));
        assert forall|j: int|
            0 <= j < fulls[i].len() && j < assignments[i].vars@.len() implies #[trigger] fulls[i][j]
            == assignments[i].vars@[j] by {}
        assert forall|j: int|
            assignments[i].vars@.len() <= j < fulls[i].len() implies #[trigger] fulls[i][j]
            == r1cs::zero_of(shape) by {}
        meeting_is_satisfying(shape, assignments[i], fulls[i]);
    }
    assignments_are_judged_one_by_one(shape, assignments);
    folding::satisfied_trace_verifies(shape, gens, assignments, verify_steps, made.0);
    proof_is_judged_by_its_witness(shape, gens, made.1, made.0);
}

/// There are generators enough exactly where there is one for each private
/// variable and for each constraint.
pub proof fn generators_are_counted(shape: R1CSShape, gens: R1CSGens)
    ensures
        r1cs::key_fits(shape, gens) <==> r1cs::num_vars(shape) <= r1cs::key_size(gens)
            && r1cs::num_cons(shape) <= r1cs::key_size(gens),
{
}

/// The columns of a circuit fit where all its variables were allocated and these
/// can be counted, whatever their number; they do not only where a sum exceeds
/// what can be counted.
pub proof fn columns_are_only_bounded_by_counting(blank: ShapeCS)
    ensures
        r1cs::input_count(blank) + r1cs::aux_count(blank) <= usize::MAX && (forall|k: int|
            0 <= k < r1cs::input_indices(blank).len() ==> #[trigger] r1cs::input_indices(blank)[k]
                < r1cs::input_count(blank)) ==> nova::columns_fit(blank),
        !nova::columns_fit(blank) <==> {
            ||| r1cs::input_count(blank) + r1cs::aux_count(blank) > usize::MAX
            ||| exists|k: int|
                0 <= k < r1cs::input_indices(blank).len() && #[trigger] r1cs::input_indices(
                    blank,
                )[k] + r1cs::aux_count(blank) > usize::MAX
        },
{
}

/// The variables of a circuit are allocated exactly where each index is below the
/// number of its kind.
pub proof fn allocation_is_by_index(blank: ShapeCS)
    ensures
        r1cs::allocated(blank) <==> {
            &&& forall|k: int|
                0 <= k < r1cs::input_indices(blank).len() ==> #[trigger] r1cs::input_indices(
                    blank,
                )[k] < r1cs::input_count(blank)
            &&& forall|k: int|
                0 <= k < r1cs::aux_indices(blank).len() ==> #[trigger] r1cs::aux_indices(blank)[k]
                    < r1cs::aux_count(blank)
        },
{
}

/// Shape and generators are what `nova-snark` makes of the circuit, wherever its
/// columns can be counted: the shape, its error, and the generators of the shape.
pub proof fn shape_is_of_the_circuit(blank: ShapeCS)
    requires
        r1cs::input_count(blank) + r1cs::aux_count(blank) <= usize::MAX,
        forall|k: int|
            0 <= k < r1cs::input_indices(blank).len() ==> #[trigger] r1cs::input_indices(blank)[k]
                + r1cs::aux_count(blank) <= usize::MAX,
    ensures
        nova::shape_and_gens_of(blank) is Ok <==> r1cs::r1cs_shape_of(blank) is Ok,
        r1cs::r1cs_shape_of(blank) is Ok ==> nova::shape_and_gens_of(blank)->Ok_0 == (
            r1cs::r1cs_shape_of(blank)->Ok_0,
            r1cs::gens_of(r1cs::r1cs_shape_of(blank)->Ok_0),
        ),
        r1cs::r1cs_shape_of(blank) is Err ==> nova::shape_and_gens_of(blank)->Err_0
            == ProofError::Nova(r1cs::r1cs_shape_of(blank)->Err_0),
{
}

/// A trace can be proved, of however many chunks, where the circuit has a shape,
/// the frames are as many as the chunks hold, a step takes the public inputs of
/// the shape, and every assignment has as many.
pub proof fn whole_traces_can_be_proved(
    chunk_size: usize,
    count: nat,
    assignments: Seq<Assignment>,
    blank: ShapeCS,
)
    requires
        r1cs::input_count(blank) + r1cs::aux_count(blank) <= usize::MAX,
        forall|k: int|
            0 <= k < r1cs::input_indices(blank).len() ==> #[trigger] r1cs::input_indices(blank)[k]
                + r1cs::aux_count(blank) <= usize::MAX,
        r1cs::r1cs_shape_of(blank) is Ok,
        count == chunk_size * assignments.len(),
        r1cs::num_io(r1cs::r1cs_shape_of(blank)->Ok_0) <= MAX_INPUTS,
        forall|i: int|
            0 <= i < assignments.len() ==> (#[trigger] assignments[i]).inputs@.len()
                == r1cs::num_io(r1cs::r1cs_shape_of(blank)->Ok_0),
    ensures
        nova::provable(chunk_size, count, assignments, blank) is Ok,
{
    shape_is_of_the_circuit(blank);
    assignments_are_judged_one_by_one(r1cs::r1cs_shape_of(blank)->Ok_0, assignments);
}

/// A trace that cannot be proved fails for one of these reasons, of which the
/// first that holds is told: the columns, the circuit, the number of frames, the
/// number of public inputs of the shape, or those of an assignment.
pub proof fn refusals_have_their_reason(
    chunk_size: usize,
    count: nat,
    assignments: Seq<Assignment>,
    blank: ShapeCS,
)
    ensures
        nova::provable(chunk_size, count, assignments, blank) matches Err(e) ==> {
            let shape = r1cs::r1cs_shape_of(blank)->Ok_0;
            let too_far = r1cs::input_count(blank) + r1cs::aux_count(blank) > usize::MAX
                || exists|k: int|
                0 <= k < r1cs::input_indices(blank).len() && #[trigger] r1cs::input_indices(
                    blank,
                )[k] + r1cs::aux_count(blank) > usize::MAX;
            match e {
                ProofError::IndexOverflow => too_far,
                ProofError::Nova(inner) => !too_far && r1cs::r1cs_shape_of(blank) == Err::<
                    R1CSShape,
                    NovaError,
                >(inner),
                ProofError::InvalidFrameCount => !too_far && r1cs::r1cs_shape_of(blank) is Ok
                    && count != chunk_size * assignments.len(),
                ProofError::TooManyInputs => !too_far && r1cs::r1cs_shape_of(blank) is Ok && count
                    == chunk_size * assignments.len() && r1cs::num_io(shape) > MAX_INPUTS,
                ProofError::InvalidInputLength => !too_far && r1cs::r1cs_shape_of(blank) is Ok
                    && count == chunk_size * assignments.len() && r1cs::num_io(shape) <= MAX_INPUTS
                    && exists|i: int|
                    0 <= i < assignments.len() && (#[trigger] assignments[i]).inputs@.len()
                        != r1cs::num_io(shape),
            }
        },
{
    columns_are_only_bounded_by_counting(blank);
    if nova::columns_fit(blank) {
        shape_is_of_the_circuit(blank);
        assignments_are_judged_one_by_one(r1cs::r1cs_shape_of(blank)->Ok_0, assignments);
    }
}

/// What evaluating comes to: the refusal, where the trace cannot be proved, and
/// else a proof of it, with all its chunks and a step kept for each, for the shape
/// and the generators of the circuit.
pub proof fn evaluating_proves_or_refuses(
    chunk_size: usize,
    count: nat,
    assignments: Seq<Assignment>,
    blank: ShapeCS,
    res: Result<(Proof, RelaxedR1CSInstance), ProofError>,
)
    requires
        nova::evaluated(chunk_size, count, assignments, blank, res),
    ensures
        res is Ok <==> nova::provable(chunk_size, count, assignments, blank) is Ok,
        res is Err ==> nova::provable(chunk_size, count, assignments, blank) == Err::<
            (),
            ProofError,
        >(res->Err_0),
        res is Ok ==> {
            let shape = r1cs::r1cs_shape_of(blank)->Ok_0;
            &&& r1cs::r1cs_shape_of(blank) is Ok
            &&& count == chunk_size * assignments.len()
            &&& folding::proof_of(shape, r1cs::gens_of(shape), assignments, true, res->Ok_0.0)
            &&& res->Ok_0.0.step_proofs@.len() == assignments.len()
            &&& res->Ok_0.1 == res->Ok_0.0.final_instance
        },
{
    if res is Ok {
        let (shape, gens) = nova::shape_and_gens_of(blank)->Ok_0;
        proving_is_of_the_given_trace(shape, gens, assignments, true, res->Ok_0);
        folding::steps_kept(shape, gens, assignments, true, res->Ok_0.0);
    }
}

/// A step takes as many public inputs as its oracle can absorb, and no fewer: of
/// each of two instances four limbs an input, and eighteen elements more, are
/// below two to the power of 31 up to this number of inputs, and not beyond it.
pub proof fn a_step_takes_what_its_oracle_absorbs(inputs: nat)
    ensures
        inputs <= MAX_INPUTS <==> 8 * inputs + 18 < 0x8000_0000,
{
}

/// The lesser of two lengths is one of them, and no more than either.
pub proof fn shorter_is_the_lesser(one: nat, other: nat)
    ensures
        r1cs::shorter(one, other) <= one,
        r1cs::shorter(one, other) <= other,
        r1cs::shorter(one, other) == one || r1cs::shorter(one, other) == other,
{
}

} // verus!
