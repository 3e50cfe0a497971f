//! What of an evaluation is handed to a circuit.

use crate::eval::{Frame, IO};
#[allow(unused_imports)]
use crate::prover;
use crate::r1cs::Fr;
#[allow(unused_imports)]
use crate::store::{ScalarContPtr, ScalarPtr, Store};
use vstd::prelude::*;

verus! {

/// A value that has public inputs of a circuit.
pub trait ToInputs<F> {
    /// Whether the store has what the inputs are made of.
    spec fn hashed(&self, store: &Store<F>) -> bool;

    /// The inputs.
    spec fn inputs(&self, store: &Store<F>) -> Seq<F>;

    /// Whether the number of inputs is known without a value.
    spec fn sized() -> bool;

    /// How many inputs there are.
    spec fn size() -> nat;

    /// The public inputs that stand for the value: as many as the type
    /// announces, where it does.
    fn to_inputs(&self, store: &Store<F>) -> (res: Vec<F>)
        requires
            self.hashed(store),
        ensures
            res@ == self.inputs(store),
            Self::sized() ==> res@.len() == Self::size(),
    ;

    /// How many public inputs a value has.
    fn input_size() -> (res: usize)
        requires
            Self::sized(),
        ensures
            res == Self::size(),
    ;
}

impl<F, T: ToInputs<F>> ToInputs<F> for Option<T> {
    /// An absent value has no inputs.
    open spec fn hashed(&self, store: &Store<F>) -> bool {
        match self {
            Some(t) => t.hashed(store),
            None => false,
        }
    }

    open spec fn inputs(&self, store: &Store<F>) -> Seq<F> {
        match self {
            Some(t) => t.inputs(store),
            None => Seq::empty(),
        }
    }

    /// An optional value announces no size.
    open spec fn sized() -> bool {
        false
    }

    open spec fn size() -> nat {
        0
    }

    fn to_inputs(&self, store: &Store<F>) -> (res: Vec<F>)
        ensures
            self is Some,
            res@ == self->0.inputs(store),
    {
        match self {
            Some(t) => t.to_inputs(store),
            None => vstd::pervasive::unreached(),
        }
    }

    fn input_size() -> (res: usize) {
        vstd::pervasive::unreached()
    }
}

impl<F: Copy> ToInputs<F> for IO<F> {
    open spec fn hashed(&self, store: &Store<F>) -> bool {
        &&& store.expr(self.expr) is Some
        &&& store.expr(self.env) is Some
        &&& store.cont(self.cont) is Some
    }

    /// Tag and hash of the expression, the environment and the continuation.
    open spec fn inputs(&self, store: &Store<F>) -> Seq<F> {
        let expr = store.expr(self.expr)->0;
        let env = store.expr(self.env)->0;
        let cont = store.cont(self.cont)->0;
        seq![expr.tag, expr.value, env.tag, env.value, cont.tag, cont.value]
    }

    open spec fn sized() -> bool {
        true
    }

    open spec fn size() -> nat {
        6
    }

    fn to_inputs(&self, store: &Store<F>) -> (res: Vec<F>)
        ensures
            res@.len() == 6,
            self.expr.raw < store.exprs@.len(),
            self.env.raw < store.exprs@.len(),
            self.cont.raw < store.conts@.len(),
            Some(ScalarPtr { tag: res@[0], value: res@[1] }) == store.exprs@[self.expr.raw as int],
            Some(ScalarPtr { tag: res@[2], value: res@[3] }) == store.exprs@[self.env.raw as int],
            Some(ScalarContPtr { tag: res@[4], value: res@[5] })
                == store.conts@[self.cont.raw as int],
    {
        let expr = store.hash_expr(&self.expr).unwrap();
        let env = store.hash_expr(&self.env).unwrap();
        let cont = store.hash_cont(&self.cont).unwrap();
        let public_inputs = vec![
            *expr.tag(),
            *expr.value(),
            *env.tag(),
            *env.value(),
            *cont.tag(),
            *cont.value(),
        ];
        assert(public_inputs@ == self.inputs(store));
        public_inputs
    }

    fn input_size() -> (res: usize)
        ensures
            res == 6,
    {
        6
    }
}

/// The values that a circuit gave its variables.
pub struct Assignment {
    /// The public inputs, without the constant one.
    pub inputs: Vec<Fr>,
    /// The private variables.
    pub vars: Vec<Fr>,
}

/// A chunk of frames.
pub struct MultiFrame<F> {
    /// The frames; a blank chunk has none.
    pub frames: Option<Vec<Frame<F>>>,
}

/// A chunk of frames with the values that the circuit which checks it gave its
/// variables. The values are what a proof folds; that they are those of the
/// frames is up to the circuit.
pub struct Synthesized<'a, F> {
    pub multi_frame: &'a MultiFrame<F>,
    pub assignment: &'a Assignment,
}

/// The frames of the chunk at `index`, where each has `count`.
pub open spec fn chunk_of<F>(frames: Seq<Frame<F>>, count: nat, index: int) -> Seq<Frame<F>> {
    frames.subrange(index * count, (index + 1) * count)
}

impl<F> MultiFrame<F> {
    /// Cuts a trace into chunks of `count` frames, in order.
    pub fn from_frames(count: usize, frames: &[Frame<F>]) -> (res: Vec<MultiFrame<F>>)
        requires
            count != 0,
            frames@.len() % count as nat == 0,
        ensures
            res@.len() == frames@.len() / count as nat,
            res@.len() * count == frames@.len(),
            forall|i: int, j: int|
                #![trigger res@[i].frames->0@[j]]
                0 <= i < res@.len() && 0 <= j < count ==> res@[i].frames->0@[j] == frames@[i * count
                    + j],
            forall|i: int|
                #![trigger res@[i]]
                0 <= i < res@.len() ==> {
                    &&& res@[i].frames is Some
                    &&& res@[i].frames->0@ == chunk_of(frames@, count as nat, i)
                    &&& res@[i].frames->0@.len() == count
                },
    {
        let mut res: Vec<MultiFrame<F>> = Vec::new();
        let total: usize = frames.len();
        let chunks: usize = total / count;
        let mut next: usize = 0;
        assert(total == count * chunks) by {
            prover::whole_chunks(count as nat, total as nat, chunks as nat);
        }
        assert(chunks * count == count * chunks) by (nonlinear_arith);
        assert(0 * count == 0) by (nonlinear_arith);
        for i in 0..chunks
            invariant
                total == frames@.len(),
                total == count * chunks,
                next == i * count,
                res@.len() == i,
                forall|k: int|
                    #![trigger res@[k]]
                    0 <= k < i ==> {
                        &&& res@[k].frames is Some
                        &&& res@[k].frames->0@ == chunk_of(frames@, count as nat, k)
                        &&& res@[k].frames->0@.len() == count
                    },
        {
            assert((i + 1) * count <= count * chunks) by (nonlinear_arith)
                requires
                    i + 1 <= chunks,
                    count >= 0,
            ;
            assert((i + 1) * count == i * count + count) by (nonlinear_arith);
            let mut chunk: Vec<Frame<F>> = Vec::new();
            for j in 0..count
                invariant
                    next + count <= total,
                    total == frames@.len(),
                    chunk@ == frames@.subrange(next as int, next + j),
            {
                chunk.push(frames[next + j]);
            }
            next = next + count;
            res.push(MultiFrame { frames: Some(chunk) });
        }
        assert forall|i: int, j: int|
            #![trigger res@[i].frames->0@[j]]
            0 <= i < res@.len() && 0 <= j < count implies res@[i].frames->0@[j] == frames@[i * count
            + j] by {
            assert(0 <= i * count && (i + 1) * count <= count * chunks) by (nonlinear_arith)
                requires
                    0 <= i < chunks,
                    count >= 0,
            ;
            assert((i + 1) * count == i * count + count) by (nonlinear_arith);
        }
        res
    }
}

/// Every chunk of a trace has `count` frames.
pub proof fn chunks_have_count<F>(frames: Seq<Frame<F>>, count: nat, chunks: nat, index: int)
    requires
        frames.len() == count * chunks,
        0 <= index < chunks,
    ensures
        chunk_of(frames, count, index).len() == count,
{
    assert(0 <= index * count <= (index + 1) * count <= count * chunks) by (nonlinear_arith)
        requires
            0 <= index < chunks,
    ;
    assert((index + 1) * count == index * count + count) by (nonlinear_arith);
}

/// Every frame of a trace stands in one chunk, in the order of the trace.
pub proof fn chunks_keep_frames<F>(frames: Seq<Frame<F>>, count: nat, chunks: nat, at: int)
    requires
        frames.len() == count * chunks,
        0 <= at < frames.len(),
    ensures
        0 <= at / (count as int) < chunks,
        chunk_of(frames, count, at / (count as int))[at % (count as int)] == frames[at],
{
    assert(count > 0) by (nonlinear_arith)
        requires
            0 < count * chunks,
    ;
    let index = at / (count as int);
    vstd::arithmetic::div_mod::lemma_fundamental_div_mod(at, count as int);
    assert(index * count == count * index) by (nonlinear_arith);
    assert(0 <= index < chunks) by (nonlinear_arith)
        requires
            0 <= at < count * chunks,
            count > 0,
            at == count * index + at % (count as int),
            0 <= at % (count as int) < count,
    ;
    assert(0 <= index * count <= (index + 1) * count <= count * chunks) by (nonlinear_arith)
        requires
            0 <= index < chunks,
    ;
    assert((index + 1) * count == index * count + count) by (nonlinear_arith);
}

} // verus!
