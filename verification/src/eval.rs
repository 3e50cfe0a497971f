//! The states that an evaluation passes through.

use crate::store::{ContPtr, Ptr};
use vstd::prelude::*;

verus! {

/// One state of an evaluation.
pub struct IO<F> {
    pub expr: Ptr<F>,
    pub env: Ptr<F>,
    pub cont: ContPtr<F>,
}

impl<F> Clone for IO<F> {
    fn clone(&self) -> (res: Self)
        ensures
            res == *self,
    {
        *self
    }
}

impl<F> Copy for IO<F> {
}

/// One step of an evaluation: the state it starts from and the one it reaches.
pub struct Frame<F> {
    pub input: IO<F>,
    pub output: IO<F>,
}

impl<F> Clone for Frame<F> {
    fn clone(&self) -> (res: Self)
        ensures
            res == *self,
    {
        *self
    }
}

impl<F> Copy for Frame<F> {
}

} // verus!
