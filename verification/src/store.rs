//! Pointers and the scalars they stand for.

use std::marker::PhantomData;
use vstd::prelude::*;

verus! {

/// A pointer to an expression in a [`Store`].
pub struct Ptr<F> {
    /// Where the expression stands in the store.
    pub raw: usize,
    pub _p: PhantomData<F>,
}

impl<F> Clone for Ptr<F> {
    fn clone(&self) -> (res: Self)
        ensures
            res == *self,
    {
        *self
    }
}

impl<F> Copy for Ptr<F> {
}

/// A pointer to a continuation in a [`Store`].
pub struct ContPtr<F> {
    /// Where the continuation stands in the store.
    pub raw: usize,
    pub _p: PhantomData<F>,
}

impl<F> Clone for ContPtr<F> {
    fn clone(&self) -> (res: Self)
        ensures
            res == *self,
    {
        *self
    }
}

impl<F> Copy for ContPtr<F> {
}

/// What an expression is to a circuit: a tag and a hash.
pub struct ScalarPtr<F> {
    pub tag: F,
    pub value: F,
}

impl<F: Copy> Clone for ScalarPtr<F> {
    fn clone(&self) -> (res: Self)
        ensures
            res == *self,
    {
        *self
    }
}

impl<F: Copy> Copy for ScalarPtr<F> {
}

/// What a continuation is to a circuit: a tag and a hash.
pub struct ScalarContPtr<F> {
    pub tag: F,
    pub value: F,
}

impl<F: Copy> Clone for ScalarContPtr<F> {
    fn clone(&self) -> (res: Self)
        ensures
            res == *self,
    {
        *self
    }
}

impl<F: Copy> Copy for ScalarContPtr<F> {
}

impl<F> ScalarPtr<F> {
    /// The tag.
    pub fn tag(&self) -> (tag: &F)
        ensures
            *tag == self.tag,
    {
        &self.tag
    }

    /// The hash.
    pub fn value(&self) -> (value: &F)
        ensures
            *value == self.value,
    {
        &self.value
    }
}

impl<F> ScalarContPtr<F> {
    /// The tag.
    pub fn tag(&self) -> (tag: &F)
        ensures
            *tag == self.tag,
    {
        &self.tag
    }

    /// The hash.
    pub fn value(&self) -> (value: &F)
        ensures
            *value == self.value,
    {
        &self.value
    }
}

/// The scalars of the expressions and continuations of an evaluation, as far
/// as they have been hashed.
pub struct Store<F> {
    /// At `raw` what a [`Ptr`] stands for, once it has been hashed.
    pub exprs: Vec<Option<ScalarPtr<F>>>,
    /// At `raw` what a [`ContPtr`] stands for, once it has been hashed.
    pub conts: Vec<Option<ScalarContPtr<F>>>,
}

impl<F> Store<F> {
    /// What `ptr` stands for: nothing where the store has no hash of it.
    pub open spec fn expr(&self, ptr: Ptr<F>) -> Option<ScalarPtr<F>> {
        if ptr.raw < self.exprs@.len() {
            self.exprs@[ptr.raw as int]
        } else {
            None
        }
    }

    /// What `ptr` stands for: nothing where the store has no hash of it.
    pub open spec fn cont(&self, ptr: ContPtr<F>) -> Option<ScalarContPtr<F>> {
        if ptr.raw < self.conts@.len() {
            self.conts@[ptr.raw as int]
        } else {
            None
        }
    }
}

impl<F: Copy> Store<F> {
    /// The scalar pointer of an expression, if the store has it.
    pub fn hash_expr(&self, ptr: &Ptr<F>) -> (res: Option<ScalarPtr<F>>)
        ensures
            res == self.expr(*ptr),
            ptr.raw < self.exprs@.len() ==> res == self.exprs@[ptr.raw as int],
            ptr.raw >= self.exprs@.len() ==> res is None,
    {
        if ptr.raw < self.exprs.len() {
            self.exprs[ptr.raw]
        } else {
            None
        }
    }

    /// The scalar pointer of a continuation, if the store has it.
    pub fn hash_cont(&self, ptr: &ContPtr<F>) -> (res: Option<ScalarContPtr<F>>)
        ensures
            res == self.cont(*ptr),
            ptr.raw < self.conts@.len() ==> res == self.conts@[ptr.raw as int],
            ptr.raw >= self.conts@.len() ==> res is None,
    {
        if ptr.raw < self.conts.len() {
            self.conts[ptr.raw]
        } else {
            None
        }
    }
}

} // verus!
