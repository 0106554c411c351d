//! Accessors and replace-methods for tuple structs, whose fields are
//! addressed by position: the surface the struct generator emits for this
//! shape.

use vstd::prelude::*;
use crate::accessor::Accessor;
use crate::accessor::Projection;

verus! {

/// A tuple struct with two positional fields.
pub struct Pair(pub i32, pub i64);

/// A tuple struct holding a `Pair`, for projecting through one level.
pub struct Wrapper(pub Pair);

/// Projection to the field at position 0 of `Pair`.
#[derive(Clone, Copy)]
pub struct PairF0;

impl Projection for PairF0 {
    type Whole = Pair;

    type Part = i32;

    open spec fn wf(self) -> bool {
        true
    }

    open spec fn focus(self, t: Pair) -> i32 {
        t.0
    }

    open spec fn store(self, t: Pair, f: i32) -> Pair {
        Pair(f, t.1)
    }

    proof fn lemma_focus_store(self, t: Pair, f: i32) {
    }

    proof fn lemma_store_focus(self, t: Pair) {
    }

    proof fn lemma_store_store(self, t: Pair, f1: i32, f2: i32) {
    }

    fn project<'a>(&self, root: &'a Pair) -> (r: &'a i32) {
        &root.0
    }

    fn project_mut<'a>(&self, root: &'a mut Pair) -> (r: &'a mut i32) {
        &mut root.0
    }
}

/// Projection to the field at position 1 of `Pair`.
#[derive(Clone, Copy)]
pub struct PairF1;

impl Projection for PairF1 {
    type Whole = Pair;

    type Part = i64;

    open spec fn wf(self) -> bool {
        true
    }

    open spec fn focus(self, t: Pair) -> i64 {
        t.1
    }

    open spec fn store(self, t: Pair, f: i64) -> Pair {
        Pair(t.0, f)
    }

    proof fn lemma_focus_store(self, t: Pair, f: i64) {
    }

    proof fn lemma_store_focus(self, t: Pair) {
    }

    proof fn lemma_store_store(self, t: Pair, f1: i64, f2: i64) {
    }

    fn project<'a>(&self, root: &'a Pair) -> (r: &'a i64) {
        &root.1
    }

    fn project_mut<'a>(&self, root: &'a mut Pair) -> (r: &'a mut i64) {
        &mut root.1
    }
}

/// Projection to the field at position 0 of `Wrapper`.
#[derive(Clone, Copy)]
pub struct WrapperF0;

impl Projection for WrapperF0 {
    type Whole = Wrapper;

    type Part = Pair;

    open spec fn wf(self) -> bool {
        true
    }

    open spec fn focus(self, t: Wrapper) -> Pair {
        t.0
    }

    open spec fn store(self, t: Wrapper, f: Pair) -> Wrapper {
        Wrapper(f)
    }

    proof fn lemma_focus_store(self, t: Wrapper, f: Pair) {
    }

    proof fn lemma_store_focus(self, t: Wrapper) {
    }

    proof fn lemma_store_store(self, t: Wrapper, f1: Pair, f2: Pair) {
    }

    fn project<'a>(&self, root: &'a Wrapper) -> (r: &'a Pair) {
        &root.0
    }

    fn project_mut<'a>(&self, root: &'a mut Wrapper) -> (r: &'a mut Pair) {
        &mut root.0
    }
}

impl Pair {
    /// Accessor to the field at position 0.
    pub fn acc_0() -> (a: Accessor<PairF0>)
        ensures
            a.wf(),
            forall|t: Pair| #[trigger] a.focus(t) == t.0,
            forall|t: Pair, v: i32| #[trigger] a.store(t, v) == Pair(v, t.1),
    {
        Accessor::from_fns(PairF0)
    }

    /// Accessor to the field at position 1.
    pub fn acc_1() -> (a: Accessor<PairF1>)
        ensures
            a.wf(),
            forall|t: Pair| #[trigger] a.focus(t) == t.1,
            forall|t: Pair, v: i64| #[trigger] a.store(t, v) == Pair(t.0, v),
    {
        Accessor::from_fns(PairF1)
    }

    /// Return a new value with the field at position 0 replaced by
    /// `new_val`, moving the other field.
    pub fn with_0(self, new_val: i32) -> (r: Pair)
        ensures
            r == Pair(new_val, self.1),
    {
        Pair(new_val, self.1)
    }

    /// Return a new value with the field at position 1 replaced by
    /// `new_val`, moving the other field.
    pub fn with_1(self, new_val: i64) -> (r: Pair)
        ensures
            r == Pair(self.0, new_val),
    {
        Pair(self.0, new_val)
    }
}

impl Wrapper {
    /// Accessor to the field at position 0.
    pub fn acc_0() -> (a: Accessor<WrapperF0>)
        ensures
            a.wf(),
            forall|t: Wrapper| #[trigger] a.focus(t) == t.0,
            forall|t: Wrapper, v: Pair| #[trigger] a.store(t, v) == Wrapper(v),
    {
        Accessor::from_fns(WrapperF0)
    }

    /// Return a new value with the field at position 0 replaced by
    /// `new_val`.
    pub fn with_0(self, new_val: Pair) -> (r: Wrapper)
        ensures
            r == Wrapper(new_val),
    {
        Wrapper(new_val)
    }
}

} // verus!
