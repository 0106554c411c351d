//! Accessors for a minimal pair of nested structs with named fields.

use vstd::prelude::*;
use crate::accessor::Accessor;
use crate::accessor::Projection;

verus! {

/// A leaf struct with one named field.
pub struct Inner {
    pub x: i32,
}

/// A struct holding an `Inner`, for projecting through one level.
pub struct Outer {
    pub inner: Inner,
}

/// Projection to the `x` field of `Inner`.
#[derive(Clone, Copy)]
pub struct InnerX;

impl Projection for InnerX {
    type Whole = Inner;

    type Part = i32;

    open spec fn wf(self) -> bool {
        true
    }

    open spec fn focus(self, t: Inner) -> i32 {
        t.x
    }

    open spec fn store(self, t: Inner, f: i32) -> Inner {
        Inner { x: f }
    }

    proof fn lemma_focus_store(self, t: Inner, f: i32) {
    }

    proof fn lemma_store_focus(self, t: Inner) {
    }

    proof fn lemma_store_store(self, t: Inner, f1: i32, f2: i32) {
    }

    fn project<'a>(&self, root: &'a Inner) -> (r: &'a i32) {
        &root.x
    }

    fn project_mut<'a>(&self, root: &'a mut Inner) -> (r: &'a mut i32) {
        &mut root.x
    }
}

/// Projection to the `inner` field of `Outer`.
#[derive(Clone, Copy)]
pub struct OuterInner;

impl Projection for OuterInner {
    type Whole = Outer;

    type Part = Inner;

    open spec fn wf(self) -> bool {
        true
    }

    open spec fn focus(self, t: Outer) -> Inner {
        t.inner
    }

    open spec fn store(self, t: Outer, f: Inner) -> Outer {
        Outer { inner: f }
    }

    proof fn lemma_focus_store(self, t: Outer, f: Inner) {
    }

    proof fn lemma_store_focus(self, t: Outer) {
    }

    proof fn lemma_store_store(self, t: Outer, f1: Inner, f2: Inner) {
    }

    fn project<'a>(&self, root: &'a Outer) -> (r: &'a Inner) {
        &root.inner
    }

    fn project_mut<'a>(&self, root: &'a mut Outer) -> (r: &'a mut Inner) {
        &mut root.inner
    }
}

impl Inner {
    /// Accessor to the `x` field.
    pub fn acc_x() -> (a: Accessor<InnerX>)
        ensures
            a.wf(),
            forall|t: Inner| #[trigger] a.focus(t) == t.x,
            forall|t: Inner, v: i32| #[trigger] a.store(t, v) == (Inner { x: v }),
    {
        Accessor::from_fns(InnerX)
    }
}

impl Outer {
    /// Accessor to the `inner` field.
    pub fn acc_inner() -> (a: Accessor<OuterInner>)
        ensures
            a.wf(),
            forall|t: Outer| #[trigger] a.focus(t) == t.inner,
            forall|t: Outer, v: Inner| #[trigger] a.store(t, v) == (Outer { inner: v }),
    {
        Accessor::from_fns(OuterInner)
    }
}

} // verus!
