//! Composition of projections: reaching a part inside a whole by going
//! through an intermediate part.

use vstd::prelude::*;
use crate::accessor::Projection;

verus! {

/// The projection that first focuses an intermediate part via `first`, then
/// the final part inside it via `second`.
#[derive(Clone, Copy)]
pub struct Compose<P, Q> {
    pub first: P,
    pub second: Q,
}

impl<P: Projection, Q: Projection<Whole = P::Part>> Projection for Compose<P, Q> {
    type Whole = P::Whole;

    type Part = Q::Part;

    open spec fn wf(self) -> bool {
        self.first.wf() && self.second.wf()
    }

    open spec fn focus(self, t: P::Whole) -> Q::Part {
        self.second.focus(self.first.focus(t))
    }

    open spec fn store(self, t: P::Whole, v: Q::Part) -> P::Whole {
        self.first.store(t, self.second.store(self.first.focus(t), v))
    }

    proof fn lemma_focus_store(self, t: P::Whole, v: Q::Part) {
        self.first.lemma_focus_store(t, self.second.store(self.first.focus(t), v));
        self.second.lemma_focus_store(self.first.focus(t), v);
    }

    proof fn lemma_store_focus(self, t: P::Whole) {
        self.second.lemma_store_focus(self.first.focus(t));
        self.first.lemma_store_focus(t);
    }

    proof fn lemma_store_store(self, t: P::Whole, v1: Q::Part, v2: Q::Part) {
        let u = self.first.focus(t);
        self.first.lemma_focus_store(t, self.second.store(u, v1));
        self.second.lemma_store_store(u, v1, v2);
        self.first.lemma_store_store(t, self.second.store(u, v1), self.second.store(u, v2));
    }

    fn project<'a>(&self, root: &'a P::Whole) -> (r: &'a Q::Part) {
        self.second.project(self.first.project(root))
    }

    fn project_mut<'a>(&self, root: &'a mut P::Whole) -> (r: &'a mut Q::Part) {
        self.second.project_mut(self.first.project_mut(root))
    }
}

/// Composition is associative: however three projections are grouped, the
/// composed projection reads the same part and writes the same whole.
pub proof fn lemma_compose_associative<P, Q, R>(p: P, q: Q, r: R, t: P::Whole, v: R::Part) where
    P: Projection,
    Q: Projection<Whole = P::Part>,
    R: Projection<Whole = Q::Part>,

    ensures
        (Compose { first: Compose { first: p, second: q }, second: r }).focus(t) == (Compose {
            first: p,
            second: Compose { first: q, second: r },
        }).focus(t),
        (Compose { first: Compose { first: p, second: q }, second: r }).store(t, v) == (Compose {
            first: p,
            second: Compose { first: q, second: r },
        }).store(t, v),
{
}

} // verus!
