//! Index-addressed operations for accessors whose focused part is a
//! dynamic sequence: the operations of the accessor, one level deeper.

use vstd::prelude::*;
use vstd::pervasive::cloned;
use crate::accessor::Accessor;
use crate::accessor::Projection;

verus! {

/// Indexing operations for accessors that focus a `Vec<E>` inside a whole
/// `T`, provided as a blanket impl for such accessors.
///
/// Every operation projects to the sequence via the base accessor and then
/// indexes; an index at or beyond the sequence length is out of bounds and
/// excluded by precondition.
///
/// `vec_at` is the focused sequence of a whole, and `stored` is the whole
/// with the focused sequence replaced; both come from the base accessor.
pub trait Indexing<T, E>: Sized {
    /// Whether the index operations are well-formed.
    spec fn idx_wf(self) -> bool;

    /// The sequence that the base accessor focuses inside `t`.
    spec fn vec_at(self, t: T) -> Vec<E>;

    /// The whole that results from writing `v` at the focused location of `t`.
    spec fn stored(self, t: T, v: Vec<E>) -> T;

    /// Borrow the element at `idx` immutably.
    fn get_at<'a>(&self, root: &'a T, idx: usize) -> (r: &'a E)
        requires
            self.idx_wf(),
            idx < self.vec_at(*root)@.len(),
        ensures
            *r == self.vec_at(*root)@[idx as int],
    ;

    /// Borrow the element at `idx` mutably.
    fn get_mut_at<'a>(&self, root: &'a mut T, idx: usize) -> (r: &'a mut E)
        requires
            self.idx_wf(),
            idx < self.vec_at(*old(root))@.len(),
        ensures
            *r == self.vec_at(*old(root))@[idx as int],
            self.vec_at(*final(root))@ == self.vec_at(*old(root))@.update(
                idx as int,
                *final(r),
            ),
            *final(root) == self.stored(*old(root), self.vec_at(*final(root))),
    ;

    /// Set the element at `idx` by moving `value` in.
    fn set_at(&self, root: &mut T, idx: usize, value: E)
        requires
            self.idx_wf(),
            idx < self.vec_at(*old(root))@.len(),
        ensures
            self.vec_at(*final(root))@ == self.vec_at(*old(root))@.update(idx as int, value),
            *final(root) == self.stored(*old(root), self.vec_at(*final(root))),
    ;

    /// Mutate the element at `idx` in place using the closure.
    fn set_mut_at<Op: FnOnce(&mut E)>(&self, root: &mut T, idx: usize, op: Op)
        requires
            self.idx_wf(),
            idx < self.vec_at(*old(root))@.len(),
            forall|m: &mut E|
                *m == self.vec_at(*old(root))@[idx as int] ==> call_requires(op, (m,)),
        ensures
            exists|m: &mut E|
                *m == self.vec_at(*old(root))@[idx as int] && #[trigger] call_ensures(
                    op,
                    (m,),
                    (),
                ) && self.vec_at(*final(root))@ == self.vec_at(*old(root))@.update(
                    idx as int,
                    *final(m),
                ),
            *final(root) == self.stored(*old(root), self.vec_at(*final(root))),
    ;

    /// Set the element at `idx` by cloning from `value`.
    fn set_clone_at(&self, root: &mut T, idx: usize, value: &E) where E: Clone
        requires
            self.idx_wf(),
            idx < self.vec_at(*old(root))@.len(),
        ensures
            exists|c: E|
                #[trigger] cloned::<E>(*value, c) && self.vec_at(*final(root))@ == self.vec_at(
                    *old(root),
                )@.update(idx as int, c),
            *final(root) == self.stored(*old(root), self.vec_at(*final(root))),
    ;
}

impl<E: 'static, P: Projection<Part = Vec<E>>> Indexing<P::Whole, E> for Accessor<P> {
    open spec fn idx_wf(self) -> bool {
        self.wf()
    }

    open spec fn vec_at(self, t: P::Whole) -> Vec<E> {
        self.focus(t)
    }

    open spec fn stored(self, t: P::Whole, v: Vec<E>) -> P::Whole {
        self.store(t, v)
    }

    fn get_at<'a>(&self, root: &'a P::Whole, idx: usize) -> (r: &'a E) {
        let v = self.get(root);
        &v[idx]
    }

    fn get_mut_at<'a>(&self, root: &'a mut P::Whole, idx: usize) -> (r: &'a mut E) {
        let v = self.get_mut(root);
        proof {
            self.p.lemma_focus_store(*old(root), *final(v));
        }
        &mut v[idx]
    }

    fn set_at(&self, root: &mut P::Whole, idx: usize, value: E) {
        let v = self.get_mut(root);
        proof {
            self.p.lemma_focus_store(*old(root), *final(v));
        }
        v.set(idx, value);
    }

    fn set_mut_at<Op: FnOnce(&mut E)>(&self, root: &mut P::Whole, idx: usize, op: Op) {
        let v = self.get_mut(root);
        proof {
            self.p.lemma_focus_store(*old(root), *final(v));
        }
        let r = &mut v[idx];
        op(r);
    }

    fn set_clone_at(&self, root: &mut P::Whole, idx: usize, value: &E) where E: Clone {
        let c = value.clone();
        proof {
            assert(cloned::<E>(*value, c));
        }
        let v = self.get_mut(root);
        proof {
            self.p.lemma_focus_store(*old(root), *final(v));
        }
        v.set(idx, c);
    }
}

/// Indexed write round-trip: when `w` is the focused sequence with the
/// element at `i` replaced by `v`, the whole that stores `w` holds `v` at
/// `i` of its focused sequence.
pub proof fn lemma_index_round_trip<E: 'static, P: Projection<Part = Vec<E>>>(
    a: Accessor<P>,
    t: P::Whole,
    i: int,
    v: E,
    w: Vec<E>,
)
    requires
        a.wf(),
        0 <= i < a.vec_at(t)@.len(),
        w@ == a.vec_at(t)@.update(i, v),
    ensures
        a.vec_at(a.stored(t, w))@[i] == v,
{
    a.p.lemma_focus_store(t, w);
}

} // verus!
