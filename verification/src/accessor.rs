//! The accessor runtime: a `Projection` interface describing how a part is
//! reached inside a whole, and the `Accessor` value that packages a
//! projection behind read / write / update / compose operations.

use vstd::prelude::*;
use vstd::pervasive::cloned;
use crate::compose::Compose;

verus! {

/// How a part (`Part`) is reached inside a whole (`Whole`).
///
/// An implementation is a pure descriptor of one storage location: `focus`
/// says what is read there, `store` says what the whole becomes when a new
/// part is written there, and the three lemmas are the laws that make the
/// pair behave like a single location: what was just stored is read back;
/// storing what is already there changes nothing; a second store overwrites
/// the first.
///
/// `project` and `project_mut` are the executable counterparts: they borrow
/// exactly the focused location, without copying any part of the whole.
/// The location an implementation denotes may depend only on the structure
/// of the whole type, never on the state of a particular instance, so a
/// projection can be built once and reused across any number of instances.
pub trait Projection: Sized + Copy {
    /// The whole type that is projected into.
    type Whole: 'static;

    /// The type of the focused part.
    type Part: 'static;

    /// Whether this projection is well-formed; the contracts of all other
    /// items of the trait assume it.
    spec fn wf(self) -> bool;

    /// The part of `t` at the focused location.
    spec fn focus(self, t: Self::Whole) -> Self::Part;

    /// The whole that results from writing `f` at the focused location of `t`.
    spec fn store(self, t: Self::Whole, f: Self::Part) -> Self::Whole;

    /// Law: reading after a store yields the stored part.
    proof fn lemma_focus_store(self, t: Self::Whole, f: Self::Part)
        requires
            self.wf(),
        ensures
            self.focus(self.store(t, f)) == f,
    ;

    /// Law: storing back what is already there leaves the whole unchanged.
    proof fn lemma_store_focus(self, t: Self::Whole)
        requires
            self.wf(),
        ensures
            self.store(t, self.focus(t)) == t,
    ;

    /// Law: a later store overwrites an earlier one.
    proof fn lemma_store_store(self, t: Self::Whole, f1: Self::Part, f2: Self::Part)
        requires
            self.wf(),
        ensures
            self.store(self.store(t, f1), f2) == self.store(t, f2),
    ;

    /// Borrow the focused part of `root`.
    fn project<'a>(&self, root: &'a Self::Whole) -> (r: &'a Self::Part)
        requires
            self.wf(),
        ensures
            *r == self.focus(*root),
    ;

    /// Exclusively borrow the focused part of `root`; whatever the caller
    /// leaves in the borrow is what ends up stored at the focused location,
    /// and nothing else about `root` changes.
    fn project_mut<'a>(&self, root: &'a mut Self::Whole) -> (r: &'a mut Self::Part)
        requires
            self.wf(),
        ensures
            *r == self.focus(*old(root)),
            *final(root) == self.store(*old(root), *final(r)),
    ;
}

/// A small, copyable accessor that focuses into one part of a whole,
/// carrying the projection `P` that locates the part.
///
/// An accessor holds no reference to any particular whole; it is a pure
/// descriptor that can be constructed once and used against any number of
/// instances, and is never mutated, only composed into new accessors.
#[derive(Clone, Copy)]
pub struct Accessor<P: Projection> {
    /// The projection that locates the focused part.
    pub p: P,
}

impl<P: Projection> Accessor<P> {
    /// Whether the underlying projection is well-formed.
    pub open spec fn wf(self) -> bool {
        self.p.wf()
    }

    /// The part of `t` that this accessor focuses.
    pub open spec fn focus(self, t: P::Whole) -> P::Part {
        self.p.focus(t)
    }

    /// The whole that results from writing `f` at the focused location of `t`.
    pub open spec fn store(self, t: P::Whole, f: P::Part) -> P::Whole {
        self.p.store(t, f)
    }

    /// Construct an accessor from a projection: the pair of borrow functions
    /// (shared and exclusive), bundled with their specification.
    pub fn from_fns(p: P) -> (a: Accessor<P>)
        ensures
            a.p == p,
    {
        Accessor { p }
    }

    /// Borrow the focused part immutably.
    pub fn get<'a>(&self, root: &'a P::Whole) -> (r: &'a P::Part)
        requires
            self.wf(),
        ensures
            *r == self.focus(*root),
    {
        self.p.project(root)
    }

    /// Borrow the focused part mutably.
    pub fn get_mut<'a>(&self, root: &'a mut P::Whole) -> (r: &'a mut P::Part)
        requires
            self.wf(),
        ensures
            *r == self.focus(*old(root)),
            *final(root) == self.store(*old(root), *final(r)),
    {
        self.p.project_mut(root)
    }

    /// Set by moving a new value into the focused location.
    pub fn set(&self, root: &mut P::Whole, value: P::Part)
        requires
            self.wf(),
        ensures
            *final(root) == self.store(*old(root), value),
    {
        let r = self.p.project_mut(root);
        *r = value;
    }

    /// Mutate the focused location in place using the provided closure.
    pub fn set_mut<Op: FnOnce(&mut P::Part)>(&self, root: &mut P::Whole, op: Op)
        requires
            self.wf(),
            forall|m: &mut P::Part| *m == self.focus(*old(root)) ==> call_requires(op, (m,)),
        ensures
            exists|m: &mut P::Part|
                *m == self.focus(*old(root)) && #[trigger] call_ensures(op, (m,), ())
                    && *final(root) == self.store(*old(root), *final(m)),
    {
        let r = self.p.project_mut(root);
        op(r);
    }

    /// Set by cloning the provided value into the focused location.
    ///
    /// Only the focused type needs to support duplication; the whole does
    /// not, and for a composed accessor no intermediate type does.
    pub fn set_clone(&self, root: &mut P::Whole, value: &P::Part) where P::Part: Clone
        requires
            self.wf(),
        ensures
            exists|c: P::Part|
                #[trigger] cloned::<P::Part>(*value, c) && *final(root) == self.store(
                    *old(root),
                    c,
                ),
    {
        let c = value.clone();
        proof {
            assert(cloned::<P::Part>(*value, c));
        }
        let r = self.p.project_mut(root);
        *r = c;
    }

    /// Law: writing a part and then reading gives back exactly the part
    /// that was written, for any whole and any part.
    pub proof fn lemma_write_round_trip(self, t: P::Whole, v: P::Part)
        requires
            self.wf(),
        ensures
            self.focus(self.store(t, v)) == v,
    {
        self.p.lemma_focus_store(t, v);
    }

    /// Law: after an in-place update, the focused location holds exactly
    /// what the update left in its borrow, so reading back gives the
    /// updated part.
    pub proof fn lemma_update_round_trip(self, t: P::Whole, m: &mut P::Part)
        requires
            self.wf(),
            *m == self.focus(t),
        ensures
            self.focus(self.store(t, *final(m))) == *final(m),
    {
        self.p.lemma_focus_store(t, *final(m));
    }

    /// Law: writing back what is already at the focused location leaves the
    /// whole unchanged.
    pub proof fn lemma_write_what_is_read(self, t: P::Whole)
        requires
            self.wf(),
        ensures
            self.store(t, self.focus(t)) == t,
    {
        self.p.lemma_store_focus(t);
    }

    /// Law: a later write overwrites an earlier one completely.
    pub proof fn lemma_write_overwrites(self, t: P::Whole, v1: P::Part, v2: P::Part)
        requires
            self.wf(),
        ensures
            self.store(self.store(t, v1), v2) == self.store(t, v2),
    {
        self.p.lemma_store_store(t, v1, v2);
    }

    /// Law: a composed accessor reads what the second accessor reads inside
    /// what the first reads, for every root.
    pub proof fn lemma_compose_reads<Q: Projection<Whole = P::Part>>(
        self,
        next: Accessor<Q>,
        t: P::Whole,
    )
        ensures
            (Accessor { p: Compose { first: self.p, second: next.p } }).focus(t) == next.focus(
                self.focus(t),
            ),
    {
    }

    /// Compose this accessor with another, yielding an accessor that focuses
    /// by first going through `self`, then through `next`.
    pub fn compose<Q: Projection<Whole = P::Part>>(self, next: Accessor<Q>) -> (a: Accessor<
        Compose<P, Q>,
    >)
        ensures
            a.wf() == (self.wf() && next.wf()),
            forall|t: P::Whole| #[trigger] a.focus(t) == next.focus(self.focus(t)),
            forall|t: P::Whole, v: Q::Part|
                #[trigger] a.store(t, v) == self.store(t, next.store(self.focus(t), v)),
    {
        Accessor::from_fns(Compose { first: self.p, second: next.p })
    }
}

} // verus!
