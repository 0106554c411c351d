//! Accessors and replace-methods for structs with named fields, nested one
//! level: the surface the struct generator emits for this shape.

use vstd::prelude::*;
use crate::accessor::Accessor;
use crate::accessor::Projection;

verus! {

/// A leaf struct with one named field.
pub struct Bar {
    pub x: i32,
}

/// A struct with two named fields, one of them a nested struct.
pub struct Foo {
    pub a: i32,
    pub b: Bar,
}

/// Projection to the `x` field of `Bar`.
#[derive(Clone, Copy)]
pub struct BarX;

impl Projection for BarX {
    type Whole = Bar;

    type Part = i32;

    open spec fn wf(self) -> bool {
        true
    }

    open spec fn focus(self, t: Bar) -> i32 {
        t.x
    }

    open spec fn store(self, t: Bar, f: i32) -> Bar {
        Bar { x: f }
    }

    proof fn lemma_focus_store(self, t: Bar, f: i32) {
    }

    proof fn lemma_store_focus(self, t: Bar) {
    }

    proof fn lemma_store_store(self, t: Bar, f1: i32, f2: i32) {
    }

    fn project<'a>(&self, root: &'a Bar) -> (r: &'a i32) {
        &root.x
    }

    fn project_mut<'a>(&self, root: &'a mut Bar) -> (r: &'a mut i32) {
        &mut root.x
    }
}

/// Projection to the `a` field of `Foo`.
#[derive(Clone, Copy)]
pub struct FooA;

impl Projection for FooA {
    type Whole = Foo;

    type Part = i32;

    open spec fn wf(self) -> bool {
        true
    }

    open spec fn focus(self, t: Foo) -> i32 {
        t.a
    }

    open spec fn store(self, t: Foo, f: i32) -> Foo {
        Foo { a: f, b: t.b }
    }

    proof fn lemma_focus_store(self, t: Foo, f: i32) {
    }

    proof fn lemma_store_focus(self, t: Foo) {
    }

    proof fn lemma_store_store(self, t: Foo, f1: i32, f2: i32) {
    }

    fn project<'a>(&self, root: &'a Foo) -> (r: &'a i32) {
        &root.a
    }

    fn project_mut<'a>(&self, root: &'a mut Foo) -> (r: &'a mut i32) {
        &mut root.a
    }
}

/// Projection to the `b` field of `Foo`.
#[derive(Clone, Copy)]
pub struct FooB;

impl Projection for FooB {
    type Whole = Foo;

    type Part = Bar;

    open spec fn wf(self) -> bool {
        true
    }

    open spec fn focus(self, t: Foo) -> Bar {
        t.b
    }

    open spec fn store(self, t: Foo, f: Bar) -> Foo {
        Foo { a: t.a, b: f }
    }

    proof fn lemma_focus_store(self, t: Foo, f: Bar) {
    }

    proof fn lemma_store_focus(self, t: Foo) {
    }

    proof fn lemma_store_store(self, t: Foo, f1: Bar, f2: Bar) {
    }

    fn project<'a>(&self, root: &'a Foo) -> (r: &'a Bar) {
        &root.b
    }

    fn project_mut<'a>(&self, root: &'a mut Foo) -> (r: &'a mut Bar) {
        &mut root.b
    }
}

impl Bar {
    /// Accessor to the `x` field.
    pub fn acc_x() -> (a: Accessor<BarX>)
        ensures
            a.wf(),
            forall|t: Bar| #[trigger] a.focus(t) == t.x,
            forall|t: Bar, v: i32| #[trigger] a.store(t, v) == (Bar { x: v }),
    {
        Accessor::from_fns(BarX)
    }

    /// Return a new value with `x` replaced by `new_val`.
    pub fn with_x(self, new_val: i32) -> (r: Bar)
        ensures
            r == (Bar { x: new_val }),
    {
        Bar { x: new_val }
    }
}

impl Foo {
    /// Accessor to the `a` field.
    pub fn acc_a() -> (a: Accessor<FooA>)
        ensures
            a.wf(),
            forall|t: Foo| #[trigger] a.focus(t) == t.a,
            forall|t: Foo, v: i32| #[trigger] a.store(t, v) == (Foo { a: v, b: t.b }),
    {
        Accessor::from_fns(FooA)
    }

    /// Accessor to the `b` field.
    pub fn acc_b() -> (a: Accessor<FooB>)
        ensures
            a.wf(),
            forall|t: Foo| #[trigger] a.focus(t) == t.b,
            forall|t: Foo, v: Bar| #[trigger] a.store(t, v) == (Foo { a: t.a, b: v }),
    {
        Accessor::from_fns(FooB)
    }

    /// Return a new value with `a` replaced by `new_val`, moving the other
    /// field.
    pub fn with_a(self, new_val: i32) -> (r: Foo)
        ensures
            r == (Foo { a: new_val, b: self.b }),
    {
        Foo { a: new_val, b: self.b }
    }

    /// Return a new value with `b` replaced by `new_val`, moving the other
    /// field.
    pub fn with_b(self, new_val: Bar) -> (r: Foo)
        ensures
            r == (Foo { a: self.a, b: new_val }),
    {
        Foo { a: self.a, b: new_val }
    }
}

} // verus!
