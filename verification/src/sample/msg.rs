//! Variant accessors for an enum whose variants are single-field tuple
//! variants: the method set the variant generator emits for this shape.

use vstd::prelude::*;

verus! {

/// An enum with two single-field tuple variants.
#[derive(Debug)]
pub enum Msg {
    Int(i32),
    Text(String),
}

impl Msg {
    /// Whether the current value is the `Int` variant.
    pub fn is_int(&self) -> (r: bool)
        ensures
            r == (*self is Int),
    {
        matches!(self, Msg::Int(_))
    }

    /// Borrow the `Int` payload, if the current variant matches.
    pub fn as_int(&self) -> (r: Option<&i32>)
        ensures
            match r {
                Some(v) => *self is Int && *v == self->Int_0,
                None => !(*self is Int),
            },
    {
        if let Msg::Int(ref v) = self {
            Some(v)
        } else {
            None
        }
    }

    /// Exclusively borrow the `Int` payload, if the current variant matches.
    pub fn as_int_mut(&mut self) -> (r: Option<&mut i32>)
        ensures
            match r {
                Some(v) => *old(self) is Int && *v == old(self)->Int_0 && *final(self)
                    == Msg::Int(*final(v)),
                None => !(*old(self) is Int) && *final(self) == *old(self),
            },
    {
        if let Msg::Int(ref mut v) = self {
            Some(v)
        } else {
            None
        }
    }

    /// Overwrite `self` with the `Int` variant holding `val`, whatever the
    /// previous variant was; any previous payload is discarded.
    pub fn set_int(&mut self, val: i32)
        ensures
            *final(self) == Msg::Int(val),
    {
        *self = Msg::Int(val);
    }

    /// Apply `f` to the `Int` payload if the current variant matches; do
    /// nothing otherwise.
    pub fn map_int<Op: FnOnce(&mut i32)>(&mut self, f: Op)
        requires
            forall|m: &mut i32|
                *old(self) is Int && *m == old(self)->Int_0 ==> call_requires(f, (m,)),
        ensures
            *old(self) is Int ==> exists|m: &mut i32|
                *m == old(self)->Int_0 && #[trigger] call_ensures(f, (m,), ()) && *final(self)
                    == Msg::Int(*final(m)),
            !(*old(self) is Int) ==> *final(self) == *old(self),
    {
        if let Msg::Int(ref mut v) = self {
            f(v);
        }
    }

    /// Whether the current value is the `Text` variant.
    pub fn is_text(&self) -> (r: bool)
        ensures
            r == (*self is Text),
    {
        matches!(self, Msg::Text(_))
    }

    /// Borrow the `Text` payload, if the current variant matches.
    pub fn as_text(&self) -> (r: Option<&String>)
        ensures
            match r {
                Some(v) => *self is Text && *v == self->Text_0,
                None => !(*self is Text),
            },
    {
        if let Msg::Text(ref v) = self {
            Some(v)
        } else {
            None
        }
    }

    /// Exclusively borrow the `Text` payload, if the current variant
    /// matches.
    pub fn as_text_mut(&mut self) -> (r: Option<&mut String>)
        ensures
            match r {
                Some(v) => *old(self) is Text && *v == old(self)->Text_0 && *final(self)
                    == Msg::Text(*final(v)),
                None => !(*old(self) is Text) && *final(self) == *old(self),
            },
    {
        if let Msg::Text(ref mut v) = self {
            Some(v)
        } else {
            None
        }
    }

    /// Overwrite `self` with the `Text` variant holding `val`, whatever the
    /// previous variant was; any previous payload is discarded.
    pub fn set_text(&mut self, val: String)
        ensures
            *final(self) == Msg::Text(val),
    {
        *self = Msg::Text(val);
    }

    /// Apply `f` to the `Text` payload if the current variant matches; do
    /// nothing otherwise.
    pub fn map_text<Op: FnOnce(&mut String)>(&mut self, f: Op)
        requires
            forall|m: &mut String|
                *old(self) is Text && *m == old(self)->Text_0 ==> call_requires(f, (m,)),
        ensures
            *old(self) is Text ==> exists|m: &mut String|
                *m == old(self)->Text_0 && #[trigger] call_ensures(f, (m,), ()) && *final(self)
                    == Msg::Text(*final(m)),
            !(*old(self) is Text) ==> *final(self) == *old(self),
    {
        if let Msg::Text(ref mut v) = self {
            f(v);
        }
    }
}

impl PartialEq for Msg {
    /// Two messages are equal when they are the same variant holding equal
    /// payloads.
    fn eq(&self, other: &Msg) -> (r: bool) {
        match (self, other) {
            (Msg::Int(a), Msg::Int(b)) => *a == *b,
            (Msg::Text(a), Msg::Text(b)) => *a == *b,
            _ => false,
        }
    }
}

impl vstd::std_specs::cmp::PartialEqSpecImpl for Msg {
    open spec fn obeys_eq_spec() -> bool {
        true
    }

    open spec fn eq_spec(&self, other: &Msg) -> bool {
        match (self, other) {
            (Msg::Int(a), Msg::Int(b)) => a == b,
            (Msg::Text(a), Msg::Text(b)) => a@ == b@,
            _ => false,
        }
    }
}

} // verus!
