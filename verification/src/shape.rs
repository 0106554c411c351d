//! The structural description of a type definition that the generators
//! consume: its name, its generics as source text, and its fields or
//! variants.

use vstd::prelude::*;

verus! {

/// A named field: its name and its declared type, both as source text.
pub struct NamedField {
    pub name: String,
    pub ty: String,
}

/// The fields of a struct shape: named, positional (a tuple struct, one
/// declared type per position), or none at all (a unit struct).
pub enum StructFields {
    Named(Vec<NamedField>),
    Positional(Vec<String>),
    Unit,
}

/// The shape of one enum variant: no payload, a tuple of unnamed fields
/// (their declared types, by position), or named fields.
pub enum VariantFields {
    Unit,
    Tuple(Vec<String>),
    Named(Vec<NamedField>),
}

/// One enum variant: its name and its shape.
pub struct VariantDesc {
    pub name: String,
    pub fields: VariantFields,
}

/// The generics of the described type, as the three pieces of source text
/// that are spliced around an `impl` of it: the parameter list with its
/// bounds, the bare argument list, and the `where` clause. All three are
/// empty for a type without generics.
pub struct GenericsText {
    pub impl_generics: String,
    pub ty_generics: String,
    pub where_clause: String,
}

/// What kind of data the described type holds: a struct, an enum, or
/// something else (a union), which both generators reject.
pub enum TypeData {
    Struct(StructFields),
    Enum(Vec<VariantDesc>),
    Other,
}

/// A structural description of one type definition.
pub struct TypeDesc {
    pub name: String,
    pub generics: GenericsText,
    pub data: TypeData,
}

} // verus!
