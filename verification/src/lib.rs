//! Composable field accessors: small, copyable values that focus into one
//! part of a larger value and support reading, writing, in-place updating
//! and composition, together with generators that emit the accessor API
//! for a described struct shape and the variant accessor API for a
//! described enum shape.

pub mod accessor;
pub mod compose;
pub mod emit;
pub mod enum_gen;
pub mod indexing;
pub mod sample;
pub mod shape;
pub mod struct_gen;
pub mod text;

pub use accessor::Accessor;
pub use accessor::Projection;
pub use compose::Compose;
pub use enum_gen::enum_access_derive;
pub use enum_gen::expand_enum;
pub use indexing::Indexing;
pub use shape::GenericsText;
pub use shape::NamedField;
pub use shape::StructFields;
pub use shape::TypeData;
pub use shape::TypeDesc;
pub use shape::VariantDesc;
pub use shape::VariantFields;
pub use struct_gen::accessor_derive;
pub use struct_gen::expand;
