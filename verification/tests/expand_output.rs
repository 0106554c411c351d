use pathmod::GenericsText;
use pathmod::NamedField;
use pathmod::StructFields;
use pathmod::TypeData;
use pathmod::TypeDesc;
use pathmod::VariantDesc;
use pathmod::VariantFields;
use pathmod::accessor_derive;
use pathmod::enum_access_derive;

fn plain(name: &str, data: TypeData) -> TypeDesc {
    TypeDesc {
        name: name.to_string(),
        generics: GenericsText {
            impl_generics: String::new(),
            ty_generics: String::new(),
            where_clause: String::new(),
        },
        data,
    }
}

fn named_field(name: &str, ty: &str) -> NamedField {
    NamedField { name: name.to_string(), ty: ty.to_string() }
}

#[test]
fn expands_named_struct() {
    let di = plain(
        "S",
        TypeData::Struct(StructFields::Named(vec![
            named_field("a", "i32"),
            named_field("b", "i64"),
        ])),
    );
    let s = accessor_derive(&di);
    assert!(s.contains("acc_a"));
    assert!(s.contains("acc_b"));
    assert!(s.contains("with_a"));
    assert!(s.contains("with_b"));
    assert!(!s.contains("compile_error"));
}

#[test]
fn expands_tuple_struct() {
    let di = plain(
        "P",
        TypeData::Struct(StructFields::Positional(vec!["i32".to_string(), "i64".to_string()])),
    );
    let s = accessor_derive(&di);
    assert!(s.contains("acc_0"));
    assert!(s.contains("acc_1"));
    assert!(s.contains("with_0"));
    assert!(s.contains("with_1"));
}

#[test]
fn errors_on_unit_struct() {
    let di = plain("U", TypeData::Struct(StructFields::Unit));
    let s = accessor_derive(&di);
    assert!(s.contains("compile_error") && s.contains("does not support unit structs"));
}

#[test]
fn errors_on_enum() {
    let di = plain(
        "E",
        TypeData::Enum(vec![VariantDesc { name: "A".to_string(), fields: VariantFields::Unit }]),
    );
    let s = accessor_derive(&di);
    assert!(s.contains("compile_error") && s.contains("only be used on structs"));
}

#[test]
fn unit_struct_error_exact_text() {
    let di = plain("U", TypeData::Struct(StructFields::Unit));
    let s = accessor_derive(&di);
    assert_eq!(s, "compile_error!(\"#[derive(Accessor)] does not support unit structs\");\n");
}

#[test]
fn expands_empty_named_struct_to_empty_impl() {
    let di = plain("S", TypeData::Struct(StructFields::Named(vec![])));
    let s = accessor_derive(&di);
    assert_eq!(s, "impl S {\n}\n");
}

#[test]
fn enum_access_positive_single_field_tuple_variant() {
    let di = plain(
        "Msg",
        TypeData::Enum(vec![
            VariantDesc {
                name: "Int".to_string(),
                fields: VariantFields::Tuple(vec!["i32".to_string()]),
            },
            VariantDesc {
                name: "Text".to_string(),
                fields: VariantFields::Tuple(vec!["String".to_string()]),
            },
        ]),
    );
    let s = enum_access_derive(&di);
    // Check that methods for both variants appear
    assert!(s.contains("is_int"));
    assert!(s.contains("as_int"));
    assert!(s.contains("as_int_mut"));
    assert!(s.contains("set_int"));
    assert!(s.contains("map_int"));
    assert!(s.contains("is_text"));
    assert!(s.contains("as_text"));
    assert!(s.contains("as_text_mut"));
    assert!(s.contains("set_text"));
    assert!(s.contains("map_text"));
}

#[test]
fn enum_access_error_on_unit_variant() {
    let di = plain(
        "E",
        TypeData::Enum(vec![VariantDesc { name: "A".to_string(), fields: VariantFields::Unit }]),
    );
    let s = enum_access_derive(&di);
    assert!(s.contains("compile_error") && s.contains("does not support unit variants"));
}

#[test]
fn enum_access_error_on_multi_field_variant() {
    let di = plain(
        "E",
        TypeData::Enum(vec![VariantDesc {
            name: "Both".to_string(),
            fields: VariantFields::Tuple(vec!["i32".to_string(), "i32".to_string()]),
        }]),
    );
    let s = enum_access_derive(&di);
    assert!(
        s.contains("compile_error")
            && s.contains("supports only tuple variants with exactly one field")
    );
}

#[test]
fn enum_access_error_on_named_single_field_variant() {
    let di = plain(
        "E",
        TypeData::Enum(vec![VariantDesc {
            name: "V".to_string(),
            fields: VariantFields::Named(vec![named_field("v", "i32")]),
        }]),
    );
    let s = enum_access_derive(&di);
    assert!(s.contains("compile_error") && s.contains("currently supports only tuple variants"));
}

#[test]
fn enum_access_error_on_non_enum() {
    let di = plain(
        "NotEnum",
        TypeData::Struct(StructFields::Named(vec![named_field("a", "i32")])),
    );
    let s = enum_access_derive(&di);
    assert!(s.contains("compile_error") && s.contains("can only be used on enums"));
}

#[test]
fn enum_access_error_reports_first_violation() {
    let di = plain(
        "E",
        TypeData::Enum(vec![
            VariantDesc {
                name: "Ok1".to_string(),
                fields: VariantFields::Tuple(vec!["i32".to_string()]),
            },
            VariantDesc { name: "Bad".to_string(), fields: VariantFields::Unit },
            VariantDesc {
                name: "Both".to_string(),
                fields: VariantFields::Tuple(vec!["i32".to_string(), "i32".to_string()]),
            },
        ]),
    );
    let s = enum_access_derive(&di);
    assert_eq!(
        s,
        "compile_error!(\"#[derive(EnumAccess)] does not support unit variants in this MVP\");\n"
    );
}

#[test]
fn expands_generics_with_where_clause() {
    let di = TypeDesc {
        name: "Wrap".to_string(),
        generics: GenericsText {
            impl_generics: "<T: Clone, U>".to_string(),
            ty_generics: "<T, U>".to_string(),
            where_clause: "where U: core::fmt::Debug ".to_string(),
        },
        data: TypeData::Struct(StructFields::Named(vec![
            named_field("t", "T"),
            named_field("u", "U"),
        ])),
    };
    let s = accessor_derive(&di);
    // Accessors should be generated for both fields
    assert!(s.contains("acc_t"));
    assert!(s.contains("acc_u"));
    // The output should mention the where-clause bound
    assert!(s.contains("Debug") || s.contains("where"));
}

#[test]
fn enum_access_empty_enum_generates_impl() {
    let di = plain("Z", TypeData::Enum(vec![]));
    let s = enum_access_derive(&di);
    // Should produce an impl block for Z even if it contains no methods
    assert!(s.contains("impl") && s.contains("Z"));
    assert_eq!(s, "impl Z {\n}\n");
}

#[test]
fn named_struct_output_counts_are_per_field() {
    let di = plain(
        "S",
        TypeData::Struct(StructFields::Named(vec![
            named_field("a", "i32"),
            named_field("b", "i64"),
            named_field("c", "u8"),
        ])),
    );
    let s = accessor_derive(&di);
    assert_eq!(s.matches("pub fn acc_").count(), 3);
    assert_eq!(s.matches("pub fn with_").count(), 3);
    assert_eq!(s.matches("pub struct SAcc_").count(), 3);
}

#[test]
fn tuple_struct_indices_render_in_decimal() {
    let tys: Vec<String> = (0..11).map(|_| "u8".to_string()).collect();
    let di = plain("Wide", TypeData::Struct(StructFields::Positional(tys)));
    let s = accessor_derive(&di);
    assert!(s.contains("pub fn acc_10"));
    assert!(s.contains("pub fn with_10"));
    assert!(s.contains("t.10"));
    assert_eq!(s.matches("pub fn acc_").count(), 11);
}

#[test]
fn enum_variant_names_are_case_lowered() {
    let di = plain(
        "Req",
        TypeData::Enum(vec![VariantDesc {
            name: "HttpGet".to_string(),
            fields: VariantFields::Tuple(vec!["String".to_string()]),
        }]),
    );
    let s = enum_access_derive(&di);
    assert!(s.contains("pub fn is_httpget"));
    assert!(s.contains("pub fn map_httpget"));
    assert!(s.contains("Self::HttpGet"));
}
