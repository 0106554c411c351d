//! The struct accessor generator: given a struct's shape, it emits one
//! accessor constructor and one replace-method per field, supported by one
//! projection type per field; unit structs and non-struct inputs are
//! rejected with a fixed diagnostic.

use vstd::prelude::*;
use crate::emit::GeneratedFn;
use crate::emit::GeneratedImpl;
use crate::emit::build_header;
use crate::emit::compile_error_text;
use crate::emit::header_text;
use crate::emit::methods_text;
use crate::emit::render_error;
use crate::emit::render_impl;
use crate::emit::rendered;
use crate::shape::GenericsText;
use crate::shape::NamedField;
use crate::shape::StructFields;
use crate::shape::TypeData;
use crate::shape::TypeDesc;
use crate::text::decimal;
use crate::text::decimal_string;

verus! {

/// The name of the accessor constructor for the field `f`.
pub open spec fn acc_name(f: Seq<char>) -> Seq<char> {
    "acc_"@ + f
}

/// The name of the replace-method for the field `f`.
pub open spec fn with_name(f: Seq<char>) -> Seq<char> {
    "with_"@ + f
}

/// The name of the projection type emitted for the field `f` of the type
/// named `name`.
pub open spec fn proj_name(name: Seq<char>, f: Seq<char>) -> Seq<char> {
    name + "Acc_"@ + f
}

/// The support text emitted for one field: a projection type `p` focusing
/// the field `f` of type `fty` inside the whole `ty`.
pub open spec fn support_text(p: Seq<char>, ty: Seq<char>, fty: Seq<char>, f: Seq<char>) -> Seq<
    char,
> {
    "#[derive(Clone, Copy)]\npub struct "@ + p + ";\n\nimpl pathmod::Projection for "@ + p
        + " {\n    type Whole = "@ + ty + ";\n\n    type Part = "@ + fty
        + ";\n\n    open spec fn wf(self) -> bool {\n        true\n    }\n\n    open spec fn focus(self, t: "@
        + ty + ") -> "@ + fty + " {\n        t."@ + f + "\n    }\n\n    open spec fn store(self, t: "@
        + ty + ", v: "@ + fty + ") -> "@ + ty + " {\n        "@ + ty + " { "@ + f
        + ": v, ..t }\n    }\n\n    proof fn lemma_focus_store(self, t: "@ + ty + ", v: "@ + fty
        + ") {\n    }\n\n    proof fn lemma_store_focus(self, t: "@ + ty
        + ") {\n    }\n\n    proof fn lemma_store_store(self, t: "@ + ty + ", v1: "@ + fty
        + ", v2: "@ + fty + ") {\n    }\n\n    fn project<'a>(&self, root: &'a "@ + ty
        + ") -> (r: &'a "@ + fty + ") {\n        &root."@ + f
        + "\n    }\n\n    fn project_mut<'a>(&self, root: &'a mut "@ + ty + ") -> (r: &'a mut "@
        + fty + ") {\n        &mut root."@ + f + "\n    }\n}\n\n"@
}

/// The text of the accessor constructor for the field `f`, built from the
/// projection type `p`.
pub open spec fn acc_fn_text(p: Seq<char>, f: Seq<char>) -> Seq<char> {
    "    /// Accessor to the `"@ + f + "` field.\n    pub fn acc_"@ + f
        + "() -> (a: pathmod::Accessor<"@ + p
        + ">)\n        ensures\n            a.wf(),\n    {\n        pathmod::Accessor::from_fns("@
        + p + ")\n    }\n\n"@
}

/// The text of the replace-method for the field `f` of type `fty` inside
/// the whole `ty`: it consumes the whole and rebuilds it, moving every
/// other field.
pub open spec fn with_fn_text(ty: Seq<char>, fty: Seq<char>, f: Seq<char>) -> Seq<char> {
    "    /// Return a new value with `"@ + f
        + "` replaced by `new_val`, moving every other field.\n    pub fn with_"@ + f
        + "(self, new_val: "@ + fty + ") -> "@ + ty + " {\n        "@ + ty + " { "@ + f
        + ": new_val, ..self }\n    }\n\n"@
}

/// The support text for the first `fs` named fields, in field order.
pub open spec fn named_supports(name: Seq<char>, full: Seq<char>, fs: Seq<NamedField>) -> Seq<char>
    decreases fs.len(),
{
    if fs.len() == 0 {
        Seq::empty()
    } else {
        named_supports(name, full, fs.drop_last()) + support_text(
            proj_name(name, fs.last().name@),
            full,
            fs.last().ty@,
            fs.last().name@,
        )
    }
}

/// The accessor-constructor texts for the named fields, in field order.
pub open spec fn named_acc_texts(name: Seq<char>, fs: Seq<NamedField>) -> Seq<char>
    decreases fs.len(),
{
    if fs.len() == 0 {
        Seq::empty()
    } else {
        named_acc_texts(name, fs.drop_last()) + acc_fn_text(
            proj_name(name, fs.last().name@),
            fs.last().name@,
        )
    }
}

/// The replace-method texts for the named fields, in field order.
pub open spec fn named_with_texts(full: Seq<char>, fs: Seq<NamedField>) -> Seq<char>
    decreases fs.len(),
{
    if fs.len() == 0 {
        Seq::empty()
    } else {
        named_with_texts(full, fs.drop_last()) + with_fn_text(
            full,
            fs.last().ty@,
            fs.last().name@,
        )
    }
}

/// The support text for the first `n` positional fields, in field order.
pub open spec fn positional_supports(
    name: Seq<char>,
    full: Seq<char>,
    ts: Seq<String>,
    n: int,
) -> Seq<char>
    decreases n,
{
    if n <= 0 {
        Seq::empty()
    } else {
        positional_supports(name, full, ts, n - 1) + support_text(
            proj_name(name, decimal((n - 1) as nat)),
            full,
            ts[n - 1]@,
            decimal((n - 1) as nat),
        )
    }
}

/// The accessor-constructor texts for the first `n` positional fields.
pub open spec fn positional_acc_texts(name: Seq<char>, n: int) -> Seq<char>
    decreases n,
{
    if n <= 0 {
        Seq::empty()
    } else {
        positional_acc_texts(name, n - 1) + acc_fn_text(
            proj_name(name, decimal((n - 1) as nat)),
            decimal((n - 1) as nat),
        )
    }
}

/// The replace-method texts for the first `n` positional fields.
pub open spec fn positional_with_texts(full: Seq<char>, ts: Seq<String>, n: int) -> Seq<char>
    decreases n,
{
    if n <= 0 {
        Seq::empty()
    } else {
        positional_with_texts(full, ts, n - 1) + with_fn_text(
            full,
            ts[n - 1]@,
            decimal((n - 1) as nat),
        )
    }
}

/// The whole emitted text for a described type: the accessor surface for a
/// non-unit struct, and the fixed diagnostic otherwise.
pub open spec fn struct_derive_text(input: TypeDesc) -> Seq<char> {
    let full = input.name@ + input.generics.ty_generics@;
    let head = header_text(
        input.generics.impl_generics@,
        input.name@,
        input.generics.ty_generics@,
        input.generics.where_clause@,
    );
    match input.data {
        TypeData::Struct(StructFields::Named(fs)) => named_supports(input.name@, full, fs@) + head
            + named_acc_texts(input.name@, fs@) + named_with_texts(full, fs@) + "}\n"@,
        TypeData::Struct(StructFields::Positional(ts)) => positional_supports(
            input.name@,
            full,
            ts@,
            ts@.len() as int,
        ) + head + positional_acc_texts(input.name@, ts@.len() as int) + positional_with_texts(
            full,
            ts@,
            ts@.len() as int,
        ) + "}\n"@,
        TypeData::Struct(StructFields::Unit) => compile_error_text(
            "#[derive(Accessor)] does not support unit structs"@,
        ),
        _ => compile_error_text("#[derive(Accessor)] can only be used on structs"@),
    }
}

/// Build the projection type name for the field `f` of the type `name`.
fn build_proj_name(name: &str, f: &str) -> (r: String)
    ensures
        r@ == proj_name(name@, f@),
{
    let mut r = name.to_owned();
    r.append("Acc_");
    r.append(f);
    r
}

/// Build the support text for one field.
fn build_support_text(p: &str, ty: &str, fty: &str, f: &str) -> (r: String)
    ensures
        r@ == support_text(p@, ty@, fty@, f@),
{
    let mut r = "#[derive(Clone, Copy)]\npub struct ".to_owned();
    r.append(p);
    r.append(";\n\nimpl pathmod::Projection for ");
    r.append(p);
    r.append(" {\n    type Whole = ");
    r.append(ty);
    r.append(";\n\n    type Part = ");
    r.append(fty);
    r.append(";\n\n    open spec fn wf(self) -> bool {\n        true\n    }\n\n    open spec fn focus(self, t: ");
    r.append(ty);
    r.append(") -> ");
    r.append(fty);
    r.append(" {\n        t.");
    r.append(f);
    r.append("\n    }\n\n    open spec fn store(self, t: ");
    r.append(ty);
    r.append(", v: ");
    r.append(fty);
    r.append(") -> ");
    r.append(ty);
    r.append(" {\n        ");
    r.append(ty);
    r.append(" { ");
    r.append(f);
    r.append(": v, ..t }\n    }\n\n    proof fn lemma_focus_store(self, t: ");
    r.append(ty);
    r.append(", v: ");
    r.append(fty);
    r.append(") {\n    }\n\n    proof fn lemma_store_focus(self, t: ");
    r.append(ty);
    r.append(") {\n    }\n\n    proof fn lemma_store_store(self, t: ");
    r.append(ty);
    r.append(", v1: ");
    r.append(fty);
    r.append(", v2: ");
    r.append(fty);
    r.append(") {\n    }\n\n    fn project<'a>(&self, root: &'a ");
    r.append(ty);
    r.append(") -> (r: &'a ");
    r.append(fty);
    r.append(") {\n        &root.");
    r.append(f);
    r.append("\n    }\n\n    fn project_mut<'a>(&self, root: &'a mut ");
    r.append(ty);
    r.append(") -> (r: &'a mut ");
    r.append(fty);
    r.append(") {\n        &mut root.");
    r.append(f);
    r.append("\n    }\n}\n\n");
    r
}

/// Build the accessor-constructor name for one field.
fn build_acc_name(f: &str) -> (r: String)
    ensures
        r@ == acc_name(f@),
{
    let mut r = "acc_".to_owned();
    r.append(f);
    r
}

/// Build the replace-method name for one field.
fn build_with_name(f: &str) -> (r: String)
    ensures
        r@ == with_name(f@),
{
    let mut r = "with_".to_owned();
    r.append(f);
    r
}

/// Build the accessor-constructor text for one field.
fn build_acc_fn_text(p: &str, f: &str) -> (r: String)
    ensures
        r@ == acc_fn_text(p@, f@),
{
    let mut r = "    /// Accessor to the `".to_owned();
    r.append(f);
    r.append("` field.\n    pub fn acc_");
    r.append(f);
    r.append("() -> (a: pathmod::Accessor<");
    r.append(p);
    r.append(">)\n        ensures\n            a.wf(),\n    {\n        pathmod::Accessor::from_fns(");
    r.append(p);
    r.append(")\n    }\n\n");
    r
}

/// Build the replace-method text for one field.
fn build_with_fn_text(ty: &str, fty: &str, f: &str) -> (r: String)
    ensures
        r@ == with_fn_text(ty@, fty@, f@),
{
    let mut r = "    /// Return a new value with `".to_owned();
    r.append(f);
    r.append("` replaced by `new_val`, moving every other field.\n    pub fn with_");
    r.append(f);
    r.append("(self, new_val: ");
    r.append(fty);
    r.append(") -> ");
    r.append(ty);
    r.append(" {\n        ");
    r.append(ty);
    r.append(" { ");
    r.append(f);
    r.append(": new_val, ..self }\n    }\n\n");
    r
}

/// Generate the surface for a struct with named fields.
#[verifier::rlimit(60)]
fn expand_named(name: &String, generics: &GenericsText, fields: &Vec<NamedField>) -> (g:
    GeneratedImpl)
    ensures
        g.header@ == header_text(
            generics.impl_generics@,
            name@,
            generics.ty_generics@,
            generics.where_clause@,
        ),
        g.support@ == named_supports(name@, name@ + generics.ty_generics@, fields@),
        g.methods@.len() == 2 * fields@.len(),
        forall|i: int|
            0 <= i < fields@.len() ==> (#[trigger] g.methods@[i]).name@ == acc_name(
                fields@[i].name@,
            ),
        forall|i: int|
            0 <= i < fields@.len() ==> (#[trigger] g.methods@[fields@.len() + i]).name@
                == with_name(fields@[i].name@),
        methods_text(g.methods@) == named_acc_texts(name@, fields@) + named_with_texts(
            name@ + generics.ty_generics@,
            fields@,
        ),
{
    let mut full = name.clone();
    full.append(generics.ty_generics.as_str());
    let n = fields.len();
    let mut support = String::new();
    let mut methods: Vec<GeneratedFn> = Vec::new();
    let mut i: usize = 0;
    while i < n
        invariant
            i <= n,
            n == fields@.len(),
            full@ == name@ + generics.ty_generics@,
            support@ =~= named_supports(name@, full@, fields@.subrange(0, i as int)),
            methods@.len() == i,
            forall|j: int|
                0 <= j < i ==> (#[trigger] methods@[j]).name@ == acc_name(fields@[j].name@),
            methods_text(methods@) =~= named_acc_texts(name@, fields@.subrange(0, i as int)),
        decreases n - i,
    {
        let f = &fields[i];
        let p = build_proj_name(name.as_str(), f.name.as_str());
        let sup = build_support_text(p.as_str(), full.as_str(), f.ty.as_str(), f.name.as_str());
        support.append(sup.as_str());
        let text = build_acc_fn_text(p.as_str(), f.name.as_str());
        let acc = build_acc_name(f.name.as_str());
        let ghost pre_methods = methods@;
        methods.push(GeneratedFn { name: acc, text });
        proof {
            let pre = fields@.subrange(0, i as int);
            let cur = fields@.subrange(0, (i + 1) as int);
            assert(cur.drop_last() =~= pre);
            assert(cur.last() == fields@[i as int]);
            assert(methods@.drop_last() =~= pre_methods);
            assert(support@ =~= named_supports(name@, full@, cur));
            assert(methods_text(methods@) =~= named_acc_texts(name@, cur));
        }
        i += 1;
    }
    proof {
        assert(fields@.subrange(0, n as int) =~= fields@);
    }
    let mut i: usize = 0;
    while i < n
        invariant
            i <= n,
            n == fields@.len(),
            full@ == name@ + generics.ty_generics@,
            support@ =~= named_supports(name@, full@, fields@),
            methods@.len() == n + i,
            forall|j: int|
                0 <= j < n ==> (#[trigger] methods@[j]).name@ == acc_name(fields@[j].name@),
            forall|j: int|
                0 <= j < i ==> (#[trigger] methods@[n + j]).name@ == with_name(fields@[j].name@),
            methods_text(methods@) =~= named_acc_texts(name@, fields@) + named_with_texts(
                full@,
                fields@.subrange(0, i as int),
            ),
        decreases n - i,
    {
        let f = &fields[i];
        let text = build_with_fn_text(full.as_str(), f.ty.as_str(), f.name.as_str());
        let wname = build_with_name(f.name.as_str());
        let ghost pre_methods = methods@;
        methods.push(GeneratedFn { name: wname, text });
        proof {
            let pre = fields@.subrange(0, i as int);
            let cur = fields@.subrange(0, (i + 1) as int);
            assert(cur.drop_last() =~= pre);
            assert(cur.last() == fields@[i as int]);
            assert(methods@.drop_last() =~= pre_methods);
            assert(methods_text(methods@) =~= named_acc_texts(name@, fields@) + named_with_texts(
                full@,
                cur,
            ));
        }
        i += 1;
    }
    proof {
        assert(fields@.subrange(0, n as int) =~= fields@);
    }
    let header = build_header(name.as_str(), generics);
    GeneratedImpl { support, header, methods }
}

/// Generate the surface for a tuple struct, whose fields are addressed by
/// position.
#[verifier::rlimit(60)]
fn expand_positional(name: &String, generics: &GenericsText, tys: &Vec<String>) -> (g:
    GeneratedImpl)
    ensures
        g.header@ == header_text(
            generics.impl_generics@,
            name@,
            generics.ty_generics@,
            generics.where_clause@,
        ),
        g.support@ == positional_supports(
            name@,
            name@ + generics.ty_generics@,
            tys@,
            tys@.len() as int,
        ),
        g.methods@.len() == 2 * tys@.len(),
        forall|i: int|
            0 <= i < tys@.len() ==> (#[trigger] g.methods@[i]).name@ == acc_name(decimal(i as nat)),
        forall|i: int|
            0 <= i < tys@.len() ==> (#[trigger] g.methods@[tys@.len() + i]).name@ == with_name(
                decimal(i as nat),
            ),
        methods_text(g.methods@) == positional_acc_texts(name@, tys@.len() as int)
            + positional_with_texts(name@ + generics.ty_generics@, tys@, tys@.len() as int),
{
    let mut full = name.clone();
    full.append(generics.ty_generics.as_str());
    let n = tys.len();
    let mut support = String::new();
    let mut methods: Vec<GeneratedFn> = Vec::new();
    let mut i: usize = 0;
    while i < n
        invariant
            i <= n,
            n == tys@.len(),
            full@ == name@ + generics.ty_generics@,
            support@ =~= positional_supports(name@, full@, tys@, i as int),
            methods@.len() == i,
            forall|j: int|
                0 <= j < i ==> (#[trigger] methods@[j]).name@ == acc_name(decimal(j as nat)),
            methods_text(methods@) =~= positional_acc_texts(name@, i as int),
        decreases n - i,
    {
        let fty = &tys[i];
        let idx = decimal_string(i as u64);
        let p = build_proj_name(name.as_str(), idx.as_str());
        let sup = build_support_text(p.as_str(), full.as_str(), fty.as_str(), idx.as_str());
        support.append(sup.as_str());
        let text = build_acc_fn_text(p.as_str(), idx.as_str());
        let acc = build_acc_name(idx.as_str());
        let ghost pre_methods = methods@;
        methods.push(GeneratedFn { name: acc, text });
        proof {
            assert(idx@ == decimal(i as nat));
            assert(methods@.drop_last() =~= pre_methods);
            assert(support@ =~= positional_supports(name@, full@, tys@, (i + 1) as int));
            assert(methods_text(methods@) =~= positional_acc_texts(name@, (i + 1) as int));
        }
        i += 1;
    }
    let mut i: usize = 0;
    while i < n
        invariant
            i <= n,
            n == tys@.len(),
            full@ == name@ + generics.ty_generics@,
            support@ =~= positional_supports(name@, full@, tys@, n as int),
            methods@.len() == n + i,
            forall|j: int|
                0 <= j < n ==> (#[trigger] methods@[j]).name@ == acc_name(decimal(j as nat)),
            forall|j: int|
                0 <= j < i ==> (#[trigger] methods@[n + j]).name@ == with_name(decimal(j as nat)),
            methods_text(methods@) =~= positional_acc_texts(name@, n as int)
                + positional_with_texts(full@, tys@, i as int),
        decreases n - i,
    {
        let fty = &tys[i];
        let idx = decimal_string(i as u64);
        let text = build_with_fn_text(full.as_str(), fty.as_str(), idx.as_str());
        let wname = build_with_name(idx.as_str());
        let ghost pre_methods = methods@;
        methods.push(GeneratedFn { name: wname, text });
        proof {
            assert(idx@ == decimal(i as nat));
            assert(methods@.drop_last() =~= pre_methods);
            assert(methods_text(methods@) =~= positional_acc_texts(name@, n as int)
                + positional_with_texts(full@, tys@, (i + 1) as int));
        }
        i += 1;
    }
    let header = build_header(name.as_str(), generics);
    GeneratedImpl { support, header, methods }
}

/// Derive the accessor surface for a described struct: one accessor
/// constructor and one replace-method per field, named deterministically
/// from the field list alone, or the fixed diagnostic for a rejected
/// shape (a unit struct, or an input that is not a struct at all).
pub fn expand(input: &TypeDesc) -> (r: Result<GeneratedImpl, String>)
    ensures
        r is Ok <==> (input.data matches TypeData::Struct(sf) && !(sf is Unit)),
        r matches Ok(g) ==> {
            &&& g.header@ == header_text(
                input.generics.impl_generics@,
                input.name@,
                input.generics.ty_generics@,
                input.generics.where_clause@,
            )
            &&& match input.data {
                TypeData::Struct(StructFields::Named(fs)) => {
                    &&& g.support@ == named_supports(
                        input.name@,
                        input.name@ + input.generics.ty_generics@,
                        fs@,
                    )
                    &&& g.methods@.len() == 2 * fs@.len()
                    &&& forall|i: int|
                        0 <= i < fs@.len() ==> (#[trigger] g.methods@[i]).name@ == acc_name(
                            fs@[i].name@,
                        )
                    &&& forall|i: int|
                        0 <= i < fs@.len() ==> (#[trigger] g.methods@[fs@.len() + i]).name@
                            == with_name(fs@[i].name@)
                    &&& methods_text(g.methods@) == named_acc_texts(input.name@, fs@)
                        + named_with_texts(input.name@ + input.generics.ty_generics@, fs@)
                },
                TypeData::Struct(StructFields::Positional(ts)) => {
                    &&& g.support@ == positional_supports(
                        input.name@,
                        input.name@ + input.generics.ty_generics@,
                        ts@,
                        ts@.len() as int,
                    )
                    &&& g.methods@.len() == 2 * ts@.len()
                    &&& forall|i: int|
                        0 <= i < ts@.len() ==> (#[trigger] g.methods@[i]).name@ == acc_name(
                            decimal(i as nat),
                        )
                    &&& forall|i: int|
                        0 <= i < ts@.len() ==> (#[trigger] g.methods@[ts@.len() + i]).name@
                            == with_name(decimal(i as nat))
                    &&& methods_text(g.methods@) == positional_acc_texts(
                        input.name@,
                        ts@.len() as int,
                    ) + positional_with_texts(
                        input.name@ + input.generics.ty_generics@,
                        ts@,
                        ts@.len() as int,
                    )
                },
                _ => false,
            }
        },
        r matches Err(m) ==> match input.data {
            TypeData::Struct(sf) => sf is Unit && m@
                == "#[derive(Accessor)] does not support unit structs"@,
            _ => m@ == "#[derive(Accessor)] can only be used on structs"@,
        },
{
    match &input.data {
        TypeData::Struct(StructFields::Named(fields)) => Ok(
            expand_named(&input.name, &input.generics, fields),
        ),
        TypeData::Struct(StructFields::Positional(tys)) => Ok(
            expand_positional(&input.name, &input.generics, tys),
        ),
        TypeData::Struct(StructFields::Unit) => Err(
            "#[derive(Accessor)] does not support unit structs".to_owned(),
        ),
        _ => Err("#[derive(Accessor)] can only be used on structs".to_owned()),
    }
}

/// Derive the full emitted text for a described struct: the accessor
/// surface for a supported shape, and the emitted diagnostic for a
/// rejected one. The text is a function of the described shape alone.
pub fn accessor_derive(input: &TypeDesc) -> (r: String)
    ensures
        r@ == struct_derive_text(*input),
{
    match expand(input) {
        Ok(g) => {
            let r = render_impl(&g);
            proof {
                assert(r@ =~= struct_derive_text(*input));
            }
            r
        },
        Err(m) => render_error(m.as_str()),
    }
}

} // verus!
