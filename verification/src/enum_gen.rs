//! The variant accessor generator: for an enum whose variants are all
//! single-field tuple variants it emits a fixed set of membership, borrow,
//! replace and update methods per variant, named from the case-lowered
//! variant name; any other variant shape, and any non-enum input, is
//! rejected with a fixed diagnostic, the first violation winning.

use vstd::prelude::*;
use crate::emit::compile_error_text;
use crate::emit::build_header;
use crate::emit::header_text;
use crate::emit::render_error;
use crate::shape::GenericsText;
use crate::shape::TypeData;
use crate::shape::TypeDesc;
use crate::shape::VariantDesc;
use crate::shape::VariantFields;
use crate::text::lower;
use crate::text::lowercase;

verus! {

/// The membership-test name for the lowered variant name `v`.
pub open spec fn is_name(v: Seq<char>) -> Seq<char> {
    "is_"@ + v
}

/// The shared-borrow name for the lowered variant name `v`.
pub open spec fn as_name(v: Seq<char>) -> Seq<char> {
    "as_"@ + v
}

/// The exclusive-borrow name for the lowered variant name `v`.
pub open spec fn as_mut_name(v: Seq<char>) -> Seq<char> {
    "as_"@ + v + "_mut"@
}

/// The replace name for the lowered variant name `v`.
pub open spec fn set_name(v: Seq<char>) -> Seq<char> {
    "set_"@ + v
}

/// The update name for the lowered variant name `v`.
pub open spec fn map_name(v: Seq<char>) -> Seq<char> {
    "map_"@ + v
}

/// The method block emitted for one variant `vn` with payload type `fty`,
/// `low` being the lowered variant name.
pub open spec fn variant_block_text(vn: Seq<char>, low: Seq<char>, fty: Seq<char>) -> Seq<char> {
    "    #[inline]\n    pub fn is_"@ + low + "(&self) -> bool {\n        matches!(self, Self::"@
        + vn + "(_))\n    }\n\n    #[inline]\n    pub fn as_"@ + low + "(&self) -> Option<&"@ + fty
        + "> {\n        if let Self::"@ + vn
        + "(ref v) = self { Some(v) } else { None }\n    }\n\n    #[inline]\n    pub fn as_"@ + low
        + "_mut(&mut self) -> Option<&mut "@ + fty + "> {\n        if let Self::"@ + vn
        + "(ref mut v) = self { Some(v) } else { None }\n    }\n\n    #[inline]\n    pub fn set_"@
        + low + "(&mut self, val: "@ + fty + ") {\n        *self = Self::"@ + vn
        + "(val);\n    }\n\n    #[inline]\n    pub fn map_"@ + low + "(&mut self, f: impl FnOnce(&mut "@
        + fty + ")) {\n        if let Self::"@ + vn + "(ref mut v) = self { f(v); }\n    }\n\n"@
}

/// The emitted method surface for one variant: the five method names, so
/// that the name surface can be stated exactly, and the block's full text.
pub struct VariantSurface {
    pub is_name: String,
    pub as_name: String,
    pub as_mut_name: String,
    pub set_name: String,
    pub map_name: String,
    pub text: String,
}

/// The generated surface for an enum: the `impl` block header and one
/// method block per variant, in declaration order.
pub struct GeneratedEnumImpl {
    pub header: String,
    pub variants: Vec<VariantSurface>,
}

/// The concatenated method blocks, in declaration order.
pub open spec fn variants_text(ms: Seq<VariantSurface>) -> Seq<char>
    decreases ms.len(),
{
    if ms.len() == 0 {
        Seq::empty()
    } else {
        variants_text(ms.drop_last()) + ms.last().text@
    }
}

/// The concatenated method blocks that the variant list `vs` gives rise
/// to, in declaration order.
pub open spec fn blocks_text(vs: Seq<VariantDesc>) -> Seq<char>
    decreases vs.len(),
{
    if vs.len() == 0 {
        Seq::empty()
    } else {
        blocks_text(vs.drop_last()) + variant_block_text(
            vs.last().name@,
            lower(vs.last().name@),
            payload_ty(vs.last()),
        )
    }
}

/// The payload type of a single-field tuple variant, as source text.
pub open spec fn payload_ty(v: VariantDesc) -> Seq<char> {
    match v.fields {
        VariantFields::Tuple(ts) => ts@[0]@,
        _ => Seq::empty(),
    }
}

/// The diagnostic a variant's shape provokes, if any: a unit variant, a
/// tuple variant with other than one field, and a named-field variant each
/// have their own fixed message; a single-field tuple variant is accepted.
pub open spec fn variant_error(v: VariantDesc) -> Option<Seq<char>> {
    match v.fields {
        VariantFields::Tuple(ts) => if ts@.len() == 1 {
            Option::None
        } else {
            Option::Some(
                "#[derive(EnumAccess)] supports only tuple variants with exactly one field"@,
            )
        },
        VariantFields::Named(fs) => if fs@.len() == 1 {
            Option::Some(
                "#[derive(EnumAccess)] currently supports only tuple variants with exactly one field; named-field single variants are not yet supported"@,
            )
        } else {
            Option::Some(
                "#[derive(EnumAccess)] supports only tuple variants with exactly one field"@,
            )
        },
        VariantFields::Unit => Option::Some(
            "#[derive(EnumAccess)] does not support unit variants in this MVP"@,
        ),
    }
}

/// The first diagnostic that the variant list provokes, scanning in
/// declaration order, if any.
pub open spec fn scan_variants(vs: Seq<VariantDesc>) -> Option<Seq<char>>
    decreases vs.len(),
{
    if vs.len() == 0 {
        Option::None
    } else {
        match variant_error(vs.first()) {
            Option::Some(m) => Option::Some(m),
            Option::None => scan_variants(vs.drop_first()),
        }
    }
}

/// A scan skips over an error-free prefix.
proof fn lemma_scan_skips_ok_prefix(vs: Seq<VariantDesc>, i: int)
    requires
        0 <= i <= vs.len(),
        forall|j: int| 0 <= j < i ==> #[trigger] variant_error(vs[j]) is None,
    ensures
        scan_variants(vs) == scan_variants(vs.subrange(i, vs.len() as int)),
    decreases i,
{
    if i > 0 {
        let rest = vs.drop_first();
        assert(variant_error(vs.first()) is None);
        assert(forall|j: int| 0 <= j < i - 1 ==> #[trigger] variant_error(rest[j]) is None);
        lemma_scan_skips_ok_prefix(rest, i - 1);
        assert(rest.subrange(i - 1, rest.len() as int) =~= vs.subrange(i, vs.len() as int));
    } else {
        assert(vs.subrange(0, vs.len() as int) =~= vs);
    }
}

/// The whole emitted text for a described type: the variant accessor
/// surface for an enum of single-field tuple variants (for a zero-variant
/// enum, an empty surface), and the fixed diagnostic otherwise.
pub open spec fn enum_derive_text(input: TypeDesc) -> Seq<char> {
    match input.data {
        TypeData::Enum(vs) => match scan_variants(vs@) {
            Option::Some(m) => compile_error_text(m),
            Option::None => header_text(
                input.generics.impl_generics@,
                input.name@,
                input.generics.ty_generics@,
                input.generics.where_clause@,
            ) + blocks_text(vs@) + "}\n"@,
        },
        _ => compile_error_text("#[derive(EnumAccess)] can only be used on enums"@),
    }
}

/// Build the method block for one variant.
fn build_variant_block(vn: &str, low: &str, fty: &str) -> (r: String)
    ensures
        r@ == variant_block_text(vn@, low@, fty@),
{
    let mut r = "    #[inline]\n    pub fn is_".to_owned();
    r.append(low);
    r.append("(&self) -> bool {\n        matches!(self, Self::");
    r.append(vn);
    r.append("(_))\n    }\n\n    #[inline]\n    pub fn as_");
    r.append(low);
    r.append("(&self) -> Option<&");
    r.append(fty);
    r.append("> {\n        if let Self::");
    r.append(vn);
    r.append("(ref v) = self { Some(v) } else { None }\n    }\n\n    #[inline]\n    pub fn as_");
    r.append(low);
    r.append("_mut(&mut self) -> Option<&mut ");
    r.append(fty);
    r.append("> {\n        if let Self::");
    r.append(vn);
    r.append("(ref mut v) = self { Some(v) } else { None }\n    }\n\n    #[inline]\n    pub fn set_");
    r.append(low);
    r.append("(&mut self, val: ");
    r.append(fty);
    r.append(") {\n        *self = Self::");
    r.append(vn);
    r.append("(val);\n    }\n\n    #[inline]\n    pub fn map_");
    r.append(low);
    r.append("(&mut self, f: impl FnOnce(&mut ");
    r.append(fty);
    r.append(")) {\n        if let Self::");
    r.append(vn);
    r.append("(ref mut v) = self { f(v); }\n    }\n\n");
    r
}

/// Build one of the five method names from its prefix and the lowered
/// variant name.
fn build_prefixed(prefix: &str, low: &str) -> (r: String)
    ensures
        r@ == prefix@ + low@,
{
    let mut r = prefix.to_owned();
    r.append(low);
    r
}

/// Generate the method surface for a variant list, or the first provoked
/// diagnostic, scanning in declaration order.
#[verifier::rlimit(60)]
fn expand_variants(name: &String, generics: &GenericsText, variants: &Vec<VariantDesc>) -> (r:
    Result<GeneratedEnumImpl, String>)
    ensures
        r is Ok <==> scan_variants(variants@) is None,
        r matches Ok(g) ==> {
            &&& g.header@ == header_text(
                generics.impl_generics@,
                name@,
                generics.ty_generics@,
                generics.where_clause@,
            )
            &&& g.variants@.len() == variants@.len()
            &&& forall|i: int|
                0 <= i < variants@.len() ==> {
                    let s = #[trigger] g.variants@[i];
                    &&& s.is_name@ == is_name(lower(variants@[i].name@))
                    &&& s.as_name@ == as_name(lower(variants@[i].name@))
                    &&& s.as_mut_name@ == as_mut_name(lower(variants@[i].name@))
                    &&& s.set_name@ == set_name(lower(variants@[i].name@))
                    &&& s.map_name@ == map_name(lower(variants@[i].name@))
                    &&& s.text@ == variant_block_text(
                        variants@[i].name@,
                        lower(variants@[i].name@),
                        payload_ty(variants@[i]),
                    )
                }
            &&& variants_text(g.variants@) == blocks_text(variants@)
        },
        r matches Err(m) ==> scan_variants(variants@) == Option::Some(m@),
{
    let n = variants.len();
    let mut out: Vec<VariantSurface> = Vec::new();
    let mut i: usize = 0;
    while i < n
        invariant
            i <= n,
            n == variants@.len(),
            out@.len() == i,
            forall|j: int| 0 <= j < i ==> #[trigger] variant_error(variants@[j]) is None,
            forall|j: int|
                0 <= j < i ==> {
                    let s = #[trigger] out@[j];
                    &&& s.is_name@ == is_name(lower(variants@[j].name@))
                    &&& s.as_name@ == as_name(lower(variants@[j].name@))
                    &&& s.as_mut_name@ == as_mut_name(lower(variants@[j].name@))
                    &&& s.set_name@ == set_name(lower(variants@[j].name@))
                    &&& s.map_name@ == map_name(lower(variants@[j].name@))
                    &&& s.text@ == variant_block_text(
                        variants@[j].name@,
                        lower(variants@[j].name@),
                        payload_ty(variants@[j]),
                    )
                },
            variants_text(out@) =~= blocks_text(variants@.subrange(0, i as int)),
        decreases n - i,
    {
        let v = &variants[i];
        match &v.fields {
            VariantFields::Tuple(ts) if ts.len() == 1 => {
                let low = lowercase(v.name.as_str());
                let surface = VariantSurface {
                    is_name: build_prefixed("is_", low.as_str()),
                    as_name: build_prefixed("as_", low.as_str()),
                    as_mut_name: {
                        let mut m = build_prefixed("as_", low.as_str());
                        m.append("_mut");
                        m
                    },
                    set_name: build_prefixed("set_", low.as_str()),
                    map_name: build_prefixed("map_", low.as_str()),
                    text: build_variant_block(v.name.as_str(), low.as_str(), ts[0].as_str()),
                };
                let ghost pre_out = out@;
                out.push(surface);
                proof {
                    let pre = variants@.subrange(0, i as int);
                    let cur = variants@.subrange(0, (i + 1) as int);
                    assert(cur.drop_last() =~= pre);
                    assert(cur.last() == variants@[i as int]);
                    assert(out@.drop_last() =~= pre_out);
                    assert(variants_text(out@) =~= blocks_text(cur));
                }
            },
            VariantFields::Named(fs) if fs.len() == 1 => {
                proof {
                    lemma_scan_skips_ok_prefix(variants@, i as int);
                    let rest = variants@.subrange(i as int, variants@.len() as int);
                    assert(rest.first() == variants@[i as int]);
                    assert(scan_variants(rest) == Option::Some(
                        "#[derive(EnumAccess)] currently supports only tuple variants with exactly one field; named-field single variants are not yet supported"@,
                    ));
                }
                return Err(
                    "#[derive(EnumAccess)] currently supports only tuple variants with exactly one field; named-field single variants are not yet supported".to_owned(),
                );
            },
            VariantFields::Unit => {
                proof {
                    lemma_scan_skips_ok_prefix(variants@, i as int);
                    let rest = variants@.subrange(i as int, variants@.len() as int);
                    assert(rest.first() == variants@[i as int]);
                    assert(scan_variants(rest) == Option::Some(
                        "#[derive(EnumAccess)] does not support unit variants in this MVP"@,
                    ));
                }
                return Err(
                    "#[derive(EnumAccess)] does not support unit variants in this MVP".to_owned(),
                );
            },
            _ => {
                proof {
                    lemma_scan_skips_ok_prefix(variants@, i as int);
                    let rest = variants@.subrange(i as int, variants@.len() as int);
                    assert(rest.first() == variants@[i as int]);
                    assert(scan_variants(rest) == Option::Some(
                        "#[derive(EnumAccess)] supports only tuple variants with exactly one field"@,
                    ));
                }
                return Err(
                    "#[derive(EnumAccess)] supports only tuple variants with exactly one field".to_owned(),
                );
            },
        }
        i += 1;
    }
    proof {
        assert(variants@.subrange(0, n as int) =~= variants@);
        lemma_scan_skips_ok_prefix(variants@, n as int);
        assert(variants@.subrange(n as int, variants@.len() as int) =~= Seq::<
            VariantDesc,
        >::empty());
    }
    let header = build_header(name.as_str(), generics);
    Ok(GeneratedEnumImpl { header, variants: out })
}

/// Derive the variant accessor surface for a described enum: five methods
/// per variant, named deterministically from the variant list alone, or
/// the first provoked diagnostic; non-enum inputs are rejected outright.
pub fn expand_enum(input: &TypeDesc) -> (r: Result<GeneratedEnumImpl, String>)
    ensures
        r is Ok <==> (input.data matches TypeData::Enum(vs) && scan_variants(vs@) is None),
        r matches Ok(g) ==> {
            &&& g.header@ == header_text(
                input.generics.impl_generics@,
                input.name@,
                input.generics.ty_generics@,
                input.generics.where_clause@,
            )
            &&& match input.data {
                TypeData::Enum(vs) => {
                    &&& g.variants@.len() == vs@.len()
                    &&& forall|i: int|
                        0 <= i < vs@.len() ==> {
                            let s = #[trigger] g.variants@[i];
                            &&& s.is_name@ == is_name(lower(vs@[i].name@))
                            &&& s.as_name@ == as_name(lower(vs@[i].name@))
                            &&& s.as_mut_name@ == as_mut_name(lower(vs@[i].name@))
                            &&& s.set_name@ == set_name(lower(vs@[i].name@))
                            &&& s.map_name@ == map_name(lower(vs@[i].name@))
                            &&& s.text@ == variant_block_text(
                                vs@[i].name@,
                                lower(vs@[i].name@),
                                payload_ty(vs@[i]),
                            )
                        }
                    &&& variants_text(g.variants@) == blocks_text(vs@)
                },
                _ => false,
            }
        },
        r matches Err(m) ==> match input.data {
            TypeData::Enum(vs) => scan_variants(vs@) == Option::Some(m@),
            _ => m@ == "#[derive(EnumAccess)] can only be used on enums"@,
        },
{
    match &input.data {
        TypeData::Enum(variants) => expand_variants(&input.name, &input.generics, variants),
        _ => Err("#[derive(EnumAccess)] can only be used on enums".to_owned()),
    }
}

/// Derive the full emitted text for a described enum: the variant accessor
/// surface for a supported shape, and the emitted diagnostic for a
/// rejected one. The text is a function of the described shape alone.
pub fn enum_access_derive(input: &TypeDesc) -> (r: String)
    ensures
        r@ == enum_derive_text(*input),
{
    match expand_enum(input) {
        Ok(g) => {
            let mut r = g.header.clone();
            let n = g.variants.len();
            let mut i: usize = 0;
            while i < n
                invariant
                    i <= n,
                    n == g.variants@.len(),
                    r@ =~= g.header@ + variants_text(g.variants@.subrange(0, i as int)),
                decreases n - i,
            {
                r.append(g.variants[i].text.as_str());
                proof {
                    assert(g.variants@.subrange(0, (i + 1) as int).drop_last() =~= g.variants@
                        .subrange(0, i as int));
                    assert(r@ =~= g.header@ + variants_text(g.variants@.subrange(0, (i + 1) as int)));
                }
                i += 1;
            }
            proof {
                assert(g.variants@.subrange(0, n as int) =~= g.variants@);
            }
            r.append("}\n");
            proof {
                assert(r@ =~= enum_derive_text(*input));
            }
            r
        },
        Err(m) => render_error(m.as_str()),
    }
}

} // verus!
