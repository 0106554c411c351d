//! The generated output model shared by both generators: named pieces of
//! source text, and their rendering into the final emitted text.

use vstd::prelude::*;
use crate::shape::GenericsText;

verus! {

/// One generated method: its name, stated separately so that contracts can
/// pin the emitted name surface, and its full source text.
pub struct GeneratedFn {
    pub name: String,
    pub text: String,
}

/// The generated accessor surface for one type: support items standing
/// before the `impl` block, the block's header, and the methods inside it.
pub struct GeneratedImpl {
    pub support: String,
    pub header: String,
    pub methods: Vec<GeneratedFn>,
}

/// The concatenated text of the methods, in emission order.
pub open spec fn methods_text(ms: Seq<GeneratedFn>) -> Seq<char>
    decreases ms.len(),
{
    if ms.len() == 0 {
        Seq::empty()
    } else {
        methods_text(ms.drop_last()) + ms.last().text@
    }
}

/// The full emitted text of a generated surface: the support items, then
/// the `impl` block holding the methods.
pub open spec fn rendered(g: GeneratedImpl) -> Seq<char> {
    g.support@ + g.header@ + methods_text(g.methods@) + "}\n"@
}

/// The emitted text of a generation-time failure: an invocation that makes
/// the dependent build fail with the diagnostic.
pub open spec fn compile_error_text(msg: Seq<char>) -> Seq<char> {
    "compile_error!(\""@ + msg + "\");\n"@
}

/// The header of the `impl` block, with the three generics pieces spliced
/// in the same places a hand-written `impl` would put them.
pub open spec fn header_text(
    impl_generics: Seq<char>,
    name: Seq<char>,
    ty_generics: Seq<char>,
    where_clause: Seq<char>,
) -> Seq<char> {
    "impl"@ + impl_generics + " "@ + name + ty_generics + " "@ + where_clause + "{\n"@
}

/// Render a generated surface into its final emitted text.
pub fn render_impl(g: &GeneratedImpl) -> (r: String)
    ensures
        r@ == rendered(*g),
{
    let mut r = g.support.clone();
    r.append(g.header.as_str());
    let n = g.methods.len();
    let mut i: usize = 0;
    while i < n
        invariant
            i <= n,
            n == g.methods@.len(),
            r@ =~= g.support@ + g.header@ + methods_text(g.methods@.subrange(0, i as int)),
        decreases n - i,
    {
        r.append(g.methods[i].text.as_str());
        proof {
            assert(g.methods@.subrange(0, i + 1 as int).drop_last() =~= g.methods@.subrange(
                0,
                i as int,
            ));
            assert(r@ =~= g.support@ + g.header@ + methods_text(
                g.methods@.subrange(0, i + 1 as int),
            ));
        }
        i += 1;
    }
    proof {
        assert(g.methods@.subrange(0, n as int) =~= g.methods@);
    }
    r.append("}\n");
    r
}

/// Render a diagnostic into the emitted failure text.
pub fn render_error(msg: &str) -> (r: String)
    ensures
        r@ == compile_error_text(msg@),
{
    let mut r = "compile_error!(\"".to_owned();
    r.append(msg);
    r.append("\");\n");
    r
}

/// Build the `impl` block header for the named type with its generics.
pub fn build_header(name: &str, generics: &GenericsText) -> (r: String)
    ensures
        r@ == header_text(
            generics.impl_generics@,
            name@,
            generics.ty_generics@,
            generics.where_clause@,
        ),
{
    let mut r = "impl".to_owned();
    r.append(generics.impl_generics.as_str());
    r.append(" ");
    r.append(name);
    r.append(generics.ty_generics.as_str());
    r.append(" ");
    r.append(generics.where_clause.as_str());
    r.append("{\n");
    r
}

} // verus!
