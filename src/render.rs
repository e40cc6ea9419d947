use vstd::prelude::*;
use crate::model::{
    AccessorKind, AccessorView, Diagnostic, GeneratedAccessor, StructureDescriptor, StructureView,
    accessors_view,
};
use crate::generate::{generate, outcome};

verus! {

/// The source text of one accessor function.
pub open spec fn accessor_text(a: AccessorView) -> Seq<char> {
    match a.kind {
        AccessorKind::ReadOnly => "pub fn "@ + a.function_name + "(&self) -> &"@ + a.return_type
            + " { &self."@ + a.member + " }"@,
        AccessorKind::Mutable => "pub fn "@ + a.function_name + "(&mut self) -> &mut "@
            + a.return_type + " { &mut self."@ + a.member + " }"@,
    }
}

/// The texts of the first `n` accessors, each preceded by a space.
pub open spec fn accessors_text(accs: Seq<AccessorView>, n: nat) -> Seq<char>
    decreases n,
{
    if n == 0 {
        seq![]
    } else {
        accessors_text(accs, (n - 1) as nat) + " "@ + accessor_text(accs[n - 1])
    }
}

/// The source text of the `impl` block of `name` that holds `accs`, in order.
pub open spec fn block_text(name: Seq<char>, accs: Seq<AccessorView>) -> Seq<char> {
    "impl "@ + name + " {"@ + accessors_text(accs, accs.len()) + " }"@
}

/// What generation yields for a declaration, as source text.
pub open spec fn expansion(d: StructureView) -> Result<Seq<char>, Seq<Diagnostic>> {
    match outcome(d) {
        Ok(accs) => Ok(block_text(d.name, accs)),
        Err(e) => Err(e),
    }
}

pub open spec fn expansion_view(r: Result<String, Vec<Diagnostic>>) -> Result<Seq<char>, Seq<Diagnostic>> {
    match r {
        Ok(s) => Ok(s@),
        Err(e) => Err(e@),
    }
}

/// The source text of one accessor function.
pub fn render_accessor(a: &GeneratedAccessor) -> (r: String)
    ensures
        r@ == accessor_text(a@),
{
    let mut s = String::from_str("pub fn ");
    s.append(a.function_name.as_str());
    match a.kind {
        AccessorKind::ReadOnly => {
            s.append("(&self) -> &");
            s.append(a.return_type.as_str());
            s.append(" { &self.");
        },
        AccessorKind::Mutable => {
            s.append("(&mut self) -> &mut ");
            s.append(a.return_type.as_str());
            s.append(" { &mut self.");
        },
    }
    s.append(a.member.as_str());
    s.append(" }");
    s
}

/// The source text of one `impl` block of `name` that holds the accessors in
/// order; with no accessor the block is empty.
pub fn render_block(name: &String, accs: &Vec<GeneratedAccessor>) -> (r: String)
    ensures
        r@ == block_text(name@, accessors_view(accs@)),
{
    let ghost av = accessors_view(accs@);
    let mut body = String::new();
    let mut i: usize = 0;
    while i < accs.len()
        invariant
            0 <= i <= accs@.len(),
            av == accessors_view(accs@),
            body@ == accessors_text(av, i as nat),
        decreases accs@.len() - i,
    {
        let t = render_accessor(&accs[i]);
        body.append(" ");
        body.append(t.as_str());
        i = i + 1;
    }
    let mut s = String::from_str("impl ");
    s.append(name.as_str());
    s.append(" {");
    s.append(body.as_str());
    s.append(" }");
    s
}

/// Generates the `impl` block of a declaration as source text, or returns
/// every diagnostic that stops generation.
pub fn expand(decl: &StructureDescriptor) -> (r: Result<String, Vec<Diagnostic>>)
    ensures
        expansion_view(r) == expansion(decl@),
{
    match generate(decl) {
        Ok(accs) => Ok(render_block(&decl.name, &accs)),
        Err(e) => Err(e),
    }
}

} // verus!
