use vstd::prelude::*;
use crate::model::{
    AccessorKind, AccessorView, Anchor, Diagnostic, DiagnosticKind, FieldView, Shape,
    StructureDescriptor, StructureView, is_exclude, is_no_mut,
};
use crate::generate::{
    accessors_upto, diagnostics_upto, field_accessors, field_diagnostics, mut_name, outcome,
    wrong_shape,
};
use crate::render::expansion;

verus! {

/// The accessors among `accs` that borrow field `i`, in order.
pub open spec fn accessors_of(accs: Seq<AccessorView>, i: nat) -> Seq<AccessorView> {
    accs.filter(|a: AccessorView| a.field == i)
}

proof fn lemma_field_accessors_refer(fs: Seq<FieldView>, k: int, i: nat)
    requires
        0 <= k < fs.len(),
    ensures
        accessors_of(field_accessors(fs, k), i) == (if k == i {
            field_accessors(fs, k)
        } else {
            seq![]
        }),
{
    reveal_with_fuel(Seq::filter, 3);
    let fa = field_accessors(fs, k);
    assert(fa.len() <= 2);
    if fa.len() == 1 {
        assert(fa.drop_last() =~= seq![]);
    } else if fa.len() == 2 {
        assert(fa.drop_last().drop_last() =~= seq![]);
        assert(fa.drop_last() =~= seq![fa[0]]);
    }
    if k == i {
        assert(accessors_of(fa, i) =~= fa);
    } else {
        assert(accessors_of(fa, i) =~= seq![]);
    }
}

proof fn lemma_accessors_upto_refer(fs: Seq<FieldView>, n: nat, i: nat)
    requires
        n <= fs.len(),
    ensures
        accessors_of(accessors_upto(fs, n), i) == (if i < n {
            field_accessors(fs, i as int)
        } else {
            seq![]
        }),
    decreases n,
{
    reveal_with_fuel(Seq::filter, 1);
    if n > 0 {
        let prev = accessors_upto(fs, (n - 1) as nat);
        let last = field_accessors(fs, n - 1);
        lemma_accessors_upto_refer(fs, (n - 1) as nat, i);
        lemma_field_accessors_refer(fs, n - 1, i);
        Seq::filter_distributes_over_add(prev, last, |a: AccessorView| a.field == i);
        if i < n - 1 {
            assert(accessors_of(accessors_upto(fs, n), i) =~= field_accessors(fs, i as int));
        } else if i == n - 1 {
            assert(accessors_of(accessors_upto(fs, n), i) =~= field_accessors(fs, i as int));
        } else {
            assert(accessors_of(accessors_upto(fs, n), i) =~= seq![]);
        }
    }
}

proof fn lemma_no_diagnostics_upto(fs: Seq<FieldView>, n: nat, k: int)
    requires
        n <= fs.len(),
        0 <= k < n,
        diagnostics_upto(fs, n).len() == 0,
    ensures
        field_diagnostics(fs, k).len() == 0,
    decreases n,
{
    if k < n - 1 {
        lemma_no_diagnostics_upto(fs, (n - 1) as nat, k);
    }
}

proof fn lemma_diagnostic_kept(fs: Seq<FieldView>, n: nat, k: int, j: int)
    requires
        n <= fs.len(),
        0 <= k < n,
        0 <= j < field_diagnostics(fs, k).len(),
    ensures
        diagnostics_upto(fs, n).contains(field_diagnostics(fs, k)[j]),
    decreases n,
{
    let prev = diagnostics_upto(fs, (n - 1) as nat);
    let whole = diagnostics_upto(fs, n);
    if k < n - 1 {
        lemma_diagnostic_kept(fs, (n - 1) as nat, k, j);
        let w = choose|w: int| 0 <= w < prev.len() && prev[w] == field_diagnostics(fs, k)[j];
        assert(whole[w] == prev[w]);
    } else {
        assert(whole[prev.len() + j] == field_diagnostics(fs, k)[j]);
    }
}

proof fn lemma_unmarked_no_diagnostics(fs: Seq<FieldView>, n: nat)
    requires
        n <= fs.len(),
        forall|i: int| 0 <= i < fs.len() ==> !is_no_mut(fs[i]) && !is_exclude(fs[i]),
    ensures
        diagnostics_upto(fs, n).len() == 0,
    decreases n,
{
    if n > 0 {
        lemma_unmarked_no_diagnostics(fs, (n - 1) as nat);
    }
}

proof fn lemma_unmarked_accessors(fs: Seq<FieldView>, n: nat)
    requires
        n <= fs.len(),
        forall|i: int|
            0 <= i < fs.len() ==> fs[i].name is Some && !is_no_mut(fs[i]) && !is_exclude(fs[i]),
    ensures
        accessors_upto(fs, n).len() == 2 * n,
        forall|i: int|
            0 <= i < n ==> #[trigger] accessors_upto(fs, n)[2 * i] == read_only_of(fs, i)
                && accessors_upto(fs, n)[2 * i + 1] == mutable_of(fs, i),
    decreases n,
{
    if n > 0 {
        lemma_unmarked_accessors(fs, (n - 1) as nat);
        let prev = accessors_upto(fs, (n - 1) as nat);
        let whole = accessors_upto(fs, n);
        assert forall|i: int| 0 <= i < n implies #[trigger] whole[2 * i] == read_only_of(fs, i)
            && whole[2 * i + 1] == mutable_of(fs, i) by {
            if i < n - 1 {
                assert(whole[2 * i] == prev[2 * i]);
                assert(whole[2 * i + 1] == prev[2 * i + 1]);
            }
        }
    }
}

/// The read-only accessor of the named field `i`.
pub open spec fn read_only_of(fs: Seq<FieldView>, i: int) -> AccessorView {
    AccessorView {
        kind: AccessorKind::ReadOnly,
        field: i as nat,
        function_name: fs[i].name->Some_0,
        return_type: fs[i].ty,
        member: fs[i].name->Some_0,
    }
}

/// The mutable accessor of the named field `i`.
pub open spec fn mutable_of(fs: Seq<FieldView>, i: int) -> AccessorView {
    AccessorView {
        kind: AccessorKind::Mutable,
        field: i as nat,
        function_name: mut_name(fs[i].name->Some_0),
        return_type: fs[i].ty,
        member: fs[i].name->Some_0,
    }
}

/// A structure whose fields are all named and carry no marker gets exactly two
/// accessors per field, in declaration order: the read-only one named as the
/// field, then the mutable one named with `_mut` after it.
pub proof fn unmarked_fields_get_two_accessors(d: StructureView)
    requires
        d.shape == Shape::Struct,
        forall|i: int|
            0 <= i < d.fields.len() ==> d.fields[i].name is Some && !is_no_mut(d.fields[i])
                && !is_exclude(d.fields[i]),
    ensures
        outcome(d) is Ok,
        outcome(d)->Ok_0.len() == 2 * d.fields.len(),
        forall|i: int|
            0 <= i < d.fields.len() ==> outcome(d)->Ok_0[2 * i] == read_only_of(d.fields, i)
                && outcome(d)->Ok_0[2 * i + 1] == mutable_of(d.fields, i),
{
    lemma_unmarked_no_diagnostics(d.fields, d.fields.len());
    lemma_unmarked_accessors(d.fields, d.fields.len());
}

/// No accessor borrows a field marked `exclude`.
pub proof fn excluded_field_has_no_accessor(d: StructureView, i: nat)
    requires
        i < d.fields.len(),
        is_exclude(d.fields[i as int]),
    ensures
        outcome(d) matches Ok(accs) ==> accessors_of(accs, i) == Seq::<AccessorView>::empty(),
{
    lemma_accessors_upto_refer(d.fields, d.fields.len(), i);
}

/// A field marked `no_mut` and not `exclude` is borrowed by exactly one
/// accessor, the read-only one.
pub proof fn no_mut_field_has_one_read_only_accessor(d: StructureView, i: nat)
    requires
        i < d.fields.len(),
        is_no_mut(d.fields[i as int]),
        !is_exclude(d.fields[i as int]),
    ensures
        outcome(d) matches Ok(accs) ==> accessors_of(accs, i).len() == 1 && accessors_of(
            accs,
            i,
        )[0].kind == AccessorKind::ReadOnly,
{
    if outcome(d) is Ok {
        lemma_accessors_upto_refer(d.fields, d.fields.len(), i);
        lemma_no_diagnostics_upto(d.fields, d.fields.len(), i as int);
    }
}

/// A field of a structure marked both `no_mut` and `exclude` makes generation
/// fail, with a diagnostic of conflicting annotations on that field.
pub proof fn conflicting_markers_fail(d: StructureView, i: nat)
    requires
        d.shape == Shape::Struct,
        i < d.fields.len(),
        is_no_mut(d.fields[i as int]),
        is_exclude(d.fields[i as int]),
    ensures
        outcome(d) is Err,
        outcome(d)->Err_0.contains(
            Diagnostic {
                kind: DiagnosticKind::ConflictingAnnotations,
                anchor: Anchor::Field(i as usize),
            },
        ),
{
    let fd = field_diagnostics(d.fields, i as int);
    let j = fd.len() - 1;
    lemma_diagnostic_kept(d.fields, d.fields.len(), i as int, j);
}

/// A declaration that is not a structure makes generation fail with the one
/// diagnostic of wrong shape, on the declared name.
pub proof fn non_structure_fails(d: StructureView)
    requires
        d.shape != Shape::Struct,
    ensures
        outcome(d) == Err::<Seq<AccessorView>, Seq<Diagnostic>>(seq![wrong_shape()]),
{
}

/// Generation depends on the declaration alone: two runs on declarations that
/// read the same give the same text, or the same diagnostics.
pub proof fn expansion_is_repeatable(a: StructureDescriptor, b: StructureDescriptor)
    requires
        a@ == b@,
    ensures
        expansion(a@) == expansion(b@),
{
}

} // verus!
