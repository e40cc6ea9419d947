use vstd::prelude::*;
use crate::model::{
    Anchor, AccessorKind, AccessorView, Diagnostic, DiagnosticKind, FieldDescriptor, FieldView,
    GeneratedAccessor, Shape, StructureDescriptor, StructureView, EXCLUDE, NO_MUT, accessors_view,
    fields_view, carries_marker, is_exclude, is_no_mut,
};

verus! {

/// The name and the member that the accessors of field `i` use, if the field
/// gets any. A named field uses its name for both. A positional field gets
/// accessors only as the single field of a newtype: `inner`, reading `self.0`;
/// a positional field among several has no name to give its accessors.
pub open spec fn accessor_base(fs: Seq<FieldView>, i: int) -> Option<(Seq<char>, Seq<char>)> {
    match fs[i].name {
        Some(n) => Some((n, n)),
        None => if fs.len() == 1 {
            Some(("inner"@, "0"@))
        } else {
            None
        },
    }
}

/// The name of the mutable accessor of a field whose read-only accessor is `n`.
pub open spec fn mut_name(n: Seq<char>) -> Seq<char> {
    n + "_mut"@
}

/// The accessors of field `i`: the read-only one, then the mutable one unless
/// the field is `no_mut`; none for an `exclude` field.
pub open spec fn field_accessors(fs: Seq<FieldView>, i: int) -> Seq<AccessorView> {
    let f = fs[i];
    if is_exclude(f) {
        seq![]
    } else {
        match accessor_base(fs, i) {
            None => seq![],
            Some((n, m)) => {
                let ro = AccessorView {
                    kind: AccessorKind::ReadOnly,
                    field: i as nat,
                    function_name: n,
                    return_type: f.ty,
                    member: m,
                };
                let rw = AccessorView {
                    kind: AccessorKind::Mutable,
                    field: i as nat,
                    function_name: mut_name(n),
                    return_type: f.ty,
                    member: m,
                };
                if is_no_mut(f) {
                    seq![ro]
                } else {
                    seq![ro, rw]
                }
            },
        }
    }
}

/// The accessors of the first `n` fields, in declaration order.
pub open spec fn accessors_upto(fs: Seq<FieldView>, n: nat) -> Seq<AccessorView>
    decreases n,
{
    if n == 0 {
        seq![]
    } else {
        accessors_upto(fs, (n - 1) as nat) + field_accessors(fs, n - 1)
    }
}

pub open spec fn all_accessors(fs: Seq<FieldView>) -> Seq<AccessorView> {
    accessors_upto(fs, fs.len())
}

/// The diagnostics of field `i`: a positional field may carry no marker, and
/// no field may carry both.
pub open spec fn field_diagnostics(fs: Seq<FieldView>, i: int) -> Seq<Diagnostic> {
    let f = fs[i];
    let positional = if f.name is None && (is_no_mut(f) || is_exclude(f)) {
        seq![
            Diagnostic {
                kind: DiagnosticKind::UnsupportedPositionalUsage,
                anchor: Anchor::Field(i as usize),
            },
        ]
    } else {
        seq![]
    };
    let conflict = if is_no_mut(f) && is_exclude(f) {
        seq![
            Diagnostic {
                kind: DiagnosticKind::ConflictingAnnotations,
                anchor: Anchor::Field(i as usize),
            },
        ]
    } else {
        seq![]
    };
    positional + conflict
}

/// The diagnostics of the first `n` fields, in declaration order.
pub open spec fn diagnostics_upto(fs: Seq<FieldView>, n: nat) -> Seq<Diagnostic>
    decreases n,
{
    if n == 0 {
        seq![]
    } else {
        diagnostics_upto(fs, (n - 1) as nat) + field_diagnostics(fs, n - 1)
    }
}

pub open spec fn all_diagnostics(fs: Seq<FieldView>) -> Seq<Diagnostic> {
    diagnostics_upto(fs, fs.len())
}

pub open spec fn wrong_shape() -> Diagnostic {
    Diagnostic { kind: DiagnosticKind::WrongShape, anchor: Anchor::Declaration }
}

/// What generation yields for a declaration: every accessor of its fields, or
/// every diagnostic that stops it.
pub open spec fn outcome(d: StructureView) -> Result<Seq<AccessorView>, Seq<Diagnostic>> {
    if d.shape != Shape::Struct {
        Err(seq![wrong_shape()])
    } else if all_diagnostics(d.fields).len() > 0 {
        Err(all_diagnostics(d.fields))
    } else {
        Ok(all_accessors(d.fields))
    }
}

pub open spec fn outcome_view(r: Result<Vec<GeneratedAccessor>, Vec<Diagnostic>>) -> Result<
    Seq<AccessorView>,
    Seq<Diagnostic>,
> {
    match r {
        Ok(a) => Ok(accessors_view(a@)),
        Err(e) => Err(e@),
    }
}

/// The markers that one field carries.
#[derive(Clone, Copy, Debug, PartialEq, Eq, Structural)]
pub struct FieldClass {
    pub no_mut: bool,
    pub exclude: bool,
}

impl FieldClass {
    /// Whether the field carries both markers, which is refused.
    pub fn is_double_attribute(&self) -> (r: bool)
        ensures
            r == (self.no_mut && self.exclude),
    {
        self.no_mut && self.exclude
    }
}

/// Reads the markers of a field; attributes of other names are ignored.
pub fn classify(f: &FieldDescriptor) -> (c: FieldClass)
    ensures
        c.no_mut == is_no_mut(f@),
        c.exclude == is_exclude(f@),
{
    FieldClass { no_mut: carries_marker(&f.markers, NO_MUT), exclude: carries_marker(&f.markers, EXCLUDE) }
}

/// The diagnostics of field `i` of `fields`.
pub fn diagnose_field(fields: &Vec<FieldDescriptor>, i: usize) -> (r: Vec<Diagnostic>)
    requires
        i < fields@.len(),
    ensures
        r@ == field_diagnostics(fields_view(fields@), i as int),
{
    let c = classify(&fields[i]);
    let mut r: Vec<Diagnostic> = Vec::new();
    if fields[i].name.is_none() && (c.no_mut || c.exclude) {
        r.push(Diagnostic { kind: DiagnosticKind::UnsupportedPositionalUsage, anchor: Anchor::Field(i) });
    }
    if c.is_double_attribute() {
        r.push(Diagnostic { kind: DiagnosticKind::ConflictingAnnotations, anchor: Anchor::Field(i) });
    }
    assert(r@ =~= field_diagnostics(fields_view(fields@), i as int));
    r
}

/// Classifies every field, or returns every diagnostic of every field.
pub fn check_fields(fields: &Vec<FieldDescriptor>) -> (r: Result<Vec<FieldClass>, Vec<Diagnostic>>)
    ensures
        all_diagnostics(fields_view(fields@)).len() > 0 <==> r is Err,
        r matches Err(e) ==> e@ == all_diagnostics(fields_view(fields@)),
        r matches Ok(cs) ==> cs@.len() == fields@.len() && forall|i: int|
            0 <= i < cs@.len() ==> cs@[i].no_mut == is_no_mut(fields@[i]@) && cs@[i].exclude
                == is_exclude(fields@[i]@),
{
    let ghost fv = fields_view(fields@);
    let mut classes: Vec<FieldClass> = Vec::new();
    let mut errors: Vec<Diagnostic> = Vec::new();
    let mut i: usize = 0;
    while i < fields.len()
        invariant
            0 <= i <= fields@.len(),
            fv == fields_view(fields@),
            errors@ == diagnostics_upto(fv, i as nat),
            classes@.len() == i,
            forall|j: int|
                0 <= j < i ==> classes@[j].no_mut == is_no_mut(fields@[j]@) && classes@[j].exclude
                    == is_exclude(fields@[j]@),
        decreases fields@.len() - i,
    {
        let mut d = diagnose_field(fields, i);
        errors.append(&mut d);
        classes.push(classify(&fields[i]));
        i = i + 1;
    }
    if errors.len() > 0 {
        Err(errors)
    } else {
        Ok(classes)
    }
}

/// The accessors of field `i`, given its markers.
pub fn accessors_of_field(fields: &Vec<FieldDescriptor>, i: usize, c: FieldClass) -> (r: Vec<
    GeneratedAccessor,
>)
    requires
        i < fields@.len(),
        c.no_mut == is_no_mut(fields@[i as int]@),
        c.exclude == is_exclude(fields@[i as int]@),
    ensures
        accessors_view(r@) == field_accessors(fields_view(fields@), i as int),
{
    let ghost fv = fields_view(fields@);
    let mut r: Vec<GeneratedAccessor> = Vec::new();
    if c.exclude {
        assert(accessors_view(r@) =~= field_accessors(fv, i as int));
        return r;
    }
    let f = &fields[i];
    let (name, member) = match &f.name {
        Some(n) => (n.clone(), n.clone()),
        None => {
            if fields.len() == 1 {
                (String::from_str("inner"), String::from_str("0"))
            } else {
                assert(accessors_view(r@) =~= field_accessors(fv, i as int));
                return r;
            }
        },
    };
    let mut rw_name = name.clone();
    rw_name.append("_mut");
    r.push(
        GeneratedAccessor {
            kind: AccessorKind::ReadOnly,
            field: i,
            function_name: name,
            return_type: f.ty.clone(),
            member: member.clone(),
        },
    );
    if !c.no_mut {
        r.push(
            GeneratedAccessor {
                kind: AccessorKind::Mutable,
                field: i,
                function_name: rw_name,
                return_type: f.ty.clone(),
                member,
            },
        );
    }
    assert(accessors_view(r@) =~= field_accessors(fv, i as int));
    r
}

/// The accessors of every field, in declaration order, given their markers.
pub fn code_gen(fields: &Vec<FieldDescriptor>, classes: &Vec<FieldClass>) -> (r: Vec<
    GeneratedAccessor,
>)
    requires
        classes@.len() == fields@.len(),
        forall|i: int|
            0 <= i < classes@.len() ==> classes@[i].no_mut == is_no_mut(fields@[i]@)
                && classes@[i].exclude == is_exclude(fields@[i]@),
    ensures
        accessors_view(r@) == all_accessors(fields_view(fields@)),
{
    let ghost fv = fields_view(fields@);
    let mut r: Vec<GeneratedAccessor> = Vec::new();
    let mut i: usize = 0;
    while i < fields.len()
        invariant
            0 <= i <= fields@.len(),
            classes@.len() == fields@.len(),
            forall|j: int|
                0 <= j < classes@.len() ==> classes@[j].no_mut == is_no_mut(fields@[j]@)
                    && classes@[j].exclude == is_exclude(fields@[j]@),
            fv == fields_view(fields@),
            accessors_view(r@) == accessors_upto(fv, i as nat),
        decreases fields@.len() - i,
    {
        let mut a = accessors_of_field(fields, i, classes[i]);
        let ghost before = r@;
        let ghost added = a@;
        r.append(&mut a);
        assert(accessors_view(r@) =~= accessors_view(before) + accessors_view(added));
        i = i + 1;
    }
    r
}

/// Generates the accessors of a declaration, or every diagnostic that stops it.
pub fn generate(decl: &StructureDescriptor) -> (r: Result<Vec<GeneratedAccessor>, Vec<Diagnostic>>)
    ensures
        outcome_view(r) == outcome(decl@),
{
    if decl.shape != Shape::Struct {
        let e = vec![Diagnostic { kind: DiagnosticKind::WrongShape, anchor: Anchor::Declaration }];
        assert(e@ =~= seq![wrong_shape()]);
        return Err(e);
    }
    match check_fields(&decl.fields) {
        Err(e) => Err(e),
        Ok(classes) => Ok(code_gen(&decl.fields, &classes)),
    }
}

} // verus!
