use vstd::prelude::*;

verus! {

/// The marker that suppresses the mutable accessor of a field.
pub const NO_MUT: &'static str = "no_mut";

/// The marker that suppresses every accessor of a field.
pub const EXCLUDE: &'static str = "exclude";

/// What kind of item a declaration is.
#[derive(Clone, Copy, Debug, PartialEq, Eq, Structural)]
pub enum Shape {
    Struct,
    Enum,
    Union,
}

/// One declared member of a structure.
#[derive(Clone, Debug)]
pub struct FieldDescriptor {
    /// The field's name; `None` for a positional field.
    pub name: Option<String>,
    /// The text of the field's type, passed through unexamined.
    pub ty: String,
    /// The names of the field's attributes whose path is a single identifier.
    pub markers: Vec<String>,
}

/// A declaration that generation is asked to work on.
#[derive(Clone, Debug)]
pub struct StructureDescriptor {
    pub name: String,
    pub shape: Shape,
    pub fields: Vec<FieldDescriptor>,
}

pub struct FieldView {
    pub name: Option<Seq<char>>,
    pub ty: Seq<char>,
    pub markers: Seq<Seq<char>>,
}

pub struct StructureView {
    pub name: Seq<char>,
    pub shape: Shape,
    pub fields: Seq<FieldView>,
}

pub open spec fn opt_string_view(o: Option<String>) -> Option<Seq<char>> {
    match o {
        Some(s) => Some(s@),
        None => None,
    }
}

pub open spec fn strings_view(v: Seq<String>) -> Seq<Seq<char>> {
    v.map_values(|s: String| s@)
}

impl View for FieldDescriptor {
    type V = FieldView;

    open spec fn view(&self) -> FieldView {
        FieldView {
            name: opt_string_view(self.name),
            ty: self.ty@,
            markers: strings_view(self.markers@),
        }
    }
}

pub open spec fn fields_view(v: Seq<FieldDescriptor>) -> Seq<FieldView> {
    v.map_values(|f: FieldDescriptor| f@)
}

impl View for StructureDescriptor {
    type V = StructureView;

    open spec fn view(&self) -> StructureView {
        StructureView { name: self.name@, shape: self.shape, fields: fields_view(self.fields@) }
    }
}

/// Whether `m` is among the marker names `ms`.
pub open spec fn has_marker(ms: Seq<Seq<char>>, m: Seq<char>) -> bool {
    exists|i: int| 0 <= i < ms.len() && ms[i] == m
}

pub open spec fn is_no_mut(f: FieldView) -> bool {
    has_marker(f.markers, NO_MUT@)
}

pub open spec fn is_exclude(f: FieldView) -> bool {
    has_marker(f.markers, EXCLUDE@)
}

/// Which accessor a generated function is.
#[derive(Clone, Copy, Debug, PartialEq, Eq, Structural)]
pub enum AccessorKind {
    /// `fn name(&self) -> &T`
    ReadOnly,
    /// `fn name_mut(&mut self) -> &mut T`
    Mutable,
}

/// One generated accessor function.
#[derive(Clone, Debug)]
pub struct GeneratedAccessor {
    pub kind: AccessorKind,
    /// The index of the field that the accessor borrows.
    pub field: usize,
    pub function_name: String,
    /// The text of the field's type; the accessor returns a reference to it.
    pub return_type: String,
    /// What follows `self.` to reach the field: its name, or its position.
    pub member: String,
}

pub struct AccessorView {
    pub kind: AccessorKind,
    pub field: nat,
    pub function_name: Seq<char>,
    pub return_type: Seq<char>,
    pub member: Seq<char>,
}

impl View for GeneratedAccessor {
    type V = AccessorView;

    open spec fn view(&self) -> AccessorView {
        AccessorView {
            kind: self.kind,
            field: self.field as nat,
            function_name: self.function_name@,
            return_type: self.return_type@,
            member: self.member@,
        }
    }
}

pub open spec fn accessors_view(v: Seq<GeneratedAccessor>) -> Seq<AccessorView> {
    v.map_values(|a: GeneratedAccessor| a@)
}

/// The kinds of error that stop generation.
#[derive(Clone, Copy, Debug, PartialEq, Eq, Structural)]
pub enum DiagnosticKind {
    /// The declaration is not a structure.
    WrongShape,
    /// A field carries both `no_mut` and `exclude`.
    ConflictingAnnotations,
    /// A positional field carries `no_mut` or `exclude`.
    UnsupportedPositionalUsage,
}

/// Where a diagnostic is reported.
#[derive(Clone, Copy, Debug, PartialEq, Eq, Structural)]
pub enum Anchor {
    /// The declared name.
    Declaration,
    /// The field at this index.
    Field(usize),
}

/// A compile-time error of generation.
#[derive(Clone, Copy, Debug, PartialEq, Eq, Structural)]
pub struct Diagnostic {
    pub kind: DiagnosticKind,
    pub anchor: Anchor,
}

pub open spec fn message_of(k: DiagnosticKind) -> Seq<char> {
    match k {
        DiagnosticKind::WrongShape => "AutoGet only works on structs"@,
        DiagnosticKind::ConflictingAnnotations => "Can't use 2 attributes at the same time!"@,
        DiagnosticKind::UnsupportedPositionalUsage => "Can't use AutoGet on tuple structs!"@,
    }
}

impl Diagnostic {
    /// The message that the compiler shows for this diagnostic.
    pub fn message(&self) -> (r: String)
        ensures
            r@ == message_of(self.kind),
    {
        match self.kind {
            DiagnosticKind::WrongShape => String::from_str("AutoGet only works on structs"),
            DiagnosticKind::ConflictingAnnotations => String::from_str(
                "Can't use 2 attributes at the same time!",
            ),
            DiagnosticKind::UnsupportedPositionalUsage => String::from_str(
                "Can't use AutoGet on tuple structs!",
            ),
        }
    }
}

/// Whether the marker name `m` is among `markers`.
pub fn carries_marker(markers: &Vec<String>, m: &str) -> (r: bool)
    ensures
        r == has_marker(strings_view(markers@), m@),
{
    let target = String::from_str(m);
    let mut i: usize = 0;
    while i < markers.len()
        invariant
            0 <= i <= markers@.len(),
            target@ == m@,
            forall|j: int| 0 <= j < i ==> markers@[j]@ != m@,
        decreases markers@.len() - i,
    {
        if markers[i] == target {
            assert(strings_view(markers@)[i as int] == m@);
            return true;
        }
        i = i + 1;
    }
    false
}

} // verus!
