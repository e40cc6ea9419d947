use vstd::prelude::*;
use proc_macro2::{Span, TokenStream};
use syn::{DeriveInput, Field};
use crate::model::{Anchor, Diagnostic, FieldDescriptor, Shape, StructureDescriptor};
use crate::render::expand;

verus! {

#[verifier::external_type_specification]
#[verifier::external_body]
pub struct ExTokenStream(proc_macro2::TokenStream);

#[verifier::external_type_specification]
#[verifier::external_body]
pub struct ExSpan(proc_macro2::Span);

#[verifier::external_type_specification]
#[verifier::external_body]
pub struct ExDeriveInput(syn::DeriveInput);

#[verifier::external_type_specification]
#[verifier::external_body]
pub struct ExField(syn::Field);

#[verifier::external_type_specification]
#[verifier::external_body]
pub struct ExError(syn::Error);

/// Relies on `syn::parse2`: parses the tokens of an item as a derive input.
#[verifier::external_body]
fn parse_declaration(item: TokenStream) -> (r: Result<DeriveInput, syn::Error>) {
    syn::parse2::<DeriveInput>(item)
}

/// Relies on `syn::parse_str`: reads source text as a token stream.
#[verifier::external_body]
fn parse_block(text: &String) -> (r: Result<TokenStream, syn::Error>) {
    syn::parse_str::<TokenStream>(text.as_str())
}

/// Relies on `proc_macro2::Ident`'s `to_string`: the declared name as text.
#[verifier::external_body]
fn declaration_name(d: &DeriveInput) -> (r: String) {
    d.ident.to_string()
}

/// Relies on the variants of `syn::Data`: which kind of item was declared.
#[verifier::external_body]
fn declaration_shape(d: &DeriveInput) -> (r: Shape) {
    match &d.data {
        syn::Data::Struct(_) => Shape::Struct,
        syn::Data::Enum(_) => Shape::Enum,
        syn::Data::Union(_) => Shape::Union,
    }
}

/// Relies on `syn::Fields::iter`: the fields of a structure, in declaration
/// order; none for another kind of item.
#[verifier::external_body]
fn declaration_fields(d: &DeriveInput) -> (r: Vec<Field>) {
    match &d.data {
        syn::Data::Struct(s) => s.fields.iter().cloned().collect(),
        _ => Vec::new(),
    }
}

/// Relies on `proc_macro2::Ident`'s `to_string`: the field's name as text, if
/// it has one.
#[verifier::external_body]
fn field_name(f: &Field) -> (r: Option<String>) {
    f.ident.as_ref().map(|i| i.to_string())
}

/// Relies on `quote::ToTokens::to_token_stream`: the field's type as text.
#[verifier::external_body]
fn field_type_text(f: &Field) -> (r: String) {
    quote::ToTokens::to_token_stream(&f.ty).to_string()
}

/// Relies on `syn::Path::get_ident`: for each attribute of the field, in
/// order, its path as text where the path is a single identifier.
#[verifier::external_body]
fn attribute_names(f: &Field) -> (r: Vec<Option<String>>) {
    f.attrs.iter().map(|a| a.path().get_ident().map(|i| i.to_string())).collect()
}

/// Relies on `proc_macro2::Ident::span`: where the declared name stands.
#[verifier::external_body]
fn name_span(d: &DeriveInput) -> (r: Span) {
    d.ident.span()
}

/// Relies on `syn::spanned::Spanned::span`: where the field stands.
#[verifier::external_body]
fn field_span(f: &Field) -> (r: Span) {
    syn::spanned::Spanned::span(f)
}

/// Relies on `syn::Error::new`: an error with one message at `span`.
#[verifier::external_body]
fn spanned_error(span: Span, message: &String) -> (r: syn::Error) {
    syn::Error::new(span, message)
}

/// Relies on `syn::Error::combine`: adds the messages of `other` to `e`.
#[verifier::external_body]
fn combine_errors(e: &mut syn::Error, other: syn::Error) {
    e.combine(other)
}

/// Relies on `syn::Error::into_compile_error`: one `compile_error!` per
/// message of `e`.
#[verifier::external_body]
fn compile_error_tokens(e: syn::Error) -> (r: TokenStream) {
    e.into_compile_error()
}

/// The names in `names` that are present, in order.
pub open spec fn present_names(names: Seq<Option<String>>) -> Seq<Seq<char>>
    decreases names.len(),
{
    if names.len() == 0 {
        seq![]
    } else {
        let rest = present_names(names.drop_last());
        match names.last() {
            Some(s) => rest.push(s@),
            None => rest,
        }
    }
}

/// Keeps the names that are present, in order.
pub fn marker_names(names: Vec<Option<String>>) -> (r: Vec<String>)
    ensures
        crate::model::strings_view(r@) == present_names(names@),
{
    let mut r: Vec<String> = Vec::new();
    let mut i: usize = 0;
    while i < names.len()
        invariant
            0 <= i <= names@.len(),
            crate::model::strings_view(r@) == present_names(names@.subrange(0, i as int)),
        decreases names@.len() - i,
    {
        assert(names@.subrange(0, i + 1).drop_last() =~= names@.subrange(0, i as int));
        match &names[i] {
            Some(s) => {
                r.push(s.clone());
            },
            None => {},
        }
        assert(crate::model::strings_view(r@) =~= present_names(names@.subrange(0, i + 1)));
        i = i + 1;
    }
    assert(names@.subrange(0, names@.len() as int) =~= names@);
    r
}

/// Describes one field by its name, the text of its type and the names of
/// its attributes.
pub fn describe_field(f: &Field) -> (r: FieldDescriptor) {
    FieldDescriptor {
        name: field_name(f),
        ty: field_type_text(f),
        markers: marker_names(attribute_names(f)),
    }
}

/// Describes a declaration whose fields are `fields`, one descriptor for each
/// field, in order.
pub fn describe(input: &DeriveInput, fields: &Vec<Field>) -> (r: StructureDescriptor)
    ensures
        r.fields@.len() == fields@.len(),
{
    let mut described: Vec<FieldDescriptor> = Vec::new();
    let mut i: usize = 0;
    while i < fields.len()
        invariant
            0 <= i <= fields@.len(),
            described@.len() == i,
        decreases fields@.len() - i,
    {
        described.push(describe_field(&fields[i]));
        i = i + 1;
    }
    StructureDescriptor {
        name: declaration_name(input),
        shape: declaration_shape(input),
        fields: described,
    }
}

/// Where a diagnostic is reported: the declared name, or the field it names.
fn anchor_span(input: &DeriveInput, fields: &Vec<Field>, anchor: Anchor) -> (r: Span) {
    match anchor {
        Anchor::Field(i) => {
            if i < fields.len() {
                field_span(&fields[i])
            } else {
                name_span(input)
            }
        },
        Anchor::Declaration => name_span(input),
    }
}

/// One `compile_error!` for each diagnostic, in order, each at its place.
pub fn report(input: &DeriveInput, fields: &Vec<Field>, diags: &Vec<Diagnostic>) -> (r: TokenStream)
    requires
        diags@.len() > 0,
{
    let mut err = spanned_error(anchor_span(input, fields, diags[0].anchor), &diags[0].message());
    let mut i: usize = 1;
    while i < diags.len()
        invariant
            1 <= i <= diags@.len(),
        decreases diags@.len() - i,
    {
        let next = spanned_error(anchor_span(input, fields, diags[i].anchor), &diags[i].message());
        combine_errors(&mut err, next);
        i = i + 1;
    }
    compile_error_tokens(err)
}

/// Expands a declaration marked for accessor generation: the `impl` block of
/// its accessors, or a `compile_error!` for each diagnostic that stops it.
pub fn derive(item: TokenStream) -> (r: TokenStream) {
    let input = match parse_declaration(item) {
        Ok(d) => d,
        Err(e) => {
            return compile_error_tokens(e);
        },
    };
    let fields = declaration_fields(&input);
    let decl = describe(&input, &fields);
    match expand(&decl) {
        Ok(text) => match parse_block(&text) {
            Ok(block) => block,
            Err(e) => compile_error_tokens(e),
        },
        Err(diags) => report(&input, &fields, &diags),
    }
}

} // verus!
