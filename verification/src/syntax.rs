//! Reading a declaration out of source text. The Rust grammar is left to
//! `syn`; this module only carries what the parser found into the plain
//! declaration model.

use vstd::prelude::*;
use quote::ToTokens;
use crate::shape::{
    lemma_named_views_push, lemma_positional_views_push, named_views, positional_views,
    DeclaredFields, DeclaredFieldsView, Diagnostic, NamedField, NamedFieldView,
    PositionalField, PositionalFieldView, StructDeclaration, TypeDeclaration, TypeDeclarationView,
};
use crate::text::texts;

verus! {

/// `syn::Item`, a parsed item. Opaque here: it is only read through the
/// trusted functions below, whose contracts are believed, not proved.
#[verifier::external_type_specification]
#[verifier::external_body]
pub struct ExItem(syn::Item);

/// `syn::Error`, the parser's error. Opaque here.
#[verifier::external_type_specification]
#[verifier::external_body]
pub struct ExSyntaxError(syn::Error);

/// What a parsed item declares, as the functions of this module read it.
/// Anything but a `syn::Item::Struct` is `Other`. Of a struct it holds the
/// outer attributes, the visibility, the identifier, the generic parameter
/// list and the where clause, and of each field its attributes, visibility,
/// identifier and type: every part as the text that
/// `quote::ToTokens::to_token_stream` prints for it in this process, which
/// is empty where the part is absent.
pub uninterp spec fn item_declaration(item: syn::Item) -> TypeDeclarationView;

/// The message that a `syn::Error` displays.
pub uninterp spec fn error_message(error: syn::Error) -> Seq<char>;

/// What kind of item was parsed and, for a struct, how many fields of which
/// kind it declares.
enum ItemShape {
    NotAStruct,
    Named(usize),
    Unnamed(usize),
    Unit,
}

/// The parts of a struct declaration in front of its fields.
struct StructHeader {
    attrs: Vec<String>,
    vis: String,
    ident: String,
    generics: String,
    where_clause: String,
}

spec fn shape_agrees(shape: ItemShape, declaration: TypeDeclarationView) -> bool {
    match declaration {
        TypeDeclarationView::Other => shape is NotAStruct,
        TypeDeclarationView::Struct(declared) => match declared.fields {
            DeclaredFieldsView::Named(fields) => shape == ItemShape::Named(fields.len() as usize)
                && fields.len() <= usize::MAX,
            DeclaredFieldsView::Unnamed(fields) => shape == ItemShape::Unnamed(
                fields.len() as usize,
            ) && fields.len() <= usize::MAX,
            DeclaredFieldsView::Unit => shape is Unit,
        },
    }
}

/// The named field at `index` of `declaration`, if it is a struct that has
/// one.
spec fn named_field_of(declaration: TypeDeclarationView, index: int) -> Option<NamedFieldView> {
    match declaration {
        TypeDeclarationView::Struct(declared) => match declared.fields {
            DeclaredFieldsView::Named(fields) => if 0 <= index < fields.len() {
                Some(fields[index])
            } else {
                None
            },
            _ => None,
        },
        TypeDeclarationView::Other => None,
    }
}

/// The positional field at `index` of `declaration`, if it is a struct that
/// has one.
spec fn positional_field_of(declaration: TypeDeclarationView, index: int) -> Option<
    PositionalFieldView,
> {
    match declaration {
        TypeDeclarationView::Struct(declared) => match declared.fields {
            DeclaredFieldsView::Unnamed(fields) => if 0 <= index < fields.len() {
                Some(fields[index])
            } else {
                None
            },
            _ => None,
        },
        TypeDeclarationView::Other => None,
    }
}

spec fn named_field_view(field: Option<NamedField>) -> Option<NamedFieldView> {
    match field {
        Some(found) => Some(found@),
        None => None,
    }
}

spec fn positional_field_view(field: Option<PositionalField>) -> Option<PositionalFieldView> {
    match field {
        Some(found) => Some(found@),
        None => None,
    }
}

/// Calls `syn::parse_str::<syn::Item>`, which parses `source` as one Rust
/// item. Nothing is claimed of the outcome: which lexer reads the text, and
/// how the parts of the item are printed afterwards, depends on the process
/// the call is made in.
#[verifier::external_body]
fn parse_item(source: &str) -> (result: Result<syn::Item, syn::Error>) {
    syn::parse_str::<syn::Item>(source)
}

/// Calls `to_string` on a `syn::Error`, which displays its message.
/// Believed: the text is that message.
#[verifier::external_body]
fn syntax_message(error: &syn::Error) -> (text: String)
    ensures
        text@ == error_message(*error),
{
    error.to_string()
}

/// Tells the variants of `syn::Item` and `syn::Fields` apart and counts the
/// fields with `syn::punctuated::Punctuated::len`. Believed: the item is a
/// struct exactly when it declares one, and kind and number of its fields
/// are those of the declaration.
#[verifier::external_body]
fn item_shape(item: &syn::Item) -> (shape: ItemShape)
    ensures
        shape_agrees(shape, item_declaration(*item)),
{
    match item {
        syn::Item::Struct(declared) => match &declared.fields {
            syn::Fields::Named(fields) => ItemShape::Named(fields.named.len()),
            syn::Fields::Unnamed(fields) => ItemShape::Unnamed(fields.unnamed.len()),
            syn::Fields::Unit => ItemShape::Unit,
        },
        _ => ItemShape::NotAStruct,
    }
}

/// Reads the fields `attrs`, `vis`, `ident` and `generics` of a
/// `syn::ItemStruct` and prints each with
/// `quote::ToTokens::to_token_stream`. Believed: for a struct these are the
/// parts of its declaration. For an item that is no struct nothing is
/// claimed.
#[verifier::external_body]
fn struct_header(item: &syn::Item) -> (header: StructHeader)
    ensures
        item_declaration(*item) matches TypeDeclarationView::Struct(declared) ==> {
            &&& texts(header.attrs@) == declared.attrs
            &&& header.vis@ == declared.vis
            &&& header.ident@ == declared.ident
            &&& header.generics@ == declared.generics
            &&& header.where_clause@ == declared.where_clause
        },
{
    let mut header = StructHeader { attrs: Vec::new(), vis: String::new(), ident: String::new(), generics: String::new(), where_clause: String::new() };
    if let syn::Item::Struct(declared) = item {
        header.attrs = declared.attrs.iter().map(|a| a.to_token_stream().to_string()).collect();
        header.vis = declared.vis.to_token_stream().to_string();
        header.ident = declared.ident.to_string();
        header.generics = declared.generics.to_token_stream().to_string();
        header.where_clause = declared.generics.where_clause.to_token_stream().to_string();
    }
    header
}

/// Reads the `syn::Field` at `index` of a `syn::FieldsNamed` and prints its
/// parts with `quote::ToTokens::to_token_stream`. Believed: the result is
/// the named field that the declaration has at `index`, and there is none
/// exactly where the declaration has none.
#[verifier::external_body]
fn named_field_at(item: &syn::Item, index: usize) -> (field: Option<NamedField>)
    ensures
        named_field_view(field) == named_field_of(item_declaration(*item), index as int),
{
    let syn::Item::Struct(declared) = item else { return None };
    let syn::Fields::Named(fields) = &declared.fields else { return None };
    let field = fields.named.iter().nth(index)?;
    Some(NamedField {
        attrs: field.attrs.iter().map(|a| a.to_token_stream().to_string()).collect(),
        vis: field.vis.to_token_stream().to_string(),
        ident: field.ident.to_token_stream().to_string(),
        ty: field.ty.to_token_stream().to_string(),
    })
}

/// Reads the `syn::Field` at `index` of a `syn::FieldsUnnamed` and prints
/// its parts with `quote::ToTokens::to_token_stream`. Believed: the result
/// is the positional field that the declaration has at `index`, and there
/// is none exactly where the declaration has none.
#[verifier::external_body]
fn positional_field_at(item: &syn::Item, index: usize) -> (field: Option<PositionalField>)
    ensures
        positional_field_view(field) == positional_field_of(
            item_declaration(*item),
            index as int,
        ),
{
    let syn::Item::Struct(declared) = item else { return None };
    let syn::Fields::Unnamed(fields) = &declared.fields else { return None };
    let field = fields.unnamed.iter().nth(index)?;
    Some(PositionalField {
        attrs: field.attrs.iter().map(|a| a.to_token_stream().to_string()).collect(),
        vis: field.vis.to_token_stream().to_string(),
        ty: field.ty.to_token_stream().to_string(),
    })
}

fn read_named_fields(item: &syn::Item, count: usize) -> (fields: Vec<NamedField>)
    requires
        item_declaration(*item) matches TypeDeclarationView::Struct(declared)
            && declared.fields matches DeclaredFieldsView::Named(found) && found.len() == count,
    ensures
        item_declaration(*item) matches TypeDeclarationView::Struct(declared)
            && declared.fields == DeclaredFieldsView::Named(named_views(fields@)),
{
    let ghost found = item_declaration(*item)->Struct_0.fields->Named_0;
    let mut fields: Vec<NamedField> = Vec::new();
    let mut index: usize = 0;
    while index < count
        invariant
            index <= count,
            item_declaration(*item) matches TypeDeclarationView::Struct(declared)
                && declared.fields == DeclaredFieldsView::Named(found),
            found.len() == count,
            named_views(fields@) == found.take(index as int),
        decreases count - index,
    {
        match named_field_at(item, index) {
            Some(field) => {
                proof {
                    lemma_named_views_push(fields@, field);
                    assert(found.take(index + 1) == found.take(index as int).push(
                        found[index as int],
                    ));
                }
                fields.push(field);
            },
            None => {},
        }
        index += 1;
    }
    assert(found.take(count as int) == found);
    fields
}

fn read_positional_fields(item: &syn::Item, count: usize) -> (fields: Vec<PositionalField>)
    requires
        item_declaration(*item) matches TypeDeclarationView::Struct(declared)
            && declared.fields matches DeclaredFieldsView::Unnamed(found) && found.len() == count,
    ensures
        item_declaration(*item) matches TypeDeclarationView::Struct(declared)
            && declared.fields == DeclaredFieldsView::Unnamed(positional_views(fields@)),
{
    let ghost found = item_declaration(*item)->Struct_0.fields->Unnamed_0;
    let mut fields: Vec<PositionalField> = Vec::new();
    let mut index: usize = 0;
    while index < count
        invariant
            index <= count,
            item_declaration(*item) matches TypeDeclarationView::Struct(declared)
                && declared.fields == DeclaredFieldsView::Unnamed(found),
            found.len() == count,
            positional_views(fields@) == found.take(index as int),
        decreases count - index,
    {
        match positional_field_at(item, index) {
            Some(field) => {
                proof {
                    lemma_positional_views_push(fields@, field);
                    assert(found.take(index + 1) == found.take(index as int).push(
                        found[index as int],
                    ));
                }
                fields.push(field);
            },
            None => {},
        }
        index += 1;
    }
    assert(found.take(count as int) == found);
    fields
}

fn read_declaration(item: &syn::Item) -> (declaration: TypeDeclaration)
    ensures
        declaration@ == item_declaration(*item),
{
    let fields = match item_shape(item) {
        ItemShape::NotAStruct => {
            return TypeDeclaration::Other;
        },
        ItemShape::Named(count) => DeclaredFields::Named(read_named_fields(item, count)),
        ItemShape::Unnamed(count) => DeclaredFields::Unnamed(read_positional_fields(item, count)),
        ItemShape::Unit => DeclaredFields::Unit,
    };
    let header = struct_header(item);
    TypeDeclaration::Struct(
        StructDeclaration {
            attrs: header.attrs,
            vis: header.vis,
            ident: header.ident,
            generics: header.generics,
            where_clause: header.where_clause,
            fields,
        },
    )
}

/// Parses `source` as one item and reads its declaration. Text that is not
/// an item gives the parser's message as a syntax diagnostic; no other
/// diagnostic comes from here. What is read from a given text is the
/// parser's matter and can differ between a compiler's macro expansion and
/// any other process, so it is not stated.
pub fn parse_declaration(source: &str) -> (result: Result<TypeDeclaration, Diagnostic>)
    ensures
        result matches Err(diagnostic) ==> diagnostic is Syntax,
{
    match parse_item(source) {
        Ok(item) => Ok(read_declaration(&item)),
        Err(error) => Err(Diagnostic::Syntax(syntax_message(&error))),
    }
}

} // verus!
