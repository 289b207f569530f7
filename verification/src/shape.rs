//! The shape analyzer: the declaration model and its classification into a
//! field-structure variant.

use vstd::prelude::*;
use crate::text::texts;

verus! {

/// A field that is addressed by name.
///
/// Every part is kept as source text: `attrs` holds one entry per outer
/// attribute in declaration order, `vis` is empty for an inherited
/// visibility.
#[derive(Debug, Clone, PartialEq, Eq)]
pub struct NamedField {
    pub attrs: Vec<String>,
    pub vis: String,
    pub ident: String,
    pub ty: String,
}

/// The mathematical content of a [`NamedField`].
pub struct NamedFieldView {
    pub attrs: Seq<Seq<char>>,
    pub vis: Seq<char>,
    pub ident: Seq<char>,
    pub ty: Seq<char>,
}

impl View for NamedField {
    type V = NamedFieldView;

    open spec fn view(&self) -> NamedFieldView {
        NamedFieldView {
            attrs: texts(self.attrs@),
            vis: self.vis@,
            ident: self.ident@,
            ty: self.ty@,
        }
    }
}

/// A field that is addressed by its position only.
#[derive(Debug, Clone, PartialEq, Eq)]
pub struct PositionalField {
    pub attrs: Vec<String>,
    pub vis: String,
    pub ty: String,
}

/// The mathematical content of a [`PositionalField`].
pub struct PositionalFieldView {
    pub attrs: Seq<Seq<char>>,
    pub vis: Seq<char>,
    pub ty: Seq<char>,
}

impl View for PositionalField {
    type V = PositionalFieldView;

    open spec fn view(&self) -> PositionalFieldView {
        PositionalFieldView { attrs: texts(self.attrs@), vis: self.vis@, ty: self.ty@ }
    }
}

/// The views of a list of named fields, in declaration order.
pub open spec fn named_views(fields: Seq<NamedField>) -> Seq<NamedFieldView> {
    fields.map_values(|f: NamedField| f@)
}

/// The views of a list of positional fields, in declaration order.
pub open spec fn positional_views(fields: Seq<PositionalField>) -> Seq<PositionalFieldView> {
    fields.map_values(|f: PositionalField| f@)
}

/// Appending a field appends its view.
pub proof fn lemma_named_views_push(fields: Seq<NamedField>, field: NamedField)
    ensures
        named_views(fields.push(field)) == named_views(fields).push(field@),
{
    assert(named_views(fields.push(field)) =~= named_views(fields).push(field@));
}

/// Appending a field appends its view.
pub proof fn lemma_positional_views_push(fields: Seq<PositionalField>, field: PositionalField)
    ensures
        positional_views(fields.push(field)) == positional_views(fields).push(field@),
{
    assert(positional_views(fields.push(field)) =~= positional_views(fields).push(field@));
}

/// The fields of a struct exactly as they were declared.
#[derive(Debug, Clone, PartialEq, Eq)]
pub enum DeclaredFields {
    /// `struct S { a: A, b: B }`
    Named(Vec<NamedField>),
    /// `struct S(A, B);`
    Unnamed(Vec<PositionalField>),
    /// `struct S;`
    Unit,
}

/// The mathematical content of [`DeclaredFields`].
pub enum DeclaredFieldsView {
    Named(Seq<NamedFieldView>),
    Unnamed(Seq<PositionalFieldView>),
    Unit,
}

impl View for DeclaredFields {
    type V = DeclaredFieldsView;

    open spec fn view(&self) -> DeclaredFieldsView {
        match self {
            DeclaredFields::Named(fields) => DeclaredFieldsView::Named(named_views(fields@)),
            DeclaredFields::Unnamed(fields) => DeclaredFieldsView::Unnamed(
                positional_views(fields@),
            ),
            DeclaredFields::Unit => DeclaredFieldsView::Unit,
        }
    }
}

/// A struct declaration, part by part, as source text.
///
/// `generics` is the parameter list with its angle brackets and
/// `where_clause` the clause with its keyword; either is empty when absent.
#[derive(Debug, Clone, PartialEq, Eq)]
pub struct StructDeclaration {
    pub attrs: Vec<String>,
    pub vis: String,
    pub ident: String,
    pub generics: String,
    pub where_clause: String,
    pub fields: DeclaredFields,
}

/// The mathematical content of a [`StructDeclaration`].
pub struct StructDeclarationView {
    pub attrs: Seq<Seq<char>>,
    pub vis: Seq<char>,
    pub ident: Seq<char>,
    pub generics: Seq<char>,
    pub where_clause: Seq<char>,
    pub fields: DeclaredFieldsView,
}

impl View for StructDeclaration {
    type V = StructDeclarationView;

    open spec fn view(&self) -> StructDeclarationView {
        StructDeclarationView {
            attrs: texts(self.attrs@),
            vis: self.vis@,
            ident: self.ident@,
            generics: self.generics@,
            where_clause: self.where_clause@,
            fields: self.fields@,
        }
    }
}

/// The user-written input of the generator: any item a model annotation can
/// be put on.
#[derive(Debug, Clone, PartialEq, Eq)]
pub enum TypeDeclaration {
    /// A struct, with whatever fields it declares.
    Struct(StructDeclaration),
    /// Any other kind of item (an enum, a function, ...).
    Other,
}

/// The mathematical content of a [`TypeDeclaration`].
pub enum TypeDeclarationView {
    Struct(StructDeclarationView),
    Other,
}

impl View for TypeDeclaration {
    type V = TypeDeclarationView;

    open spec fn view(&self) -> TypeDeclarationView {
        match self {
            TypeDeclaration::Struct(declared) => TypeDeclarationView::Struct(declared@),
            TypeDeclaration::Other => TypeDeclarationView::Other,
        }
    }
}

/// The field-structure variant of a supported declaration. Field order is
/// the declaration order.
#[derive(Debug, Clone, Copy, PartialEq, Eq)]
pub enum FieldList<'a> {
    /// Every field has an identifier and a type.
    Named(&'a Vec<NamedField>),
    /// Every field has only its ordinal position and a type.
    Positional(&'a Vec<PositionalField>),
}

/// The mathematical content of a [`FieldList`].
pub enum FieldListView {
    Named(Seq<NamedFieldView>),
    Positional(Seq<PositionalFieldView>),
}

impl<'a> View for FieldList<'a> {
    type V = FieldListView;

    open spec fn view(&self) -> FieldListView {
        match self {
            FieldList::Named(fields) => FieldListView::Named(named_views(fields@)),
            FieldList::Positional(fields) => FieldListView::Positional(positional_views(fields@)),
        }
    }
}

/// Why a declaration was rejected at build time.
#[derive(Debug, Clone, PartialEq, Eq)]
pub enum Diagnostic {
    /// The input is not an item at all; the text is the parser's message.
    Syntax(String),
    /// The item is not a struct.
    NotAStruct,
    /// The struct has neither named nor positional fields.
    UnsupportedFields,
}

/// The mathematical content of a [`Diagnostic`].
pub enum DiagnosticView {
    Syntax(Seq<char>),
    NotAStruct,
    UnsupportedFields,
}

impl View for Diagnostic {
    type V = DiagnosticView;

    open spec fn view(&self) -> DiagnosticView {
        match self {
            Diagnostic::Syntax(text) => DiagnosticView::Syntax(text@),
            Diagnostic::NotAStruct => DiagnosticView::NotAStruct,
            Diagnostic::UnsupportedFields => DiagnosticView::UnsupportedFields,
        }
    }
}

impl DiagnosticView {
    /// The message shown at the declaration site.
    pub open spec fn message(self) -> Seq<char> {
        match self {
            DiagnosticView::Syntax(text) => text,
            DiagnosticView::NotAStruct => "only structs are supported"@,
            DiagnosticView::UnsupportedFields => "only named or positional fields are supported"@,
        }
    }
}

impl Diagnostic {
    /// Returns the message shown at the declaration site.
    pub fn message(&self) -> (text: String)
        ensures
            text@ == self@.message(),
    {
        match self {
            Diagnostic::Syntax(text) => text.clone(),
            Diagnostic::NotAStruct => "only structs are supported".to_string(),
            Diagnostic::UnsupportedFields => "only named or positional fields are supported".to_string(),
        }
    }
}

/// The classification of the struct `declared`: named fields are `Named`,
/// positional fields are `Positional`, a unit struct is rejected.
pub open spec fn classify_struct(declared: StructDeclarationView) -> Result<
    FieldListView,
    DiagnosticView,
> {
    match declared.fields {
        DeclaredFieldsView::Named(fields) => Ok(FieldListView::Named(fields)),
        DeclaredFieldsView::Unnamed(fields) => Ok(FieldListView::Positional(fields)),
        DeclaredFieldsView::Unit => Err(DiagnosticView::UnsupportedFields),
    }
}

/// The classification of `declaration`: a struct is classified by its
/// fields, anything else is rejected.
pub open spec fn classify(declaration: TypeDeclarationView) -> Result<
    FieldListView,
    DiagnosticView,
> {
    match declaration {
        TypeDeclarationView::Struct(declared) => classify_struct(declared),
        TypeDeclarationView::Other => Err(DiagnosticView::NotAStruct),
    }
}

/// The view of an analysis result.
pub open spec fn analysis_view(result: Result<FieldList<'_>, Diagnostic>) -> Result<
    FieldListView,
    DiagnosticView,
> {
    match result {
        Ok(fields) => Ok(fields@),
        Err(diagnostic) => Err(diagnostic@),
    }
}

/// Classifies the fields of a struct. Pure: the declaration is only read,
/// and an unsupported shape is reported, never coerced.
pub fn analyze_struct<'a>(declared: &'a StructDeclaration) -> (result: Result<
    FieldList<'a>,
    Diagnostic,
>)
    ensures
        analysis_view(result) == classify_struct(declared@),
        match result {
            Ok(FieldList::Named(fields)) => declared.fields == DeclaredFields::Named(*fields),
            Ok(FieldList::Positional(fields)) => declared.fields == DeclaredFields::Unnamed(
                *fields,
            ),
            Err(_) => declared.fields is Unit,
        },
{
    match &declared.fields {
        DeclaredFields::Named(fields) => Ok(FieldList::Named(fields)),
        DeclaredFields::Unnamed(fields) => Ok(FieldList::Positional(fields)),
        DeclaredFields::Unit => Err(Diagnostic::UnsupportedFields),
    }
}

/// Classifies a declaration into its field-structure variant, or says why
/// it is not supported.
pub fn analyze<'a>(declaration: &'a TypeDeclaration) -> (result: Result<FieldList<'a>, Diagnostic>)
    ensures
        analysis_view(result) == classify(declaration@),
        result is Ok <==> (declaration matches TypeDeclaration::Struct(declared)
            && !(declared.fields is Unit)),
{
    match declaration {
        TypeDeclaration::Struct(declared) => analyze_struct(declared),
        TypeDeclaration::Other => Err(Diagnostic::NotAStruct),
    }
}

} // verus!
