//! The model emitter: from a classified declaration to the source text of
//! the augmented type and its supporting trait implementation.

use vstd::prelude::*;
use vstd::string::*;
use crate::shape::{
    analyze_struct, classify, classify_struct, named_views, positional_views, Diagnostic, DiagnosticView, FieldList, FieldListView, NamedField, NamedFieldView,
    PositionalField, PositionalFieldView, StructDeclaration, StructDeclarationView,
    TypeDeclaration, TypeDeclarationView,
};
use crate::syntax::parse_declaration;
use crate::text::{
    decimal, decimal_text, each_followed, followed, followed_text, join, join_each, joined,
    lemma_decimal_is_injective, lemma_joined_push, lemma_texts_push, preceded, preceded_text,
    texts,
};

verus! {

/// Attributes put in front of every emitted struct.
pub const MODEL_ATTRIBUTES: &'static str =
    "#[pyo3::pyclass]\n#[derive(Debug, PartialEq, Clone, Serialize, Deserialize, schemars::JsonSchema)]\n";

/// The attribute that makes a named field readable and writable across the
/// embedding boundary.
pub const FIELD_EXPOSURE: &'static str = "#[pyo3(get, set)]";

/// Opens the method block, up to the model's identifier.
pub const METHODS_OPEN: &'static str = "\n#[pyo3::pymethods]\nimpl ";

/// From the identifier to the constructor's argument list.
pub const CONSTRUCTOR_OPEN: &'static str = " {\n    #[new]\n    fn new(";

/// From the argument list to the constructed value.
pub const CONSTRUCTOR_BODY: &'static str = ") -> Self {\n        return ";

/// Comparison, dictionary and JSON methods, up to the identifier inside
/// `schema`.
pub const METHODS_COMPARE_TO_SCHEMA: &'static str =
    ";\n    }\n\n    fn __richcmp__(&self, other: &Self, op: pyo3::basic::CompareOp) -> pyo3::PyResult<bool> {\n        match op {\n            pyo3::basic::CompareOp::Eq => Ok(self == other),\n            pyo3::basic::CompareOp::Ne => Ok(self != other),\n            _ => Err(ordantic::OrdanticError::new_err(\"not implemented\")),\n        }\n    }\n\n    fn dict(&self, py: pyo3::Python<'_>) -> pyo3::PyResult<pyo3::PyObject> {\n        self.to_model_dict(py)\n    }\n\n    fn json(&self) -> pyo3::PyResult<String> {\n        let json_str = serde_json::to_string(&self)\n            .map_err(|_| ordantic::OrdanticError::new_err(\"failed to serialize\"))?;\n        Ok(json_str)\n    }\n\n    #[classmethod]\n    fn parse_raw(_cls: &pyo3::types::PyType, string: &str) -> pyo3::PyResult<Self> {\n        let self_ = serde_json::from_str(string)\n            .map_err(|_| ordantic::OrdanticError::new_err(\"failed to deserialize\"))?;\n        Ok(self_)\n    }\n\n    #[classmethod]\n    fn schema<'py>(_cls: &'py pyo3::types::PyType, py: pyo3::Python<'py>) -> pyo3::PyResult<&'py pyo3::types::PyDict> {\n        let schema = schemars::schema_for!(";

/// The rest of `schema`, up to the identifier inside `schema_json`.
pub const METHODS_SCHEMA_TO_SCHEMA_JSON: &'static str =
    ");\n        let dict = pyo3::types::PyDict::new(py);\n        if let Some(meta_schema) = schema.meta_schema {\n            dict.set_item(\"$schema\", meta_schema)?;\n        }\n        dict.set_item(\"title\", \"ExampleModel\")?;\n        dict.set_item(\"type\", \"object\")?;\n        Ok(dict)\n    }\n\n    #[classmethod]\n    fn schema_json(_cls: &pyo3::types::PyType) -> pyo3::PyResult<String> {\n        let schema = schemars::schema_for!(";

/// The rest of `schema_json`, the validator hook and the end of the block.
pub const METHODS_CLOSE: &'static str =
    ");\n        let json_str = serde_json::to_string(&schema)\n            .map_err(|_| ordantic::OrdanticError::new_err(\"failed to serialize\"))?;\n        Ok(json_str)\n    }\n\n    #[classmethod]\n    fn __get_validators__(_cls: &pyo3::types::PyType) -> pyo3::PyResult<ordantic::ValidatorIterator> {\n        let schema_validators = Vec::new();\n        Ok(ordantic::ValidatorIterator::new(schema_validators))\n    }\n}\n";

/// Opens the conversion impl, up to the model's identifier.
pub const CONVERSION_OPEN: &'static str = "\nimpl ordantic::ToModelDict for ";

/// From the identifier to the body of `to_model_dict`.
pub const CONVERSION_SIGNATURE: &'static str =
    " {\n    fn to_model_dict<'py>(&self, py: pyo3::Python<'py>) -> pyo3::PyResult<pyo3::PyObject> {\n";

/// Starts the mapping that a named model converts to.
pub const MAPPING_OPEN: &'static str = "        let dict = pyo3::types::PyDict::new(py);\n";

/// Returns the mapping and ends the conversion impl.
pub const MAPPING_CLOSE: &'static str = "        Ok(dict.into())\n    }\n}\n";

/// Starts the ordered sequence that a positional model converts to.
pub const SEQUENCE_OPEN: &'static str = "        let tuple = pyo3::types::PyTuple::new(py, vec![";

/// Returns the sequence and ends the conversion impl.
pub const SEQUENCE_CLOSE: &'static str = "]);\n        Ok(tuple.into())\n    }\n}\n";

/// Everything of a struct declaration in front of its fields.
pub open spec fn struct_head(declared: StructDeclarationView) -> Seq<char> {
    each_followed(declared.attrs, "\n"@) + followed(declared.vis, " "@) + "struct "@
        + declared.ident + declared.generics
}

/// One line of an emitted named struct: the field as declared, with the
/// exposure attribute after its own attributes.
pub open spec fn named_field_line(field: NamedFieldView) -> Seq<char> {
    "    "@ + each_followed(field.attrs.push(FIELD_EXPOSURE@), " "@) + followed(field.vis, " "@)
        + field.ident + ": "@ + field.ty + ","@
}

/// The field lines of an emitted named struct, in declaration order.
pub open spec fn named_field_lines(fields: Seq<NamedFieldView>) -> Seq<Seq<char>> {
    Seq::new(fields.len(), |i: int| named_field_line(fields[i]))
}

/// The emitted struct of a named model: the declaration with every field
/// exposed.
pub open spec fn named_struct_text(
    declared: StructDeclarationView,
    fields: Seq<NamedFieldView>,
) -> Seq<char> {
    struct_head(declared) + preceded(" "@, declared.where_clause) + " {\n"@ + each_followed(
        named_field_lines(fields),
        "\n"@,
    ) + "}\n"@
}

/// A positional field as declared.
pub open spec fn positional_field_text(field: PositionalFieldView) -> Seq<char> {
    each_followed(field.attrs, " "@) + followed(field.vis, " "@) + field.ty
}

/// The fields of an emitted tuple struct, in declaration order.
pub open spec fn positional_field_texts(fields: Seq<PositionalFieldView>) -> Seq<Seq<char>> {
    Seq::new(fields.len(), |i: int| positional_field_text(fields[i]))
}

/// The emitted struct of a positional model: the declaration unchanged.
pub open spec fn tuple_struct_text(
    declared: StructDeclarationView,
    fields: Seq<PositionalFieldView>,
) -> Seq<char> {
    struct_head(declared) + "("@ + joined(positional_field_texts(fields), ", "@) + ")"@
        + preceded(" "@, declared.where_clause) + ";\n"@
}

/// The constructor argument for a named field: the field's own name and
/// type.
pub open spec fn named_arg(field: NamedFieldView) -> Seq<char> {
    field.ident + ": "@ + field.ty
}

/// The constructor arguments of a named model, one per field in declaration
/// order.
pub open spec fn named_args(fields: Seq<NamedFieldView>) -> Seq<Seq<char>> {
    Seq::new(fields.len(), |i: int| named_arg(fields[i]))
}

/// The values a named model is constructed from: the argument names.
pub open spec fn named_values(fields: Seq<NamedFieldView>) -> Seq<Seq<char>> {
    Seq::new(fields.len(), |i: int| fields[i].ident)
}

/// The statement that enters a named field into the mapping: the key is the
/// field's name, the value the field's own conversion.
pub open spec fn mapping_entry(field: NamedFieldView) -> Seq<char> {
    "        dict.set_item(\""@ + field.ident + "\", self."@ + field.ident
        + ".to_model_dict(py)?)?;"@
}

/// The mapping entries of a named model, in declaration order.
pub open spec fn mapping_entries(fields: Seq<NamedFieldView>) -> Seq<Seq<char>> {
    Seq::new(fields.len(), |i: int| mapping_entry(fields[i]))
}

/// The synthesized name of the constructor argument at `position`.
pub open spec fn positional_name(position: nat) -> Seq<char> {
    "val_"@ + decimal(position)
}

/// The constructor argument for the positional field at `position`.
pub open spec fn positional_arg(position: nat, field: PositionalFieldView) -> Seq<char> {
    positional_name(position) + ": "@ + field.ty
}

/// The constructor arguments of a positional model, one per field in
/// declaration order.
pub open spec fn positional_args(fields: Seq<PositionalFieldView>) -> Seq<Seq<char>> {
    Seq::new(fields.len(), |i: int| positional_arg(i as nat, fields[i]))
}

/// The values a positional model is constructed from: the argument names.
pub open spec fn positional_values(count: nat) -> Seq<Seq<char>> {
    Seq::new(count, |i: int| positional_name(i as nat))
}

/// The conversion of the field at `position` of a positional model.
pub open spec fn sequence_item(position: nat) -> Seq<char> {
    "self."@ + decimal(position) + ".to_model_dict(py)?"@
}

/// The items of the sequence a positional model converts to, in position
/// order.
pub open spec fn sequence_items(count: nat) -> Seq<Seq<char>> {
    Seq::new(count, |i: int| sequence_item(i as nat))
}

/// The method block of a model named `ident` whose constructor takes `args`
/// and returns `construction`.
pub open spec fn methods_text(ident: Seq<char>, args: Seq<char>, construction: Seq<char>) -> Seq<
    char,
> {
    METHODS_OPEN@ + ident + CONSTRUCTOR_OPEN@ + args + CONSTRUCTOR_BODY@ + construction
        + METHODS_COMPARE_TO_SCHEMA@ + ident + METHODS_SCHEMA_TO_SCHEMA_JSON@ + ident
        + METHODS_CLOSE@
}

/// The value a named model's constructor returns.
pub open spec fn named_construction(fields: Seq<NamedFieldView>) -> Seq<char> {
    "Self { "@ + joined(named_values(fields), ", "@) + " }"@
}

/// The value a positional model's constructor returns.
pub open spec fn positional_construction(count: nat) -> Seq<char> {
    "Self("@ + joined(positional_values(count), ", "@) + ")"@
}

/// The conversion impl of a named model: a mapping keyed by field name.
pub open spec fn named_conversion_text(ident: Seq<char>, fields: Seq<NamedFieldView>) -> Seq<
    char,
> {
    CONVERSION_OPEN@ + ident + CONVERSION_SIGNATURE@ + MAPPING_OPEN@ + each_followed(
        mapping_entries(fields),
        "\n"@,
    ) + MAPPING_CLOSE@
}

/// The conversion impl of a positional model: an ordered sequence without
/// keys.
pub open spec fn positional_conversion_text(ident: Seq<char>, count: nat) -> Seq<char> {
    CONVERSION_OPEN@ + ident + CONVERSION_SIGNATURE@ + SEQUENCE_OPEN@ + joined(
        sequence_items(count),
        ", "@,
    ) + SEQUENCE_CLOSE@
}

/// The complete source emitted for a named model.
pub open spec fn named_model_source(
    declared: StructDeclarationView,
    fields: Seq<NamedFieldView>,
) -> Seq<char> {
    MODEL_ATTRIBUTES@ + named_struct_text(declared, fields) + methods_text(
        declared.ident,
        joined(named_args(fields), ", "@),
        named_construction(fields),
    ) + named_conversion_text(declared.ident, fields)
}

/// The complete source emitted for a positional model.
pub open spec fn positional_model_source(
    declared: StructDeclarationView,
    fields: Seq<PositionalFieldView>,
) -> Seq<char> {
    MODEL_ATTRIBUTES@ + tuple_struct_text(declared, fields) + methods_text(
        declared.ident,
        joined(positional_args(fields), ", "@),
        positional_construction(fields.len()),
    ) + positional_conversion_text(declared.ident, fields.len())
}

/// Field order is preserved: the constructor arguments, the constructed
/// values and the entries of the conversion each come one per field, and
/// the one at `position` is made from the field declared at `position`.
pub proof fn lemma_field_order_is_preserved(
    named: Seq<NamedFieldView>,
    positional: Seq<PositionalFieldView>,
    position: int,
)
    ensures
        named_args(named).len() == named.len(),
        named_values(named).len() == named.len(),
        mapping_entries(named).len() == named.len(),
        named_field_lines(named).len() == named.len(),
        positional_args(positional).len() == positional.len(),
        positional_values(positional.len()).len() == positional.len(),
        sequence_items(positional.len()).len() == positional.len(),
        positional_field_texts(positional).len() == positional.len(),
        0 <= position < named.len() ==> {
            &&& named_args(named)[position] == named_arg(named[position])
            &&& named_values(named)[position] == named[position].ident
            &&& mapping_entries(named)[position] == mapping_entry(named[position])
            &&& named_field_lines(named)[position] == named_field_line(named[position])
        },
        0 <= position < positional.len() ==> {
            &&& positional_args(positional)[position] == positional_arg(
                position as nat,
                positional[position],
            )
            &&& positional_values(positional.len())[position] == positional_name(position as nat)
            &&& sequence_items(positional.len())[position] == sequence_item(position as nat)
            &&& positional_field_texts(positional)[position] == positional_field_text(
                positional[position],
            )
        },
{
}

/// The synthesized constructor arguments of a positional model are
/// pairwise different names.
pub proof fn lemma_positional_names_differ(first: nat, second: nat)
    requires
        first != second,
    ensures
        positional_name(first) != positional_name(second),
{
    if positional_name(first) == positional_name(second) {
        let prefix = "val_"@;
        assert(decimal(first) =~= positional_name(first).subrange(
            prefix.len() as int,
            positional_name(first).len() as int,
        ));
        assert(decimal(second) =~= positional_name(second).subrange(
            prefix.len() as int,
            positional_name(second).len() as int,
        ));
        lemma_decimal_is_injective(first, second);
    }
}

proof fn lemma_named_pieces_push(fields: Seq<NamedFieldView>, field: NamedFieldView)
    ensures
        named_field_lines(fields.push(field)) == named_field_lines(fields).push(
            named_field_line(field),
        ),
        named_args(fields.push(field)) == named_args(fields).push(named_arg(field)),
        named_values(fields.push(field)) == named_values(fields).push(field.ident),
        mapping_entries(fields.push(field)) == mapping_entries(fields).push(mapping_entry(field)),
{
    assert(named_field_lines(fields.push(field)) =~= named_field_lines(fields).push(
        named_field_line(field),
    ));
    assert(named_args(fields.push(field)) =~= named_args(fields).push(named_arg(field)));
    assert(named_values(fields.push(field)) =~= named_values(fields).push(field.ident));
    assert(mapping_entries(fields.push(field)) =~= mapping_entries(fields).push(
        mapping_entry(field),
    ));
}

proof fn lemma_positional_pieces_push(fields: Seq<PositionalFieldView>, field: PositionalFieldView)
    ensures
        positional_field_texts(fields.push(field)) == positional_field_texts(fields).push(
            positional_field_text(field),
        ),
        positional_args(fields.push(field)) == positional_args(fields).push(
            positional_arg(fields.len(), field),
        ),
        positional_values(fields.len() + 1) == positional_values(fields.len()).push(
            positional_name(fields.len()),
        ),
        sequence_items(fields.len() + 1) == sequence_items(fields.len()).push(
            sequence_item(fields.len()),
        ),
{
    assert(positional_field_texts(fields.push(field)) =~= positional_field_texts(fields).push(
        positional_field_text(field),
    ));
    assert(positional_args(fields.push(field)) =~= positional_args(fields).push(
        positional_arg(fields.len(), field),
    ));
    assert(positional_values(fields.len() + 1) =~= positional_values(fields.len()).push(
        positional_name(fields.len()),
    ));
    assert(sequence_items(fields.len() + 1) =~= sequence_items(fields.len()).push(
        sequence_item(fields.len()),
    ));
}

fn struct_head_text(declared: &StructDeclaration) -> (out: String)
    ensures
        out@ == struct_head(declared@),
{
    let mut out = join_each(&declared.attrs, "\n");
    out.append(followed_text(declared.vis.as_str(), " ").as_str());
    out.append("struct ");
    out.append(declared.ident.as_str());
    out.append(declared.generics.as_str());
    out
}

fn exposed_attrs_text(field: &NamedField) -> (out: String)
    ensures
        out@ == each_followed(field@.attrs.push(FIELD_EXPOSURE@), " "@),
{
    let mut out = join_each(&field.attrs, " ");
    out.append(FIELD_EXPOSURE);
    out.append(" ");
    proof {
        lemma_joined_push(field@.attrs, " "@, FIELD_EXPOSURE@);
        if field.attrs.len() == 0 {
            assert(Seq::<char>::empty() + FIELD_EXPOSURE@ =~= FIELD_EXPOSURE@);
        }
    }
    out
}

fn named_field_line_text(field: &NamedField) -> (out: String)
    ensures
        out@ == named_field_line(field@),
{
    let mut out = "    ".to_string();
    let attrs = exposed_attrs_text(field);
    out.append(attrs.as_str());
    out.append(followed_text(field.vis.as_str(), " ").as_str());
    out.append(field.ident.as_str());
    out.append(": ");
    out.append(field.ty.as_str());
    out.append(",");
    out
}

fn named_arg_text(field: &NamedField) -> (out: String)
    ensures
        out@ == named_arg(field@),
{
    let mut out = field.ident.clone();
    out.append(": ");
    out.append(field.ty.as_str());
    out
}

fn mapping_entry_text(field: &NamedField) -> (out: String)
    ensures
        out@ == mapping_entry(field@),
{
    let mut out = "        dict.set_item(\"".to_string();
    out.append(field.ident.as_str());
    out.append("\", self.");
    out.append(field.ident.as_str());
    out.append(".to_model_dict(py)?)?;");
    out
}

fn positional_field_text_of(field: &PositionalField) -> (out: String)
    ensures
        out@ == positional_field_text(field@),
{
    let mut out = join_each(&field.attrs, " ");
    out.append(followed_text(field.vis.as_str(), " ").as_str());
    out.append(field.ty.as_str());
    out
}

fn positional_name_text(position: usize) -> (out: String)
    ensures
        out@ == positional_name(position as nat),
{
    let mut out = "val_".to_string();
    let number = decimal_text(position);
    out.append(number.as_str());
    out
}

fn sequence_item_text(position: usize) -> (out: String)
    ensures
        out@ == sequence_item(position as nat),
{
    let mut out = "self.".to_string();
    let number = decimal_text(position);
    out.append(number.as_str());
    out.append(".to_model_dict(py)?");
    out
}

fn methods_source(ident: &str, args: &str, construction: &str) -> (out: String)
    ensures
        out@ == methods_text(ident@, args@, construction@),
{
    let mut out = METHODS_OPEN.to_string();
    out.append(ident);
    out.append(CONSTRUCTOR_OPEN);
    out.append(args);
    out.append(CONSTRUCTOR_BODY);
    out.append(construction);
    out.append(METHODS_COMPARE_TO_SCHEMA);
    out.append(ident);
    out.append(METHODS_SCHEMA_TO_SCHEMA_JSON);
    out.append(ident);
    out.append(METHODS_CLOSE);
    out
}

/// Emits the augmented type for a struct with named fields: the struct with
/// every field exposed, a constructor that takes one argument per field
/// under the field's own name, the model methods, and a conversion to a
/// mapping keyed by field name.
pub fn struct_named_fields_impl(
    struct_: &StructDeclaration,
    named_fields: &Vec<NamedField>,
) -> (output: String)
    ensures
        output@ == named_model_source(struct_@, named_views(named_fields@)),
{
    let ghost fields = named_views(named_fields@);
    let mut field_lines: Vec<String> = Vec::new();
    let mut new_args: Vec<String> = Vec::new();
    let mut new_values: Vec<String> = Vec::new();
    let mut dict_items: Vec<String> = Vec::new();
    let mut i: usize = 0;
    while i < named_fields.len()
        invariant
            i <= named_fields.len(),
            fields == named_views(named_fields@),
            texts(field_lines@) == named_field_lines(fields.take(i as int)),
            texts(new_args@) == named_args(fields.take(i as int)),
            texts(new_values@) == named_values(fields.take(i as int)),
            texts(dict_items@) == mapping_entries(fields.take(i as int)),
        decreases named_fields.len() - i,
    {
        let field = &named_fields[i];
        let ghost before = fields.take(i as int);
        let ghost after = fields.take(i + 1);
        assert(after == before.push(field@));
        let line = named_field_line_text(field);
        let arg = named_arg_text(field);
        let value = field.ident.clone();
        let entry = mapping_entry_text(field);
        proof {
            lemma_named_pieces_push(before, field@);
            lemma_texts_push(field_lines@, line);
            lemma_texts_push(new_args@, arg);
            lemma_texts_push(new_values@, value);
            lemma_texts_push(dict_items@, entry);
        }
        field_lines.push(line);
        new_args.push(arg);
        new_values.push(value);
        dict_items.push(entry);
        i += 1;
    }
    assert(fields.take(i as int) == fields);

    let mut output = MODEL_ATTRIBUTES.to_string();
    let mut augmented = struct_head_text(struct_);
    augmented.append(preceded_text(" ", struct_.where_clause.as_str()).as_str());
    augmented.append(" {\n");
    augmented.append(join_each(&field_lines, "\n").as_str());
    augmented.append("}\n");
    output.append(augmented.as_str());

    let mut construction = "Self { ".to_string();
    construction.append(join(&new_values, ", ").as_str());
    construction.append(" }");
    let methods = methods_source(
        struct_.ident.as_str(),
        join(&new_args, ", ").as_str(),
        construction.as_str(),
    );
    output.append(methods.as_str());

    let mut conversion = CONVERSION_OPEN.to_string();
    conversion.append(struct_.ident.as_str());
    conversion.append(CONVERSION_SIGNATURE);
    conversion.append(MAPPING_OPEN);
    conversion.append(join_each(&dict_items, "\n").as_str());
    conversion.append(MAPPING_CLOSE);
    output.append(conversion.as_str());
    output
}

/// Emits the augmented type for a struct with positional fields: the struct
/// as declared, a constructor that takes one argument per field named by
/// its position, the model methods, and a conversion to an ordered sequence
/// without keys.
pub fn struct_unnamed_fields_impl(
    struct_: &StructDeclaration,
    unnamed_fields: &Vec<PositionalField>,
) -> (output: String)
    ensures
        output@ == positional_model_source(struct_@, positional_views(unnamed_fields@)),
{
    let ghost fields = positional_views(unnamed_fields@);
    let mut field_texts: Vec<String> = Vec::new();
    let mut new_args: Vec<String> = Vec::new();
    let mut new_values: Vec<String> = Vec::new();
    let mut tuple_items: Vec<String> = Vec::new();
    let mut field_number: usize = 0;
    while field_number < unnamed_fields.len()
        invariant
            field_number <= unnamed_fields.len(),
            fields == positional_views(unnamed_fields@),
            texts(field_texts@) == positional_field_texts(fields.take(field_number as int)),
            texts(new_args@) == positional_args(fields.take(field_number as int)),
            texts(new_values@) == positional_values(field_number as nat),
            texts(tuple_items@) == sequence_items(field_number as nat),
        decreases unnamed_fields.len() - field_number,
    {
        let field = &unnamed_fields[field_number];
        let ghost before = fields.take(field_number as int);
        let ghost after = fields.take(field_number + 1);
        assert(after == before.push(field@));
        let declared = positional_field_text_of(field);
        let constructor_name = positional_name_text(field_number);
        let mut arg = constructor_name.clone();
        arg.append(": ");
        arg.append(field.ty.as_str());
        let item = sequence_item_text(field_number);
        proof {
            lemma_positional_pieces_push(before, field@);
            lemma_texts_push(field_texts@, declared);
            lemma_texts_push(new_args@, arg);
            lemma_texts_push(new_values@, constructor_name);
            lemma_texts_push(tuple_items@, item);
        }
        field_texts.push(declared);
        new_args.push(arg);
        new_values.push(constructor_name);
        tuple_items.push(item);
        field_number += 1;
    }
    assert(fields.take(field_number as int) == fields);

    let mut output = MODEL_ATTRIBUTES.to_string();
    let mut unchanged = struct_head_text(struct_);
    unchanged.append("(");
    unchanged.append(join(&field_texts, ", ").as_str());
    unchanged.append(")");
    unchanged.append(preceded_text(" ", struct_.where_clause.as_str()).as_str());
    unchanged.append(";\n");
    output.append(unchanged.as_str());

    let mut construction = "Self(".to_string();
    construction.append(join(&new_values, ", ").as_str());
    construction.append(")");
    let methods = methods_source(
        struct_.ident.as_str(),
        join(&new_args, ", ").as_str(),
        construction.as_str(),
    );
    output.append(methods.as_str());

    let mut conversion = CONVERSION_OPEN.to_string();
    conversion.append(struct_.ident.as_str());
    conversion.append(CONVERSION_SIGNATURE);
    conversion.append(SEQUENCE_OPEN);
    conversion.append(join(&tuple_items, ", ").as_str());
    conversion.append(SEQUENCE_CLOSE);
    output.append(conversion.as_str());
    output
}

/// The source emitted for the struct `declared` once its fields are
/// classified as `fields`.
pub open spec fn emitted_source(declared: StructDeclarationView, fields: FieldListView) -> Seq<
    char,
> {
    match fields {
        FieldListView::Named(named) => named_model_source(declared, named),
        FieldListView::Positional(positional) => positional_model_source(declared, positional),
    }
}

/// The outcome of expanding a struct: the source of its classification, or
/// the classification's diagnostic.
pub open spec fn struct_expansion(declared: StructDeclarationView) -> Result<
    Seq<char>,
    DiagnosticView,
> {
    match classify_struct(declared) {
        Ok(fields) => Ok(emitted_source(declared, fields)),
        Err(diagnostic) => Err(diagnostic),
    }
}

/// The outcome of expanding any declaration.
pub open spec fn expansion(declaration: TypeDeclarationView) -> Result<Seq<char>, DiagnosticView> {
    match declaration {
        TypeDeclarationView::Struct(declared) => struct_expansion(declared),
        TypeDeclarationView::Other => Err(DiagnosticView::NotAStruct),
    }
}

/// The view of an expansion result.
pub open spec fn expansion_view(result: Result<String, Diagnostic>) -> Result<
    Seq<char>,
    DiagnosticView,
> {
    match result {
        Ok(source) => Ok(source@),
        Err(diagnostic) => Err(diagnostic@),
    }
}

/// A declaration expands to source exactly when the analyzer accepts it,
/// and is rejected with the analyzer's diagnostic otherwise.
pub proof fn lemma_expansion_follows_classification(declaration: TypeDeclarationView)
    ensures
        expansion(declaration) is Ok <==> classify(declaration) is Ok,
        classify(declaration) matches Err(diagnostic) ==> expansion(declaration) == Err::<
            Seq<char>,
            DiagnosticView,
        >(diagnostic),
{
}

/// Emits the augmented type for a struct whose fields were classified as
/// `fields`.
pub fn emit(struct_: &StructDeclaration, fields: &FieldList<'_>) -> (output: String)
    ensures
        output@ == emitted_source(struct_@, fields@),
{
    match fields {
        FieldList::Named(named_fields) => struct_named_fields_impl(struct_, named_fields),
        FieldList::Positional(unnamed_fields) => struct_unnamed_fields_impl(
            struct_,
            unnamed_fields,
        ),
    }
}

/// Expands a struct: classifies its fields and emits the augmented type, or
/// rejects a struct with neither named nor positional fields.
pub fn struct_impl(struct_: &StructDeclaration) -> (result: Result<String, Diagnostic>)
    ensures
        expansion_view(result) == struct_expansion(struct_@),
{
    match analyze_struct(struct_) {
        Ok(fields) => Ok(emit(struct_, &fields)),
        Err(diagnostic) => Err(diagnostic),
    }
}

/// Expands a declaration: a struct is expanded by [`struct_impl`], any
/// other item is rejected.
pub fn expand(declaration: &TypeDeclaration) -> (result: Result<String, Diagnostic>)
    ensures
        expansion_view(result) == expansion(declaration@),
{
    match declaration {
        TypeDeclaration::Struct(struct_) => struct_impl(struct_),
        TypeDeclaration::Other => Err(Diagnostic::NotAStruct),
    }
}

/// The expansion is decided by the declaration alone: two declarations
/// with the same content expand alike, whatever text they were read from
/// and whatever arguments the annotation carried.
pub proof fn lemma_expansion_is_decided_by_the_declaration(
    first: TypeDeclaration,
    second: TypeDeclaration,
)
    requires
        first@ == second@,
    ensures
        expansion(first@) == expansion(second@),
{
}

/// The entry point of the model annotation: reads the annotated item from
/// `input` and returns the source that replaces it, or the diagnostic to
/// report at the declaration. The annotation's own arguments are not looked
/// at. Whatever the parser read, the result is the expansion of some
/// declaration, as [`expand`] gives it, or the parser's syntax diagnostic.
pub fn model(_attr: &str, input: &str) -> (result: Result<String, Diagnostic>)
    ensures
        match result {
            Ok(source) => exists|declaration: TypeDeclarationView|
                expansion(declaration) == Ok::<Seq<char>, DiagnosticView>(source@),
            Err(diagnostic) => diagnostic@ is Syntax || exists|declaration: TypeDeclarationView|
                expansion(declaration) == Err::<Seq<char>, DiagnosticView>(diagnostic@),
        },
{
    match parse_declaration(input) {
        Ok(declaration) => {
            let result = expand(&declaration);
            assert(expansion_view(result) == expansion(declaration@));
            result
        },
        Err(diagnostic) => Err(diagnostic),
    }
}

} // verus!
