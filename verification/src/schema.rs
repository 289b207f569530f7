//! Schema export. The structural description comes from `schemars`; this
//! module turns it into what a model's schema accessors return.

use vstd::prelude::*;
use crate::codec::text_view;
use crate::convert::{DynamicValue, DynamicView, Entry};
use crate::error::OrdanticError;

verus! {

/// `schemars::schema::RootSchema`, the description of a type as the schema
/// generator produced it. Opaque here.
#[verifier::external_type_specification]
#[verifier::external_body]
pub struct ExRootSchema(schemars::schema::RootSchema);

/// The field `meta_schema` of a description: the meta-schema URI, if the
/// generator supplied one.
pub uninterp spec fn meta_schema_of(document: schemars::schema::RootSchema) -> Option<Seq<char>>;

/// The JSON text that `serde_json::to_string` writes for a description, or
/// `None` where it refuses the description.
pub uninterp spec fn encoded_schema(document: schemars::schema::RootSchema) -> Option<Seq<char>>;

/// Reads the field `meta_schema` of a `schemars::schema::RootSchema`.
/// Believed: the result is that field.
#[verifier::external_body]
fn meta_schema(document: &schemars::schema::RootSchema) -> (uri: Option<String>)
    ensures
        match uri {
            Some(text) => meta_schema_of(*document) == Some(text@),
            None => meta_schema_of(*document) is None,
        },
{
    document.meta_schema.clone()
}

/// Calls `serde_json::to_string` on a description, which writes it as JSON
/// text or refuses it. Believed: the outcome depends on the description
/// alone.
#[verifier::external_body]
fn encode_schema(document: &schemars::schema::RootSchema) -> (result: Result<
    String,
    serde_json::Error,
>)
    ensures
        match result {
            Ok(text) => encoded_schema(*document) == Some(text@),
            Err(_) => encoded_schema(*document) is None,
        },
{
    serde_json::to_string(document)
}

/// The key under which the meta-schema URI is reported.
pub const SCHEMA_KEY: &'static str = "$schema";

/// The key of the title entry.
pub const TITLE_KEY: &'static str = "title";

/// The title reported for every model.
pub const TITLE: &'static str = "ExampleModel";

/// The key of the type entry.
pub const TYPE_KEY: &'static str = "type";

/// The type reported for every model.
pub const TYPE: &'static str = "object";

/// The title and type entries that every schema mapping ends with.
pub open spec fn fixed_entries() -> Seq<(Seq<char>, DynamicView)> {
    seq![(TITLE_KEY@, DynamicView::Text(TITLE@)), (TYPE_KEY@, DynamicView::Text(TYPE@))]
}

/// The mapping a model's `schema` accessor returns for a description with
/// the meta-schema URI `meta`: the URI under `$schema` where there is one,
/// then the fixed title and type. Nothing else of the description is
/// carried over.
pub open spec fn schema_mapping(meta: Option<Seq<char>>) -> DynamicView {
    match meta {
        Some(uri) => DynamicView::Mapping(
            seq![(SCHEMA_KEY@, DynamicView::Text(uri))] + fixed_entries(),
        ),
        None => DynamicView::Mapping(fixed_entries()),
    }
}

/// Whether `mapping` is a mapping with an entry `key` => `value`.
pub open spec fn has_entry(mapping: DynamicView, key: Seq<char>, value: DynamicView) -> bool {
    mapping matches DynamicView::Mapping(entries) && exists|i: int|
        0 <= i < entries.len() && entries[i] == (key, value)
}

/// Whatever the description says, the schema mapping holds the title
/// "ExampleModel" and the type "object", and beside them at most the
/// meta-schema URI.
pub proof fn lemma_schema_is_placeholder(meta: Option<Seq<char>>)
    ensures
        has_entry(schema_mapping(meta), TITLE_KEY@, DynamicView::Text(TITLE@)),
        has_entry(schema_mapping(meta), TYPE_KEY@, DynamicView::Text(TYPE@)),
        schema_mapping(meta) matches DynamicView::Mapping(entries) && entries.len() == (if meta
            is Some {
            3nat
        } else {
            2nat
        }),
{
    let entries = schema_mapping(meta)->Mapping_0;
    let shift: int = if meta is Some {
        1
    } else {
        0
    };
    assert(entries[shift] == (TITLE_KEY@, DynamicView::Text(TITLE@)));
    assert(entries[shift + 1] == (TYPE_KEY@, DynamicView::Text(TYPE@)));
}

/// What a model's `schema` accessor returns for the description
/// `document`.
pub fn schema(document: &schemars::schema::RootSchema) -> (dict: DynamicValue)
    ensures
        dict@ == schema_mapping(meta_schema_of(*document)),
{
    let mut entries: Vec<Entry> = Vec::new();
    match meta_schema(document) {
        Some(uri) => {
            entries.push(Entry { key: SCHEMA_KEY.to_string(), value: DynamicValue::Text(uri) });
        },
        None => {},
    }
    entries.push(
        Entry { key: TITLE_KEY.to_string(), value: DynamicValue::Text(TITLE.to_string()) },
    );
    entries.push(Entry { key: TYPE_KEY.to_string(), value: DynamicValue::Text(TYPE.to_string()) });
    let dict = DynamicValue::Mapping(entries);
    proof {
        reveal_with_fuel(DynamicValue::content, 2);
        assert(dict@->Mapping_0 =~= schema_mapping(meta_schema_of(*document))->Mapping_0);
    }
    dict
}

/// What `schema_json` returns for each outcome of the encoder.
pub open spec fn serialized_schema(outcome: Option<Seq<char>>) -> Result<Seq<char>, OrdanticError> {
    match outcome {
        Some(text) => Ok(text),
        None => Err(OrdanticError::FailedToSerialize),
    }
}

/// The description `document` as JSON text. Where the encoder refuses it
/// the call fails with "failed to serialize".
pub fn schema_json(document: &schemars::schema::RootSchema) -> (result: Result<
    String,
    OrdanticError,
>)
    ensures
        text_view(result) == serialized_schema(encoded_schema(*document)),
{
    match encode_schema(document) {
        Ok(json_str) => Ok(json_str),
        Err(_) => Err(OrdanticError::FailedToSerialize),
    }
}

} // verus!
