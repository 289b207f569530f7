//! Emitted models as values: the field storage of a model together with the
//! behaviour every model has, whichever way its fields are addressed.
//!
//! The emitter gives this behaviour to a struct as source text. Here the
//! same behaviour is given to models that are put together at run time
//! from a classified field list, so that it can be stated and proved:
//! the constructor, structural comparison, access to named fields, the
//! conversion to the dynamic representation and back, JSON encode and
//! decode, and the validator hook.

use vstd::prelude::*;
use crate::codec::{
    decoded, dynamic_of, encoded, from_value, json_value, serialized, text_view, to_value,
};
use crate::convert::{ConversionError, DynamicValue, DynamicView, Entry, ToModelDict};
use crate::error::OrdanticError;
use crate::shape::{FieldList, FieldListView};
use crate::text::texts;
use crate::validators::ValidatorIterator;

verus! {

/// The value of one field: a leaf, or a model of its own.
#[derive(Debug, PartialEq, Eq)]
pub enum FieldValue {
    Bool(bool),
    Int(i64),
    Text(String),
    Model(EmittedModel),
}

/// How the fields of a model are addressed.
#[derive(Debug, PartialEq, Eq)]
pub enum FieldAddressing {
    /// By name; the names are in declaration order.
    ByName(Vec<String>),
    /// By position only.
    ByPosition,
}

/// A value of an emitted model: one stored value per declared field, in
/// declaration order.
#[derive(Debug, PartialEq, Eq)]
pub struct EmittedModel {
    addressing: FieldAddressing,
    values: Vec<FieldValue>,
}

/// The mathematical content of a [`FieldValue`].
pub enum FieldValueView {
    Bool(bool),
    Int(i64),
    Text(Seq<char>),
    Model(ModelView),
}

/// The mathematical content of an [`EmittedModel`]: the field names of a
/// named model, and the field values.
pub struct ModelView {
    pub names: Option<Seq<Seq<char>>>,
    pub values: Seq<FieldValueView>,
}

impl View for FieldValue {
    type V = FieldValueView;

    open spec fn view(&self) -> FieldValueView {
        self.content()
    }
}

impl FieldValue {
    /// The mathematical content of the value.
    pub open spec fn content(self) -> FieldValueView
        decreases self,
    {
        match self {
            FieldValue::Bool(flag) => FieldValueView::Bool(flag),
            FieldValue::Int(number) => FieldValueView::Int(number),
            FieldValue::Text(text) => FieldValueView::Text(text@),
            FieldValue::Model(model) => FieldValueView::Model(model.content()),
        }
    }
}

impl View for FieldAddressing {
    type V = Option<Seq<Seq<char>>>;

    open spec fn view(&self) -> Option<Seq<Seq<char>>> {
        match self {
            FieldAddressing::ByName(names) => Some(texts(names@)),
            FieldAddressing::ByPosition => None,
        }
    }
}

impl View for EmittedModel {
    type V = ModelView;

    open spec fn view(&self) -> ModelView {
        self.content()
    }
}

impl EmittedModel {
    /// The mathematical content of the model.
    pub closed spec fn content(self) -> ModelView
        decreases self,
    {
        ModelView {
            names: self.addressing@,
            values: Seq::new(
                self.values@.len(),
                |i: int|
                    if 0 <= i < self.values@.len() {
                        self.values[i].content()
                    } else {
                        FieldValueView::Bool(false)
                    },
            ),
        }
    }
}

impl ModelView {
    /// A named model has exactly one name per stored value.
    pub open spec fn well_formed(self) -> bool {
        self.names matches Some(names) ==> names.len() == self.values.len()
    }
}

/// What a field value converts to: a leaf hands itself over, a model
/// converts as [`model_dynamic`] says.
pub open spec fn field_dynamic(value: FieldValueView) -> DynamicView
    decreases value,
{
    match value {
        FieldValueView::Bool(flag) => DynamicView::Bool(flag),
        FieldValueView::Int(number) => DynamicView::Int(number),
        FieldValueView::Text(text) => DynamicView::Text(text),
        FieldValueView::Model(model) => model_dynamic(model),
    }
}

/// What a model converts to. A named model gives a mapping with one entry
/// per field in declaration order, keyed by the field's name; a positional
/// model gives the sequence of its fields without keys. Either way each
/// field is converted by this same rule.
pub open spec fn model_dynamic(model: ModelView) -> DynamicView
    decreases model,
{
    match model.names {
        Some(names) => DynamicView::Mapping(
            Seq::new(
                model.values.len(),
                |i: int|
                    if 0 <= i < model.values.len() {
                        (names[i], field_dynamic(model.values[i]))
                    } else {
                        (Seq::empty(), DynamicView::Bool(false))
                    },
            ),
        ),
        None => DynamicView::Sequence(
            Seq::new(
                model.values.len(),
                |i: int|
                    if 0 <= i < model.values.len() {
                        field_dynamic(model.values[i])
                    } else {
                        DynamicView::Bool(false)
                    },
            ),
        ),
    }
}

/// Whether a field value is sound all the way down: see
/// [`model_well_formed`].
pub open spec fn field_well_formed(value: FieldValueView) -> bool
    decreases value,
{
    match value {
        FieldValueView::Model(model) => model_well_formed(model),
        _ => true,
    }
}

/// Whether a model, and every model nested in it, has one name per stored
/// value where its fields are named.
pub open spec fn model_well_formed(model: ModelView) -> bool
    decreases model,
{
    &&& model.well_formed()
    &&& forall|i: int| 0 <= i < model.values.len() ==> field_well_formed(#[trigger] model.values[i])
}

/// The field value that a dynamic value stands for: a leaf stands for
/// itself, a mapping for a named model with the keys as names, a sequence
/// for a positional model.
pub open spec fn field_of(value: DynamicView) -> FieldValueView
    decreases value,
{
    match value {
        DynamicView::Bool(flag) => FieldValueView::Bool(flag),
        DynamicView::Int(number) => FieldValueView::Int(number),
        DynamicView::Text(text) => FieldValueView::Text(text),
        DynamicView::Mapping(entries) => FieldValueView::Model(
            ModelView {
                names: Some(Seq::new(entries.len(), |i: int| entries[i].0)),
                values: Seq::new(
                    entries.len(),
                    |i: int|
                        if 0 <= i < entries.len() {
                            field_of(entries[i].1)
                        } else {
                            FieldValueView::Bool(false)
                        },
                ),
            },
        ),
        DynamicView::Sequence(items) => FieldValueView::Model(
            ModelView {
                names: None,
                values: Seq::new(
                    items.len(),
                    |i: int|
                        if 0 <= i < items.len() {
                            field_of(items[i])
                        } else {
                            FieldValueView::Bool(false)
                        },
                ),
            },
        ),
    }
}

/// The model that a dynamic value stands for; a leaf stands for none.
pub open spec fn model_of(value: DynamicView) -> Option<ModelView> {
    match field_of(value) {
        FieldValueView::Model(model) => Some(model),
        _ => None,
    }
}

/// A field value is recovered from what it converts to.
pub proof fn lemma_field_is_recovered(value: FieldValueView)
    requires
        field_well_formed(value),
    ensures
        field_of(field_dynamic(value)) == value,
    decreases value,
{
    match value {
        FieldValueView::Model(model) => {
            lemma_model_is_recovered(model);
        },
        _ => {},
    }
}

/// A model is recovered from what it converts to: conversion loses nothing.
pub proof fn lemma_model_is_recovered(model: ModelView)
    requires
        model_well_formed(model),
    ensures
        model_of(model_dynamic(model)) == Some(model),
        field_of(model_dynamic(model)) == FieldValueView::Model(model),
    decreases model,
{
    reveal_with_fuel(model_well_formed, 2);
    let recovered = field_of(model_dynamic(model))->Model_0;
    assert forall|i: int| 0 <= i < model.values.len() implies recovered.values[i]
        == model.values[i] by {
        assert(field_well_formed(model.values[i]));
        lemma_field_is_recovered(model.values[i]);
    }
    assert(recovered.values =~= model.values);
    match model.names {
        Some(names) => {
            assert(recovered.names->Some_0 =~= names);
        },
        None => {},
    }
}

/// What `parse_raw` returns for each outcome of the decoder: the model that
/// the decoded value stands for, or the failure to deserialize where the
/// text is refused or stands for no model.
pub open spec fn parsed_model(outcome: Option<serde_json::Value>) -> Result<
    ModelView,
    OrdanticError,
> {
    match outcome {
        Some(value) => match dynamic_of(value) {
            Some(content) => match model_of(content) {
                Some(model) => Ok(model),
                None => Err(OrdanticError::FailedToDeserialize),
            },
            None => Err(OrdanticError::FailedToDeserialize),
        },
        None => Err(OrdanticError::FailedToDeserialize),
    }
}

/// The view of a parsed model.
pub open spec fn model_result_view(result: Result<EmittedModel, OrdanticError>) -> Result<
    ModelView,
    OrdanticError,
> {
    match result {
        Ok(model) => Ok(model@),
        Err(error) => Err(error),
    }
}

/// Wherever the codec reads back the value it wrote, a serialized model is
/// recovered by `parse_raw`. That the codec does so is its own matter and
/// is asked for here, not claimed.
pub proof fn lemma_serialized_model_is_recovered(
    model: ModelView,
    text: Seq<char>,
    read: serde_json::Value,
)
    requires
        model_well_formed(model),
        encoded(json_value(model_dynamic(model))) == Some(text),
        decoded(text) == Some(read),
        dynamic_of(read) == Some(model_dynamic(model)),
    ensures
        serialized(encoded(json_value(model_dynamic(model)))) == Ok::<Seq<char>, OrdanticError>(
            text,
        ),
        parsed_model(decoded(text)) == Ok::<ModelView, OrdanticError>(model),
{
    lemma_model_is_recovered(model);
}

/// The names under which the fields of `fields` are addressed.
pub open spec fn addressing_of(fields: FieldListView) -> Option<Seq<Seq<char>>> {
    match fields {
        FieldListView::Named(named) => Some(Seq::new(named.len(), |i: int| named[i].ident)),
        FieldListView::Positional(_) => None,
    }
}

/// The number of fields of `fields`.
pub open spec fn field_count(fields: FieldListView) -> nat {
    match fields {
        FieldListView::Named(named) => named.len(),
        FieldListView::Positional(positional) => positional.len(),
    }
}

/// The views of a list of field values.
pub open spec fn value_views(values: Seq<FieldValue>) -> Seq<FieldValueView> {
    values.map_values(|value: FieldValue| value@)
}

impl FieldValue {
    /// Converts the value to the dynamic representation.
    pub fn to_dynamic(&self) -> (converted: DynamicValue)
        ensures
            converted@ == field_dynamic(self@),
            field_well_formed(self@),
        decreases self,
    {
        match self {
            FieldValue::Bool(flag) => DynamicValue::Bool(*flag),
            FieldValue::Int(number) => DynamicValue::Int(*number),
            FieldValue::Text(text) => DynamicValue::Text(text.clone()),
            FieldValue::Model(model) => model.to_dynamic(),
        }
    }

    /// Reads the field value that a dynamic value stands for.
    pub fn from_dynamic(value: &DynamicValue) -> (field: FieldValue)
        ensures
            field@ == field_of(value@),
        decreases value,
    {
        match value {
            DynamicValue::Bool(flag) => FieldValue::Bool(*flag),
            DynamicValue::Int(number) => FieldValue::Int(*number),
            DynamicValue::Text(text) => FieldValue::Text(text.clone()),
            DynamicValue::Mapping(entries) => {
                let mut names: Vec<String> = Vec::new();
                let mut values: Vec<FieldValue> = Vec::new();
                let mut i: usize = 0;
                while i < entries.len()
                    invariant
                        i <= entries.len(),
                        value is Mapping,
                        value->Mapping_0 == *entries,
                        names@.len() == i,
                        values@.len() == i,
                        forall|k: int|
                            0 <= k < i ==> names@[k]@ == entries@[k].key@ && values@[k]@
                                == field_of(entries@[k].value@),
                    decreases entries.len() - i,
                {
                    names.push(entries[i].key.clone());
                    assert(decreases_to!(value => value->Mapping_0[i as int].value));
                    values.push(FieldValue::from_dynamic(&entries[i].value));
                    i += 1;
                }
                let model = EmittedModel { addressing: FieldAddressing::ByName(names), values };
                proof {
                    let expected = field_of(value@)->Model_0;
                    assert(model@.names->Some_0 =~= expected.names->Some_0);
                    assert(model@.values =~= expected.values);
                }
                FieldValue::Model(model)
            },
            DynamicValue::Sequence(items) => {
                let mut values: Vec<FieldValue> = Vec::new();
                let mut i: usize = 0;
                while i < items.len()
                    invariant
                        i <= items.len(),
                        value is Sequence,
                        value->Sequence_0 == *items,
                        values@.len() == i,
                        forall|k: int| 0 <= k < i ==> values@[k]@ == field_of(items@[k]@),
                    decreases items.len() - i,
                {
                    assert(decreases_to!(value => value->Sequence_0[i as int]));
                    values.push(FieldValue::from_dynamic(&items[i]));
                    i += 1;
                }
                let model = EmittedModel { addressing: FieldAddressing::ByPosition, values };
                proof {
                    let expected = field_of(value@)->Model_0;
                    assert(model@.values =~= expected.values);
                }
                FieldValue::Model(model)
            },
        }
    }
}

impl EmittedModel {
    /// A named model has exactly one name per stored value.
    #[verifier::type_invariant]
    spec fn names_match_values(self) -> bool {
        self.addressing matches FieldAddressing::ByName(names) ==> names@.len()
            == self.values@.len()
    }

    /// The constructor: takes one argument per field of `fields`, in
    /// declaration order, and stores each in its field. There is no model
    /// for any other number of arguments.
    pub fn new(fields: &FieldList<'_>, arguments: Vec<FieldValue>) -> (model: Option<Self>)
        ensures
            model is Some <==> arguments@.len() == field_count(fields@),
            model matches Some(built) ==> built@.well_formed() && built@ == (ModelView {
                names: addressing_of(fields@),
                values: value_views(arguments@),
            }),
    {
        match fields {
            FieldList::Named(named_fields) => {
                if arguments.len() != named_fields.len() {
                    return None;
                }
                let mut names: Vec<String> = Vec::new();
                let mut i: usize = 0;
                while i < named_fields.len()
                    invariant
                        i <= named_fields.len(),
                        names@.len() == i,
                        forall|k: int| 0 <= k < i ==> names@[k]@ == named_fields@[k].ident@,
                    decreases named_fields.len() - i,
                {
                    names.push(named_fields[i].ident.clone());
                    i += 1;
                }
                let built = EmittedModel { addressing: FieldAddressing::ByName(names), values: arguments };
                proof {
                    assert(built@.names->Some_0 =~= addressing_of(fields@)->Some_0);
                    assert(built@.values =~= value_views(arguments@));
                }
                Some(built)
            },
            FieldList::Positional(unnamed_fields) => {
                if arguments.len() != unnamed_fields.len() {
                    return None;
                }
                let built = EmittedModel { addressing: FieldAddressing::ByPosition, values: arguments };
                proof {
                    assert(built@.values =~= value_views(arguments@));
                }
                Some(built)
            },
        }
    }

    /// Converts the model to the dynamic representation.
    pub fn to_dynamic(&self) -> (converted: DynamicValue)
        ensures
            converted@ == model_dynamic(self@),
            model_well_formed(self@),
        decreases self,
    {
        proof {
            use_type_invariant(self);
        }
        match &self.addressing {
            FieldAddressing::ByName(names) => {
                let mut entries: Vec<Entry> = Vec::new();
                let mut i: usize = 0;
                while i < self.values.len()
                    invariant
                        i <= self.values.len(),
                        self.addressing == FieldAddressing::ByName(*names),
                        names@.len() == self.values@.len(),
                        entries@.len() == i,
                        forall|k: int|
                            0 <= k < i ==> entries@[k].key@ == names@[k]@ && entries@[k].value@
                                == field_dynamic(self.values@[k]@),
                        forall|k: int| 0 <= k < i ==> field_well_formed(self.values@[k]@),
                    decreases self.values.len() - i,
                {
                    let value = self.values[i].to_dynamic();
                    entries.push(Entry { key: names[i].clone(), value });
                    i += 1;
                }
                let converted = DynamicValue::Mapping(entries);
                proof {
                    assert(converted@->Mapping_0 =~= model_dynamic(self@)->Mapping_0);
                }
                converted
            },
            FieldAddressing::ByPosition => {
                let mut items: Vec<DynamicValue> = Vec::new();
                let mut i: usize = 0;
                while i < self.values.len()
                    invariant
                        i <= self.values.len(),
                        items@.len() == i,
                        forall|k: int|
                            0 <= k < i ==> items@[k]@ == field_dynamic(self.values@[k]@),
                        forall|k: int| 0 <= k < i ==> field_well_formed(self.values@[k]@),
                    decreases self.values.len() - i,
                {
                    let value = self.values[i].to_dynamic();
                    items.push(value);
                    i += 1;
                }
                let converted = DynamicValue::Sequence(items);
                proof {
                    assert(converted@->Sequence_0 =~= model_dynamic(self@)->Sequence_0);
                }
                converted
            },
        }
    }
}

/// The relational operators a comparison can be asked for.
#[derive(Debug, Clone, Copy, PartialEq, Eq, Structural)]
pub enum CompareOp {
    Lt,
    Le,
    Eq,
    Ne,
    Gt,
    Ge,
}

/// The outcome of comparing two models under `op`: equals and not-equals
/// are decided by structural equality, every other operator is refused.
pub open spec fn rich_comparison(left: ModelView, right: ModelView, op: CompareOp) -> Result<
    bool,
    OrdanticError,
> {
    match op {
        CompareOp::Eq => Ok(left == right),
        CompareOp::Ne => Ok(left != right),
        _ => Err(OrdanticError::NotImplemented),
    }
}

/// Two models of one type with identical field values are equal and not
/// unequal; if they differ in any one field they are unequal and not equal.
pub proof fn lemma_equality_is_fieldwise(left: ModelView, right: ModelView)
    requires
        left.names == right.names,
        left.values.len() == right.values.len(),
    ensures
        (forall|i: int| 0 <= i < left.values.len() ==> left.values[i] == right.values[i]) ==> {
            &&& rich_comparison(left, right, CompareOp::Eq) == Ok::<bool, OrdanticError>(true)
            &&& rich_comparison(left, right, CompareOp::Ne) == Ok::<bool, OrdanticError>(false)
        },
        (exists|i: int| 0 <= i < left.values.len() && left.values[i] != right.values[i]) ==> {
            &&& rich_comparison(left, right, CompareOp::Eq) == Ok::<bool, OrdanticError>(false)
            &&& rich_comparison(left, right, CompareOp::Ne) == Ok::<bool, OrdanticError>(true)
        },
{
    if forall|i: int| 0 <= i < left.values.len() ==> left.values[i] == right.values[i] {
        assert(left.values =~= right.values);
    }
}

/// No operator but equals and not-equals is ever answered.
pub proof fn lemma_other_operators_are_refused(left: ModelView, right: ModelView, op: CompareOp)
    requires
        op != CompareOp::Eq,
        op != CompareOp::Ne,
    ensures
        rich_comparison(left, right, op) == Err::<bool, OrdanticError>(
            OrdanticError::NotImplemented,
        ),
{
}

/// Whether `position` is the first place at which `name` occurs in `names`.
pub open spec fn is_first_position(names: Seq<Seq<char>>, name: Seq<char>, position: int) -> bool {
    &&& 0 <= position < names.len()
    &&& names[position] == name
    &&& forall|k: int| 0 <= k < position ==> names[k] != name
}

/// The place of the field called `name`, if the model has named fields and
/// one of them is called so; the first one, should a name occur twice.
pub open spec fn field_position(names: Option<Seq<Seq<char>>>, name: Seq<char>) -> Option<int> {
    match names {
        Some(names) => if exists|position: int| is_first_position(names, name, position) {
            Some(choose|position: int| is_first_position(names, name, position))
        } else {
            None
        },
        None => None,
    }
}

fn names_equal(left: &Vec<String>, right: &Vec<String>) -> (equal: bool)
    ensures
        equal == (texts(left@) == texts(right@)),
{
    if left.len() != right.len() {
        assert(texts(left@).len() != texts(right@).len());
        return false;
    }
    let mut i: usize = 0;
    while i < left.len()
        invariant
            i <= left.len(),
            left.len() == right.len(),
            forall|k: int| 0 <= k < i ==> left@[k]@ == right@[k]@,
        decreases left.len() - i,
    {
        if left[i] != right[i] {
            assert(texts(left@)[i as int] != texts(right@)[i as int]);
            return false;
        }
        i += 1;
    }
    assert(texts(left@) =~= texts(right@));
    true
}

fn find_name(names: &Vec<String>, name: &str) -> (found: Option<usize>)
    ensures
        match found {
            Some(position) => is_first_position(texts(names@), name@, position as int),
            None => forall|k: int| 0 <= k < names@.len() ==> texts(names@)[k] != name@,
        },
{
    let wanted = name.to_string();
    let mut i: usize = 0;
    while i < names.len()
        invariant
            i <= names.len(),
            wanted@ == name@,
            forall|k: int| 0 <= k < i ==> texts(names@)[k] != name@,
        decreases names.len() - i,
    {
        if names[i] == wanted {
            return Some(i);
        }
        i += 1;
    }
    None
}

impl FieldValue {
    /// Structural equality of two field values.
    pub fn equals(&self, other: &FieldValue) -> (equal: bool)
        ensures
            equal == (self@ == other@),
        decreases self,
    {
        match (self, other) {
            (FieldValue::Bool(left), FieldValue::Bool(right)) => *left == *right,
            (FieldValue::Int(left), FieldValue::Int(right)) => *left == *right,
            (FieldValue::Text(left), FieldValue::Text(right)) => *left == *right,
            (FieldValue::Model(left), FieldValue::Model(right)) => left.equals(right),
            _ => false,
        }
    }
}

impl ToModelDict for FieldValue {
    open spec fn model_dict(&self) -> Option<DynamicView> {
        Some(field_dynamic(self@))
    }

    fn to_model_dict(&self) -> (converted: Result<DynamicValue, ConversionError>) {
        Ok(self.to_dynamic())
    }
}

impl ToModelDict for EmittedModel {
    open spec fn model_dict(&self) -> Option<DynamicView> {
        Some(model_dynamic(self@))
    }

    fn to_model_dict(&self) -> (converted: Result<DynamicValue, ConversionError>) {
        Ok(self.to_dynamic())
    }
}

impl EmittedModel {
    /// Structural equality of two models: the same addressing and, field
    /// by field, equal values.
    pub fn equals(&self, other: &EmittedModel) -> (equal: bool)
        ensures
            equal == (self@ == other@),
        decreases self,
    {
        let same_addressing = match (&self.addressing, &other.addressing) {
            (FieldAddressing::ByName(left), FieldAddressing::ByName(right)) => names_equal(
                left,
                right,
            ),
            (FieldAddressing::ByPosition, FieldAddressing::ByPosition) => true,
            _ => false,
        };
        if !same_addressing {
            return false;
        }
        if self.values.len() != other.values.len() {
            assert(self@.values.len() != other@.values.len());
            return false;
        }
        let mut i: usize = 0;
        while i < self.values.len()
            invariant
                i <= self.values.len(),
                self.values.len() == other.values.len(),
                forall|k: int| 0 <= k < i ==> self.values@[k]@ == other.values@[k]@,
            decreases self.values.len() - i,
        {
            if !self.values[i].equals(&other.values[i]) {
                assert(self@.values[i as int] != other@.values[i as int]);
                return false;
            }
            i += 1;
        }
        assert(self@.values =~= other@.values);
        true
    }

    /// The comparison operator of a model: equals and not-equals compare
    /// structurally, any other operator fails as not implemented.
    pub fn __richcmp__(&self, other: &EmittedModel, op: CompareOp) -> (result: Result<
        bool,
        OrdanticError,
    >)
        ensures
            result == rich_comparison(self@, other@, op),
    {
        match op {
            CompareOp::Eq => Ok(self.equals(other)),
            CompareOp::Ne => Ok(!self.equals(other)),
            _ => Err(OrdanticError::NotImplemented),
        }
    }

    /// The dictionary accessor: the model in the dynamic representation.
    pub fn dict(&self) -> (converted: Result<DynamicValue, ConversionError>)
        ensures
            converted matches Ok(value) && value@ == model_dynamic(self@),
    {
        self.to_model_dict()
    }

    /// Reads the model that a dynamic value stands for; a leaf stands for
    /// none.
    pub fn from_dynamic(value: &DynamicValue) -> (model: Option<EmittedModel>)
        ensures
            match model {
                Some(found) => model_of(value@) == Some(found@),
                None => model_of(value@) is None,
            },
    {
        match FieldValue::from_dynamic(value) {
            FieldValue::Model(found) => Some(found),
            _ => None,
        }
    }

    /// Serializes the full model as JSON text: a named model as an object
    /// keyed by field name, a positional model as an array. Where the
    /// encoder refuses the value the call fails with "failed to serialize".
    pub fn json(&self) -> (result: Result<String, OrdanticError>)
        ensures
            text_view(result) == serialized(encoded(json_value(model_dynamic(self@)))),
    {
        let value = to_value(&self.to_dynamic());
        crate::codec::json(&value)
    }

    /// Deserializes a model from JSON text. Text that is not JSON, or that
    /// stands for no model, fails with "failed to deserialize".
    pub fn parse_raw(string: &str) -> (result: Result<EmittedModel, OrdanticError>)
        ensures
            model_result_view(result) == parsed_model(decoded(string@)),
    {
        match crate::codec::parse_raw(string) {
            Ok(value) => match from_value(&value) {
                Some(content) => match EmittedModel::from_dynamic(&content) {
                    Some(model) => Ok(model),
                    None => Err(OrdanticError::FailedToDeserialize),
                },
                None => Err(OrdanticError::FailedToDeserialize),
            },
            Err(error) => Err(error),
        }
    }

    /// The validator hook: an empty validator sequence, whatever the fields
    /// of the model are.
    pub fn __get_validators__<T>() -> (validators: ValidatorIterator<T>)
        ensures
            validators@ == Seq::<T>::empty(),
    {
        let schema_validators: Vec<T> = Vec::new();
        ValidatorIterator::new(schema_validators)
    }

    /// Writes the field called `name` and says whether there is such a
    /// field. The shape of the model never changes: a value offered under
    /// an unknown name, or to a positional model, is not stored.
    pub fn set(&mut self, name: &str, value: FieldValue) -> (stored: bool)
        ensures
            stored == field_position(old(self)@.names, name@) is Some,
            final(self)@ == match field_position(old(self)@.names, name@) {
                Some(position) => ModelView {
                    names: old(self)@.names,
                    values: old(self)@.values.update(position, value@),
                },
                None => old(self)@,
            },
    {
        proof {
            use_type_invariant(&*self);
        }
        let found = match &self.addressing {
            FieldAddressing::ByName(names) => find_name(names, name),
            FieldAddressing::ByPosition => None,
        };
        match found {
            Some(position) => {
                assert(is_first_position(self@.names->Some_0, name@, position as int));
                let ghost chosen = field_position(self@.names, name@)->Some_0;
                assert(chosen == position);
                let ghost before = self@;
                let mut taken = EmittedModel {
                    addressing: FieldAddressing::ByPosition,
                    values: Vec::new(),
                };
                std::mem::swap(self, &mut taken);
                let EmittedModel { addressing, mut values } = taken;
                values.set(position, value);
                *self = EmittedModel { addressing, values };
                assert(self@.values =~= before.values.update(position as int, value@));
                true
            },
            None => false,
        }
    }

    /// Reads the field called `name`. A positional model exposes no field
    /// by name.
    pub fn get(&self, name: &str) -> (value: Option<&FieldValue>)
        ensures
            match field_position(self@.names, name@) {
                Some(position) => value matches Some(found) && found@ == self@.values[position],
                None => value is None,
            },
    {
        proof {
            use_type_invariant(self);
        }
        match &self.addressing {
            FieldAddressing::ByName(names) => match find_name(names, name) {
                Some(position) => {
                    assert(is_first_position(texts(names@), name@, position as int));
                    let ghost chosen = field_position(self@.names, name@)->Some_0;
                    assert(chosen == position);
                    Some(&self.values[position])
                },
                None => None,
            },
            FieldAddressing::ByPosition => None,
        }
    }
}

} // verus!
