//! The conversion capability: turning a value into the dynamic
//! representation that is handed across the embedding boundary.

use vstd::prelude::*;

verus! {

/// A value in the dynamic representation: a leaf, a key/value mapping in
/// insertion order, or an ordered sequence without keys.
#[derive(Debug, PartialEq, Eq)]
pub enum DynamicValue {
    Bool(bool),
    Int(i64),
    Text(String),
    Mapping(Vec<Entry>),
    Sequence(Vec<DynamicValue>),
}

/// One entry of a dynamic mapping.
#[derive(Debug, PartialEq, Eq)]
pub struct Entry {
    pub key: String,
    pub value: DynamicValue,
}

/// The mathematical content of a [`DynamicValue`].
pub enum DynamicView {
    Bool(bool),
    Int(i64),
    Text(Seq<char>),
    Mapping(Seq<(Seq<char>, DynamicView)>),
    Sequence(Seq<DynamicView>),
}

impl View for DynamicValue {
    type V = DynamicView;

    open spec fn view(&self) -> DynamicView {
        self.content()
    }
}

impl DynamicValue {
    /// The mathematical content of the value.
    pub open spec fn content(self) -> DynamicView
        decreases self,
    {
        match self {
            DynamicValue::Bool(flag) => DynamicView::Bool(flag),
            DynamicValue::Int(number) => DynamicView::Int(number),
            DynamicValue::Text(text) => DynamicView::Text(text@),
            DynamicValue::Mapping(entries) => DynamicView::Mapping(
                Seq::new(
                    entries@.len(),
                    |i: int|
                        if 0 <= i < entries@.len() {
                            (entries[i].key@, entries[i].value.content())
                        } else {
                            (Seq::empty(), DynamicView::Bool(false))
                        },
                ),
            ),
            DynamicValue::Sequence(items) => DynamicView::Sequence(
                Seq::new(
                    items@.len(),
                    |i: int|
                        if 0 <= i < items@.len() {
                            items[i].content()
                        } else {
                            DynamicView::Bool(false)
                        },
                ),
            ),
        }
    }
}

/// Why a value could not be converted to the dynamic representation.
#[derive(Debug, Clone, PartialEq, Eq)]
pub struct ConversionError {
    pub reason: String,
}

/// The view of a conversion result: the converted value, if there is one.
pub open spec fn converted_view(result: Result<DynamicValue, ConversionError>) -> Option<
    DynamicView,
> {
    match result {
        Ok(value) => Some(value@),
        Err(_) => None,
    }
}

/// The capability of producing a dynamic value. Leaf types convert by
/// handing themselves over, which cannot fail; a model converts field by
/// field through this same capability.
pub trait ToModelDict {
    /// What the value converts to, or `None` where the conversion fails.
    spec fn model_dict(&self) -> Option<DynamicView>;

    /// Converts the value to the dynamic representation.
    fn to_model_dict(&self) -> (converted: Result<DynamicValue, ConversionError>)
        ensures
            converted_view(converted) == self.model_dict(),
    ;
}

impl ToModelDict for bool {
    open spec fn model_dict(&self) -> Option<DynamicView> {
        Some(DynamicView::Bool(*self))
    }

    fn to_model_dict(&self) -> (converted: Result<DynamicValue, ConversionError>) {
        Ok(DynamicValue::Bool(*self))
    }
}

impl ToModelDict for i64 {
    open spec fn model_dict(&self) -> Option<DynamicView> {
        Some(DynamicView::Int(*self))
    }

    fn to_model_dict(&self) -> (converted: Result<DynamicValue, ConversionError>) {
        Ok(DynamicValue::Int(*self))
    }
}

impl ToModelDict for String {
    open spec fn model_dict(&self) -> Option<DynamicView> {
        Some(DynamicView::Text(self@))
    }

    fn to_model_dict(&self) -> (converted: Result<DynamicValue, ConversionError>) {
        Ok(DynamicValue::Text(self.clone()))
    }
}

} // verus!
