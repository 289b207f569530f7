use ordantic_core::emit::{
    emit, expand, model, struct_impl, struct_named_fields_impl, struct_unnamed_fields_impl,
};
use ordantic_core::shape::{
    DeclaredFields, Diagnostic, FieldList, NamedField, PositionalField, StructDeclaration,
    TypeDeclaration,
};

const METHODS_AFTER_CONSTRUCTOR: &str = r#"
    fn __richcmp__(&self, other: &Self, op: pyo3::basic::CompareOp) -> pyo3::PyResult<bool> {
        match op {
            pyo3::basic::CompareOp::Eq => Ok(self == other),
            pyo3::basic::CompareOp::Ne => Ok(self != other),
            _ => Err(ordantic::OrdanticError::new_err("not implemented")),
        }
    }

    fn dict(&self, py: pyo3::Python<'_>) -> pyo3::PyResult<pyo3::PyObject> {
        self.to_model_dict(py)
    }

    fn json(&self) -> pyo3::PyResult<String> {
        let json_str = serde_json::to_string(&self)
            .map_err(|_| ordantic::OrdanticError::new_err("failed to serialize"))?;
        Ok(json_str)
    }

    #[classmethod]
    fn parse_raw(_cls: &pyo3::types::PyType, string: &str) -> pyo3::PyResult<Self> {
        let self_ = serde_json::from_str(string)
            .map_err(|_| ordantic::OrdanticError::new_err("failed to deserialize"))?;
        Ok(self_)
    }

    #[classmethod]
    fn schema<'py>(_cls: &'py pyo3::types::PyType, py: pyo3::Python<'py>) -> pyo3::PyResult<&'py pyo3::types::PyDict> {
        let schema = schemars::schema_for!(IDENT);
        let dict = pyo3::types::PyDict::new(py);
        if let Some(meta_schema) = schema.meta_schema {
            dict.set_item("$schema", meta_schema)?;
        }
        dict.set_item("title", "ExampleModel")?;
        dict.set_item("type", "object")?;
        Ok(dict)
    }

    #[classmethod]
    fn schema_json(_cls: &pyo3::types::PyType) -> pyo3::PyResult<String> {
        let schema = schemars::schema_for!(IDENT);
        let json_str = serde_json::to_string(&schema)
            .map_err(|_| ordantic::OrdanticError::new_err("failed to serialize"))?;
        Ok(json_str)
    }

    #[classmethod]
    fn __get_validators__(_cls: &pyo3::types::PyType) -> pyo3::PyResult<ordantic::ValidatorIterator> {
        let schema_validators = Vec::new();
        Ok(ordantic::ValidatorIterator::new(schema_validators))
    }
}
"#;

fn named_field(attrs: &[&str], vis: &str, ident: &str, ty: &str) -> NamedField {
    NamedField {
        attrs: attrs.iter().map(|a| a.to_string()).collect(),
        vis: vis.to_string(),
        ident: ident.to_string(),
        ty: ty.to_string(),
    }
}

fn positional_field(attrs: &[&str], vis: &str, ty: &str) -> PositionalField {
    PositionalField {
        attrs: attrs.iter().map(|a| a.to_string()).collect(),
        vis: vis.to_string(),
        ty: ty.to_string(),
    }
}

fn plain(ident: &str, fields: DeclaredFields) -> StructDeclaration {
    StructDeclaration {
        attrs: Vec::new(),
        vis: String::new(),
        ident: ident.to_string(),
        generics: String::new(),
        where_clause: String::new(),
        fields,
    }
}

fn expected_named_example() -> String {
    let mut expected = String::new();
    expected.push_str("#[pyo3::pyclass]\n");
    expected.push_str("#[derive(Debug, PartialEq, Clone, Serialize, Deserialize, schemars::JsonSchema)]\n");
    expected.push_str("struct ExampleModel {\n");
    expected.push_str("    #[pyo3(get, set)] name: String,\n");
    expected.push_str("    #[pyo3(get, set)] count: i64,\n");
    expected.push_str("}\n");
    expected.push_str("\n#[pyo3::pymethods]\n");
    expected.push_str("impl ExampleModel {\n");
    expected.push_str("    #[new]\n");
    expected.push_str("    fn new(name: String, count: i64) -> Self {\n");
    expected.push_str("        return Self { name, count };\n");
    expected.push_str("    }\n");
    expected.push_str(&METHODS_AFTER_CONSTRUCTOR.replace("IDENT", "ExampleModel"));
    expected.push_str("\nimpl ordantic::ToModelDict for ExampleModel {\n");
    expected.push_str("    fn to_model_dict<'py>(&self, py: pyo3::Python<'py>) -> pyo3::PyResult<pyo3::PyObject> {\n");
    expected.push_str("        let dict = pyo3::types::PyDict::new(py);\n");
    expected.push_str("        dict.set_item(\"name\", self.name.to_model_dict(py)?)?;\n");
    expected.push_str("        dict.set_item(\"count\", self.count.to_model_dict(py)?)?;\n");
    expected.push_str("        Ok(dict.into())\n");
    expected.push_str("    }\n");
    expected.push_str("}\n");
    expected
}

fn expected_pair() -> String {
    let mut expected = String::new();
    expected.push_str("#[pyo3::pyclass]\n");
    expected.push_str("#[derive(Debug, PartialEq, Clone, Serialize, Deserialize, schemars::JsonSchema)]\n");
    expected.push_str("struct Pair(String, i64);\n");
    expected.push_str("\n#[pyo3::pymethods]\n");
    expected.push_str("impl Pair {\n");
    expected.push_str("    #[new]\n");
    expected.push_str("    fn new(val_0: String, val_1: i64) -> Self {\n");
    expected.push_str("        return Self(val_0, val_1);\n");
    expected.push_str("    }\n");
    expected.push_str(&METHODS_AFTER_CONSTRUCTOR.replace("IDENT", "Pair"));
    expected.push_str("\nimpl ordantic::ToModelDict for Pair {\n");
    expected.push_str("    fn to_model_dict<'py>(&self, py: pyo3::Python<'py>) -> pyo3::PyResult<pyo3::PyObject> {\n");
    expected.push_str("        let tuple = pyo3::types::PyTuple::new(py, vec![self.0.to_model_dict(py)?, self.1.to_model_dict(py)?]);\n");
    expected.push_str("        Ok(tuple.into())\n");
    expected.push_str("    }\n");
    expected.push_str("}\n");
    expected
}

#[test]
fn named_model_source_is_exact() {
    let fields = vec![named_field(&[], "", "name", "String"), named_field(&[], "", "count", "i64")];
    let declared = plain("ExampleModel", DeclaredFields::Named(fields.clone()));
    assert_eq!(struct_named_fields_impl(&declared, &fields), expected_named_example());
}

#[test]
fn positional_model_source_is_exact() {
    let fields = vec![positional_field(&[], "", "String"), positional_field(&[], "", "i64")];
    let declared = plain("Pair", DeclaredFields::Unnamed(fields.clone()));
    assert_eq!(struct_unnamed_fields_impl(&declared, &fields), expected_pair());
}

#[test]
fn named_struct_keeps_its_own_parts_and_exposes_every_field() {
    let fields = vec![
        named_field(&["#[a]", "#[b(c)]"], "pub", "name", "String"),
        named_field(&[], "pub(crate)", "count", "Vec<T>"),
    ];
    let declared = StructDeclaration {
        attrs: vec!["#[doc = \"x\"]".to_string(), "#[y]".to_string()],
        vis: "pub".to_string(),
        ident: "Holder".to_string(),
        generics: "<T>".to_string(),
        where_clause: "where T: Clone".to_string(),
        fields: DeclaredFields::Named(fields.clone()),
    };
    let source = struct_named_fields_impl(&declared, &fields);
    let expected_struct = "#[derive(Debug, PartialEq, Clone, Serialize, Deserialize, schemars::JsonSchema)]\n\
#[doc = \"x\"]\n\
#[y]\n\
pub struct Holder<T> where T: Clone {\n    \
#[a] #[b(c)] #[pyo3(get, set)] pub name: String,\n    \
#[pyo3(get, set)] pub(crate) count: Vec<T>,\n\
}\n\n#[pyo3::pymethods]\nimpl Holder {\n";
    assert!(source.contains(expected_struct), "{}", source);
    assert!(source.contains("    fn new(name: String, count: Vec<T>) -> Self {\n        return Self { name, count };\n"));
}

#[test]
fn tuple_struct_is_emitted_unchanged() {
    let fields = vec![positional_field(&["#[x]"], "pub", "String"), positional_field(&[], "", "T")];
    let declared = StructDeclaration {
        attrs: vec!["#[y]".to_string()],
        vis: "pub".to_string(),
        ident: "Pair".to_string(),
        generics: "<T>".to_string(),
        where_clause: "where T: Clone".to_string(),
        fields: DeclaredFields::Unnamed(fields.clone()),
    };
    let source = struct_unnamed_fields_impl(&declared, &fields);
    assert!(source.contains("#[y]\npub struct Pair<T>(#[x] pub String, T) where T: Clone;\n"), "{}", source);
    assert!(!source.contains("#[pyo3(get, set)]"));
}

#[test]
fn positional_arguments_are_named_by_position() {
    let fields: Vec<PositionalField> = (0..12).map(|_| positional_field(&[], "", "u8")).collect();
    let declared = plain("Wide", DeclaredFields::Unnamed(fields.clone()));
    let source = struct_unnamed_fields_impl(&declared, &fields);
    assert!(source.contains(
        "fn new(val_0: u8, val_1: u8, val_2: u8, val_3: u8, val_4: u8, val_5: u8, val_6: u8, val_7: u8, val_8: u8, val_9: u8, val_10: u8, val_11: u8) -> Self {"
    ));
    assert!(source.contains(
        "return Self(val_0, val_1, val_2, val_3, val_4, val_5, val_6, val_7, val_8, val_9, val_10, val_11);"
    ));
    assert!(source.contains("self.9.to_model_dict(py)?, self.10.to_model_dict(py)?, self.11.to_model_dict(py)?]);"));
}

#[test]
fn models_without_fields() {
    let named = plain("Empty", DeclaredFields::Named(Vec::new()));
    let source = struct_named_fields_impl(&named, &Vec::new());
    assert!(source.contains("struct Empty {\n}\n"));
    assert!(source.contains("fn new() -> Self {\n        return Self {  };\n"));
    assert!(source.contains("let dict = pyo3::types::PyDict::new(py);\n        Ok(dict.into())\n"));
    let positional = plain("Empty", DeclaredFields::Unnamed(Vec::new()));
    let source = struct_unnamed_fields_impl(&positional, &Vec::new());
    assert!(source.contains("struct Empty();\n"));
    assert!(source.contains("fn new() -> Self {\n        return Self();\n"));
    assert!(source.contains("pyo3::types::PyTuple::new(py, vec![]);"));
}

#[test]
fn emit_follows_the_classification() {
    let named = vec![named_field(&[], "", "name", "String"), named_field(&[], "", "count", "i64")];
    let declared = plain("ExampleModel", DeclaredFields::Named(named.clone()));
    assert_eq!(emit(&declared, &FieldList::Named(&named)), expected_named_example());
    let positional = vec![positional_field(&[], "", "String"), positional_field(&[], "", "i64")];
    let declared = plain("Pair", DeclaredFields::Unnamed(positional.clone()));
    assert_eq!(emit(&declared, &FieldList::Positional(&positional)), expected_pair());
}

#[test]
fn struct_impl_expands_or_rejects() {
    let named = vec![named_field(&[], "", "name", "String"), named_field(&[], "", "count", "i64")];
    assert_eq!(
        struct_impl(&plain("ExampleModel", DeclaredFields::Named(named))),
        Ok(expected_named_example())
    );
    let positional = vec![positional_field(&[], "", "String"), positional_field(&[], "", "i64")];
    assert_eq!(struct_impl(&plain("Pair", DeclaredFields::Unnamed(positional))), Ok(expected_pair()));
    assert_eq!(
        struct_impl(&plain("Nothing", DeclaredFields::Unit)),
        Err(Diagnostic::UnsupportedFields)
    );
}

#[test]
fn expand_rejects_what_is_no_struct() {
    assert_eq!(expand(&TypeDeclaration::Other), Err(Diagnostic::NotAStruct));
    assert_eq!(
        expand(&TypeDeclaration::Struct(plain("Nothing", DeclaredFields::Unit))),
        Err(Diagnostic::UnsupportedFields)
    );
}

#[test]
fn model_expands_source_text() {
    assert_eq!(
        model("", "struct ExampleModel { name: String, count: i64 }"),
        Ok(expected_named_example())
    );
    assert_eq!(model("", "struct Pair(String, i64);"), Ok(expected_pair()));
}

#[test]
fn model_ignores_the_annotation_arguments() {
    assert_eq!(
        model("anything, at = \"all\"", "struct Pair(String, i64);"),
        model("", "struct Pair(String, i64);")
    );
}

#[test]
fn model_reports_diagnostics() {
    assert_eq!(model("", "struct Nothing;"), Err(Diagnostic::UnsupportedFields));
    assert_eq!(model("", "enum Choice { A }"), Err(Diagnostic::NotAStruct));
    assert_eq!(model("", "fn f() {}"), Err(Diagnostic::NotAStruct));
    assert!(matches!(model("", "struct {"), Err(Diagnostic::Syntax(_))));
}

#[test]
fn emitted_source_is_a_sequence_of_items() {
    let source = model("", "#[x] pub struct ExampleModel<T> where T: Clone { #[a] pub name: String, count: Vec<T> }").unwrap();
    let file = syn::parse_file(&source).unwrap();
    assert_eq!(file.items.len(), 3);
    assert!(matches!(file.items[0], syn::Item::Struct(_)));
    assert!(matches!(file.items[1], syn::Item::Impl(_)));
    assert!(matches!(file.items[2], syn::Item::Impl(_)));
    let source = model("", "pub struct Pair<T>(pub String, #[x] T) where T: Clone;").unwrap();
    let file = syn::parse_file(&source).unwrap();
    assert_eq!(file.items.len(), 3);
}

#[test]
fn emitted_methods_carry_the_runtime_messages() {
    let source = model("", "struct Pair(String, i64);").unwrap();
    for error in [
        ordantic_core::OrdanticError::NotImplemented,
        ordantic_core::OrdanticError::FailedToSerialize,
        ordantic_core::OrdanticError::FailedToDeserialize,
    ] {
        assert!(source.contains(&format!("new_err(\"{}\")", error.message())));
    }
}
