use ordantic_core::shape::{
    analyze, analyze_struct, DeclaredFields, Diagnostic, FieldList, NamedField, PositionalField,
    StructDeclaration, TypeDeclaration,
};
use ordantic_core::syntax::parse_declaration;

/// Token text without its whitespace: how tokens are spaced is the
/// printer's choice.
fn squeezed(text: &str) -> String {
    text.chars().filter(|c| !c.is_whitespace()).collect()
}

fn named_field(ident: &str, ty: &str) -> NamedField {
    NamedField { attrs: Vec::new(), vis: String::new(), ident: ident.to_string(), ty: ty.to_string() }
}

fn positional_field(ty: &str) -> PositionalField {
    PositionalField { attrs: Vec::new(), vis: String::new(), ty: ty.to_string() }
}

fn declaration(ident: &str, fields: DeclaredFields) -> StructDeclaration {
    StructDeclaration {
        attrs: Vec::new(),
        vis: String::new(),
        ident: ident.to_string(),
        generics: String::new(),
        where_clause: String::new(),
        fields,
    }
}

#[test]
fn named_struct_is_classified_as_named() {
    let fields = vec![named_field("name", "String"), named_field("count", "i64")];
    let declared = TypeDeclaration::Struct(declaration("ExampleModel", DeclaredFields::Named(fields.clone())));
    assert_eq!(analyze(&declared), Ok(FieldList::Named(&fields)));
}

#[test]
fn positional_struct_is_classified_as_positional() {
    let fields = vec![positional_field("String"), positional_field("i64")];
    let declared = TypeDeclaration::Struct(declaration("Pair", DeclaredFields::Unnamed(fields.clone())));
    assert_eq!(analyze(&declared), Ok(FieldList::Positional(&fields)));
}

#[test]
fn field_order_is_preserved() {
    let fields = vec![named_field("z", "u8"), named_field("a", "u8"), named_field("m", "u8")];
    let declared = declaration("Ordered", DeclaredFields::Named(fields));
    match analyze_struct(&declared) {
        Ok(FieldList::Named(found)) => {
            let names: Vec<&str> = found.iter().map(|f| f.ident.as_str()).collect();
            assert_eq!(names, vec!["z", "a", "m"]);
        }
        other => panic!("expected named fields, got {:?}", other),
    }
}

#[test]
fn unit_struct_is_rejected() {
    let declared = TypeDeclaration::Struct(declaration("Nothing", DeclaredFields::Unit));
    assert_eq!(analyze(&declared), Err(Diagnostic::UnsupportedFields));
    assert_eq!(
        analyze_struct(&declaration("Nothing", DeclaredFields::Unit)),
        Err(Diagnostic::UnsupportedFields)
    );
}

#[test]
fn non_struct_is_rejected() {
    assert_eq!(analyze(&TypeDeclaration::Other), Err(Diagnostic::NotAStruct));
}

#[test]
fn empty_field_lists_are_still_classified() {
    let named = declaration("Empty", DeclaredFields::Named(Vec::new()));
    assert_eq!(analyze_struct(&named), Ok(FieldList::Named(&Vec::new())));
    let positional = declaration("Empty", DeclaredFields::Unnamed(Vec::new()));
    assert_eq!(analyze_struct(&positional), Ok(FieldList::Positional(&Vec::new())));
}

#[test]
fn diagnostic_messages_are_fixed() {
    assert_eq!(Diagnostic::NotAStruct.message(), "only structs are supported");
    assert_eq!(
        Diagnostic::UnsupportedFields.message(),
        "only named or positional fields are supported"
    );
    assert_eq!(Diagnostic::Syntax("expected `;`".to_string()).message(), "expected `;`");
}

#[test]
fn parsed_named_struct_is_read_part_by_part() {
    let declared = parse_declaration("#[x] pub struct ExampleModel { pub name: String, #[y] count: i64 }");
    match declared {
        Ok(TypeDeclaration::Struct(found)) => {
            assert_eq!(found.attrs.len(), 1);
            assert_eq!(squeezed(&found.attrs[0]), "#[x]");
            assert_eq!(found.vis, "pub");
            assert_eq!(found.ident, "ExampleModel");
            assert_eq!(found.generics, "");
            assert_eq!(found.where_clause, "");
            match found.fields {
                DeclaredFields::Named(fields) => {
                    assert_eq!(fields.len(), 2);
                    assert_eq!(fields[0].attrs, Vec::<String>::new());
                    assert_eq!(fields[0].vis, "pub");
                    assert_eq!(fields[0].ident, "name");
                    assert_eq!(fields[0].ty, "String");
                    assert_eq!(fields[1].attrs.len(), 1);
                    assert_eq!(squeezed(&fields[1].attrs[0]), "#[y]");
                    assert_eq!(fields[1].vis, "");
                    assert_eq!(fields[1].ident, "count");
                    assert_eq!(fields[1].ty, "i64");
                }
                other => panic!("expected named fields, got {:?}", other),
            }
        }
        other => panic!("expected a struct, got {:?}", other),
    }
}

#[test]
fn parsed_tuple_struct_is_read_part_by_part() {
    match parse_declaration("struct Pair(pub String, i64);") {
        Ok(TypeDeclaration::Struct(found)) => {
            assert_eq!(found.ident, "Pair");
            assert_eq!(
                found.fields,
                DeclaredFields::Unnamed(vec![
                    PositionalField { attrs: Vec::new(), vis: "pub".to_string(), ty: "String".to_string() },
                    PositionalField { attrs: Vec::new(), vis: String::new(), ty: "i64".to_string() },
                ])
            );
        }
        other => panic!("expected a struct, got {:?}", other),
    }
}

#[test]
fn parsed_generics_and_where_clause_are_kept() {
    match parse_declaration("struct Holder<T> where T: Clone { item: T }") {
        Ok(TypeDeclaration::Struct(found)) => {
            assert_eq!(squeezed(&found.generics), "<T>");
            assert_eq!(squeezed(&found.where_clause), "whereT:Clone");
        }
        other => panic!("expected a struct, got {:?}", other),
    }
}

#[test]
fn parsed_unit_struct_and_other_items() {
    match parse_declaration("struct Nothing;") {
        Ok(TypeDeclaration::Struct(found)) => assert_eq!(found.fields, DeclaredFields::Unit),
        other => panic!("expected a struct, got {:?}", other),
    }
    assert_eq!(parse_declaration("enum Choice { A, B }"), Ok(TypeDeclaration::Other));
    assert_eq!(parse_declaration("fn main() {}"), Ok(TypeDeclaration::Other));
}

#[test]
fn text_that_is_no_item_is_a_syntax_diagnostic() {
    match parse_declaration("struct") {
        Err(Diagnostic::Syntax(message)) => {
            assert_eq!(message, "unexpected end of input, expected identifier")
        }
        other => panic!("expected a syntax diagnostic, got {:?}", other),
    }
    assert!(matches!(parse_declaration("not an item"), Err(Diagnostic::Syntax(_))));
}

#[test]
fn analyzer_classifies_parsed_declarations() {
    let named = parse_declaration("struct A { x: u8 }").unwrap();
    assert!(matches!(analyze(&named), Ok(FieldList::Named(_))));
    let positional = parse_declaration("struct B(u8);").unwrap();
    assert!(matches!(analyze(&positional), Ok(FieldList::Positional(_))));
    let unit = parse_declaration("struct C;").unwrap();
    assert_eq!(analyze(&unit), Err(Diagnostic::UnsupportedFields));
    let other = parse_declaration("trait D {}").unwrap();
    assert_eq!(analyze(&other), Err(Diagnostic::NotAStruct));
}
