use ordantic_core::codec::{json, parse_raw};
use ordantic_core::convert::{DynamicValue, Entry};
use ordantic_core::error::OrdanticError;
use ordantic_core::schema::{schema, schema_json};
use schemars::gen::SchemaGenerator;
use schemars::schema::RootSchema;

fn entry(key: &str, value: &str) -> Entry {
    Entry { key: key.to_string(), value: DynamicValue::Text(value.to_string()) }
}

#[test]
fn text_that_is_not_json_fails_to_deserialize() {
    assert_eq!(parse_raw("not json"), Err(OrdanticError::FailedToDeserialize));
    assert_eq!(parse_raw(""), Err(OrdanticError::FailedToDeserialize));
    assert_eq!(parse_raw("{\"name\": "), Err(OrdanticError::FailedToDeserialize));
    assert_eq!(parse_raw("not json").unwrap_err().message(), "failed to deserialize");
}

#[test]
fn json_text_is_read_into_a_value() {
    let value = parse_raw("{\"name\": \"a\", \"count\": 3}").unwrap();
    assert_eq!(value["name"], serde_json::Value::from("a"));
    assert_eq!(value["count"], serde_json::Value::from(3));
    assert_eq!(parse_raw("[\"a\", 3]").unwrap(), serde_json::Value::from(vec![
        serde_json::Value::from("a"),
        serde_json::Value::from(3),
    ]));
}

#[test]
fn value_is_written_as_json_text() {
    let value = serde_json::Value::from(vec![serde_json::Value::from("a"), serde_json::Value::from(3)]);
    assert_eq!(json(&value), Ok("[\"a\",3]".to_string()));
    let mut object = serde_json::Map::new();
    object.insert("count".to_string(), serde_json::Value::from(3));
    object.insert("name".to_string(), serde_json::Value::from("a"));
    assert_eq!(json(&serde_json::Value::Object(object)), Ok("{\"count\":3,\"name\":\"a\"}".to_string()));
}

#[test]
fn serialized_value_is_recovered() {
    for text in [
        "{\"name\": \"a\", \"count\": 3}",
        "[\"a\", 3]",
        "{\"model\": {\"name\": \"a\", \"count\": 3}, \"flags\": [true, false, null]}",
        "\"just text\"",
        "-12",
    ] {
        let value = parse_raw(text).unwrap();
        let written = json(&value).unwrap();
        assert_eq!(parse_raw(&written), Ok(value));
    }
}

#[test]
fn schema_holds_meta_schema_title_and_type() {
    let document = SchemaGenerator::default().into_root_schema_for::<String>();
    assert_eq!(
        schema(&document),
        DynamicValue::Mapping(vec![
            entry("$schema", "http://json-schema.org/draft-07/schema#"),
            entry("title", "ExampleModel"),
            entry("type", "object"),
        ])
    );
}

#[test]
fn schema_without_meta_schema_holds_title_and_type() {
    let document = RootSchema::default();
    assert_eq!(
        schema(&document),
        DynamicValue::Mapping(vec![entry("title", "ExampleModel"), entry("type", "object")])
    );
}

#[test]
fn schema_drops_the_definitions() {
    let document = SchemaGenerator::default().into_root_schema_for::<Vec<Option<std::time::Duration>>>();
    assert!(!document.definitions.is_empty());
    match schema(&document) {
        DynamicValue::Mapping(entries) => {
            let keys: Vec<&str> = entries.iter().map(|e| e.key.as_str()).collect();
            assert_eq!(keys, vec!["$schema", "title", "type"]);
        }
        other => panic!("expected a mapping, got {:?}", other),
    }
}

#[test]
fn schema_json_is_the_description_as_text() {
    let document = SchemaGenerator::default().into_root_schema_for::<String>();
    assert_eq!(
        schema_json(&document),
        Ok("{\"$schema\":\"http://json-schema.org/draft-07/schema#\",\"title\":\"String\",\"type\":\"string\"}".to_string())
    );
    assert_eq!(schema_json(&RootSchema::default()), Ok("{}".to_string()));
}
