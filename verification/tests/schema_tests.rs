use dirtcrunch::errors::SchemaError;
use dirtcrunch::schema::{create_config, create_fields, ConfigSchema, Field, Property};

fn prop(name: &str, kind: &str) -> Property {
    Property { name: name.to_string(), kind: kind.to_string() }
}

fn schema(required: &[&str], props: Vec<Property>) -> ConfigSchema {
    ConfigSchema {
        required: required.iter().map(|s| s.to_string()).collect(),
        properties: props,
    }
}

#[test]
fn fields_resolve_in_declared_order() {
    let s = schema(
        &["host", "port"],
        vec![prop("port", "integer"), prop("host", "string")],
    );
    let fields = create_fields(&s).unwrap();
    assert_eq!(fields.len(), 2);
    assert_eq!(fields[0].name, "host");
    assert_eq!(fields[0].ftype, "string");
    assert_eq!(fields[1].name, "port");
    assert_eq!(fields[1].ftype, "integer");
}

#[test]
fn missing_type_is_a_schema_error() {
    let s = schema(&["host", "port"], vec![prop("host", "string")]);
    let err = create_fields(&s).unwrap_err();
    assert_eq!(err, SchemaError::MissingType { field: "port".to_string() });
}

#[test]
fn generation_emits_expected_structure() {
    let fields = vec![
        Field { name: "host".to_string(), ftype: "string".to_string() },
        Field { name: "port".to_string(), ftype: "integer".to_string() },
    ];
    let out = create_config("X", &fields).unwrap();
    let expected = "#[derive(serde::Serialize, serde::Deserialize)]\n\
                    pub struct ConfigX {\n\
                    \tpub host: String,\n\
                    \tpub port: i32,\n\
                    \n}\n";
    assert_eq!(out, expected);
}

#[test]
fn generation_is_deterministic() {
    let s = schema(
        &["host", "port"],
        vec![prop("host", "string"), prop("port", "integer")],
    );
    let once = create_config("Db", &create_fields(&s).unwrap()).unwrap();
    let twice = create_config("Db", &create_fields(&s).unwrap()).unwrap();
    assert_eq!(once, twice);
    assert!(once.contains("\tpub host: String,\n\tpub port: i32,\n"));
}

#[test]
fn object_kind_maps_to_text() {
    let fields = vec![Field { name: "creds".to_string(), ftype: "object".to_string() }];
    let out = create_config("S", &fields).unwrap();
    assert!(out.contains("\tpub creds: String,\n"));
}

#[test]
fn unsupported_kind_is_a_schema_error() {
    let s = schema(&["flag"], vec![prop("flag", "boolean")]);
    let fields = create_fields(&s).unwrap();
    let err = create_config("F", &fields).unwrap_err();
    assert_eq!(
        err,
        SchemaError::UnsupportedKind { field: "flag".to_string(), kind: "boolean".to_string() }
    );
}

#[test]
fn empty_field_list_generates_empty_structure() {
    let out = create_config("Empty", &Vec::new()).unwrap();
    let expected = "#[derive(serde::Serialize, serde::Deserialize)]\n\
                    pub struct ConfigEmpty {\n\
                    \n}\n";
    assert_eq!(out, expected);
}
