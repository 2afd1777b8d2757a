use dirtcrunch::codegen::{create_binding, create_file, create_objects, struct_name_of};
use dirtcrunch::errors::SchemaError;
use dirtcrunch::schema::{create_config, Field};

#[test]
fn struct_name_takes_first_three_words() {
    assert_eq!(struct_name_of("Amazon Seller Partner"), "AmazonSellerPartner");
    assert_eq!(struct_name_of("Microsoft SQL Server (MSSQL)"), "MicrosoftSQLServer");
    assert_eq!(struct_name_of("File"), "File");
    assert_eq!(struct_name_of("a b c d"), "abc");
    assert_eq!(struct_name_of("  padded   name  "), "paddedname");
    assert_eq!(struct_name_of(""), "");
    assert_eq!(struct_name_of("   "), "");
}

#[test]
fn create_file_wraps_content() {
    let out = create_file("CONTENT GOES HERE".to_string());
    assert_eq!(out, "use dirtcrunch::Source;\n\nCONTENT GOES HERE\n");
}

#[test]
fn create_objects_emits_expected_fragment() {
    let out = create_objects("SourceFile", "airbyte/source-file", "{\"spec\":{}}");
    let expected = format!(
        "pub struct {n} {{}}\n\nimpl {n} {{\n    pub fn new() -> Self {{\n        Self {{}}\n    }}\n}}\n\n#[async_trait::async_trait]\nimpl<'a> Source<'a> for {n} {{\n    const IMAGE: &'a str = \"{i}\";\n    fn specs(&self) -> serde_json::Value {{ \n        serde_json::Value::String(r#\" {s} \"#.to_string())\n    }}\n}}\n",
        n = "SourceFile",
        i = "airbyte/source-file",
        s = "{\"spec\":{}}",
    );
    assert_eq!(out, expected);
}

#[test]
fn create_binding_pairs_configuration_and_stub() {
    let fields = vec![
        Field { name: "host".to_string(), ftype: "string".to_string() },
        Field { name: "port".to_string(), ftype: "integer".to_string() },
    ];
    let out = create_binding("SourceFile", "airbyte/source-file:0.2.6", "{}", &fields).unwrap();
    let expected = format!(
        "{}\n{}",
        create_config("SourceFile", &fields).unwrap(),
        create_objects("SourceFile", "airbyte/source-file:0.2.6", "{}"),
    );
    assert_eq!(out, expected);
    assert!(out.contains("pub struct ConfigSourceFile {"));
    assert!(out.contains("pub struct SourceFile {}"));
}

#[test]
fn create_binding_rejects_unsupported_kinds() {
    let fields = vec![Field { name: "flag".to_string(), ftype: "boolean".to_string() }];
    let err = create_binding("F", "r:1", "{}", &fields).unwrap_err();
    assert_eq!(
        err,
        SchemaError::UnsupportedKind { field: "flag".to_string(), kind: "boolean".to_string() }
    );
}

#[test]
fn create_objects_embeds_image_and_payload() {
    let out = create_objects("X", "repo/img:1.0", "{\"a\":1}");
    assert!(out.contains("pub struct X {}"));
    assert!(out.contains("const IMAGE: &'a str = \"repo/img:1.0\";"));
    assert!(out.contains("r#\" {\"a\":1} \"#"));
}
