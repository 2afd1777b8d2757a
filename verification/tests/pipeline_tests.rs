use dirtcrunch::codegen::{create_file, create_objects};
use dirtcrunch::errors::OpError;
use dirtcrunch::pipeline::{
    bounded_prefix, image_ref, pair_results, render_sources, ConnectorDefinition, HarvestSlot,
    DEFAULT_CATALOG_BOUND,
};

fn def(name: &str, repo: &str, tag: &str) -> ConnectorDefinition {
    ConnectorDefinition {
        name: name.to_string(),
        docker_repository: repo.to_string(),
        docker_image_tag: tag.to_string(),
        source_type: "api".to_string(),
        documentation_url: "https://docs.example/".to_string(),
    }
}

#[test]
fn harvest_produces_one_slot_per_definition_in_order() {
    let defs = vec![
        def("Amazon Seller Partner", "airbyte/source-amazon-seller-partner", "0.2.0"),
        def("Asana", "airbyte/source-asana", "0.1.3"),
        def("File", "airbyte/source-file", "0.2.6"),
    ];
    let outcomes: Vec<Result<String, OpError>> = vec![
        Ok("{\"spec\":1}".to_string()),
        Err(OpError::ImagePullError),
        Ok("{\"spec\":3}".to_string()),
    ];
    let slots = pair_results(defs, outcomes);
    assert_eq!(slots.len(), 3);
    assert_eq!(slots[0].def.name, "Amazon Seller Partner");
    assert_eq!(slots[0].outcome, Ok("{\"spec\":1}".to_string()));
    assert_eq!(slots[1].def.name, "Asana");
    assert_eq!(slots[1].outcome, Err(OpError::ImagePullError));
    assert_eq!(slots[2].def.name, "File");
    assert_eq!(slots[2].outcome, Ok("{\"spec\":3}".to_string()));
}

#[test]
fn one_failure_does_not_disturb_sibling_slots() {
    let defs = vec![def("A", "r/a", "1"), def("B", "r/b", "2")];
    let outcomes: Vec<Result<String, OpError>> =
        vec![Err(OpError::CreateError), Ok("{}".to_string())];
    let slots = pair_results(defs, outcomes);
    assert_eq!(slots.len(), 2);
    assert_eq!(slots[0].outcome, Err(OpError::CreateError));
    assert_eq!(slots[1].outcome, Ok("{}".to_string()));
}

#[test]
fn catalog_is_bounded_to_a_prefix() {
    let mut defs: Vec<ConnectorDefinition> =
        (0..7).map(|i| def(&format!("c{}", i), "r", "1")).collect();
    bounded_prefix(&mut defs, DEFAULT_CATALOG_BOUND);
    assert_eq!(defs.len(), 5);
    assert_eq!(defs[0].name, "c0");
    assert_eq!(defs[4].name, "c4");

    let mut short: Vec<ConnectorDefinition> =
        (0..3).map(|i| def(&format!("c{}", i), "r", "1")).collect();
    bounded_prefix(&mut short, DEFAULT_CATALOG_BOUND);
    assert_eq!(short.len(), 3);
}

#[test]
fn image_ref_joins_repository_and_tag() {
    let d = def("File", "airbyte/source-file", "0.2.6");
    assert_eq!(image_ref(&d), "airbyte/source-file:0.2.6");
}

#[test]
fn rendering_skips_failed_slots_and_keeps_order() {
    let slots = vec![
        HarvestSlot {
            def: def("Amazon Seller Partner", "airbyte/source-amazon-seller-partner", "0.2.0"),
            outcome: Ok("{\"a\":1}".to_string()),
        },
        HarvestSlot { def: def("Asana", "airbyte/source-asana", "0.1.3"), outcome: Err(OpError::ImagePullError) },
        HarvestSlot {
            def: def("File", "airbyte/source-file", "0.2.6"),
            outcome: Ok("{\"f\":2}".to_string()),
        },
    ];
    let out = render_sources(&slots);
    let first = create_objects(
        "AmazonSellerPartner",
        "airbyte/source-amazon-seller-partner:0.2.0",
        "{\"a\":1}",
    );
    let third = create_objects("File", "airbyte/source-file:0.2.6", "{\"f\":2}");
    let expected = format!("{}\n{}\n", first, third);
    assert_eq!(out, expected);
    assert!(!out.contains("Asana"));
}

#[test]
fn source_objects_contain_struct_names() {
    let slots = vec![
        HarvestSlot {
            def: def("Amazon Seller Partner", "airbyte/source-amazon-seller-partner", "0.2.0"),
            outcome: Ok("{}".to_string()),
        },
        HarvestSlot { def: def("File", "airbyte/source-file", "0.2.6"), outcome: Ok("{}".to_string()) },
        HarvestSlot {
            def: def("Microsoft SQL Server (MSSQL)", "airbyte/source-mssql", "0.3.6"),
            outcome: Ok("{}".to_string()),
        },
    ];
    let file = create_file(render_sources(&slots));
    assert!(file.starts_with("use dirtcrunch::Source;\n"));
    assert!(file.contains("struct AmazonSellerPartner"));
    assert!(file.contains("struct File"));
    assert!(file.contains("struct MicrosoftSQLServer"));
}
