use graphql_orm_ai::tools::{
    provider_name_ok, sort_by_tool_id, sort_definitions_stable, ModelToolDefinition,
};

fn tool(id: &str, description: &str) -> ModelToolDefinition {
    ModelToolDefinition {
        tool_id: id.to_owned(),
        provider_name: id.replace('.', "_"),
        fingerprint: "f".repeat(64),
        description: description.to_owned(),
        parameters: "{\"type\":\"object\"}".to_owned(),
        strict: true,
        defer_loading: false,
    }
}

#[test]
fn provider_names_are_short_function_identifiers() {
    assert!(provider_name_ok("app_read-1"));
    assert!(provider_name_ok(&"a".repeat(64)));
    assert!(!provider_name_ok(&"a".repeat(65)));
    assert!(!provider_name_ok(""));
    assert!(!provider_name_ok("app.read"));
    assert!(!provider_name_ok("app read"));
}

#[test]
fn definitions_validate_their_fields() {
    assert!(tool("app.read", "Reads.").validate().is_ok());
    assert!(tool(" ", "Reads.").validate().is_err());
    assert!(tool("app.read", " ").validate().is_err());
    let mut bad_name = tool("app.read", "Reads.");
    bad_name.provider_name = "app.read".to_owned();
    assert!(bad_name.validate().is_err());
    let mut bad_fingerprint = tool("app.read", "Reads.");
    bad_fingerprint.fingerprint = "F".repeat(64);
    assert!(bad_fingerprint.validate().is_err());
    let mut no_schema = tool("app.read", "Reads.");
    no_schema.parameters = String::new();
    assert!(no_schema.validate().is_err());
    let copy = tool("app.read", "Reads.").duplicate();
    assert!(copy == tool("app.read", "Reads."));
}

#[test]
fn sorting_orders_by_tool_id_and_keeps_equal_ids_in_order() {
    let sorted = sort_by_tool_id(vec![tool("c", "x"), tool("a", "x"), tool("b", "x")]);
    let ids: Vec<&str> = sorted.iter().map(|t| t.tool_id.as_str()).collect();
    assert_eq!(ids, ["a", "b", "c"]);

    let stable = sort_definitions_stable(&vec![
        tool("b", "first b"),
        tool("a", "only a"),
        tool("b", "second b"),
    ]);
    let order: Vec<&str> = stable.iter().map(|t| t.description.as_str()).collect();
    assert_eq!(order, ["only a", "first b", "second b"]);
}
