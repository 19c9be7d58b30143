use graphql_orm_ai::capability_description::AiCapabilityDescription;
use graphql_orm_ai::error::AiError;

fn quoted(text: &str) -> String {
    serde_json::to_string(text).unwrap()
}

fn describe(members: Vec<(String, String)>) -> AiCapabilityDescription {
    AiCapabilityDescription::new(
        &"a".repeat(64),
        "jim.query.records.auto",
        "generated_query",
        &"b".repeat(64),
        members,
    )
}

#[test]
fn describe_bounds_the_complete_planning_contract_without_truncation() {
    let description = describe(vec![("loadedReference".to_owned(), quoted(&"a".repeat(64)))]);
    let bounded = description
        .clone()
        .with_plan_schema(
            "{\"additionalProperties\":false,\"properties\":{},\"required\":[],\"type\":\"object\"}",
            1_024,
        )
        .expect("small complete contract should fit");
    let contract: serde_json::Value = serde_json::from_str(&bounded.contract()).unwrap();
    assert_eq!(contract["planSchemaAvailable"], true);
    assert!(contract.get("planSchema").is_some());

    let oversized_schema = format!("{{\"description\":{}}}", quoted(&"x".repeat(2_048)));
    let oversized = description
        .with_plan_schema(&oversized_schema, 1_024)
        .expect("oversized schema should become an explicit unavailable contract");
    let contract: serde_json::Value = serde_json::from_str(&oversized.contract()).unwrap();
    assert_eq!(contract["planSchemaAvailable"], false);
    assert!(contract.get("planSchema").is_none());
    assert!(oversized.contract().len() <= 1_024);

    let oversized_metadata = describe(vec![("description".to_owned(), quoted(&"x".repeat(2_048)))]);
    assert!(matches!(
        oversized_metadata.with_plan_schema("{\"type\":\"object\"}", 1_024),
        Err(AiError::InvalidConfiguration(_))
    ));
}

#[test]
fn contract_members_are_written_in_key_order_and_later_members_win() {
    let description = describe(vec![
        ("version".to_owned(), "1".to_owned()),
        ("capabilityId".to_owned(), quoted("jim.query.records.auto")),
        ("version".to_owned(), "2".to_owned()),
    ]);
    assert_eq!(
        description.contract(),
        "{\"capabilityId\":\"jim.query.records.auto\",\"version\":2}"
    );
    assert_eq!(description.loaded_reference(), "a".repeat(64));
    assert_eq!(description.capability_id(), "jim.query.records.auto");
    assert_eq!(description.capability_kind(), "generated_query");
    assert_eq!(description.capability_fingerprint(), "b".repeat(64));
    let exact = description.clone().with_plan_schema("{}", 1_024).unwrap();
    assert_eq!(
        exact.into_model_result(),
        "{\"capabilityId\":\"jim.query.records.auto\",\"planSchema\":{},\"planSchemaAvailable\":true,\"version\":2}"
    );
    // A bound that admits the contract only without the schema.
    let without = "{\"capabilityId\":\"jim.query.records.auto\",\"planSchemaAvailable\":false,\"version\":2}";
    let fitted = description.with_plan_schema("{\"type\":\"object\"}", without.len() as u32).unwrap();
    assert_eq!(fitted.into_model_result(), without);
}
