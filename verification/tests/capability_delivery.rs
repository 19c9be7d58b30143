use graphql_orm_ai::capability_delivery::{
    capability_broker_definitions, capability_definition_bytes,
    prepare_capability_delivery_surface,
    select_capability_delivery_mode, AiCapabilityDeliveryDecision, AiCapabilityDeliveryLimits,
    AiCapabilityDeliveryMode, AiProviderCapabilitySessionBinding, ModelReasoningEffort,
    ProviderCapabilities, AI_CAPABILITY_EXECUTE_TOOL_ID,
};
use graphql_orm_ai::error::AiError;
use graphql_orm_ai::tools::ModelToolDefinition;
use sha2::Digest;

fn hash_text(text: &str) -> String {
    hex::encode(sha2::Sha256::digest(text.as_bytes()))
}

fn parameters(id_description: Option<&str>) -> String {
    let id = match id_description {
        Some(description) => format!(
            "{{\"description\":{},\"type\":\"string\"}}",
            serde_json::to_string(description).unwrap()
        ),
        None => "{\"type\":\"string\"}".to_owned(),
    };
    format!(
        "{{\"additionalProperties\":false,\"properties\":{{\"id\":{id}}},\"required\":[\"id\"],\"type\":\"object\"}}"
    )
}

fn definition(id: &str) -> ModelToolDefinition {
    ModelToolDefinition {
        tool_id: id.to_owned(),
        provider_name: id.replace('.', "_"),
        fingerprint: hash_text(&format!("{{\"id\":{}}}", serde_json::to_string(id).unwrap())),
        description: "Read one reviewed record.".to_owned(),
        parameters: parameters(None),
        strict: true,
        defer_loading: false,
    }
}

fn json_bytes(definitions: &[ModelToolDefinition]) -> usize {
    capability_definition_bytes(definitions).expect("definitions should serialize")
}

#[test]
fn frozen_retained_and_large_native_surfaces_select_distinct_modes() {
    let mut capabilities = ProviderCapabilities {
        custom_tools: true,
        ..ProviderCapabilities::default()
    };
    capabilities.capability_delivery_modes = vec![
        AiCapabilityDeliveryMode::EagerExact,
        AiCapabilityDeliveryMode::ProviderDeferred,
        AiCapabilityDeliveryMode::FixedBroker,
    ];
    let limits = AiCapabilityDeliveryLimits::default();
    assert_eq!(
        select_capability_delivery_mode(&capabilities, 2, 1_024, false, limits)
            .expect("small surface should select")
            .mode(),
        AiCapabilityDeliveryMode::EagerExact
    );
    assert_eq!(
        select_capability_delivery_mode(&capabilities, 55, 4_917_706, false, limits)
            .expect("large surface should select")
            .mode(),
        AiCapabilityDeliveryMode::ProviderDeferred
    );
    assert_eq!(
        select_capability_delivery_mode(&capabilities, 55, 4_917_706, true, limits)
            .expect("frozen surface should select")
            .mode(),
        AiCapabilityDeliveryMode::FixedBroker
    );

    capabilities.capability_delivery_modes = vec![AiCapabilityDeliveryMode::ClientDeferred];
    assert!(matches!(
        select_capability_delivery_mode(&capabilities, 55, 4_917_706, true, limits),
        Err(AiError::InvalidConfiguration(_))
    ));
}

#[test]
fn retained_binding_changes_for_every_execution_relevant_dimension() {
    let make = |mode, effort, model: &str| {
        AiProviderCapabilitySessionBinding::new(
            mode,
            &"a".repeat(64),
            vec!["b".repeat(64)],
            "openai-strict/v1",
            model,
            effort,
            &"c".repeat(64),
        )
        .expect("binding should validate")
    };
    let base = make(
        AiCapabilityDeliveryMode::FixedBroker,
        ModelReasoningEffort::Unspecified,
        "gpt-test",
    );
    assert_ne!(
        base.fingerprint(),
        make(
            AiCapabilityDeliveryMode::ProviderDeferred,
            ModelReasoningEffort::Unspecified,
            "gpt-test"
        )
        .fingerprint()
    );
    assert_ne!(
        base.fingerprint(),
        make(
            AiCapabilityDeliveryMode::FixedBroker,
            ModelReasoningEffort::High,
            "gpt-test"
        )
        .fingerprint()
    );
    assert_ne!(
        base.fingerprint(),
        make(
            AiCapabilityDeliveryMode::FixedBroker,
            ModelReasoningEffort::Unspecified,
            "gpt-next"
        )
        .fingerprint()
    );
}

#[test]
fn deferred_and_fixed_surfaces_remain_small_and_mode_exact() {
    let fingerprint = "a".repeat(64);
    let definitions = (0..55)
        .map(|index| {
            let mut definition = definition(&format!("jim.generated.{index:02}"));
            definition.parameters = parameters(Some(&"x".repeat(90_000)));
            definition
        })
        .collect::<Vec<_>>();
    assert!(json_bytes(&definitions) >= 4_900_000);
    let provider_deferred = prepare_capability_delivery_surface(
        AiCapabilityDeliveryDecision {
            mode: AiCapabilityDeliveryMode::ProviderDeferred,
        },
        &fingerprint,
        definitions.clone(),
    )
    .expect("native deferred surface should project");
    assert!(provider_deferred
        .tools()
        .iter()
        .all(|tool| tool.defer_loading));

    let client = prepare_capability_delivery_surface(
        AiCapabilityDeliveryDecision {
            mode: AiCapabilityDeliveryMode::ClientDeferred,
        },
        &fingerprint,
        definitions.clone(),
    )
    .expect("client discovery surface should project");
    assert_eq!(client.tools().len(), 1);
    assert_eq!(client.tools()[0].tool_id, "graphql.capabilities.discover");
    assert!(json_bytes(client.tools()) < 4_096);

    let fixed = prepare_capability_delivery_surface(
        AiCapabilityDeliveryDecision {
            mode: AiCapabilityDeliveryMode::FixedBroker,
        },
        &fingerprint,
        definitions,
    )
    .expect("fixed broker should project");
    assert_eq!(fixed.tools().len(), 3);
    assert!(json_bytes(fixed.tools()) < 12_288);
    assert!(fixed
        .tools()
        .iter()
        .all(|tool| json_bytes(std::slice::from_ref(tool)) < 4_096));
}

#[test]
fn application_definition_cannot_claim_a_reserved_broker_id() {
    let mut reserved = definition(AI_CAPABILITY_EXECUTE_TOOL_ID);
    reserved.provider_name = "application_execute".to_owned();
    assert!(matches!(
        prepare_capability_delivery_surface(
            AiCapabilityDeliveryDecision {
                mode: AiCapabilityDeliveryMode::EagerExact,
            },
            &"a".repeat(64),
            vec![reserved],
        ),
        Err(AiError::InvalidConfiguration(_))
    ));
}

#[test]
fn eager_surface_keeps_the_exact_definitions_sorted() {
    let surface = prepare_capability_delivery_surface(
        AiCapabilityDeliveryDecision {
            mode: AiCapabilityDeliveryMode::EagerExact,
        },
        &"a".repeat(64),
        vec![definition("jim.b"), definition("jim.a")],
    )
    .expect("eager surface should project");
    assert_eq!(surface.mode(), AiCapabilityDeliveryMode::EagerExact);
    let ids: Vec<&str> = surface.tools().iter().map(|t| t.tool_id.as_str()).collect();
    assert_eq!(ids, vec!["jim.a", "jim.b"]);
    assert!(surface.tools().iter().all(|t| !t.defer_loading));
}

#[test]
fn duplicate_definitions_are_refused() {
    assert!(matches!(
        prepare_capability_delivery_surface(
            AiCapabilityDeliveryDecision {
                mode: AiCapabilityDeliveryMode::EagerExact,
            },
            &"a".repeat(64),
            vec![definition("jim.a"), definition("jim.a")],
        ),
        Err(AiError::InvalidConfiguration(_))
    ));
}

#[test]
fn fixed_broker_execute_admits_the_minimal_schema_aligned_wrapper() {
    let definitions = capability_broker_definitions(&"a".repeat(64)).expect("fixed broker definitions");
    let execute = definitions
        .iter()
        .find(|definition| definition.tool_id == AI_CAPABILITY_EXECUTE_TOOL_ID)
        .expect("fixed execute definition");
    let parameters: serde_json::Value =
        serde_json::from_str(&execute.parameters).expect("fixed execute parameters are JSON");
    let minimal: serde_json::Value =
        serde_json::from_str(&format!("{{\"loadedReference\":\"{}\",\"selections\":[\"records.id\"]}}", "b".repeat(64)))
            .unwrap();
    let required: Vec<&str> = parameters["required"]
        .as_array()
        .unwrap()
        .iter()
        .map(|v| v.as_str().unwrap())
        .collect();
    assert_eq!(required, vec!["loadedReference", "selections"]);
    assert_eq!(parameters["additionalProperties"], serde_json::Value::Bool(false));
    for key in minimal.as_object().unwrap().keys() {
        assert!(parameters["properties"].get(key).is_some());
    }
    assert!(execute.description.contains("returned planSchema"));
    assert!(parameters["properties"]["maximumItems"]["description"]
        .as_str()
        .is_some_and(|description| description.contains("only when planSchema exposes")));
}

use graphql_orm_ai::capability_delivery::{
    capability_provider_alias, plan_capability_delivery, AiCapabilityBrokerAmplification, AiCapabilityBrokerOperation,
    AI_CAPABILITY_DESCRIBE_TOOL_ID, AI_CAPABILITY_DISCOVER_TOOL_ID,
};

fn provider(modes: Vec<AiCapabilityDeliveryMode>) -> ProviderCapabilities {
    ProviderCapabilities { custom_tools: true, capability_delivery_modes: modes }
}

#[test]
fn planning_measures_selects_and_builds_in_one_step() {
    let fingerprint = "a".repeat(64);
    let small = vec![definition("app.b"), definition("app.a")];
    let eager = plan_capability_delivery(
        &provider(vec![AiCapabilityDeliveryMode::EagerExact, AiCapabilityDeliveryMode::FixedBroker]),
        &fingerprint,
        small.clone(),
        false,
        AiCapabilityDeliveryLimits::default(),
    )
    .unwrap();
    assert_eq!(eager.mode(), AiCapabilityDeliveryMode::EagerExact);
    assert_eq!(eager.tools().len(), 2);
    assert_eq!(eager.tools()[0].tool_id, "app.a");

    let frozen = plan_capability_delivery(
        &provider(vec![AiCapabilityDeliveryMode::EagerExact, AiCapabilityDeliveryMode::FixedBroker]),
        &fingerprint,
        small.clone(),
        true,
        AiCapabilityDeliveryLimits::default(),
    )
    .unwrap();
    assert_eq!(frozen.mode(), AiCapabilityDeliveryMode::FixedBroker);
    assert_eq!(frozen.tools().len(), 3);

    let mut tight = AiCapabilityDeliveryLimits::default();
    tight.maximum_eager_definitions = 1;
    let client = plan_capability_delivery(
        &provider(vec![AiCapabilityDeliveryMode::EagerExact, AiCapabilityDeliveryMode::ClientDeferred]),
        &fingerprint,
        small.clone(),
        false,
        tight,
    )
    .unwrap();
    assert_eq!(client.mode(), AiCapabilityDeliveryMode::ClientDeferred);

    assert!(matches!(
        plan_capability_delivery(
            &provider(vec![AiCapabilityDeliveryMode::EagerExact]),
            &fingerprint,
            small.clone(),
            false,
            tight,
        ),
        Err(AiError::InvalidConfiguration(message)) if message == "provider has no admissible capability delivery mode"
    ));
    assert!(matches!(
        plan_capability_delivery(
            &provider(vec![AiCapabilityDeliveryMode::EagerExact]),
            "not-a-fingerprint",
            small.clone(),
            false,
            AiCapabilityDeliveryLimits::default(),
        ),
        Err(AiError::InvalidConfiguration(message)) if message == "capability definitions are invalid, reserved, or ambiguous"
    ));
    let mut invalid_limits = AiCapabilityDeliveryLimits::default();
    invalid_limits.maximum_retained_searches = 0;
    assert!(matches!(
        plan_capability_delivery(
            &provider(vec![AiCapabilityDeliveryMode::EagerExact]),
            "not-a-fingerprint",
            small,
            false,
            invalid_limits,
        ),
        Err(AiError::InvalidConfiguration(message)) if message == "capability delivery limits are invalid"
    ));
}

#[test]
fn broker_operations_round_trip_and_only_execute_reaches_a_resolver() {
    for operation in [
        AiCapabilityBrokerOperation::Discover,
        AiCapabilityBrokerOperation::Describe,
        AiCapabilityBrokerOperation::Execute,
    ] {
        assert_eq!(AiCapabilityBrokerOperation::from_tool_id(operation.tool_id()), Some(operation));
        assert_eq!(operation.reaches_resolver(), operation == AiCapabilityBrokerOperation::Execute);
    }
    assert_eq!(AiCapabilityBrokerOperation::Discover.tool_id(), AI_CAPABILITY_DISCOVER_TOOL_ID);
    assert_eq!(AiCapabilityBrokerOperation::Describe.tool_id(), AI_CAPABILITY_DESCRIBE_TOOL_ID);
    assert_eq!(AiCapabilityBrokerOperation::from_tool_id("app.read"), None);
    let amplification = AiCapabilityBrokerAmplification {
        discover_calls: u32::MAX,
        describe_calls: 2,
        execute_calls: 1,
    };
    assert_eq!(amplification.total_calls(), u32::MAX);
    let small = AiCapabilityBrokerAmplification { discover_calls: 1, describe_calls: 2, execute_calls: 3 };
    assert_eq!(small.total_calls(), 6);
}

#[test]
fn session_binding_keeps_bootstrap_fingerprints_as_a_sorted_set() {
    let make = |bootstrap: Vec<String>| {
        AiProviderCapabilitySessionBinding::new(
            AiCapabilityDeliveryMode::ProviderDeferred,
            &"a".repeat(64),
            bootstrap,
            "openai-strict/v1",
            "gpt-test",
            ModelReasoningEffort::Low,
            &"c".repeat(64),
        )
        .expect("binding should validate")
    };
    let first = make(vec!["e".repeat(64), "b".repeat(64), "e".repeat(64)]);
    let second = make(vec!["b".repeat(64), "e".repeat(64)]);
    assert_eq!(first.fingerprint(), second.fingerprint());
    assert_eq!(first.static_bootstrap_tool_fingerprints(), &["b".repeat(64), "e".repeat(64)]);
    assert_eq!(first.delivery_mode(), AiCapabilityDeliveryMode::ProviderDeferred);
    assert_eq!(first.capability_index_fingerprint(), "a".repeat(64));
    assert_eq!(first.capability_index_set_fingerprint(), "a".repeat(64));
    assert_eq!(first.provider_projection_version(), "openai-strict/v1");
    assert_eq!(first.model(), "gpt-test");
    assert_eq!(first.reasoning_effort(), ModelReasoningEffort::Low);
    assert_eq!(first.registration_identity(), "c".repeat(64));
    assert_eq!(first.fingerprint().len(), 64);
    let other = make(vec!["b".repeat(64)]);
    assert_ne!(first.fingerprint(), other.fingerprint());
    assert!(AiProviderCapabilitySessionBinding::new(
        AiCapabilityDeliveryMode::ProviderDeferred,
        &"a".repeat(64),
        vec!["B".repeat(64)],
        "openai-strict/v1",
        "gpt-test",
        ModelReasoningEffort::Low,
        &"c".repeat(64),
    )
    .is_err());
}

#[test]
fn provider_aliases_are_sanitized_and_bounded() {
    assert_eq!(capability_provider_alias("jim_query_records-auto"), "jim_query_records-auto");
    assert_eq!(
        capability_provider_alias("jim.query.records-auto"),
        format!("jim_query_records-auto_{}", &hash_text("jim.query.records-auto")[..16])
    );
    assert_eq!(capability_provider_alias("café"), format!("caf___{}", &hash_text("café")[..16]));
    assert_eq!(capability_provider_alias("a😀b"), format!("a____b_{}", &hash_text("a😀b")[..16]));
    assert_ne!(capability_provider_alias("jim.jobs_list"), capability_provider_alias("jim_jobs.list"));
    assert_ne!(capability_provider_alias("jim.jobs_list"), capability_provider_alias("jim_jobs_list"));
    let exact = "x".repeat(64);
    assert_eq!(capability_provider_alias(&exact), exact);
    let long = format!("jim.{}", "y".repeat(80));
    let alias = capability_provider_alias(&long);
    let digest = hash_text(&long);
    assert_eq!(alias.len(), 64);
    assert_eq!(&alias[..47], &long.replace('.', "_")[..47]);
    assert_eq!(&alias[47..48], "_");
    assert_eq!(&alias[48..], &digest[..16]);
    assert_ne!(capability_provider_alias(&format!("{long}z")), alias);
}
