use graphql_orm_ai::broker::{
    load_capability_binding, AiCapabilityAuthorityDecision, AiCapabilityBrokerSession,
    AiCapabilityEntryEvidence, AiCapabilityRunBinding, AiCapabilitySearchCandidate,
    AiCapabilitySearchResult,
};
use graphql_orm_ai::capability_delivery::{
    AiCapabilityDeliveryLimits, AiCapabilityDeliveryMode, AiProviderCapabilitySessionBinding,
    ModelReasoningEffort, ProviderCapabilities, AI_CAPABILITY_DISCOVER_TOOL_ID,
};
use graphql_orm_ai::delivery_turn::AiCapabilityDeliveryTurn;
use graphql_orm_ai::error::AiError;
use graphql_orm_ai::tools::ModelToolDefinition;
use sha2::Digest;

fn hash_text(text: &str) -> String {
    hex::encode(sha2::Sha256::digest(text.as_bytes()))
}

fn definition(id: &str) -> ModelToolDefinition {
    ModelToolDefinition {
        tool_id: id.to_owned(),
        provider_name: id.replace('.', "_"),
        fingerprint: hash_text(&format!("{{\"id\":{}}}", serde_json::to_string(id).unwrap())),
        description: "Read one reviewed record.".to_owned(),
        parameters: "{\"additionalProperties\":false,\"properties\":{\"id\":{\"type\":\"string\"}},\"required\":[\"id\"],\"type\":\"object\"}".to_owned(),
        strict: true,
        defer_loading: false,
    }
}

fn binding(mode: AiCapabilityDeliveryMode, statics: Vec<String>) -> AiProviderCapabilitySessionBinding {
    AiProviderCapabilitySessionBinding::new(
        mode,
        &"a".repeat(64),
        statics,
        "provider-projection-v1",
        "gpt-test",
        ModelReasoningEffort::Unspecified,
        &"f".repeat(64),
    )
    .expect("session binding")
}

fn capabilities(mode: AiCapabilityDeliveryMode) -> ProviderCapabilities {
    ProviderCapabilities { custom_tools: true, capability_delivery_modes: vec![mode] }
}

#[test]
fn run_delivery_keeps_exact_static_bootstrap_while_generated_reads_defer() {
    let static_tool = definition("jim.jobs_list");
    let delivery = AiCapabilityDeliveryTurn::select(
        &capabilities(AiCapabilityDeliveryMode::FixedBroker),
        &"a".repeat(64),
        vec![static_tool.clone()],
        true,
        binding(AiCapabilityDeliveryMode::FixedBroker, vec![static_tool.fingerprint.clone()]),
        AiCapabilityBrokerSession::new(AiCapabilityDeliveryLimits::default()).expect("broker session"),
    )
    .expect("fixed delivery");
    let surface = delivery.current_surface();
    assert_eq!(surface.mode(), AiCapabilityDeliveryMode::FixedBroker);
    assert_eq!(surface.tools().len(), 4);
    assert!(surface.tools().contains(&static_tool));
    assert!(surface
        .tools()
        .iter()
        .any(|definition| definition.tool_id == AI_CAPABILITY_DISCOVER_TOOL_ID));
    let ids: Vec<&str> = surface.tools().iter().map(|d| d.tool_id.as_str()).collect();
    let mut sorted = ids.clone();
    sorted.sort();
    assert_eq!(ids, sorted);
    assert!(delivery.matches_offered_tools(surface.tools()));
    assert!(!delivery.matches_offered_tools(&surface.tools()[1..]));
}

#[test]
fn delivery_refuses_an_incomplete_static_binding_or_a_mismatched_mode() {
    let tool = definition("jim.jobs_list");
    assert!(matches!(
        AiCapabilityDeliveryTurn::select(
            &capabilities(AiCapabilityDeliveryMode::FixedBroker),
            &"a".repeat(64),
            vec![tool.clone()],
            true,
            binding(AiCapabilityDeliveryMode::FixedBroker, vec!["b".repeat(64)]),
            AiCapabilityBrokerSession::new(AiCapabilityDeliveryLimits::default()).unwrap(),
        ),
        Err(AiError::InvalidConfiguration(_))
    ));
    assert!(matches!(
        AiCapabilityDeliveryTurn::select(
            &capabilities(AiCapabilityDeliveryMode::EagerExact),
            &"a".repeat(64),
            vec![tool],
            false,
            binding(AiCapabilityDeliveryMode::FixedBroker, vec![]),
            AiCapabilityBrokerSession::new(AiCapabilityDeliveryLimits::default()).unwrap(),
        ),
        Err(AiError::InvalidConfiguration(_))
    ));
}

fn run() -> AiCapabilityRunBinding {
    AiCapabilityRunBinding {
        session_id: 1,
        run_id: 2,
        attempt_id: 3,
        lease_generation: 4,
        provider_kind: "local_harness".to_owned(),
        provider_session_fingerprint: "f".repeat(64),
    }
}

#[test]
fn client_deferred_installation_adds_only_loaded_definitions() {
    let generated = definition("jim.generated");
    let mut session = AiCapabilityBrokerSession::new(AiCapabilityDeliveryLimits::default()).unwrap();
    let candidate = AiCapabilitySearchCandidate {
        id: generated.tool_id.clone(),
        kind: "generated_query".to_owned(),
        capability_fingerprint: generated.fingerprint.clone(),
        entry_fingerprint: "entry".to_owned(),
    };
    let entry = AiCapabilityEntryEvidence {
        id: generated.tool_id.clone(),
        kind: "generated_query".to_owned(),
        capability_fingerprint: generated.fingerprint.clone(),
        entry_fingerprint: "entry".to_owned(),
        index_set_fingerprint: "set".to_owned(),
        index_fingerprint: "index".to_owned(),
        schema_fingerprint: "schema".to_owned(),
        semantic_catalogue_fingerprint: "semantic".to_owned(),
        target_policy_fingerprint: "target".to_owned(),
    };
    let search = AiCapabilitySearchResult { index_set_fingerprint: "set".to_owned(), candidates: vec![candidate] };
    let decision = AiCapabilityAuthorityDecision { allowed: true, policy_fingerprint: "p".to_owned() };
    let loaded = load_capability_binding("principal", &run(), &search, "jim.generated", &entry, &decision, 9, 0, 1_000_000_000).unwrap();
    session.record_deferred_search(search, vec![("ref".to_owned(), loaded)]);
    let mut delivery = AiCapabilityDeliveryTurn::select(
        &capabilities(AiCapabilityDeliveryMode::ClientDeferred),
        &"a".repeat(64),
        vec![generated.clone()],
        false,
        binding(AiCapabilityDeliveryMode::ClientDeferred, vec![]),
        session,
    )
    .expect("client-deferred delivery");
    assert_eq!(delivery.current_tools().len(), 1);
    assert!(delivery.requires_deferred_installation());
    let installed = delivery
        .install_deferred_definitions(vec![generated.clone()])
        .expect("the loaded definition installs");
    let ids: Vec<&str> = installed.iter().map(|d| d.tool_id.as_str()).collect();
    assert_eq!(ids, vec![AI_CAPABILITY_DISCOVER_TOOL_ID, "jim.generated"]);
    assert!(!delivery.requires_deferred_installation());
    assert_eq!(delivery.current_tools().len(), 2);
}

#[test]
fn deferred_installation_is_forbidden_outside_client_deferred_mode() {
    let tool = definition("jim.jobs_list");
    let mut delivery = AiCapabilityDeliveryTurn::select(
        &capabilities(AiCapabilityDeliveryMode::EagerExact),
        &"a".repeat(64),
        vec![tool.clone()],
        false,
        binding(AiCapabilityDeliveryMode::EagerExact, vec![]),
        AiCapabilityBrokerSession::new(AiCapabilityDeliveryLimits::default()).unwrap(),
    )
    .expect("eager delivery");
    assert!(matches!(delivery.install_deferred_definitions(vec![tool]), Err(AiError::Forbidden)));
}

#[test]
fn client_deferred_installation_of_an_empty_discovery_keeps_only_discover() {
    let generated = definition("jim.generated");
    let mut session = AiCapabilityBrokerSession::new(AiCapabilityDeliveryLimits::default()).unwrap();
    let empty = AiCapabilitySearchResult { index_set_fingerprint: "set".to_owned(), candidates: vec![] };
    session.record_deferred_search(empty, vec![]);
    let mut delivery = AiCapabilityDeliveryTurn::select(
        &capabilities(AiCapabilityDeliveryMode::ClientDeferred),
        &"a".repeat(64),
        vec![generated],
        false,
        binding(AiCapabilityDeliveryMode::ClientDeferred, vec![]),
        session,
    )
    .expect("client-deferred delivery");
    assert!(delivery.requires_deferred_installation());
    let installed = delivery.install_deferred_definitions(vec![]).expect("nothing to install");
    let ids: Vec<&str> = installed.iter().map(|d| d.tool_id.as_str()).collect();
    assert_eq!(ids, vec![AI_CAPABILITY_DISCOVER_TOOL_ID]);
    assert_eq!(delivery.current_tools().len(), 1);
    assert!(!delivery.requires_deferred_installation());
}

#[test]
fn delivery_selection_reports_the_failing_step_with_its_message() {
    let tool = definition("jim.jobs_list");
    let message_of = |r: Result<AiCapabilityDeliveryTurn, AiError>| match r {
        Err(AiError::InvalidConfiguration(message)) => message,
        _ => panic!("expected a configuration error"),
    };
    assert_eq!(
        message_of(AiCapabilityDeliveryTurn::select(
            &capabilities(AiCapabilityDeliveryMode::FixedBroker),
            &"a".repeat(64),
            vec![tool.clone()],
            true,
            binding(AiCapabilityDeliveryMode::FixedBroker, vec!["b".repeat(64)]),
            AiCapabilityBrokerSession::new(AiCapabilityDeliveryLimits::default()).unwrap(),
        )),
        "capability static bootstrap binding is incomplete"
    );
    assert_eq!(
        message_of(AiCapabilityDeliveryTurn::select(
            &capabilities(AiCapabilityDeliveryMode::EagerExact),
            "not-a-fingerprint",
            vec![tool.clone()],
            false,
            binding(AiCapabilityDeliveryMode::EagerExact, vec![]),
            AiCapabilityBrokerSession::new(AiCapabilityDeliveryLimits::default()).unwrap(),
        )),
        "capability definitions are invalid, reserved, or ambiguous"
    );
    assert_eq!(
        message_of(AiCapabilityDeliveryTurn::select(
            &ProviderCapabilities { custom_tools: true, capability_delivery_modes: vec![] },
            &"a".repeat(64),
            vec![tool.clone()],
            false,
            binding(AiCapabilityDeliveryMode::EagerExact, vec![]),
            AiCapabilityBrokerSession::new(AiCapabilityDeliveryLimits::default()).unwrap(),
        )),
        "provider has no admissible capability delivery mode"
    );
    assert_eq!(
        message_of(AiCapabilityDeliveryTurn::select(
            &capabilities(AiCapabilityDeliveryMode::EagerExact),
            &"a".repeat(64),
            vec![tool],
            false,
            binding(AiCapabilityDeliveryMode::FixedBroker, vec![]),
            AiCapabilityBrokerSession::new(AiCapabilityDeliveryLimits::default()).unwrap(),
        )),
        "capability session binding does not match the selected surface"
    );
}
