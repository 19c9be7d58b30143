use graphql_orm_ai::broker::{
    check_deferred_discovery_size, client_deferred_discover_query, discover_query, BrokerDiscoverArguments,
    filter_permitted_candidates,
    check_loaded_current, check_loaded_fence, load_capability_binding,
    prepare_client_deferred_continuation, validate_loaded_ttl, AiCapabilityAuthorityDecision,
    AiCapabilityBrokerSession, AiCapabilityEntryEvidence, AiCapabilityRunBinding,
    AiCapabilitySearchCandidate, AiCapabilitySearchResult, AiLoadedCapabilityBinding,
};
use graphql_orm_ai::capability_delivery::AiCapabilityDeliveryLimits;
use graphql_orm_ai::error::AiError;
use graphql_orm_ai::tools::ModelToolDefinition;
use sha2::Digest;

const SECOND: i128 = 1_000_000_000;

fn run() -> AiCapabilityRunBinding {
    AiCapabilityRunBinding {
        session_id: 1,
        run_id: 2,
        attempt_id: 3,
        lease_generation: 4,
        provider_kind: "local_harness".to_owned(),
        provider_session_fingerprint: "f".repeat(64),
    }
}

fn candidate(id: &str) -> AiCapabilitySearchCandidate {
    AiCapabilitySearchCandidate {
        id: id.to_owned(),
        kind: "generated_query".to_owned(),
        capability_fingerprint: format!("cap-{id}"),
        entry_fingerprint: format!("entry-{id}"),
    }
}

fn entry(id: &str) -> AiCapabilityEntryEvidence {
    AiCapabilityEntryEvidence {
        id: id.to_owned(),
        kind: "generated_query".to_owned(),
        capability_fingerprint: format!("cap-{id}"),
        entry_fingerprint: format!("entry-{id}"),
        index_set_fingerprint: "set".to_owned(),
        index_fingerprint: "index".to_owned(),
        schema_fingerprint: "schema".to_owned(),
        semantic_catalogue_fingerprint: "semantic".to_owned(),
        target_policy_fingerprint: "target".to_owned(),
    }
}

fn allowed() -> AiCapabilityAuthorityDecision {
    AiCapabilityAuthorityDecision { allowed: true, policy_fingerprint: "policy-v1".to_owned() }
}

fn search(ids: &[&str]) -> AiCapabilitySearchResult {
    AiCapabilitySearchResult { index_set_fingerprint: "set".to_owned(), candidates: ids.iter().map(|id| candidate(id)).collect() }
}

fn load(id: &str, nonce: u128) -> AiLoadedCapabilityBinding {
    load_capability_binding("principal", &run(), &search(&[id]), id, &entry(id), &allowed(), nonce, 0, 30 * SECOND)
        .expect("load should succeed")
}

#[test]
fn load_binds_the_exact_current_entry_and_fails_closed_on_drift() {
    let binding = load("jim.jobs", 11);
    assert_eq!(binding.capability_id(), "jim.jobs");
    assert_eq!(binding.capability_fingerprint(), "cap-jim.jobs");
    let mut drifted = entry("jim.jobs");
    drifted.entry_fingerprint = "entry-other".to_owned();
    assert!(matches!(
        load_capability_binding("principal", &run(), &search(&["jim.jobs"]), "jim.jobs", &drifted, &allowed(), 1, 0, SECOND),
        Err(AiError::Forbidden)
    ));
    assert!(matches!(
        load_capability_binding("principal", &run(), &search(&["jim.other"]), "jim.jobs", &entry("jim.jobs"), &allowed(), 1, 0, SECOND),
        Err(AiError::Forbidden)
    ));
    let denied = AiCapabilityAuthorityDecision { allowed: false, policy_fingerprint: "policy-v1".to_owned() };
    assert!(matches!(
        load_capability_binding("principal", &run(), &search(&["jim.jobs"]), "jim.jobs", &entry("jim.jobs"), &denied, 1, 0, SECOND),
        Err(AiError::Forbidden)
    ));
    let malformed = AiCapabilityAuthorityDecision { allowed: true, policy_fingerprint: String::new() };
    assert!(matches!(
        load_capability_binding("principal", &run(), &search(&["jim.jobs"]), "jim.jobs", &entry("jim.jobs"), &malformed, 1, 0, SECOND),
        Err(AiError::Forbidden)
    ));
}

#[test]
fn loaded_fences_fail_closed_on_revocation_and_drift() {
    let binding = load("jim.jobs", 11);
    assert!(check_loaded_fence("principal", 30 * SECOND, &run(), &binding).is_ok());
    assert!(check_loaded_fence("principal", 30 * SECOND + 1, &run(), &binding).is_err());
    assert!(check_loaded_fence("other-principal", 0, &run(), &binding).is_err());
    let mut other_run = run();
    other_run.run_id = 99;
    assert!(check_loaded_fence("principal", 0, &other_run, &binding).is_err());
    let mut renewed = run();
    renewed.lease_generation = 5;
    assert!(check_loaded_fence("principal", 0, &renewed, &binding).is_ok());
    let mut stale = run();
    stale.lease_generation = 3;
    assert!(check_loaded_fence("principal", 0, &stale, &binding).is_err());
    assert!(check_loaded_current(&binding, &entry("jim.jobs"), &allowed()).is_ok());
    let revoked = AiCapabilityAuthorityDecision { allowed: false, policy_fingerprint: "policy-v1".to_owned() };
    assert!(matches!(check_loaded_current(&binding, &entry("jim.jobs"), &revoked), Err(AiError::Forbidden)));
    let newer = AiCapabilityAuthorityDecision { allowed: true, policy_fingerprint: "policy-v2".to_owned() };
    assert!(check_loaded_current(&binding, &entry("jim.jobs"), &newer).is_err());
    let mut schema = entry("jim.jobs");
    schema.schema_fingerprint = "schema-v2".to_owned();
    assert!(check_loaded_current(&binding, &schema, &allowed()).is_err());
}

#[test]
fn audit_reference_hashes_the_canonical_json_of_the_binding() {
    let binding = load("jim.jobs", 11);
    let expected_text = format!(
        "{{\"attempt\":\"{}\",\"entry\":\"entry-jim.jobs\",\"nonce\":\"{}\",\"run\":\"{}\",\"version\":1}}",
        uuid::Uuid::from_u128(3),
        uuid::Uuid::from_u128(11),
        uuid::Uuid::from_u128(2)
    );
    assert_eq!(binding.audit_reference(), hex::encode(sha2::Sha256::digest(expected_text.as_bytes())));
    assert_ne!(binding.audit_reference(), load("jim.jobs", 12).audit_reference());
}

#[test]
fn loaded_ttl_is_bounded() {
    assert!(validate_loaded_ttl(SECOND).is_ok());
    assert!(validate_loaded_ttl(300 * SECOND).is_ok());
    assert!(validate_loaded_ttl(SECOND - 1).is_err());
    assert!(validate_loaded_ttl(300 * SECOND + 1).is_err());
}

fn limits(searches: u16, loaded: u16) -> AiCapabilityDeliveryLimits {
    AiCapabilityDeliveryLimits {
        maximum_retained_searches: searches,
        maximum_loaded_bindings: loaded,
        maximum_deferred_definitions: loaded.min(8),
        ..AiCapabilityDeliveryLimits::default()
    }
}

#[test]
fn broker_session_keeps_only_the_newest_searches_and_finds_the_latest_candidate() {
    let mut session = AiCapabilityBrokerSession::new(limits(2, 4)).unwrap();
    session.record_search(search(&["a"]));
    session.record_search(search(&["b"]));
    session.record_search(search(&["c", "b"]));
    assert_eq!(session.amplification().discover_calls, 3);
    assert!(session.candidate_search("a", "entry-a").is_none());
    let found = session.candidate_search("b", "entry-b").unwrap();
    assert_eq!(found.candidates.len(), 2);
    assert_eq!(found.candidates[0].id, "c");
    assert!(session.candidate_search("b", "entry-wrong").is_none());
}

#[test]
fn broker_session_reads_back_the_binding_recorded_under_a_reference() {
    let mut session = AiCapabilityBrokerSession::new(limits(4, 2)).unwrap();
    session.record_loaded("r1".to_owned(), load("one", 1));
    session.record_loaded("r2".to_owned(), load("two", 2));
    assert_eq!(session.loaded("r1").unwrap().capability_id(), "one");
    session.record_loaded("r1".to_owned(), load("three", 3));
    assert_eq!(session.loaded_binding_count(), 2);
    assert_eq!(session.loaded("r1").unwrap().capability_id(), "three");
    let ids: Vec<String> = session.loaded_bindings().iter().map(|b| b.capability_id().to_owned()).collect();
    assert_eq!(ids, vec!["two".to_owned(), "three".to_owned()]);
    session.record_loaded("r3".to_owned(), load("four", 4));
    assert!(session.loaded("r2").is_none());
    assert_eq!(session.loaded_binding_count(), 2);
    assert_eq!(session.amplification().describe_calls, 4);
    session.record_execute();
    assert_eq!(session.amplification().execute_calls, 1);
    assert_eq!(session.amplification().total_calls(), 5);
}

#[test]
fn broker_session_rejects_invalid_limits_and_tracks_deferred_installation() {
    assert!(matches!(AiCapabilityBrokerSession::new(limits(0, 4)), Err(AiError::InvalidConfiguration(_))));
    let mut session = AiCapabilityBrokerSession::new(limits(2, 4)).unwrap();
    assert!(!session.deferred_installation_pending());
    session.record_deferred_search(search(&["a"]), vec![("ra".to_owned(), load("a", 1))]);
    assert!(session.deferred_installation_pending());
    assert_eq!(session.loaded("ra").unwrap().capability_id(), "a");
    session.complete_deferred_installation();
    assert!(!session.deferred_installation_pending());
}

fn definition(id: &str, fingerprint: &str) -> ModelToolDefinition {
    ModelToolDefinition {
        tool_id: id.to_owned(),
        provider_name: id.replace('.', "_"),
        fingerprint: fingerprint.to_owned(),
        description: "Read one reviewed record.".to_owned(),
        parameters: "{\"type\":\"object\"}".to_owned(),
        strict: true,
        defer_loading: true,
    }
}

fn fingerprint(id: &str) -> String {
    hex::encode(sha2::Sha256::digest(id.as_bytes()))
}

fn loaded_with_fingerprint(id: &str, nonce: u128) -> AiLoadedCapabilityBinding {
    let mut e = entry(id);
    e.capability_fingerprint = fingerprint(id);
    let mut c = candidate(id);
    c.capability_fingerprint = fingerprint(id);
    let s = AiCapabilitySearchResult { index_set_fingerprint: "set".to_owned(), candidates: vec![c] };
    load_capability_binding("principal", &run(), &s, id, &e, &allowed(), nonce, 0, SECOND).unwrap()
}

#[test]
fn client_deferred_continuation_installs_only_exact_loaded_definitions() {
    let loaded = vec![loaded_with_fingerprint("jim.b", 1), loaded_with_fingerprint("jim.a", 2)];
    let installed = prepare_client_deferred_continuation(
        &loaded,
        vec![definition("jim.b", &fingerprint("jim.b")), definition("jim.a", &fingerprint("jim.a"))],
        AiCapabilityDeliveryLimits::default(),
    )
    .expect("exact loaded definitions install");
    let ids: Vec<&str> = installed.iter().map(|d| d.tool_id.as_str()).collect();
    assert_eq!(ids, vec!["jim.a", "jim.b"]);
    assert!(installed.iter().all(|d| !d.defer_loading));
    assert!(matches!(
        prepare_client_deferred_continuation(
            &loaded,
            vec![definition("jim.b", &fingerprint("jim.b")), definition("jim.c", &fingerprint("jim.c"))],
            AiCapabilityDeliveryLimits::default(),
        ),
        Err(AiError::Forbidden)
    ));
    assert!(matches!(
        prepare_client_deferred_continuation(&loaded, vec![definition("jim.b", &fingerprint("jim.b"))], AiCapabilityDeliveryLimits::default()),
        Err(AiError::InvalidInput(_))
    ));
    assert!(matches!(
        prepare_client_deferred_continuation(
            &loaded,
            vec![definition("jim.b", "not-a-fingerprint"), definition("jim.a", &fingerprint("jim.a"))],
            AiCapabilityDeliveryLimits::default(),
        ),
        Err(AiError::InvalidInput(_))
    ));
}

#[test]
fn search_keeps_only_currently_permitted_candidates_in_order() {
    let result = search(&["jim.a", "jim.b", "jim.c"]);
    let kept = filter_permitted_candidates(&result, &vec![Some(true), Some(false), Some(true)]).unwrap();
    let ids: Vec<&str> = kept.candidates.iter().map(|c| c.id.as_str()).collect();
    assert_eq!(ids, ["jim.a", "jim.c"]);
    assert_eq!(kept.index_set_fingerprint, "set");
    assert!(filter_permitted_candidates(&result, &vec![Some(false), Some(false), Some(false)])
        .unwrap()
        .candidates
        .is_empty());
    assert!(matches!(
        filter_permitted_candidates(&result, &vec![Some(true), None, Some(true)]),
        Err(AiError::Forbidden)
    ));
}

#[test]
fn load_refuses_a_search_made_against_another_index_set() {
    let mut stale = search(&["jim.jobs"]);
    stale.index_set_fingerprint = "older-set".to_owned();
    assert!(matches!(
        load_capability_binding("principal", &run(), &stale, "jim.jobs", &entry("jim.jobs"), &allowed(), 1, 0, SECOND),
        Err(AiError::Forbidden)
    ));
    let mut substituted = search(&["jim.jobs"]);
    substituted.candidates[0].kind = "reviewed_static".to_owned();
    assert!(matches!(
        load_capability_binding("principal", &run(), &substituted, "jim.jobs", &entry("jim.jobs"), &allowed(), 1, 0, SECOND),
        Err(AiError::Forbidden)
    ));
}

fn discover_arguments(kind: Option<&str>, maximum_results: u16) -> BrokerDiscoverArguments {
    BrokerDiscoverArguments {
        text: "open jobs".to_owned(),
        namespace: Some("jim".to_owned()),
        kind: kind.map(str::to_owned),
        entity_or_class: Some("Job".to_owned()),
        maximum_results,
    }
}

#[test]
fn discover_searches_only_generated_queries() {
    let query = discover_query(discover_arguments(None, 3)).unwrap();
    assert_eq!(query.text, "open jobs");
    assert_eq!(query.namespace.as_deref(), Some("jim"));
    assert_eq!(query.kind, "generated_query");
    assert_eq!(query.entity_or_operation.as_deref(), Some("Job"));
    assert_eq!(query.maximum_results, 3);
    assert!(discover_query(discover_arguments(Some("generated_query"), 3)).is_ok());
    assert!(matches!(
        discover_query(discover_arguments(Some("reviewed_static"), 1)),
        Err(AiError::InvalidInput(message)) if message == "broker arguments are invalid"
    ));
}

#[test]
fn client_deferred_discover_is_bounded_by_the_deferred_definition_limit() {
    let limits = AiCapabilityDeliveryLimits::default();
    let bound = limits.maximum_deferred_definitions;
    assert_eq!(client_deferred_discover_query(discover_arguments(None, bound), limits).unwrap().maximum_results, bound);
    assert!(matches!(
        client_deferred_discover_query(discover_arguments(None, bound + 1), limits),
        Err(AiError::InvalidInput(_))
    ));
    assert!(matches!(
        client_deferred_discover_query(discover_arguments(Some("reviewed_static"), 1), limits),
        Err(AiError::InvalidInput(_))
    ));
    let ids: Vec<String> = (0..bound).map(|i| format!("jim.q{i}")).collect();
    let refs: Vec<&str> = ids.iter().map(String::as_str).collect();
    assert!(check_deferred_discovery_size(&search(&refs), limits).is_ok());
    let more: Vec<String> = (0..=bound).map(|i| format!("jim.q{i}")).collect();
    let more_refs: Vec<&str> = more.iter().map(String::as_str).collect();
    assert!(matches!(check_deferred_discovery_size(&search(&more_refs), limits), Err(AiError::InvalidConfiguration(_))));
}
