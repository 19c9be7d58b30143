use graphql_orm_ai::approvals::{
    validate_preview_resources, AiCanonicalActionPreview, AI_APPROVAL_PREVIEW_DETAILS_MAX_BYTES,
};

fn preview(details: String) -> AiCanonicalActionPreview {
    AiCanonicalActionPreview {
        action_kind: "bounded.action".to_owned(),
        title: "Exact action".to_owned(),
        targets: vec![],
        details,
    }
}

/// Canonical JSON text of a string value made only of `x` characters.
fn quoted_xs(count: usize) -> String {
    serde_json::to_string(&"x".repeat(count)).unwrap()
}

#[test]
fn canonical_preview_allows_escape_heavy_quarter_megabyte_source() {
    let mut object = serde_json::Map::new();
    object.insert(
        "source".to_owned(),
        serde_json::Value::String("\0".repeat(256 * 1024)),
    );
    let details = serde_json::to_string(&serde_json::Value::Object(object)).unwrap();
    let preview = preview(details);
    let bytes = preview.details.as_bytes();
    assert!(bytes.len() > 6 * 256 * 1024);
    assert!(validate_preview_resources(&preview, &vec![], &preview.stable_hash()).is_ok());
}

#[test]
fn canonical_preview_details_has_exact_two_megabyte_json_ceiling() {
    let mut preview = preview(quoted_xs(AI_APPROVAL_PREVIEW_DETAILS_MAX_BYTES - 2));
    assert_eq!(preview.details.len(), AI_APPROVAL_PREVIEW_DETAILS_MAX_BYTES);
    assert!(validate_preview_resources(&preview, &vec![], &preview.stable_hash()).is_ok());
    preview.details = quoted_xs(AI_APPROVAL_PREVIEW_DETAILS_MAX_BYTES - 1);
    assert!(validate_preview_resources(&preview, &vec![], &preview.stable_hash()).is_err());
}

#[test]
fn preview_hash_is_stable_and_changes_with_the_title() {
    let first = preview("{}".to_owned());
    let mut second = preview("{}".to_owned());
    assert_eq!(first.stable_hash(), second.stable_hash());
    assert_eq!(first.stable_hash().len(), 64);
    second.title = "Other action".to_owned();
    assert_ne!(first.stable_hash(), second.stable_hash());
}

#[test]
fn stale_preview_hash_is_rejected() {
    let preview = preview("{}".to_owned());
    assert!(validate_preview_resources(&preview, &vec![], &"0".repeat(64)).is_err());
}

use graphql_orm_ai::approvals::{
    AiApprovalAccessEvidence, AiApprovalBinding, AiApprovalGrant, AiApprovalResourceBinding, AiApprovalState,
    ConsumedAiApproval,
};
use graphql_orm_ai::error::AiError;
use graphql_orm_ai::execution::GraphqlOperationContract;
use graphql_orm_ai::scope::AiScope;

fn resource(kind: &str, id: &str, version: &str) -> AiApprovalResourceBinding {
    AiApprovalResourceBinding {
        resource_type: kind.to_owned(),
        resource_id: id.to_owned(),
        expected_version: version.to_owned(),
    }
}

fn envelope(resources: Vec<AiApprovalResourceBinding>, preview_hash: String) -> AiApprovalBinding {
    AiApprovalBinding {
        tool_call_id: 11,
        session_id: 22,
        scope: AiScope::new("workspace", "w-1"),
        tool_fingerprint: "f".repeat(64),
        argument_hash: "a".repeat(64),
        operation: GraphqlOperationContract {
            target_id: "local".to_owned(),
            schema_fingerprint: "s".repeat(64),
            operation_name: "UpdateThing".to_owned(),
            document_hash: "d".repeat(64),
            result_projection_fingerprint: "r".repeat(64),
            disclosure_schema_fingerprint: "x".repeat(64),
        },
        principal_reference_fingerprint: "p".repeat(64),
        delegated_actor_subject: None,
        delegation_reference: None,
        policy_version: "policy-1".to_owned(),
        authorization_state_digest: "state-1".to_owned(),
        resources,
        preview_hash,
    }
}

#[test]
fn binding_hash_ignores_resource_order_but_not_content() {
    let first = envelope(
        vec![resource("doc", "1", "v1"), resource("doc", "2", "v1"), resource("a", "9", "v")],
        "h".repeat(64),
    );
    let reordered = envelope(
        vec![resource("a", "9", "v"), resource("doc", "2", "v1"), resource("doc", "1", "v1")],
        "h".repeat(64),
    );
    assert_eq!(first.stable_hash(), reordered.stable_hash());
    assert_eq!(first.stable_hash().len(), 64);
    let changed = envelope(
        vec![resource("doc", "1", "v2"), resource("doc", "2", "v1"), resource("a", "9", "v")],
        "h".repeat(64),
    );
    assert_ne!(first.stable_hash(), changed.stable_hash());
    let mut other_policy = first.clone();
    other_policy.policy_version = "policy-2".to_owned();
    assert_ne!(first.stable_hash(), other_policy.stable_hash());
}

#[test]
fn preview_hash_ignores_target_order() {
    let mut a = preview("{}".to_owned());
    a.targets = vec![resource("doc", "1", "v1"), resource("doc", "0", "v1")];
    let mut b = preview("{}".to_owned());
    b.targets = vec![resource("doc", "0", "v1"), resource("doc", "1", "v1")];
    assert_eq!(a.stable_hash(), b.stable_hash());
}

#[test]
fn binding_validation_requires_matching_targets_and_fields() {
    let mut shown = preview("{\"change\":1}".to_owned());
    shown.targets = vec![resource("doc", "2", "v1"), resource("doc", "1", "v1")];
    let binding = envelope(
        vec![resource("doc", "1", "v1"), resource("doc", "2", "v1")],
        shown.stable_hash(),
    );
    assert!(binding.validate(&shown).is_ok());

    let mut missing = binding.clone();
    missing.resources.pop();
    assert!(matches!(missing.validate(&shown), Err(AiError::InvalidConfiguration(_))));
    let mut duplicated = binding.clone();
    duplicated.resources.push(resource("doc", "1", "v1"));
    assert!(duplicated.validate(&shown).is_err());
    let mut blank_policy = binding.clone();
    blank_policy.policy_version = "  ".to_owned();
    assert!(matches!(blank_policy.validate(&shown), Err(AiError::InvalidConfiguration(_))));
    let mut blank_version = binding.clone();
    blank_version.resources[0].expected_version = " ".to_owned();
    let mut shown_blank = shown.clone();
    shown_blank.targets[1].expected_version = " ".to_owned();
    blank_version.preview_hash = shown_blank.stable_hash();
    assert!(blank_version.validate(&shown_blank).is_err());
    let mut stale = binding.clone();
    stale.preview_hash = "0".repeat(64);
    assert!(stale.validate(&shown).is_err());
}

fn grant(state: AiApprovalState, binding_hash: String) -> AiApprovalGrant {
    AiApprovalGrant {
        id: 99,
        binding_hash,
        approver_subject: "approver-1".to_owned(),
        state,
        approved_at: 1_000,
        expires_at: 2_000,
    }
}

#[test]
fn grant_authorizes_only_the_unexpired_exact_envelope() {
    let binding = envelope(vec![resource("doc", "1", "v1")], "h".repeat(64));
    let approved = grant(AiApprovalState::Approved, binding.stable_hash());
    let authorized = approved.authorize(&binding, 1_000).unwrap();
    assert_eq!(authorized.approval_id(), 99);
    assert_eq!(authorized.binding_hash(), binding.stable_hash());
    assert!(grant(AiApprovalState::ResumeClaimed, binding.stable_hash())
        .authorize(&binding, 1_999)
        .is_ok());
    assert!(matches!(approved.authorize(&binding, 2_000), Err(AiError::Forbidden)));
    assert!(matches!(approved.authorize(&binding, 999), Err(AiError::Forbidden)));
    for state in [
        AiApprovalState::Pending,
        AiApprovalState::Denied,
        AiApprovalState::Expired,
        AiApprovalState::Revoked,
        AiApprovalState::Consumed,
    ] {
        assert!(grant(state, binding.stable_hash()).authorize(&binding, 1_500).is_err());
    }
    let mut changed = binding.clone();
    changed.authorization_state_digest = "state-2".to_owned();
    assert!(matches!(approved.authorize(&changed, 1_500), Err(AiError::Forbidden)));

    let consumed = ConsumedAiApproval::new(authorized, 1_500);
    assert_eq!(consumed.approval_id(), 99);
    assert_eq!(consumed.binding_hash(), binding.stable_hash());
    assert_eq!(consumed.consumed_at(), 1_500);
}

#[test]
fn access_evidence_carries_the_original_envelope_hash_and_contract() {
    let binding = envelope(vec![resource("Thing", "t-1", "3")], "h".repeat(64));
    let expected_hash = binding.stable_hash();
    let shown = preview("{}".to_owned());
    let evidence = AiApprovalAccessEvidence::from_binding(99, binding, shown.clone());
    assert_eq!(evidence.approval_id(), 99);
    assert_eq!(evidence.tool_call_id(), 11);
    assert_eq!(evidence.binding_hash(), expected_hash);
    assert_eq!(evidence.tool_fingerprint(), "f".repeat(64));
    assert_eq!(evidence.argument_hash(), "a".repeat(64));
    assert_eq!(evidence.principal_reference_fingerprint(), "p".repeat(64));
    assert_eq!(evidence.execution_target_id(), "local");
    assert_eq!(evidence.target_schema_fingerprint(), "s".repeat(64));
    assert_eq!(evidence.operation_name(), "UpdateThing");
    assert_eq!(evidence.operation_document_hash(), "d".repeat(64));
    assert_eq!(evidence.result_projection_fingerprint(), "r".repeat(64));
    assert_eq!(evidence.disclosure_schema_fingerprint(), "x".repeat(64));
    assert_eq!(evidence.policy_version(), "policy-1");
    assert_eq!(evidence.authorization_state_digest(), "state-1");
    assert_eq!(evidence.resources().len(), 1);
    assert_eq!(evidence.resources()[0].resource_id, "t-1");
    assert_eq!(evidence.preview().title, shown.title);
}
