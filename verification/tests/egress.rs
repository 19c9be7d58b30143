use graphql_orm_ai::egress::{
    capability_value, classification_value, egress_audit_step, egress_event_record,
    map_persistence_error, outcome_value, reason_value, record_matches, validate_record,
    AiEgressAuditFacts, AiEgressAuditStep, AiEgressCapability, AiEgressDecision,
    AiEgressOutcome, AiEgressReason, AiPersistenceErrorCode, DataClassification,
};
use graphql_orm_ai::error::AiError;

fn manifest() -> AiEgressAuditFacts {
    AiEgressAuditFacts {
        run_id: None,
        scope_kind: "workspace".to_owned(),
        scope_id: "synthetic".to_owned(),
        destination: "synthetic-provider".to_owned(),
        capability: AiEgressCapability::ToolResult,
        maximum_classification: DataClassification::Internal,
        estimated_bytes: 32,
        estimated_tokens: 0,
    }
}

fn decision(id: u128) -> AiEgressDecision {
    AiEgressDecision {
        id,
        principal_subject: "subject".to_owned(),
        manifest_hash: "a".repeat(64),
        policy_version: "v1".to_owned(),
        outcome: AiEgressOutcome::Allow,
        reason: AiEgressReason::Allowed,
    }
}

#[test]
fn exact_replay_is_idempotent_and_changed_evidence_is_a_conflict() {
    let hash = "a".repeat(64);
    let first = egress_audit_step(None, &manifest(), &hash, &decision(1)).unwrap();
    let record = match first {
        AiEgressAuditStep::Insert(record) => record,
        AiEgressAuditStep::AlreadyRecorded => panic!("first write must insert"),
    };
    assert_eq!(record.capability, "tool_result");
    assert_eq!(record.classification, "internal");
    assert_eq!(record.outcome, "allow");
    assert_eq!(record.reason_code, "allowed");
    assert_eq!(record.estimated_bytes, 32);
    assert!(matches!(
        egress_audit_step(Some(&record), &manifest(), &hash, &decision(1)),
        Ok(AiEgressAuditStep::AlreadyRecorded)
    ));
    let mut changed = decision(1);
    changed.outcome = AiEgressOutcome::Deny;
    changed.reason = AiEgressReason::PolicyDenied;
    assert!(matches!(egress_audit_step(Some(&record), &manifest(), &hash, &changed), Err(AiError::Conflict)));
    let mut other_policy = decision(1);
    other_policy.policy_version = "v2".to_owned();
    assert!(!record_matches(&record, &manifest(), &other_policy));
}

#[test]
fn invalid_audit_events_are_refused_before_any_write() {
    let hash = "a".repeat(64);
    assert!(validate_record(&manifest(), &hash, &decision(1)).is_ok());
    assert!(matches!(validate_record(&manifest(), &"b".repeat(64), &decision(1)), Err(AiError::InvalidInput(_))));
    let mut blank_subject = decision(1);
    blank_subject.principal_subject = "   ".to_owned();
    assert!(validate_record(&manifest(), &hash, &blank_subject).is_err());
    let mut huge = manifest();
    huge.estimated_bytes = u64::MAX;
    assert!(matches!(egress_audit_step(None, &huge, &hash, &decision(1)), Err(AiError::InvalidInput(_))));
    let mut long_kind = manifest();
    long_kind.scope_kind = "k".repeat(129);
    assert!(validate_record(&long_kind, &hash, &decision(1)).is_err());
}

#[test]
fn stored_names_are_the_snake_case_values() {
    assert_eq!(capability_value(AiEgressCapability::RemoteMcp), "remote_mcp");
    assert_eq!(classification_value(DataClassification::Secret), "secret");
    assert_eq!(outcome_value(AiEgressOutcome::Deny), "deny");
    assert_eq!(reason_value(AiEgressReason::ConsentRequired), "consent_required");
    let record = egress_event_record(&manifest(), &decision(9));
    assert!(record_matches(&record, &manifest(), &decision(9)));
    assert!(!record_matches(&record, &manifest(), &decision(10)));
}

#[test]
fn persistence_errors_map_to_safe_errors() {
    assert!(matches!(map_persistence_error(AiPersistenceErrorCode::PageLimitExceeded, "too many"), AiError::InvalidInput(m) if m == "too many"));
    assert!(matches!(map_persistence_error(AiPersistenceErrorCode::Unauthenticated, ""), AiError::Forbidden));
    assert!(matches!(map_persistence_error(AiPersistenceErrorCode::NotFound, ""), AiError::NotFound));
    assert!(matches!(map_persistence_error(AiPersistenceErrorCode::ConstraintViolation, ""), AiError::Conflict));
    assert!(matches!(map_persistence_error(AiPersistenceErrorCode::AuthorizationMisconfigured, ""), AiError::PersistenceFailed));
}
