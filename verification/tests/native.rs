use graphql_orm_ai::error::AiError;
use graphql_orm_ai::native::{
    validate_native_order, validate_native_outcome_snapshot, validate_native_source_header, NativeProviderResultHeader, NativeSourceHeader, AiNativeToolControlKind, NativeOutcomeKind, ProviderToolSnapshot,
};
use uuid::Uuid;

#[test]
fn native_order_requires_complete_unique_ordered_callbacks_and_exact_pending_identity() {
    let requests = (0..4)
        .map(|index| ProviderToolSnapshot {
            call_id: format!("call-{index}"),
            tool_id: "registered-tool".to_owned(),
            provider_name: None,
            tool_fingerprint: "a".repeat(64),
            arguments: "{}".to_owned(),
        })
        .collect::<Vec<_>>();
    let ids = (0..4).map(|_| Uuid::new_v4().as_u128()).collect::<Vec<_>>();
    let candidate = ids[1];
    let good = vec![
        (0, ids[0], "call-0", NativeOutcomeKind::Application, None),
        (
            1,
            ids[1],
            "call-1",
            NativeOutcomeKind::FrameworkControl,
            Some(AiNativeToolControlKind::ApprovalPending),
        ),
        (
            2,
            ids[2],
            "call-2",
            NativeOutcomeKind::FrameworkControl,
            Some(AiNativeToolControlKind::ConsequentialCallsPaused),
        ),
        (3, ids[3], "call-3", NativeOutcomeKind::Application, None),
    ];
    assert!(validate_native_order(1, candidate, &requests, &good).is_ok());
    assert!(validate_native_order(1, candidate, &requests, &good[..3]).is_err());
    let mut bad = good.clone();
    bad.push(good[3]);
    assert!(validate_native_order(1, candidate, &requests, &bad).is_err());
    let mut bad = good.clone();
    bad.swap(0, 3);
    assert!(validate_native_order(1, candidate, &requests, &bad).is_err());
    let mut bad = good.clone();
    bad[2].1 = candidate;
    assert!(validate_native_order(1, candidate, &requests, &bad).is_err());
    let mut bad = good.clone();
    bad[2].2 = "call-1";
    assert!(validate_native_order(1, candidate, &requests, &bad).is_err());
    let mut bad = good.clone();
    bad[0].4 = Some(AiNativeToolControlKind::ApprovalPending);
    assert!(validate_native_order(1, candidate, &requests, &bad).is_err());
    let mut bad = good.clone();
    bad[2].4 = Some(AiNativeToolControlKind::ApprovalPending);
    assert!(validate_native_order(1, candidate, &requests, &bad).is_err());
    let mut bad = good.clone();
    bad[0].3 = NativeOutcomeKind::FrameworkControl;
    bad[0].4 = Some(AiNativeToolControlKind::ConsequentialCallsPaused);
    assert!(validate_native_order(1, candidate, &requests, &bad).is_err());
    assert!(validate_native_order(1, Uuid::new_v4().as_u128(), &requests, &good).is_err());
    assert!(validate_native_order(0, candidate, &requests, &good).is_err());
    assert!(validate_native_order(4, candidate, &requests, &good).is_err());
}

#[test]
fn native_order_errors_are_conflicts() {
    let requests = vec![ProviderToolSnapshot {
        call_id: "only".to_owned(),
        tool_id: "registered-tool".to_owned(),
        provider_name: None,
        tool_fingerprint: "a".repeat(64),
        arguments: "{}".to_owned(),
    }];
    let pending = vec![(
        0,
        7u128,
        "only",
        NativeOutcomeKind::FrameworkControl,
        Some(AiNativeToolControlKind::ApprovalPending),
    )];
    assert!(validate_native_order(0, 7, &requests, &pending).is_ok());
    assert!(matches!(
        validate_native_order(0, 0, &requests, &pending),
        Err(AiError::Conflict)
    ));
    assert!(matches!(
        validate_native_order(0, 7, &[], &[]),
        Err(AiError::Conflict)
    ));
}

use graphql_orm_ai::approvals::AiApprovalBinding;
use graphql_orm_ai::execution::GraphqlOperationContract;
use graphql_orm_ai::native::{
    native_context, validate_native_application_outcome, validate_native_approval,
    validate_native_call_record, validate_native_consumed_outcome, AiApprovalRecord,
    AiRunStepRecord, AiToolCallRecord, NativeApprovalEvidence, NativeProviderTurn,
    NativeToolResultSnapshot,
};
use graphql_orm_ai::scope::AiScope;

const CALL_ID: u128 = 0x1111_2222_3333_4444_5555_6666_7777_8888;
const APPROVAL_ID: u128 = 0x9999_aaaa_bbbb_cccc_dddd_eeee_ffff_0001;
const SESSION_ID: u128 = 0x0123_4567_89ab_cdef_0123_4567_89ab_cdef;
const RUN_ID: u128 = 42;

fn binding() -> AiApprovalBinding {
    AiApprovalBinding {
        tool_call_id: CALL_ID,
        session_id: SESSION_ID,
        scope: AiScope::new("workspace", "w-1"),
        tool_fingerprint: "f".repeat(64),
        argument_hash: "a".repeat(64),
        operation: GraphqlOperationContract {
            target_id: "local".to_owned(),
            schema_fingerprint: "s".repeat(64),
            operation_name: "UpdateThing".to_owned(),
            document_hash: "d".repeat(64),
            result_projection_fingerprint: "r".repeat(64),
            disclosure_schema_fingerprint: "x".repeat(64),
        },
        principal_reference_fingerprint: "p".repeat(64),
        delegated_actor_subject: None,
        delegation_reference: None,
        policy_version: "policy-7".to_owned(),
        authorization_state_digest: "state-3".to_owned(),
        resources: vec![],
        preview_hash: "v".repeat(64),
    }
}

fn call() -> AiToolCallRecord {
    AiToolCallRecord {
        id: CALL_ID,
        approval_id: Some(APPROVAL_ID),
        argument_hash: "a".repeat(64),
        tool_fingerprint: "f".repeat(64),
        provider_call_id: "call-1".to_owned(),
        tool_id: "registered-tool".to_owned(),
        state: "completed".to_owned(),
        completed_at: Some(1_700_000_000),
        authorization_policy_version: Some("policy-7".to_owned()),
        authorization_state_digest: Some("state-3".to_owned()),
        result_egress_manifest_hash: Some("m".repeat(64)),
        run_id: RUN_ID,
        payload_purged: false,
        lease_generation: 3,
        provider_kind: Some("openai".to_owned()),
        provider_model: Some("model-a".to_owned()),
        provider_response_id: Some("resp-1".to_owned()),
        budget_reservation_id: Some(77),
        tool_call_index: 1,
        provider_turn_index: 0,
        risk: "non_idempotent_write".to_owned(),
    }
}

fn approval() -> AiApprovalRecord {
    AiApprovalRecord {
        id: APPROVAL_ID,
        tool_call_id: CALL_ID,
        session_id: SESSION_ID,
        argument_hash: "a".repeat(64),
        tool_fingerprint: "f".repeat(64),
        binding_hash: binding().stable_hash(),
        action_preview_hash: "v".repeat(64),
        policy_version: "policy-7".to_owned(),
        authorization_state_digest: "state-3".to_owned(),
        maximum_uses: 1,
        decided_at: Some(1_699_999_000),
        approver_subject: Some("approver-1".to_owned()),
        principal_reference_fingerprint: "p".repeat(64),
        state: "approved".to_owned(),
        consumed_uses: 0,
        consumed_at: None,
        expires_at: 1_700_003_600,
    }
}

#[test]
fn native_approval_accepts_only_the_decided_one_shot_record() {
    let binding = binding();
    let call = call();
    let principal = "p".repeat(64);
    assert!(validate_native_approval(SESSION_ID, &principal, &binding, &call, &approval()).is_ok());

    let mut other = approval();
    other.session_id = 5;
    assert!(matches!(
        validate_native_approval(SESSION_ID, &principal, &binding, &call, &other),
        Err(AiError::Conflict)
    ));
    let mut other = approval();
    other.maximum_uses = 2;
    assert!(validate_native_approval(SESSION_ID, &principal, &binding, &call, &other).is_err());
    let mut other = approval();
    other.decided_at = None;
    assert!(validate_native_approval(SESSION_ID, &principal, &binding, &call, &other).is_err());
    let mut other = approval();
    other.approver_subject = Some(String::new());
    assert!(validate_native_approval(SESSION_ID, &principal, &binding, &call, &other).is_err());
    let mut other = approval();
    other.binding_hash = "0".repeat(64);
    assert!(validate_native_approval(SESSION_ID, &principal, &binding, &call, &other).is_err());
    let mut unlinked = call.clone();
    unlinked.approval_id = None;
    assert!(validate_native_approval(SESSION_ID, &principal, &binding, &unlinked, &approval()).is_err());
    assert!(validate_native_approval(SESSION_ID, &"q".repeat(64), &binding, &call, &approval()).is_err());
    let mut changed = binding.clone();
    changed.policy_version = "policy-8".to_owned();
    assert!(validate_native_approval(SESSION_ID, &principal, &changed, &call, &approval()).is_err());
}

fn consumed() -> AiApprovalRecord {
    let mut record = approval();
    record.state = "consumed".to_owned();
    record.consumed_uses = 1;
    record.consumed_at = Some(1_700_000_100);
    record
}

fn evidence() -> NativeApprovalEvidence {
    NativeApprovalEvidence {
        binding_hash: binding().stable_hash(),
        preview_hash: "v".repeat(64),
        policy_version: "policy-7".to_owned(),
        authorization_state_digest: "state-3".to_owned(),
    }
}

fn tool_result() -> NativeToolResultSnapshot {
    NativeToolResultSnapshot {
        id: CALL_ID,
        provider_call_id: "call-1".to_owned(),
        state: "completed".to_owned(),
        egress_manifest_hash: "m".repeat(64),
        result_block: Some(("call-1".to_owned(), "registered-tool".to_owned())),
    }
}

#[test]
fn native_consumed_outcome_is_the_completed_result_of_its_single_consumption() {
    assert!(validate_native_consumed_outcome(&tool_result(), &call(), &consumed(), &evidence()).is_ok());
    let mut failed = call();
    failed.state = "execution_failed".to_owned();
    let mut failed_tool = tool_result();
    failed_tool.state = "execution_failed".to_owned();
    assert!(validate_native_consumed_outcome(&failed_tool, &failed, &consumed(), &evidence()).is_ok());

    assert!(matches!(
        validate_native_consumed_outcome(&tool_result(), &call(), &approval(), &evidence()),
        Err(AiError::Conflict)
    ));
    let mut twice = consumed();
    twice.consumed_uses = 2;
    assert!(validate_native_consumed_outcome(&tool_result(), &call(), &twice, &evidence()).is_err());
    let mut running = call();
    running.state = "running".to_owned();
    let mut running_tool = tool_result();
    running_tool.state = "running".to_owned();
    assert!(validate_native_consumed_outcome(&running_tool, &running, &consumed(), &evidence()).is_err());
    let mut stale = evidence();
    stale.policy_version = "policy-6".to_owned();
    assert!(validate_native_consumed_outcome(&tool_result(), &call(), &consumed(), &stale).is_err());
    let mut unauthorized = call();
    unauthorized.authorization_state_digest = None;
    assert!(validate_native_consumed_outcome(&tool_result(), &unauthorized, &consumed(), &evidence()).is_err());
    let mut other_manifest = tool_result();
    other_manifest.egress_manifest_hash = "n".repeat(64);
    assert!(validate_native_consumed_outcome(&other_manifest, &call(), &consumed(), &evidence()).is_err());
    let mut no_block = tool_result();
    no_block.result_block = None;
    assert!(validate_native_consumed_outcome(&no_block, &call(), &consumed(), &evidence()).is_err());
    let mut wrong_block = tool_result();
    wrong_block.result_block = Some(("call-1".to_owned(), "other-tool".to_owned()));
    assert!(validate_native_consumed_outcome(&wrong_block, &call(), &consumed(), &evidence()).is_err());
}

fn provider_turn() -> NativeProviderTurn {
    NativeProviderTurn {
        run_id: RUN_ID,
        attempt_id: 9,
        lease_generation: 3,
        provider_kind: "openai".to_owned(),
        provider_model: "model-a".to_owned(),
        provider_response_id: Some("resp-1".to_owned()),
        budget_reservation_id: 77,
    }
}

fn requested() -> ProviderToolSnapshot {
    ProviderToolSnapshot {
        call_id: "call-1".to_owned(),
        tool_id: "registered-tool".to_owned(),
        provider_name: None,
        tool_fingerprint: "f".repeat(64),
        arguments: "{}".to_owned(),
    }
}

fn step(state: &str, generation: i64) -> AiRunStepRecord {
    AiRunStepRecord {
        run_id: RUN_ID,
        step_kind: "application_tool".to_owned(),
        lease_generation: generation,
        state: state.to_owned(),
        finished: state != "running",
    }
}

#[test]
fn native_call_record_matches_the_requested_call_and_its_step() {
    let hash = "a".repeat(64);
    let turn = provider_turn();
    let req = requested();
    // An ordinary outcome before the pending call.
    assert!(validate_native_call_record(
        1, 2, 1, false, false, 3, &turn, &req, &hash, &call(), &step("completed", 3)
    )
    .is_ok());
    assert!(matches!(
        validate_native_call_record(
            1, 2, 2, false, false, 3, &turn, &req, &hash, &call(), &step("completed", 3)
        ),
        Err(AiError::Conflict)
    ));
    let mut purged = call();
    purged.payload_purged = true;
    assert!(validate_native_call_record(
        1, 2, 1, false, false, 3, &turn, &req, &hash, &purged, &step("completed", 3)
    )
    .is_err());
    let mut moved = call();
    moved.tool_call_index = 0;
    assert!(validate_native_call_record(
        1, 2, 1, false, false, 3, &turn, &req, &hash, &moved, &step("completed", 3)
    )
    .is_err());
    assert!(validate_native_call_record(
        1, 2, 1, false, false, 3, &turn, &req, &"b".repeat(64), &call(), &step("completed", 3)
    )
    .is_err());
    assert!(validate_native_call_record(
        1, 2, 1, false, false, 3, &turn, &req, &hash, &call(), &step("running", 3)
    )
    .is_err());
    let mut other_response = turn.clone();
    other_response.provider_response_id = None;
    assert!(validate_native_call_record(
        1, 2, 1, false, false, 3, &other_response, &req, &hash, &call(), &step("completed", 3)
    )
    .is_err());

    // The pending call of a finalized checkpoint, re-leased at generation 5 and still running.
    let mut pending = call();
    pending.lease_generation = 5;
    pending.state = "pending".to_owned();
    assert!(validate_native_call_record(
        1, 1, 1, true, false, 5, &turn, &req, &hash, &pending, &step("running", 5)
    )
    .is_ok());
    assert!(validate_native_call_record(
        1, 1, 1, true, false, 6, &turn, &req, &hash, &pending, &step("running", 5)
    )
    .is_err());
    assert!(validate_native_call_record(
        1, 1, 1, true, true, 6, &turn, &req, &hash, &pending, &step("pending", 5)
    )
    .is_ok());
    assert!(validate_native_call_record(
        1, 1, 1, true, false, 5, &turn, &req, &hash, &pending, &step("pending", 5)
    )
    .is_err());
}

#[test]
fn native_application_outcome_is_an_unapproved_finished_call_with_its_manifest() {
    let mut read = call();
    read.approval_id = None;
    read.risk = "read_only".to_owned();
    let reference = Uuid::from_u128(CALL_ID).to_string();
    let manifest = "m".repeat(64);
    assert!(validate_native_application_outcome(
        0, 1, &read, true, "application_tool_result", &reference, &manifest
    )
    .is_ok());
    assert!(validate_native_application_outcome(
        2, 1, &read, true, "application_tool_result", &reference, &manifest
    )
    .is_ok());
    assert!(matches!(
        validate_native_application_outcome(
            1, 1, &read, true, "application_tool_result", &reference, &manifest
        ),
        Err(AiError::Conflict)
    ));
    // The raw 128-bit value is not the manifest's source reference.
    assert!(validate_native_application_outcome(
        0, 1, &read, true, "application_tool_result", &CALL_ID.to_string(), &manifest
    )
    .is_err());
    assert!(validate_native_application_outcome(
        0, 1, &read, false, "application_tool_result", &reference, &manifest
    )
    .is_err());
    assert!(validate_native_application_outcome(
        0, 1, &read, true, "tool_result", &reference, &manifest
    )
    .is_err());
    assert!(validate_native_application_outcome(
        0, 1, &read, true, "application_tool_result", &reference, &"n".repeat(64)
    )
    .is_err());
    let mut write = read.clone();
    write.risk = "low_risk_write".to_owned();
    assert!(validate_native_application_outcome(
        0, 1, &write, true, "application_tool_result", &reference, &manifest
    )
    .is_ok());
    assert!(validate_native_application_outcome(
        2, 1, &write, true, "application_tool_result", &reference, &manifest
    )
    .is_err());
    let mut approved = read.clone();
    approved.approval_id = Some(APPROVAL_ID);
    assert!(validate_native_application_outcome(
        0, 1, &approved, true, "application_tool_result", &reference, &manifest
    )
    .is_err());
    let mut unknown = read.clone();
    unknown.risk = "destructive".to_owned();
    assert!(validate_native_application_outcome(
        0, 1, &unknown, true, "application_tool_result", &reference, &manifest
    )
    .is_err());
}

#[test]
fn native_context_names_the_checkpoint_row() {
    let scope = AiScope::new("workspace", "w-1");
    let context = native_context(CALL_ID, &scope);
    assert_eq!(context.entity, "graphql_orm_ai_run_checkpoints");
    assert_eq!(context.row_id, "11112222-3333-4444-5555-666677778888");
    assert_eq!(context.field, "protected_state");
    assert!(context.scope.same_as(&scope));
}

use graphql_orm_ai::approvals::AiCanonicalActionPreview;
use graphql_orm_ai::native::{
    validate_native_candidate, validate_native_paused_control, validate_native_pending_control,
    validate_native_preparation, AiNativeApprovalCandidateRecord, NativeApprovalContext,
};

fn candidate(state: &str) -> AiNativeApprovalCandidateRecord {
    AiNativeApprovalCandidateRecord {
        id: CALL_ID,
        state: state.to_owned(),
        run_id: RUN_ID,
        attempt_id: 9,
        lease_generation: 3,
        budget_reservation_id: 77,
        payload_purged: false,
        binding_hash: binding().stable_hash(),
        preview_hash: "v".repeat(64),
        control_receipt_hash: Some("c".repeat(64)),
        control_egress_decision_id: Some(5),
        control_egress_manifest_hash: Some("m".repeat(64)),
        final_approval_id: if state == "finalized" { Some(APPROVAL_ID) } else { None },
        settled_checkpoint_id: if state == "finalized" { Some(31) } else { None },
    }
}

#[test]
fn native_candidate_matches_its_provider_turn_and_lifecycle() {
    let turn = provider_turn();
    assert!(validate_native_candidate(&candidate("prepared"), "prepared", RUN_ID, &turn, None).is_ok());
    assert!(validate_native_candidate(&candidate("finalized"), "finalized", RUN_ID, &turn, Some(31)).is_ok());
    assert!(matches!(
        validate_native_candidate(&candidate("finalized"), "finalized", RUN_ID, &turn, Some(32)),
        Err(AiError::Conflict)
    ));
    assert!(validate_native_candidate(&candidate("prepared"), "finalized", RUN_ID, &turn, None).is_err());
    let mut settled = candidate("prepared");
    settled.settled_checkpoint_id = Some(31);
    assert!(validate_native_candidate(&settled, "prepared", RUN_ID, &turn, None).is_err());
    let mut other_attempt = turn.clone();
    other_attempt.attempt_id = 10;
    assert!(validate_native_candidate(&candidate("prepared"), "prepared", RUN_ID, &other_attempt, None).is_err());
    let mut no_receipt = candidate("prepared");
    no_receipt.control_receipt_hash = None;
    assert!(validate_native_candidate(&no_receipt, "prepared", RUN_ID, &turn, None).is_err());
    let mut purged = candidate("prepared");
    purged.payload_purged = true;
    assert!(validate_native_candidate(&purged, "prepared", RUN_ID, &turn, None).is_err());
}

fn shown_preview() -> AiCanonicalActionPreview {
    AiCanonicalActionPreview {
        action_kind: "records.update".to_owned(),
        title: "Update one record".to_owned(),
        targets: vec![],
        details: "{}".to_owned(),
    }
}

fn context() -> NativeApprovalContext {
    NativeApprovalContext {
        scope: AiScope::new("workspace", "w-1"),
        tool_call_index: 1,
        provider_turn_index: 0,
        correlation_id: "corr-1".to_owned(),
    }
}

#[test]
fn native_preparation_is_the_candidates_exact_write_envelope() {
    let preview = shown_preview();
    let mut envelope = binding();
    envelope.preview_hash = preview.stable_hash();
    let mut record = candidate("prepared");
    record.binding_hash = envelope.stable_hash();
    record.preview_hash = envelope.preview_hash.clone();
    let scope = AiScope::new("workspace", "w-1");
    assert!(validate_native_preparation(&envelope, &preview, &context(), true, &scope, 1, 1, "corr-1", &record, SESSION_ID).is_ok());
    assert!(matches!(
        validate_native_preparation(&envelope, &preview, &context(), false, &scope, 1, 1, "corr-1", &record, SESSION_ID),
        Err(AiError::Conflict)
    ));
    assert!(validate_native_preparation(&envelope, &preview, &context(), true, &scope, 2, 1, "corr-1", &record, SESSION_ID).is_err());
    assert!(validate_native_preparation(&envelope, &preview, &context(), true, &scope, 1, 2, "corr-1", &record, SESSION_ID).is_err());
    assert!(validate_native_preparation(&envelope, &preview, &context(), true, &scope, 1, 1, "corr-2", &record, SESSION_ID).is_err());
    assert!(validate_native_preparation(&envelope, &preview, &context(), true, &scope, 1, 1, "corr-1", &record, SESSION_ID + 1).is_err());
    let mut changed = envelope.clone();
    changed.policy_version = "policy-8".to_owned();
    assert!(matches!(
        validate_native_preparation(&changed, &preview, &context(), true, &scope, 1, 1, "corr-1", &record, SESSION_ID),
        Err(AiError::Conflict)
    ));
    let mut stale = envelope.clone();
    stale.preview_hash = "0".repeat(64);
    assert!(matches!(
        validate_native_preparation(&stale, &preview, &context(), true, &scope, 1, 1, "corr-1", &record, SESSION_ID),
        Err(AiError::InvalidConfiguration(_))
    ));
}

#[test]
fn native_control_receipts_match_the_pending_and_paused_calls() {
    let envelope = binding();
    let record = candidate("prepared");
    let mut prepared_call = call();
    prepared_call.state = "approval_prepared".to_owned();
    let manifest = "m".repeat(64);
    assert!(validate_native_pending_control(1, 1, &prepared_call, &record, "prepared", false, &envelope, &manifest).is_ok());
    assert!(matches!(
        validate_native_pending_control(2, 1, &prepared_call, &record, "prepared", false, &envelope, &manifest),
        Err(AiError::Conflict)
    ));
    assert!(validate_native_pending_control(1, 1, &prepared_call, &record, "finalized", false, &envelope, &manifest).is_err());
    assert!(validate_native_pending_control(1, 1, &prepared_call, &record, "prepared", true, &envelope, &manifest).is_err());
    assert!(validate_native_pending_control(1, 1, &call(), &record, "finalized", true, &envelope, &manifest).is_ok());
    assert!(validate_native_pending_control(1, 1, &prepared_call, &record, "prepared", false, &envelope, &"n".repeat(64)).is_err());
    let mut waiting = call();
    waiting.state = "waiting_approval".to_owned();
    assert!(validate_native_pending_control(1, 1, &waiting, &candidate("finalized"), "finalized", false, &envelope, &manifest).is_ok());

    let mut blocked = call();
    blocked.state = "control_blocked".to_owned();
    blocked.approval_id = None;
    assert!(validate_native_paused_control(2, 1, &blocked, true).is_ok());
    assert!(matches!(validate_native_paused_control(1, 1, &blocked, true), Err(AiError::Conflict)));
    assert!(validate_native_paused_control(2, 1, &blocked, false).is_err());
    let mut approved = blocked.clone();
    approved.approval_id = Some(APPROVAL_ID);
    assert!(validate_native_paused_control(2, 1, &approved, true).is_err());
}

use graphql_orm_ai::native::{
    validate_native_parked_wait, validate_native_resume_claim, validate_native_source_row,
    validate_parked_session_binding, NativeCheckpointRow, NativeParkedWait, ParkedSessionBinding,
};

fn row(id: u128, hash: &str) -> NativeCheckpointRow {
    NativeCheckpointRow {
        id,
        attempt_id: 9,
        lease_generation: 3,
        provider_response_id: Some("resp-1".to_owned()),
        budget_reservation_id: Some(77),
        checkpoint_hash: hash.to_owned(),
    }
}

fn parked() -> NativeParkedWait {
    NativeParkedWait {
        format_version: 1,
        kind: "approval_wait_parked".to_owned(),
        approval_id: APPROVAL_ID,
        tool_call_id: CALL_ID,
        source_checkpoint_id: 31,
        source_checkpoint_fingerprint: "s".repeat(64),
        provider_session_binding_id: 55,
        provider_session_park_generation: 2,
        provider_session_continuation_fingerprint: "k".repeat(64),
    }
}

fn session_binding() -> ParkedSessionBinding {
    ParkedSessionBinding {
        session_id: SESSION_ID,
        claimed_run_id: Some(RUN_ID),
        state: "parked_wait".to_owned(),
        parked_wait_kind: Some("approval".to_owned()),
        parked_wait_id: Some(APPROVAL_ID),
        park_generation: 2,
        parked_source_checkpoint_id: Some(31),
        parked_source_checkpoint_fingerprint: Some("s".repeat(64)),
        parked_checkpoint_id: Some(32),
        parked_checkpoint_fingerprint: Some("p".repeat(64)),
        parked_continuation_fingerprint: Some("k".repeat(64)),
        parked_confirmed_at: Some(1_700_000_000),
        parked_expires_at: Some(1_700_001_000),
    }
}

#[test]
fn native_adoption_resumes_only_the_exact_parked_wait() {
    let source = row(31, &"s".repeat(64));
    let parked_row = row(32, &"p".repeat(64));
    assert!(validate_native_parked_wait(&parked(), APPROVAL_ID, CALL_ID, &parked_row, &source, 4, 10).is_ok());
    assert!(matches!(
        validate_native_parked_wait(&parked(), APPROVAL_ID, CALL_ID, &parked_row, &source, 5, 10),
        Err(AiError::Conflict)
    ));
    assert!(validate_native_parked_wait(&parked(), APPROVAL_ID, CALL_ID, &parked_row, &source, 4, 9).is_err());
    assert!(validate_native_parked_wait(&parked(), APPROVAL_ID + 1, CALL_ID, &parked_row, &source, 4, 10).is_err());
    let mut top = source.clone();
    top.lease_generation = i64::MAX;
    let mut top_parked = parked_row.clone();
    top_parked.lease_generation = i64::MAX;
    assert!(validate_native_parked_wait(&parked(), APPROVAL_ID, CALL_ID, &top_parked, &top, i64::MIN, 10).is_err());

    let now = 1_700_000_500;
    assert!(validate_parked_session_binding(&session_binding(), SESSION_ID, RUN_ID, APPROVAL_ID, &parked(), &source, &parked_row, now).is_ok());
    assert!(validate_parked_session_binding(&session_binding(), SESSION_ID, RUN_ID, APPROVAL_ID, &parked(), &source, &parked_row, 1_700_001_000).is_err());
    let mut unconfirmed = session_binding();
    unconfirmed.parked_confirmed_at = None;
    assert!(validate_parked_session_binding(&unconfirmed, SESSION_ID, RUN_ID, APPROVAL_ID, &parked(), &source, &parked_row, now).is_err());
    let mut other_park = session_binding();
    other_park.park_generation = 3;
    assert!(matches!(
        validate_parked_session_binding(&other_park, SESSION_ID, RUN_ID, APPROVAL_ID, &parked(), &source, &parked_row, now),
        Err(AiError::Conflict)
    ));

    let mut claimed = approval();
    claimed.state = "resume_claimed".to_owned();
    let mut pending_call = call();
    pending_call.completed_at = None;
    assert!(validate_native_resume_claim(&claimed, &pending_call, false, now).is_ok());
    assert!(validate_native_resume_claim(&claimed, &pending_call, true, now).is_err());
    assert!(validate_native_resume_claim(&claimed, &call(), false, now).is_err());
    assert!(validate_native_resume_claim(&claimed, &pending_call, false, 1_700_003_600).is_err());
    assert!(matches!(validate_native_resume_claim(&approval(), &pending_call, false, now), Err(AiError::Conflict)));

    let mut finalized = candidate("finalized");
    finalized.final_approval_id = Some(APPROVAL_ID);
    assert!(validate_native_source_row(&provider_turn(), &source, &finalized, APPROVAL_ID).is_ok());
    assert!(validate_native_source_row(&provider_turn(), &source, &finalized, APPROVAL_ID + 1).is_err());
    let mut no_budget = source.clone();
    no_budget.budget_reservation_id = None;
    assert!(validate_native_source_row(&provider_turn(), &no_budget, &finalized, APPROVAL_ID).is_err());
}

fn source_header() -> NativeSourceHeader {
    NativeSourceHeader {
        format_version: 1,
        checkpoint_kind: "native_approval_provider_turn_persisted".to_owned(),
        provider_turns: 2,
        total_tool_calls: 5,
        correlation_reference_valid: true,
        rule_fingerprint: "c".repeat(64),
        rule_provider_calls: 2,
        rule_steps: 7,
        outcome_count: 3,
        pending_call_index: 1,
    }
}

fn provider_header() -> NativeProviderResultHeader {
    NativeProviderResultHeader {
        format_version: 2,
        session_id: 10,
        run_id: 20,
        attempt_id: 30,
        lease_generation: 4,
        tool_call_count: 3,
        response_reference_valid: Some(true),
    }
}

fn check(source: &NativeSourceHeader, provider: &NativeProviderResultHeader, prepared: bool) -> Result<(), AiError> {
    validate_native_source_header(source, provider, 10, 20, 30, 4, prepared)
}

#[test]
fn native_source_header_accepts_only_a_consistent_turn_of_this_lease() {
    assert!(check(&source_header(), &provider_header(), true).is_ok());
    let mut older = provider_header();
    older.lease_generation = 3;
    older.attempt_id = 31;
    assert!(check(&source_header(), &older, false).is_ok());
    assert!(matches!(check(&source_header(), &older, true), Err(AiError::Conflict)));
    let mut newer = provider_header();
    newer.lease_generation = 5;
    assert!(matches!(check(&source_header(), &newer, false), Err(AiError::Conflict)));
    let mut counts = source_header();
    counts.outcome_count = 2;
    assert!(matches!(check(&counts, &provider_header(), true), Err(AiError::Conflict)));
    let mut usage = source_header();
    usage.rule_steps = 6;
    assert!(matches!(check(&usage, &provider_header(), true), Err(AiError::Conflict)));
    let mut pending = source_header();
    pending.pending_call_index = 3;
    assert!(matches!(check(&pending, &provider_header(), true), Err(AiError::Conflict)));
    let mut kind = source_header();
    kind.checkpoint_kind = "native_approval_parked".to_owned();
    assert!(matches!(check(&kind, &provider_header(), true), Err(AiError::Conflict)));
    let mut fingerprint = source_header();
    fingerprint.rule_fingerprint = "é".repeat(32);
    assert!(check(&fingerprint, &provider_header(), true).is_ok());
    fingerprint.rule_fingerprint = "c".repeat(63);
    assert!(matches!(check(&fingerprint, &provider_header(), true), Err(AiError::Conflict)));
    let mut no_response = provider_header();
    no_response.response_reference_valid = None;
    assert!(matches!(check(&source_header(), &no_response, true), Err(AiError::Conflict)));
    let mut format = provider_header();
    format.format_version = 3;
    assert!(matches!(check(&source_header(), &format, true), Err(AiError::Conflict)));
    let mut other_session = provider_header();
    other_session.session_id = 11;
    assert!(matches!(check(&source_header(), &other_session, true), Err(AiError::Conflict)));
}

#[test]
fn native_outcome_snapshot_must_answer_exactly_its_requested_call() {
    let requested = ProviderToolSnapshot {
        call_id: "call-0".to_owned(),
        tool_id: "registered-tool".to_owned(),
        provider_name: None,
        tool_fingerprint: "a".repeat(64),
        arguments: "{}".to_owned(),
    };
    let block = Some(("call-0".to_owned(), "registered-tool".to_owned()));
    assert!(validate_native_outcome_snapshot(1, &requested, true, &block).is_ok());
    assert!(matches!(validate_native_outcome_snapshot(2, &requested, true, &block), Err(AiError::Conflict)));
    assert!(matches!(validate_native_outcome_snapshot(1, &requested, false, &block), Err(AiError::Conflict)));
    assert!(matches!(validate_native_outcome_snapshot(1, &requested, true, &None), Err(AiError::Conflict)));
    let other_tool = Some(("call-0".to_owned(), "other-tool".to_owned()));
    assert!(matches!(validate_native_outcome_snapshot(1, &requested, true, &other_tool), Err(AiError::Conflict)));
    let other_call = Some(("call-1".to_owned(), "registered-tool".to_owned()));
    assert!(matches!(validate_native_outcome_snapshot(1, &requested, true, &other_call), Err(AiError::Conflict)));
    let mut short = requested.clone();
    short.tool_fingerprint = "a".repeat(63);
    assert!(matches!(validate_native_outcome_snapshot(1, &short, true, &block), Err(AiError::Conflict)));
}
