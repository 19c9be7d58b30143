use graphql_orm_ai::coordinator::{
    adoption_step, delivery_transition, plan_step, rule_plan_step, start_step, turn_begin_step,
    AiDeliveryTransition, AiPlanStage,
};
use graphql_orm_ai::coordinator::admit_dynamic_tool_call;
use graphql_orm_ai::coordinator::{
    classify_provider_turn_failure, closing_outcome, deferred_outcome, deferred_retry_step,
    interrupted_session_action, provider_close_reason, provider_failure_step,
    provider_result_step, settlement_fallback, tool_batch_step, tool_call_step, tool_dispatch,
    tool_failure_step, AiAgentLoopLimits, AiAgentLoopTurnKind, AiAgentRecoveryPhase,
    AiCoordinatorStep, AiInterruptedSessionAction, AiProviderCallPlan, AiProviderRunCloseReason,
    AiProviderSessionDeferralReason, AiProviderSessionTurnPlan, AiReadOnlyAgentCoordinatorLimits,
    AiReadOnlyAgentRunOutcome, AiReadOnlyAgentTurnMode, AiReadOnlyAgentTurnModeKind,
    AiReadOnlyAgentTurnPlan, AiResolvedRuleSet, AiToolDispatch, AiToolResultEgressRoute,
    ProviderTurnFailure,
};
use graphql_orm_ai::error::AiError;
use graphql_orm_ai::scope::AiScope;

fn test_scope() -> AiScope {
    let mut scope = AiScope::new("test", "coordinator-scope");
    scope.tenant_id = Some("coordinator-tenant".to_owned());
    scope
}

fn test_rules(scope: AiScope) -> AiResolvedRuleSet {
    AiResolvedRuleSet { target_scope: scope, fingerprint: "1".repeat(64) }
}

fn plan(scope: AiScope) -> AiProviderCallPlan {
    AiProviderCallPlan {
        scope,
        correlation_id: "coordinator-correlation".to_owned(),
        has_application_tools: false,
        tool_free_initial: false,
        dynamic_tool_initial: false,
        provider_retained_continuation: false,
        continuation: false,
        provider_session_descriptor: None,
        offered_tools: Vec::new(),
    }
}

fn test_chat_plan(scope: AiScope) -> AiProviderCallPlan {
    AiProviderCallPlan { tool_free_initial: true, ..plan(scope) }
}

fn test_plan(scope: AiScope) -> AiProviderCallPlan {
    AiProviderCallPlan { has_application_tools: true, ..plan(scope) }
}

fn test_builtin_plan(scope: AiScope) -> AiProviderCallPlan {
    plan(scope)
}

fn test_chat_continuation_plan(scope: AiScope) -> AiProviderCallPlan {
    AiProviderCallPlan { continuation: true, ..plan(scope) }
}

fn test_dynamic_builtin_plan(scope: AiScope) -> AiProviderCallPlan {
    AiProviderCallPlan {
        has_application_tools: true,
        dynamic_tool_initial: true,
        provider_retained_continuation: true,
        provider_session_descriptor: Some("descriptor-1".to_owned()),
        ..plan(scope)
    }
}

fn test_route() -> AiToolResultEgressRoute {
    AiToolResultEgressRoute {
        provider_kind: "local_harness".to_owned(),
        provider_model: "model-1".to_owned(),
        destination: "sandboxed-local-harness".to_owned(),
    }
}

#[test]
fn chat_turn_factory_accepts_only_exact_initial_tool_free_plans() {
    let scope = test_scope();
    let plan = AiReadOnlyAgentTurnPlan::new_chat(test_chat_plan(scope.clone()), test_rules(scope.clone()), false)
        .expect("an exact initial tool-free plan should validate");
    let (_, _, _, mode, _, _, _, _) = plan.into_parts();
    assert!(matches!(mode, AiReadOnlyAgentTurnMode::ChatOnly));

    assert!(matches!(
        AiReadOnlyAgentTurnPlan::new_chat(test_plan(scope.clone()), test_rules(scope.clone()), false),
        Err(AiError::InvalidInput(_))
    ));
    assert!(matches!(
        AiReadOnlyAgentTurnPlan::new_chat(test_builtin_plan(scope.clone()), test_rules(scope.clone()), false),
        Err(AiError::InvalidInput(_))
    ));
    assert!(matches!(
        AiReadOnlyAgentTurnPlan::new_chat(test_chat_continuation_plan(scope.clone()), test_rules(scope.clone()), false),
        Err(AiError::InvalidInput(_))
    ));
    assert!(matches!(
        AiReadOnlyAgentTurnPlan::new_chat(test_chat_plan(scope), test_rules(AiScope::new("test", "different-scope")), false),
        Err(AiError::InvalidInput(_))
    ));
}

#[test]
fn retained_dynamic_tool_factory_accepts_validated_provider_builtins() {
    let scope = test_scope();
    let provider_call = test_dynamic_builtin_plan(scope.clone());
    let plan = AiReadOnlyAgentTurnPlan::new_experimental_dynamic_tools(provider_call, test_route(), Ok(()), test_rules(scope), false)
        .expect("a validated hosted built-in may coexist with retained dynamic tools");
    let (_, _, _, mode, _, _, _, _) = plan.into_parts();
    assert!(matches!(mode, AiReadOnlyAgentTurnMode::ExperimentalDynamicTools(_)));
}

#[test]
fn application_tool_plans_need_tools_a_valid_route_and_no_provider_session() {
    let scope = test_scope();
    let plan = AiReadOnlyAgentTurnPlan::new(test_plan(scope.clone()), test_route(), Ok(()), test_rules(scope.clone()), true)
        .expect("application tools with a valid route");
    assert_eq!(plan.mode_kind(), AiReadOnlyAgentTurnModeKind::ApplicationTools);
    assert_eq!(plan.rule_fingerprint(), "1".repeat(64));
    assert!(!plan.is_continuation());
    let session = AiProviderSessionTurnPlan { descriptor: "descriptor-1".to_owned(), registration_fingerprint: "r".to_owned() };
    assert!(matches!(plan.with_provider_session(session), Err(AiError::InvalidInput(_))));
    let refused = Err(AiError::InvalidInput("tool result egress route is invalid".to_owned()));
    assert!(matches!(
        AiReadOnlyAgentTurnPlan::new(test_plan(scope.clone()), test_route(), refused, test_rules(scope.clone()), false),
        Err(AiError::InvalidInput(message)) if message == "tool result egress route is invalid"
    ));
    assert!(matches!(
        AiReadOnlyAgentTurnPlan::new(test_chat_plan(scope.clone()), test_route(), Err(AiError::Conflict), test_rules(scope.clone()), false),
        Err(AiError::InvalidInput(_))
    ));
    assert!(matches!(
        AiReadOnlyAgentTurnPlan::new(test_chat_plan(scope.clone()), test_route(), Ok(()), test_rules(scope), false),
        Err(AiError::InvalidInput(_))
    ));
}

#[test]
fn dynamic_plans_bind_only_their_exact_provider_session() {
    let scope = test_scope();
    let make = || {
        AiReadOnlyAgentTurnPlan::new_experimental_dynamic_tools(test_dynamic_builtin_plan(scope.clone()), test_route(), Ok(()), test_rules(scope.clone()), false)
            .unwrap()
    };
    let exact = AiProviderSessionTurnPlan { descriptor: "descriptor-1".to_owned(), registration_fingerprint: "r".to_owned() };
    let plan = make().with_provider_session(exact).expect("exact descriptor binds");
    let (_, parts_scope, correlation, _, _, _, session, delivery) = plan.into_parts();
    assert_eq!(parts_scope.id, "coordinator-scope");
    assert_eq!(correlation, "coordinator-correlation");
    assert_eq!(session.unwrap().descriptor, "descriptor-1");
    assert!(delivery.is_none());
    let other = AiProviderSessionTurnPlan { descriptor: "descriptor-2".to_owned(), registration_fingerprint: "r".to_owned() };
    assert!(matches!(make().with_provider_session(other), Err(AiError::InvalidInput(_))));
}

#[test]
fn coordinator_limits_bound_the_heartbeat() {
    let loop_limits = AiAgentLoopLimits { maximum_provider_turns: 4, maximum_total_tool_calls: 16 };
    let limits = AiReadOnlyAgentCoordinatorLimits::new(loop_limits, 1_000_000_000).unwrap();
    assert_eq!(limits.heartbeat_interval(), 1_000_000_000);
    assert_eq!(limits.loop_limits(), loop_limits);
    assert!(AiReadOnlyAgentCoordinatorLimits::new(loop_limits, 300_000_000_000).is_ok());
    assert!(matches!(AiReadOnlyAgentCoordinatorLimits::new(loop_limits, 0), Err(AiError::InvalidConfiguration(_))));
    assert!(AiReadOnlyAgentCoordinatorLimits::new(loop_limits, 300_000_000_001).is_err());
}

#[test]
fn budget_denial_is_a_clean_failure_step() {
    let failure = classify_provider_turn_failure(&AiError::PreTransportBudgetDenied);
    assert_eq!(failure, ProviderTurnFailure::BudgetDenied);
    assert!(matches!(provider_failure_step(failure), AiCoordinatorStep::Fail("provider_budget_denied")));
}

#[test]
fn pre_transport_rejections_are_clean_failure_steps() {
    let failure = classify_provider_turn_failure(&AiError::PreTransportProviderFailed);
    assert!(matches!(provider_failure_step(failure), AiCoordinatorStep::Fail("provider_pre_transport_failed")));
    let native = classify_provider_turn_failure(&AiError::StatelessNativeItemRejected);
    assert!(matches!(provider_failure_step(native), AiCoordinatorStep::Fail("provider_native_item_rejected")));
}

#[test]
fn other_provider_errors_stay_uncertain() {
    for error in [AiError::ProviderFailed, AiError::Conflict, AiError::Forbidden, AiError::PersistenceFailed, AiError::InvalidInput("x".to_owned())] {
        let failure = classify_provider_turn_failure(&error);
        assert_eq!(failure, ProviderTurnFailure::Provider);
        assert!(matches!(
            provider_failure_step(failure),
            AiCoordinatorStep::RecoverUnlessCancelled(AiAgentRecoveryPhase::ProviderTurn, "provider_turn_uncertain")
        ));
    }
    assert!(matches!(provider_failure_step(ProviderTurnFailure::LeaseLost), AiCoordinatorStep::Propagate));
    assert!(matches!(provider_failure_step(ProviderTurnFailure::Cancelled), AiCoordinatorStep::SettleAndCancel));
    assert!(matches!(provider_failure_step(ProviderTurnFailure::Deferred), AiCoordinatorStep::ScheduleRetry));
}

#[test]
fn pending_cleanup_schedules_a_retry_step() {
    assert!(matches!(deferred_retry_step(&Ok(())), AiCoordinatorStep::Defer));
    assert!(matches!(
        deferred_retry_step(&Err(AiError::Conflict)),
        AiCoordinatorStep::Fail("provider_session_cleanup_unavailable")
    ));
    assert!(matches!(deferred_retry_step(&Err(AiError::PersistenceFailed)), AiCoordinatorStep::Propagate));
    assert_eq!(
        deferred_outcome(1, 2),
        AiReadOnlyAgentRunOutcome::Deferred {
            reason: AiProviderSessionDeferralReason::CleanupPending,
            retry_after_seconds: 5,
            provider_turns: 1,
            total_tool_calls: 2,
        }
    );
}

#[test]
fn provider_result_steps_follow_the_turn_mode() {
    assert!(matches!(
        provider_result_step(AiReadOnlyAgentTurnModeKind::ChatOnly, Some(AiAgentLoopTurnKind::ToolCalls), true, true),
        AiCoordinatorStep::Recover(AiAgentRecoveryPhase::ProviderTurn, "chat_turn_returned_application_tools", Some("provider_session_unexpected_tool_batch"))
    ));
    assert!(matches!(
        provider_result_step(AiReadOnlyAgentTurnModeKind::ChatOnly, Some(AiAgentLoopTurnKind::Completed), true, true),
        AiCoordinatorStep::Complete
    ));
    assert!(matches!(
        provider_result_step(AiReadOnlyAgentTurnModeKind::ApplicationTools, Some(AiAgentLoopTurnKind::ToolCalls), true, true),
        AiCoordinatorStep::RunTools
    ));
    assert!(matches!(
        provider_result_step(AiReadOnlyAgentTurnModeKind::ExperimentalDynamicTools, Some(AiAgentLoopTurnKind::ToolCalls), true, true),
        AiCoordinatorStep::Recover(_, "experimental_dynamic_tool_turn_incomplete", _)
    ));
}

#[test]
fn post_transport_refusals_are_recoveries() {
    assert!(matches!(
        provider_result_step(AiReadOnlyAgentTurnModeKind::ApplicationTools, Some(AiAgentLoopTurnKind::ToolCalls), false, true),
        AiCoordinatorStep::Recover(AiAgentRecoveryPhase::ProviderTurn, "agent_rule_changed_after_provider", Some("provider_session_rule_changed"))
    ));
    assert!(matches!(
        provider_result_step(AiReadOnlyAgentTurnModeKind::ApplicationTools, Some(AiAgentLoopTurnKind::Completed), true, false),
        AiCoordinatorStep::Recover(_, "agent_rule_budget_exceeded", _)
    ));
    assert!(matches!(
        provider_result_step(AiReadOnlyAgentTurnModeKind::ChatOnly, None, true, true),
        AiCoordinatorStep::Recover(_, "provider_turn_binding_failed", Some("provider_session_result_binding_failed"))
    ));
}

#[test]
fn tool_steps_recheck_rules_and_route_broker_calls() {
    assert!(matches!(tool_batch_step(false, true), AiCoordinatorStep::Fail("agent_rule_changed_before_tools")));
    assert!(matches!(tool_batch_step(true, false), AiCoordinatorStep::Fail("agent_rule_steps_exceeded")));
    assert!(matches!(tool_batch_step(true, true), AiCoordinatorStep::Continue));
    assert!(matches!(tool_call_step(false, true), AiCoordinatorStep::Fail("agent_rule_changed_before_tool")));
    assert!(matches!(tool_call_step(true, false), AiCoordinatorStep::Fail("agent_rule_tool_denied")));
    assert!(matches!(tool_call_step(true, true), AiCoordinatorStep::Continue));
    assert_eq!(tool_dispatch(false, false), AiToolDispatch::Application);
    assert_eq!(tool_dispatch(true, true), AiToolDispatch::Broker);
    assert_eq!(tool_dispatch(true, false), AiToolDispatch::Forbidden);
    assert!(matches!(tool_failure_step(false, false), AiCoordinatorStep::Recover(AiAgentRecoveryPhase::ApplicationTool, "application_tool_uncertain", None)));
    assert!(matches!(tool_failure_step(true, true), AiCoordinatorStep::Continue));
    assert!(matches!(tool_failure_step(true, false), AiCoordinatorStep::Recover(_, "application_tool_persistence_uncertain", None)));
}

#[test]
fn owner_cancellation_wins_every_closing_write() {
    assert_eq!(
        closing_outcome(true, Some(AiAgentRecoveryPhase::ProviderTurn), 1, 2),
        AiReadOnlyAgentRunOutcome::Cancelled { provider_turns: 1, total_tool_calls: 2 }
    );
    assert_eq!(closing_outcome(false, None, 1, 2), AiReadOnlyAgentRunOutcome::Failed { provider_turns: 1, total_tool_calls: 2 });
    assert_eq!(
        closing_outcome(false, Some(AiAgentRecoveryPhase::ProviderOutput), 0, 0),
        AiReadOnlyAgentRunOutcome::RecoveryRequired { phase: AiAgentRecoveryPhase::ProviderOutput, provider_turns: 0, total_tool_calls: 0 }
    );
}

#[test]
fn close_reasons_follow_the_durable_outcome() {
    let completed: Result<AiReadOnlyAgentRunOutcome, AiError> =
        Ok(AiReadOnlyAgentRunOutcome::Completed { message_id: 1, provider_turns: 1, total_tool_calls: 0 });
    assert_eq!(provider_close_reason(&completed), AiProviderRunCloseReason::Completed);
    assert_eq!(provider_close_reason(&Ok(deferred_outcome(0, 0))), AiProviderRunCloseReason::Cancelled);
    assert_eq!(provider_close_reason(&Err(AiError::Conflict)), AiProviderRunCloseReason::LeaseLost);
    assert_eq!(provider_close_reason(&Ok(closing_outcome(false, None, 0, 0))), AiProviderRunCloseReason::Failed);
}

#[test]
fn settled_interrupt_action_keeps_the_binding() {
    assert_eq!(interrupted_session_action(true, true, 0, 0, false), AiInterruptedSessionAction::Settle);
    assert_eq!(interrupted_session_action(false, true, 0, 0, false), AiInterruptedSessionAction::Nothing);
}

#[test]
fn unsettled_interrupt_action_requires_cleanup() {
    assert_eq!(interrupted_session_action(true, false, 0, 0, false), AiInterruptedSessionAction::Cleanup);
}

#[test]
fn persisted_evidence_demotes_settlement() {
    assert_eq!(interrupted_session_action(true, true, 1, 0, false), AiInterruptedSessionAction::Cleanup);
    assert_eq!(interrupted_session_action(true, true, 0, 1, false), AiInterruptedSessionAction::Cleanup);
    assert_eq!(interrupted_session_action(true, true, 0, 0, true), AiInterruptedSessionAction::Cleanup);
}

#[test]
fn refused_settlement_falls_back_to_cleanup() {
    assert_eq!(settlement_fallback(false), AiInterruptedSessionAction::Cleanup);
    assert_eq!(settlement_fallback(true), AiInterruptedSessionAction::Nothing);
}

use graphql_orm_ai::coordinator::{
    completion_cleanup_reason, output_completion_step, AiOutputCompletionStep,
    AiSessionCommitProof,
};

#[test]
fn tool_free_results_finish_only_after_their_output_is_durable() {
    assert!(matches!(
        output_completion_step(true, true, false, AiSessionCommitProof::Valid, true),
        AiOutputCompletionStep::Cancel("provider_session_cancelled_before_output")
    ));
    assert!(matches!(
        output_completion_step(false, false, false, AiSessionCommitProof::Valid, true),
        AiOutputCompletionStep::Recover(
            "provider_output_uncertain",
            Some("provider_session_output_uncertain")
        )
    ));
    assert!(matches!(
        output_completion_step(false, true, true, AiSessionCommitProof::Valid, true),
        AiOutputCompletionStep::Cancel("provider_session_cancelled_after_output")
    ));
    assert!(matches!(
        output_completion_step(false, true, false, AiSessionCommitProof::Valid, true),
        AiOutputCompletionStep::Finish { commit: true, invalidate: None }
    ));
    assert!(matches!(
        output_completion_step(false, true, false, AiSessionCommitProof::Valid, false),
        AiOutputCompletionStep::Recover("provider_session_commit_service_unavailable", None)
    ));
    assert!(matches!(
        output_completion_step(false, true, false, AiSessionCommitProof::Invalid, true),
        AiOutputCompletionStep::Finish {
            commit: false,
            invalidate: Some("provider_session_commit_proof_invalid")
        }
    ));
    assert!(matches!(
        output_completion_step(false, true, false, AiSessionCommitProof::Absent, false),
        AiOutputCompletionStep::Finish { commit: false, invalidate: None }
    ));
    assert_eq!(completion_cleanup_reason(false, true, false), Some("provider_session_terminal_write_uncertain"));
    assert_eq!(completion_cleanup_reason(false, false, false), None);
    assert_eq!(completion_cleanup_reason(true, true, false), Some("provider_session_commit_uncertain"));
    assert_eq!(completion_cleanup_reason(true, true, true), None);
    assert_eq!(completion_cleanup_reason(true, false, false), None);
}

use graphql_orm_ai::coordinator::{
    classify_retained_turn_failure, heartbeat_action, interrupt_settlement, AiHeartbeatAction,
    AiHeartbeatEvent, AiRunInterruptSettlement,
};

#[test]
fn heartbeats_renew_interrupt_or_lose_the_fence() {
    assert_eq!(heartbeat_action(AiHeartbeatEvent::ProviderFinished), AiHeartbeatAction::ReturnResult);
    assert_eq!(heartbeat_action(AiHeartbeatEvent::Cancelled), AiHeartbeatAction::InterruptAndCancel);
    assert_eq!(heartbeat_action(AiHeartbeatEvent::IntervalElapsed), AiHeartbeatAction::Renew);
    assert_eq!(heartbeat_action(AiHeartbeatEvent::CancellationUnreadable), AiHeartbeatAction::LoseLease);
    assert_eq!(heartbeat_action(AiHeartbeatEvent::Renewed), AiHeartbeatAction::KeepWaiting);
    assert_eq!(heartbeat_action(AiHeartbeatEvent::RenewalFailed), AiHeartbeatAction::InterruptAndLoseLease);
    assert_eq!(
        interrupt_settlement(Err(AiError::PersistenceFailed)),
        AiRunInterruptSettlement::RequestedUnsettled
    );
    assert_eq!(interrupt_settlement(Ok(AiRunInterruptSettlement::Settled)), AiRunInterruptSettlement::Settled);
    assert_eq!(
        classify_retained_turn_failure(&AiError::ProviderSessionDeferred),
        ProviderTurnFailure::Deferred
    );
    assert_eq!(
        classify_retained_turn_failure(&AiError::PreTransportBudgetDenied),
        ProviderTurnFailure::BudgetDenied
    );
    assert_eq!(classify_retained_turn_failure(&AiError::Conflict), ProviderTurnFailure::Provider);
    assert_eq!(classify_provider_turn_failure(&AiError::ProviderSessionDeferred), ProviderTurnFailure::Provider);
}

#[test]
fn dynamic_tool_calls_are_admitted_within_the_turn_maximum() {
    assert_eq!(admit_dynamic_tool_call(true, true, 0, 2).unwrap(), 1);
    assert_eq!(admit_dynamic_tool_call(true, true, 1, 2).unwrap(), 2);
    assert!(matches!(admit_dynamic_tool_call(true, true, 2, 2), Err(AiError::BudgetDenied)));
    assert!(matches!(admit_dynamic_tool_call(false, true, 0, 2), Err(AiError::Forbidden)));
    assert!(matches!(admit_dynamic_tool_call(true, false, 0, 2), Err(AiError::Forbidden)));
    assert!(matches!(admit_dynamic_tool_call(true, true, u32::MAX, u32::MAX), Err(AiError::BudgetDenied)));
}

fn is_fail(step: AiCoordinatorStep, reason: &str) -> bool {
    matches!(step, AiCoordinatorStep::Fail(r) if r == reason)
}

#[test]
fn attempt_start_adoption_and_planning_fail_closed() {
    assert!(matches!(start_step(false, true), AiCoordinatorStep::Cancel));
    assert!(matches!(start_step(false, false), AiCoordinatorStep::Propagate));
    assert!(matches!(start_step(true, true), AiCoordinatorStep::Cancel));
    assert!(matches!(start_step(true, false), AiCoordinatorStep::Continue));

    assert!(matches!(
        adoption_step(false, true, true, true),
        AiCoordinatorStep::Recover(AiAgentRecoveryPhase::ApplicationTool, "checkpoint_adoption_failed", None)
    ));
    assert!(matches!(
        adoption_step(true, false, true, true),
        AiCoordinatorStep::Recover(_, "checkpoint_adoption_reference_invalid", None)
    ));
    assert!(matches!(
        adoption_step(true, true, false, true),
        AiCoordinatorStep::Recover(_, "checkpoint_adoption_limits_invalid", None)
    ));
    assert!(is_fail(adoption_step(true, true, true, false), "adopted_provider_turn_limit_reached"));
    assert!(matches!(adoption_step(true, true, true, true), AiCoordinatorStep::Continue));

    assert!(matches!(plan_step(AiPlanStage::Initial, Some(true)), AiCoordinatorStep::Continue));
    assert!(is_fail(plan_step(AiPlanStage::Initial, None), "initial_plan_failed"));
    assert!(is_fail(plan_step(AiPlanStage::Initial, Some(false)), "initial_plan_phase_invalid"));
    assert!(is_fail(plan_step(AiPlanStage::AdoptedContinuation, None), "adopted_continuation_plan_failed"));
    assert!(is_fail(plan_step(AiPlanStage::AdoptedContinuation, Some(false)), "adopted_continuation_plan_invalid"));
    assert!(is_fail(plan_step(AiPlanStage::Continuation, None), "continuation_plan_failed"));
    assert!(is_fail(plan_step(AiPlanStage::Continuation, Some(false)), "continuation_plan_phase_invalid"));

    assert!(matches!(turn_begin_step(true, false), AiCoordinatorStep::Cancel));
    assert!(is_fail(turn_begin_step(false, false), "provider_turn_limit_reached"));
    assert!(matches!(turn_begin_step(false, true), AiCoordinatorStep::Continue));

    assert!(is_fail(rule_plan_step(false, true, true, false, false), "agent_rule_plan_stale"));
    assert!(is_fail(rule_plan_step(true, false, true, false, false), "agent_rule_duration_exceeded"));
    assert!(is_fail(rule_plan_step(true, true, false, false, false), "agent_rule_plan_denied"));
    assert!(is_fail(rule_plan_step(true, true, true, true, false), "provider_session_service_unavailable"));
    assert!(matches!(rule_plan_step(true, true, true, true, true), AiCoordinatorStep::Continue));
    assert!(matches!(rule_plan_step(true, true, true, false, false), AiCoordinatorStep::Continue));
}

#[test]
fn delivery_surface_is_fixed_once_per_run() {
    assert_eq!(delivery_transition(false, false, false, false, false), AiDeliveryTransition::FixNone);
    assert_eq!(delivery_transition(false, false, true, true, false), AiDeliveryTransition::Adopt);
    assert_eq!(delivery_transition(false, false, true, false, false), AiDeliveryTransition::Invalid);
    assert_eq!(delivery_transition(true, false, false, false, false), AiDeliveryTransition::Unchanged);
    assert_eq!(delivery_transition(true, false, true, true, true), AiDeliveryTransition::Invalid);
    assert_eq!(delivery_transition(true, true, false, true, true), AiDeliveryTransition::Invalid);
    assert_eq!(delivery_transition(true, true, true, true, false), AiDeliveryTransition::Invalid);
    assert_eq!(delivery_transition(true, true, true, true, true), AiDeliveryTransition::Adopt);
}
