//! Decisions of the fenced read-only agent coordinator: which host-planned
//! turns may run, and for each outcome of a provider turn, a tool call, or a
//! durable write, whether the attempt continues, fails safely, is closed for
//! recovery, is cancelled, or is deferred. The caller performs each action
//! (a durable write, a provider call, a cancellation check) and hands the
//! outcome back.

use vstd::prelude::*;

use crate::capability_delivery::SessionBindingView;
use crate::delivery_turn::AiCapabilityDeliveryTurn;
use crate::error::AiError;
use crate::scope::{same_scope, AiScope};
use crate::text::same_text;
use crate::tools::{same_definition, ModelToolDefinition};

verus! {

/// Nanoseconds in five minutes.
pub const MAXIMUM_HEARTBEAT_NANOS: i128 = 300_000_000_000;

/// Bounds the loop guard enforces on one attempt.
#[derive(Clone, Copy, Debug, PartialEq, Eq, Structural)]
pub struct AiAgentLoopLimits {
    /// Provider turns at most.
    pub maximum_provider_turns: u32,
    /// Application-tool calls at most, over all turns.
    pub maximum_total_tool_calls: u32,
}

/// Deployment-owned bounds for a top-level read-only agent attempt.
#[derive(Clone, Copy, Debug, PartialEq, Eq, Structural)]
pub struct AiReadOnlyAgentCoordinatorLimits {
    /// Loop bounds.
    loop_limits: AiAgentLoopLimits,
    /// Heartbeat interval in nanoseconds.
    heartbeat_interval: i128,
}

impl View for AiReadOnlyAgentCoordinatorLimits {
    type V = (AiAgentLoopLimits, i128);

    closed spec fn view(&self) -> (AiAgentLoopLimits, i128) {
        (self.loop_limits, self.heartbeat_interval)
    }
}

impl AiReadOnlyAgentCoordinatorLimits {
    /// Creates coordinator limits; the heartbeat interval (nanoseconds) must
    /// be positive and no longer than five minutes.
    pub fn new(loop_limits: AiAgentLoopLimits, heartbeat_interval: i128) -> (r: Result<
        Self,
        AiError,
    >)
        ensures
            r is Ok <==> 0 < heartbeat_interval <= MAXIMUM_HEARTBEAT_NANOS,
            r matches Ok(l) ==> l@ == (loop_limits, heartbeat_interval),
            r matches Err(e) ==> e is InvalidConfiguration,
    {
        if heartbeat_interval <= 0 || heartbeat_interval > MAXIMUM_HEARTBEAT_NANOS {
            return Err(
                AiError::InvalidConfiguration(
                    "invalid agent coordinator heartbeat interval".to_string(),
                ),
            );
        }
        Ok(AiReadOnlyAgentCoordinatorLimits { loop_limits, heartbeat_interval })
    }

    /// Loop bounds.
    pub fn loop_limits(self) -> (r: AiAgentLoopLimits)
        ensures
            r == self@.0,
    {
        self.loop_limits
    }

    /// Heartbeat interval (nanoseconds).
    pub fn heartbeat_interval(self) -> (r: i128)
        ensures
            r == self@.1,
    {
        self.heartbeat_interval
    }
}

/// External phase whose incomplete durable handoff requires reconciliation.
#[derive(Clone, Copy, Debug, PartialEq, Eq, Structural)]
pub enum AiAgentRecoveryPhase {
    /// A provider request or completed provider result could not be handed to
    /// the next exact durable phase.
    ProviderTurn,
    /// A protected application-tool call could have crossed resolver execution.
    ApplicationTool,
    /// Final provider output could not be proven persisted and finalized.
    ProviderOutput,
}

/// Why a retained-provider turn was deferred instead of failing terminally.
#[derive(Clone, Copy, Debug, PartialEq, Eq, Structural)]
pub enum AiProviderSessionDeferralReason {
    /// The previous cursor is quarantined and has not yet been proven absent.
    CleanupPending,
}

/// Seconds a deferred run waits before the same run may be retried.
pub const DEFERRED_RETRY_SECONDS: u64 = 5;

/// Durable result of one coordinator-owned claimed attempt.
#[derive(Clone, Copy, Debug, PartialEq, Eq, Structural)]
pub enum AiReadOnlyAgentRunOutcome {
    /// Final assistant output was persisted and the run committed `Completed`.
    Completed {
        /// Persisted assistant message identifier.
        message_id: u128,
        /// Accepted provider-turn count.
        provider_turns: u32,
        /// Durably resolved application-tool call count.
        total_tool_calls: u32,
    },
    /// A proof/configuration failure was durably classified as safe failure.
    Failed {
        /// Accepted provider-turn count.
        provider_turns: u32,
        /// Durably resolved application-tool call count.
        total_tool_calls: u32,
    },
    /// The owner cancellation fence won.
    Cancelled {
        /// Accepted provider-turn count before cancellation.
        provider_turns: u32,
        /// Durably resolved application-tool call count before cancellation.
        total_tool_calls: u32,
    },
    /// An external boundary remained ambiguous and the run was closed for
    /// privileged reconciliation.
    RecoveryRequired {
        /// Phase whose completion could not be proven.
        phase: AiAgentRecoveryPhase,
        /// Accepted provider-turn count.
        provider_turns: u32,
        /// Durably resolved application-tool call count.
        total_tool_calls: u32,
    },
    /// The retained provider session is cleaning up or waiting to rebind.
    Deferred {
        /// Closed reason the provider session cannot be used yet.
        reason: AiProviderSessionDeferralReason,
        /// Seconds before the same run may be retried.
        retry_after_seconds: u64,
        /// Accepted provider-turn count.
        provider_turns: u32,
        /// Durably resolved application-tool call count.
        total_tool_calls: u32,
    },
}

/// Why the provider side of a run is closed.
#[derive(Clone, Copy, Debug, PartialEq, Eq, Structural)]
pub enum AiProviderRunCloseReason {
    /// The run completed.
    Completed,
    /// The run was cancelled, or deferred for a later attempt.
    Cancelled,
    /// The run requires recovery.
    RecoveryRequired,
    /// The run failed safely.
    Failed,
    /// The lease was lost before any terminal write could be proven.
    LeaseLost,
}

/// The close reason of an attempt's result.
pub open spec fn close_reason_spec(result: Result<AiReadOnlyAgentRunOutcome, AiError>) -> AiProviderRunCloseReason {
    match result {
        Ok(AiReadOnlyAgentRunOutcome::Completed { .. }) => AiProviderRunCloseReason::Completed,
        Ok(AiReadOnlyAgentRunOutcome::Cancelled { .. }) => AiProviderRunCloseReason::Cancelled,
        Ok(AiReadOnlyAgentRunOutcome::RecoveryRequired { .. }) => AiProviderRunCloseReason::RecoveryRequired,
        Ok(AiReadOnlyAgentRunOutcome::Deferred { .. }) => AiProviderRunCloseReason::Cancelled,
        Ok(AiReadOnlyAgentRunOutcome::Failed { .. }) => AiProviderRunCloseReason::Failed,
        Err(_) => AiProviderRunCloseReason::LeaseLost,
    }
}

/// The reason the provider side is closed once an attempt has ended.
pub fn provider_close_reason(result: &Result<AiReadOnlyAgentRunOutcome, AiError>) -> (r: AiProviderRunCloseReason)
    ensures
        r == close_reason_spec(*result),
{
    match result {
        Ok(AiReadOnlyAgentRunOutcome::Completed { .. }) => AiProviderRunCloseReason::Completed,
        Ok(AiReadOnlyAgentRunOutcome::Cancelled { .. }) => AiProviderRunCloseReason::Cancelled,
        Ok(AiReadOnlyAgentRunOutcome::RecoveryRequired { .. }) => AiProviderRunCloseReason::RecoveryRequired,
        Ok(AiReadOnlyAgentRunOutcome::Deferred { .. }) => AiProviderRunCloseReason::Cancelled,
        Ok(AiReadOnlyAgentRunOutcome::Failed { .. }) => AiProviderRunCloseReason::Failed,
        Err(_) => AiProviderRunCloseReason::LeaseLost,
    }
}

/// How a provider turn ended without a result.
#[derive(Clone, Copy, Debug, PartialEq, Eq, Structural)]
pub enum ProviderTurnFailure {
    /// The turn may have crossed the provider boundary.
    Provider,
    /// The atomic budget reservation refused the turn before transport.
    BudgetDenied,
    /// The adapter proved a rejection before transport.
    PreTransportProvider,
    /// A stateless native item was refused after usage was committed.
    StatelessNativeItemRejected,
    /// The retained provider session is still cleaning up.
    Deferred,
    /// The heartbeat fence was lost.
    LeaseLost,
    /// Owner cancellation won the fence.
    Cancelled,
}

/// Separates proof-bearing refusals from an uncertain provider turn: only a
/// pre-transport budget denial, a pre-transport adapter rejection, or a
/// committed stateless native-item refusal is certain; every other executor
/// error keeps the fail-closed uncertain classification.
pub open spec fn classify_spec(error: AiError) -> ProviderTurnFailure {
    match error {
        AiError::PreTransportBudgetDenied => ProviderTurnFailure::BudgetDenied,
        AiError::PreTransportProviderFailed => ProviderTurnFailure::PreTransportProvider,
        AiError::StatelessNativeItemRejected => ProviderTurnFailure::StatelessNativeItemRejected,
        _ => ProviderTurnFailure::Provider,
    }
}

/// Classifies a provider executor error.
pub fn classify_provider_turn_failure(error: &AiError) -> (r: ProviderTurnFailure)
    ensures
        r == classify_spec(*error),
{
    match error {
        AiError::PreTransportBudgetDenied => ProviderTurnFailure::BudgetDenied,
        AiError::PreTransportProviderFailed => ProviderTurnFailure::PreTransportProvider,
        AiError::StatelessNativeItemRejected => ProviderTurnFailure::StatelessNativeItemRejected,
        _ => ProviderTurnFailure::Provider,
    }
}

/// Classifies the error of a retained provider-session turn: a pending
/// session cleanup defers the run; everything else is classified as any
/// provider executor error.
pub fn classify_retained_turn_failure(error: &AiError) -> (r: ProviderTurnFailure)
    ensures
        *error is ProviderSessionDeferred ==> r == ProviderTurnFailure::Deferred,
        !(*error is ProviderSessionDeferred) ==> r == classify_spec(*error),
{
    match error {
        AiError::ProviderSessionDeferred => ProviderTurnFailure::Deferred,
        _ => classify_provider_turn_failure(error),
    }
}

/// What a provider turn running under heartbeats observed next.
#[derive(Clone, Copy, Debug, PartialEq, Eq, Structural)]
pub enum AiHeartbeatEvent {
    /// The provider turn finished.
    ProviderFinished,
    /// Waiting for cancellation failed: the fence could not be read.
    CancellationUnreadable,
    /// Owner cancellation was observed.
    Cancelled,
    /// The heartbeat interval passed without cancellation.
    IntervalElapsed,
    /// The lease heartbeat renewed the lease.
    Renewed,
    /// The lease heartbeat failed.
    RenewalFailed,
}

/// What the coordinator does about a heartbeat event.
#[derive(Clone, Copy, Debug, PartialEq, Eq, Structural)]
pub enum AiHeartbeatAction {
    /// Classify and return the provider result.
    ReturnResult,
    /// The fence is lost: stop with a lost lease.
    LoseLease,
    /// Interrupt the provider run and report cancellation with its
    /// settlement (an interrupt that fails proves nothing: unsettled).
    InterruptAndCancel,
    /// Renew the lease.
    Renew,
    /// Adopt the renewed lease and keep waiting for the provider.
    KeepWaiting,
    /// Interrupt the provider run (whatever the interrupt returns) and stop
    /// with a lost lease.
    InterruptAndLoseLease,
}

/// Whether an action ends the wait for the provider turn.
pub open spec fn ends_wait(action: AiHeartbeatAction) -> bool {
    !(action is Renew || action is KeepWaiting)
}

/// The action for one heartbeat event.
pub open spec fn heartbeat_action_spec(event: AiHeartbeatEvent) -> AiHeartbeatAction {
    match event {
        AiHeartbeatEvent::ProviderFinished => AiHeartbeatAction::ReturnResult,
        AiHeartbeatEvent::CancellationUnreadable => AiHeartbeatAction::LoseLease,
        AiHeartbeatEvent::Cancelled => AiHeartbeatAction::InterruptAndCancel,
        AiHeartbeatEvent::IntervalElapsed => AiHeartbeatAction::Renew,
        AiHeartbeatEvent::Renewed => AiHeartbeatAction::KeepWaiting,
        AiHeartbeatEvent::RenewalFailed => AiHeartbeatAction::InterruptAndLoseLease,
    }
}

/// Decides what a provider turn running under heartbeats does next: a
/// finished turn is returned, cancellation interrupts the run, an elapsed
/// interval renews the lease, a renewed lease keeps waiting, a failed
/// renewal interrupts the run and loses the lease, and an unreadable fence
/// loses it. Only a finished provider turn returns a result, and the wait
/// goes on only while the lease is being renewed.
pub fn heartbeat_action(event: AiHeartbeatEvent) -> (r: AiHeartbeatAction)
    ensures
        r == heartbeat_action_spec(event),
        r is ReturnResult <==> event is ProviderFinished,
        !ends_wait(r) <==> (event is IntervalElapsed || event is Renewed),
{
    match event {
        AiHeartbeatEvent::ProviderFinished => AiHeartbeatAction::ReturnResult,
        AiHeartbeatEvent::CancellationUnreadable => AiHeartbeatAction::LoseLease,
        AiHeartbeatEvent::Cancelled => AiHeartbeatAction::InterruptAndCancel,
        AiHeartbeatEvent::IntervalElapsed => AiHeartbeatAction::Renew,
        AiHeartbeatEvent::Renewed => AiHeartbeatAction::KeepWaiting,
        AiHeartbeatEvent::RenewalFailed => AiHeartbeatAction::InterruptAndLoseLease,
    }
}

/// How an interrupted provider run settled.
#[derive(Clone, Copy, Debug, PartialEq, Eq, Structural)]
pub enum AiRunInterruptSettlement {
    /// No provider run was active.
    NotActive,
    /// The provider settled the interrupted turn.
    Settled,
    /// Interruption was requested but nothing was proved.
    RequestedUnsettled,
}

/// The settlement of an interrupt: a failed interrupt proves nothing, so it
/// fails closed into `RequestedUnsettled`.
pub fn interrupt_settlement(result: Result<AiRunInterruptSettlement, AiError>) -> (r:
    AiRunInterruptSettlement)
    ensures
        result is Ok ==> Ok::<AiRunInterruptSettlement, AiError>(r) == result,
        result is Err ==> r == AiRunInterruptSettlement::RequestedUnsettled,
{
    match result {
        Ok(settlement) => settlement,
        Err(_) => AiRunInterruptSettlement::RequestedUnsettled,
    }
}

/// What the coordinator does next.
#[derive(Clone, Copy, Debug)]
pub enum AiCoordinatorStep {
    /// Go on with the attempt.
    Continue,
    /// Close the attempt as a safe failure (after a final cancellation check).
    Fail(&'static str),
    /// Close the attempt for recovery (after a final cancellation check),
    /// first requiring cleanup of the retained provider session for the given
    /// reason, when there is one.
    Recover(AiAgentRecoveryPhase, &'static str, Option<&'static str>),
    /// Check cancellation; if none, close for recovery as a provider-turn
    /// uncertainty.
    RecoverUnlessCancelled(AiAgentRecoveryPhase, &'static str),
    /// Settle the interrupted provider session and report cancellation.
    SettleAndCancel,
    /// Schedule a durable retry and report the run as deferred.
    ScheduleRetry,
    /// Report the run as deferred.
    Defer,
    /// Persist the final output and complete the run.
    Complete,
    /// Persist the provider turn as a tool-batch checkpoint and run the tools.
    RunTools,
    /// Report cancellation.
    Cancel,
    /// Return the error: the fence is lost and reconciliation owns the run.
    Propagate,
}

/// The step after a provider turn failed.
pub open spec fn provider_failure_step_spec(failure: ProviderTurnFailure) -> AiCoordinatorStep {
    match failure {
        ProviderTurnFailure::Deferred => AiCoordinatorStep::ScheduleRetry,
        ProviderTurnFailure::Provider => AiCoordinatorStep::RecoverUnlessCancelled(
            AiAgentRecoveryPhase::ProviderTurn,
            "provider_turn_uncertain",
        ),
        ProviderTurnFailure::BudgetDenied => AiCoordinatorStep::Fail("provider_budget_denied"),
        ProviderTurnFailure::PreTransportProvider => AiCoordinatorStep::Fail(
            "provider_pre_transport_failed",
        ),
        ProviderTurnFailure::StatelessNativeItemRejected => AiCoordinatorStep::Fail(
            "provider_native_item_rejected",
        ),
        ProviderTurnFailure::LeaseLost => AiCoordinatorStep::Propagate,
        ProviderTurnFailure::Cancelled => AiCoordinatorStep::SettleAndCancel,
    }
}

/// Decides the step after a provider turn failed: certain pre-transport
/// refusals fail cleanly and stay retryable, an uncertain turn is closed for
/// recovery unless cancellation won, a pending cleanup defers.
pub fn provider_failure_step(failure: ProviderTurnFailure) -> (r: AiCoordinatorStep)
    ensures
        r == provider_failure_step_spec(failure),
{
    match failure {
        ProviderTurnFailure::Deferred => AiCoordinatorStep::ScheduleRetry,
        ProviderTurnFailure::Provider => AiCoordinatorStep::RecoverUnlessCancelled(
            AiAgentRecoveryPhase::ProviderTurn,
            "provider_turn_uncertain",
        ),
        ProviderTurnFailure::BudgetDenied => AiCoordinatorStep::Fail("provider_budget_denied"),
        ProviderTurnFailure::PreTransportProvider => AiCoordinatorStep::Fail(
            "provider_pre_transport_failed",
        ),
        ProviderTurnFailure::StatelessNativeItemRejected => AiCoordinatorStep::Fail(
            "provider_native_item_rejected",
        ),
        ProviderTurnFailure::LeaseLost => AiCoordinatorStep::Propagate,
        ProviderTurnFailure::Cancelled => AiCoordinatorStep::SettleAndCancel,
    }
}

/// Law: a budget denial is never reported as an uncertain provider turn; it
/// fails cleanly, so the run stays retryable.
pub proof fn lemma_budget_denial_fails_cleanly()
    ensures
        provider_failure_step_spec(classify_spec(AiError::PreTransportBudgetDenied))
            == AiCoordinatorStep::Fail("provider_budget_denied"),
        forall|e: AiError|
            !(e is PreTransportBudgetDenied || e is PreTransportProviderFailed
                || e is StatelessNativeItemRejected) ==> provider_failure_step_spec(
                #[trigger] classify_spec(e),
            ) == AiCoordinatorStep::RecoverUnlessCancelled(
                AiAgentRecoveryPhase::ProviderTurn,
                "provider_turn_uncertain",
            ),
{
}

/// The step after scheduling the retry of a deferred run.
pub open spec fn deferred_retry_step_spec(scheduled: Result<(), AiError>) -> AiCoordinatorStep {
    match scheduled {
        Ok(()) => AiCoordinatorStep::Defer,
        Err(AiError::Conflict) => AiCoordinatorStep::Fail("provider_session_cleanup_unavailable"),
        Err(_) => AiCoordinatorStep::Propagate,
    }
}

/// Decides what a scheduled retry means: deferral, a clean visible failure
/// once the retry ceiling is exhausted, or a lost fence.
pub fn deferred_retry_step(scheduled: &Result<(), AiError>) -> (r: AiCoordinatorStep)
    ensures
        r == deferred_retry_step_spec(*scheduled),
{
    match scheduled {
        Ok(()) => AiCoordinatorStep::Defer,
        Err(AiError::Conflict) => AiCoordinatorStep::Fail("provider_session_cleanup_unavailable"),
        Err(_) => AiCoordinatorStep::Propagate,
    }
}

/// The deferral outcome reported for the counts so far.
pub fn deferred_outcome(provider_turns: u32, total_tool_calls: u32) -> (r: AiReadOnlyAgentRunOutcome)
    ensures
        r == (AiReadOnlyAgentRunOutcome::Deferred {
            reason: AiProviderSessionDeferralReason::CleanupPending,
            retry_after_seconds: DEFERRED_RETRY_SECONDS,
            provider_turns,
            total_tool_calls,
        }),
{
    AiReadOnlyAgentRunOutcome::Deferred {
        reason: AiProviderSessionDeferralReason::CleanupPending,
        retry_after_seconds: DEFERRED_RETRY_SECONDS,
        provider_turns,
        total_tool_calls,
    }
}

/// The mode of a planned turn.
#[derive(Clone, Copy, Debug, PartialEq, Eq, Structural)]
pub enum AiReadOnlyAgentTurnModeKind {
    /// A tool-free chat turn.
    ChatOnly,
    /// Custom application tools with a result route.
    ApplicationTools,
    /// Coordinator-owned in-flight application tools on a retained turn.
    ExperimentalDynamicTools,
}

/// What a completed provider turn asked for.
#[derive(Clone, Copy, Debug, PartialEq, Eq, Structural)]
pub enum AiAgentLoopTurnKind {
    /// Final output.
    Completed,
    /// A batch of application-tool calls.
    ToolCalls,
}

/// The step after a provider turn returned a result.
pub open spec fn provider_result_step_spec(
    mode: AiReadOnlyAgentTurnModeKind,
    observed: Option<AiAgentLoopTurnKind>,
    rules_current: bool,
    usage_accepted: bool,
) -> AiCoordinatorStep {
    if observed is None {
        AiCoordinatorStep::Recover(
            AiAgentRecoveryPhase::ProviderTurn,
            "provider_turn_binding_failed",
            Some("provider_session_result_binding_failed"),
        )
    } else if !rules_current {
        AiCoordinatorStep::Recover(
            AiAgentRecoveryPhase::ProviderTurn,
            "agent_rule_changed_after_provider",
            Some("provider_session_rule_changed"),
        )
    } else if !usage_accepted {
        AiCoordinatorStep::Recover(
            AiAgentRecoveryPhase::ProviderTurn,
            "agent_rule_budget_exceeded",
            Some("provider_session_budget_exceeded"),
        )
    } else {
        match (mode, observed->0) {
            (_, AiAgentLoopTurnKind::Completed) => AiCoordinatorStep::Complete,
            (AiReadOnlyAgentTurnModeKind::ApplicationTools, AiAgentLoopTurnKind::ToolCalls) => AiCoordinatorStep::RunTools,
            (AiReadOnlyAgentTurnModeKind::ChatOnly, AiAgentLoopTurnKind::ToolCalls) => AiCoordinatorStep::Recover(
                AiAgentRecoveryPhase::ProviderTurn,
                "chat_turn_returned_application_tools",
                Some("provider_session_unexpected_tool_batch"),
            ),
            (
                AiReadOnlyAgentTurnModeKind::ExperimentalDynamicTools,
                AiAgentLoopTurnKind::ToolCalls,
            ) => AiCoordinatorStep::Recover(
                AiAgentRecoveryPhase::ProviderTurn,
                "experimental_dynamic_tool_turn_incomplete",
                Some("provider_session_dynamic_turn_incomplete"),
            ),
        }
    }
}

/// Decides the step after a provider result, once the caller has checked
/// cancellation: `observed` is what the loop guard accepted (`None` when the
/// result did not bind), `rules_current` whether the resolved rules still
/// carry the planned fingerprint, and `usage_accepted` whether the turn's
/// usage fits them. Every refusal after transport is a recovery, never a
/// replay.
pub fn provider_result_step(
    mode: AiReadOnlyAgentTurnModeKind,
    observed: Option<AiAgentLoopTurnKind>,
    rules_current: bool,
    usage_accepted: bool,
) -> (r: AiCoordinatorStep)
    ensures
        r == provider_result_step_spec(mode, observed, rules_current, usage_accepted),
{
    let turn = match observed {
        None => {
            return AiCoordinatorStep::Recover(
                AiAgentRecoveryPhase::ProviderTurn,
                "provider_turn_binding_failed",
                Some("provider_session_result_binding_failed"),
            );
        },
        Some(turn) => turn,
    };
    if !rules_current {
        return AiCoordinatorStep::Recover(
            AiAgentRecoveryPhase::ProviderTurn,
            "agent_rule_changed_after_provider",
            Some("provider_session_rule_changed"),
        );
    }
    if !usage_accepted {
        return AiCoordinatorStep::Recover(
            AiAgentRecoveryPhase::ProviderTurn,
            "agent_rule_budget_exceeded",
            Some("provider_session_budget_exceeded"),
        );
    }
    match (mode, turn) {
        (_, AiAgentLoopTurnKind::Completed) => AiCoordinatorStep::Complete,
        (AiReadOnlyAgentTurnModeKind::ApplicationTools, AiAgentLoopTurnKind::ToolCalls) => AiCoordinatorStep::RunTools,
        (AiReadOnlyAgentTurnModeKind::ChatOnly, AiAgentLoopTurnKind::ToolCalls) => AiCoordinatorStep::Recover(
            AiAgentRecoveryPhase::ProviderTurn,
            "chat_turn_returned_application_tools",
            Some("provider_session_unexpected_tool_batch"),
        ),
        (AiReadOnlyAgentTurnModeKind::ExperimentalDynamicTools, AiAgentLoopTurnKind::ToolCalls) => AiCoordinatorStep::Recover(
            AiAgentRecoveryPhase::ProviderTurn,
            "experimental_dynamic_tool_turn_incomplete",
            Some("provider_session_dynamic_turn_incomplete"),
        ),
    }
}

/// Law: no tool of a chat-only turn is ever executed; a chat turn that asks
/// for tools is closed for recovery.
pub proof fn lemma_chat_turn_never_runs_tools(
    observed: Option<AiAgentLoopTurnKind>,
    rules_current: bool,
    usage_accepted: bool,
)
    ensures
        provider_result_step_spec(
            AiReadOnlyAgentTurnModeKind::ChatOnly,
            observed,
            rules_current,
            usage_accepted,
        ) != AiCoordinatorStep::RunTools,
{
}

/// The step before a tool batch runs: the rules must still carry the
/// planned fingerprint and admit the batch's steps.
pub fn tool_batch_step(rules_current: bool, steps_accepted: bool) -> (r: AiCoordinatorStep)
    ensures
        !rules_current ==> r == AiCoordinatorStep::Fail("agent_rule_changed_before_tools"),
        rules_current && !steps_accepted ==> r == AiCoordinatorStep::Fail("agent_rule_steps_exceeded"),
        rules_current && steps_accepted ==> r == AiCoordinatorStep::Continue,
{
    if !rules_current {
        AiCoordinatorStep::Fail("agent_rule_changed_before_tools")
    } else if !steps_accepted {
        AiCoordinatorStep::Fail("agent_rule_steps_exceeded")
    } else {
        AiCoordinatorStep::Continue
    }
}

/// The step before each tool call: the rules must still carry the planned
/// fingerprint and admit the tool as read-only without approval.
pub fn tool_call_step(rules_current: bool, tool_admitted: bool) -> (r: AiCoordinatorStep)
    ensures
        !rules_current ==> r == AiCoordinatorStep::Fail("agent_rule_changed_before_tool"),
        rules_current && !tool_admitted ==> r == AiCoordinatorStep::Fail("agent_rule_tool_denied"),
        rules_current && tool_admitted ==> r == AiCoordinatorStep::Continue,
{
    if !rules_current {
        AiCoordinatorStep::Fail("agent_rule_changed_before_tool")
    } else if !tool_admitted {
        AiCoordinatorStep::Fail("agent_rule_tool_denied")
    } else {
        AiCoordinatorStep::Continue
    }
}

/// Admits one in-flight dynamic tool call of a retained turn: the rules must
/// still carry the planned fingerprint and admit the tool as read-only
/// without approval (else forbidden), and the turn's accepted calls may not
/// exceed its maximum (else the budget refuses). Returns the new count of
/// accepted calls.
pub fn admit_dynamic_tool_call(
    rules_current: bool,
    tool_admitted: bool,
    accepted_calls: u32,
    maximum_calls: u32,
) -> (r: Result<u32, AiError>)
    ensures
        !(rules_current && tool_admitted) ==> (r matches Err(e) && e is Forbidden),
        rules_current && tool_admitted && accepted_calls + 1 > maximum_calls ==> (r matches Err(e)
            && e is BudgetDenied),
        rules_current && tool_admitted && accepted_calls + 1 <= maximum_calls ==> r == Ok::<
            u32,
            AiError,
        >((accepted_calls + 1) as u32),
{
    if !rules_current || !tool_admitted {
        return Err(AiError::Forbidden);
    }
    if accepted_calls >= maximum_calls {
        return Err(AiError::BudgetDenied);
    }
    Ok(accepted_calls + 1)
}

/// Where one tool call is dispatched.
#[derive(Clone, Copy, Debug, PartialEq, Eq, Structural)]
pub enum AiToolDispatch {
    /// The ordinary protected application-tool service.
    Application,
    /// The capability broker of the run's delivery turn.
    Broker,
    /// Refused: a broker call without a delivery surface.
    Forbidden,
}

/// Routes a tool call: broker identifiers go to the broker only when the
/// run has a delivery surface.
pub fn tool_dispatch(is_broker_operation: bool, has_capability_delivery: bool) -> (r: AiToolDispatch)
    ensures
        !is_broker_operation ==> r == AiToolDispatch::Application,
        is_broker_operation && has_capability_delivery ==> r == AiToolDispatch::Broker,
        is_broker_operation && !has_capability_delivery ==> r == AiToolDispatch::Forbidden,
{
    if !is_broker_operation {
        AiToolDispatch::Application
    } else if has_capability_delivery {
        AiToolDispatch::Broker
    } else {
        AiToolDispatch::Forbidden
    }
}

/// The step after a tool call failed and cancellation did not win: a safely
/// classified error is persisted as a safe failure (recovery if that write is
/// uncertain); anything else may have crossed resolver execution.
pub fn tool_failure_step(safe_failure_code: bool, safe_failure_persisted: bool) -> (r: AiCoordinatorStep)
    ensures
        !safe_failure_code ==> r == AiCoordinatorStep::Recover(
            AiAgentRecoveryPhase::ApplicationTool,
            "application_tool_uncertain",
            None,
        ),
        safe_failure_code && safe_failure_persisted ==> r == AiCoordinatorStep::Continue,
        safe_failure_code && !safe_failure_persisted ==> r == AiCoordinatorStep::Recover(
            AiAgentRecoveryPhase::ApplicationTool,
            "application_tool_persistence_uncertain",
            None,
        ),
{
    if !safe_failure_code {
        AiCoordinatorStep::Recover(
            AiAgentRecoveryPhase::ApplicationTool,
            "application_tool_uncertain",
            None,
        )
    } else if safe_failure_persisted {
        AiCoordinatorStep::Continue
    } else {
        AiCoordinatorStep::Recover(
            AiAgentRecoveryPhase::ApplicationTool,
            "application_tool_persistence_uncertain",
            None,
        )
    }
}

/// The outcome written by a closing step, unless cancellation won first.
pub open spec fn closing_outcome_spec(
    cancelled: bool,
    phase: Option<AiAgentRecoveryPhase>,
    provider_turns: u32,
    total_tool_calls: u32,
) -> AiReadOnlyAgentRunOutcome {
    if cancelled {
        AiReadOnlyAgentRunOutcome::Cancelled { provider_turns, total_tool_calls }
    } else {
        match phase {
            None => AiReadOnlyAgentRunOutcome::Failed { provider_turns, total_tool_calls },
            Some(phase) => AiReadOnlyAgentRunOutcome::RecoveryRequired {
                phase,
                provider_turns,
                total_tool_calls,
            },
        }
    }
}

/// The outcome of closing the attempt as a failure (`phase` is `None`) or
/// for recovery: cancellation observed just before the terminal write wins.
pub fn closing_outcome(
    cancelled: bool,
    phase: Option<AiAgentRecoveryPhase>,
    provider_turns: u32,
    total_tool_calls: u32,
) -> (r: AiReadOnlyAgentRunOutcome)
    ensures
        r == closing_outcome_spec(cancelled, phase, provider_turns, total_tool_calls),
{
    if cancelled {
        AiReadOnlyAgentRunOutcome::Cancelled { provider_turns, total_tool_calls }
    } else {
        match phase {
            None => AiReadOnlyAgentRunOutcome::Failed { provider_turns, total_tool_calls },
            Some(phase) => AiReadOnlyAgentRunOutcome::RecoveryRequired {
                phase,
                provider_turns,
                total_tool_calls,
            },
        }
    }
}

/// Law: a closing step never reports completion, and an owner cancellation
/// observed before the terminal write always wins.
pub proof fn lemma_cancellation_wins_closing(
    phase: Option<AiAgentRecoveryPhase>,
    provider_turns: u32,
    total_tool_calls: u32,
)
    ensures
        closing_outcome_spec(true, phase, provider_turns, total_tool_calls) is Cancelled,
        forall|c: bool| !(#[trigger] closing_outcome_spec(c, phase, provider_turns, total_tool_calls) is Completed),
{
}

/// What happens to a retained provider session after an interrupt.
#[derive(Clone, Copy, Debug, PartialEq, Eq, Structural)]
pub enum AiInterruptedSessionAction {
    /// No provider-session service is installed.
    Nothing,
    /// Ask the service to settle the interrupted turn and keep the binding.
    Settle,
    /// Require cleanup: the binding is invalidated.
    Cleanup,
}

/// The run never observed a completed provider turn, never executed a tool,
/// and holds no checkpoint, so the interrupted turn persisted nothing.
pub open spec fn no_uncertain_persisted_output(
    provider_turns: u32,
    total_tool_calls: u32,
    has_checkpoint: bool,
) -> bool {
    provider_turns == 0 && total_tool_calls == 0 && !has_checkpoint
}

/// Decides the interrupt settlement: the binding is kept only when the
/// provider proved it discarded the interrupted turn and durable evidence
/// proves the run persisted nothing; otherwise it is invalidated.
pub fn interrupted_session_action(
    service_installed: bool,
    provider_discarded_turn: bool,
    provider_turns: u32,
    total_tool_calls: u32,
    has_checkpoint: bool,
) -> (r: AiInterruptedSessionAction)
    ensures
        !service_installed ==> r == AiInterruptedSessionAction::Nothing,
        service_installed && provider_discarded_turn && no_uncertain_persisted_output(
            provider_turns,
            total_tool_calls,
            has_checkpoint,
        ) ==> r == AiInterruptedSessionAction::Settle,
        service_installed && !(provider_discarded_turn && no_uncertain_persisted_output(
            provider_turns,
            total_tool_calls,
            has_checkpoint,
        )) ==> r == AiInterruptedSessionAction::Cleanup,
{
    if !service_installed {
        AiInterruptedSessionAction::Nothing
    } else if provider_discarded_turn && provider_turns == 0 && total_tool_calls == 0
        && !has_checkpoint {
        AiInterruptedSessionAction::Settle
    } else {
        AiInterruptedSessionAction::Cleanup
    }
}

/// After a refused settlement the binding falls back to invalidation.
pub fn settlement_fallback(settled: bool) -> (r: AiInterruptedSessionAction)
    ensures
        settled ==> r == AiInterruptedSessionAction::Nothing,
        !settled ==> r == AiInterruptedSessionAction::Cleanup,
{
    if settled {
        AiInterruptedSessionAction::Nothing
    } else {
        AiInterruptedSessionAction::Cleanup
    }
}

/// The step after starting a claimed attempt: a failed start is reported as
/// cancellation when the owner cancelled, otherwise its error stands; a
/// started attempt stops at once when cancelled.
pub fn start_step(started: bool, cancelled: bool) -> (r: AiCoordinatorStep)
    ensures
        cancelled ==> r == AiCoordinatorStep::Cancel,
        !cancelled && !started ==> r == AiCoordinatorStep::Propagate,
        !cancelled && started ==> r == AiCoordinatorStep::Continue,
{
    if cancelled {
        AiCoordinatorStep::Cancel
    } else if !started {
        AiCoordinatorStep::Propagate
    } else {
        AiCoordinatorStep::Continue
    }
}

/// The step after adopting a protected tool-batch checkpoint: the batch must
/// be adopted, its continuation reference valid, and its counts within the
/// loop limits (else the attempt is closed for recovery), and another
/// provider turn must fit (else a clean failure).
pub fn adoption_step(adopted: bool, reference_valid: bool, limits_valid: bool, turn_fits: bool) -> (r:
    AiCoordinatorStep)
    ensures
        !adopted ==> r == AiCoordinatorStep::Recover(
            AiAgentRecoveryPhase::ApplicationTool,
            "checkpoint_adoption_failed",
            None,
        ),
        adopted && !reference_valid ==> r == AiCoordinatorStep::Recover(
            AiAgentRecoveryPhase::ApplicationTool,
            "checkpoint_adoption_reference_invalid",
            None,
        ),
        adopted && reference_valid && !limits_valid ==> r == AiCoordinatorStep::Recover(
            AiAgentRecoveryPhase::ApplicationTool,
            "checkpoint_adoption_limits_invalid",
            None,
        ),
        adopted && reference_valid && limits_valid && !turn_fits ==> r == AiCoordinatorStep::Fail(
            "adopted_provider_turn_limit_reached",
        ),
        adopted && reference_valid && limits_valid && turn_fits ==> r == AiCoordinatorStep::Continue,
{
    if !adopted {
        AiCoordinatorStep::Recover(
            AiAgentRecoveryPhase::ApplicationTool,
            "checkpoint_adoption_failed",
            None,
        )
    } else if !reference_valid {
        AiCoordinatorStep::Recover(
            AiAgentRecoveryPhase::ApplicationTool,
            "checkpoint_adoption_reference_invalid",
            None,
        )
    } else if !limits_valid {
        AiCoordinatorStep::Recover(
            AiAgentRecoveryPhase::ApplicationTool,
            "checkpoint_adoption_limits_invalid",
            None,
        )
    } else if !turn_fits {
        AiCoordinatorStep::Fail("adopted_provider_turn_limit_reached")
    } else {
        AiCoordinatorStep::Continue
    }
}

/// Where in the loop a turn plan is requested.
#[derive(Clone, Copy, Debug, PartialEq, Eq, Structural)]
pub enum AiPlanStage {
    /// The first plan of a fresh attempt: it must not be a continuation.
    Initial,
    /// The plan that resumes an adopted checkpoint: a continuation in the
    /// adopted scope under the adopted rules.
    AdoptedContinuation,
    /// The plan after a completed tool batch: a continuation.
    Continuation,
}

/// The step after requesting a turn plan: `planned` is `None` when the
/// planner failed and otherwise whether the plan has the shape the stage
/// requires.
pub fn plan_step(stage: AiPlanStage, planned: Option<bool>) -> (r: AiCoordinatorStep)
    ensures
        planned == Some(true) ==> r == AiCoordinatorStep::Continue,
        planned is None ==> r == AiCoordinatorStep::Fail(
            match stage {
                AiPlanStage::Initial => "initial_plan_failed",
                AiPlanStage::AdoptedContinuation => "adopted_continuation_plan_failed",
                AiPlanStage::Continuation => "continuation_plan_failed",
            },
        ),
        planned == Some(false) ==> r == AiCoordinatorStep::Fail(
            match stage {
                AiPlanStage::Initial => "initial_plan_phase_invalid",
                AiPlanStage::AdoptedContinuation => "adopted_continuation_plan_invalid",
                AiPlanStage::Continuation => "continuation_plan_phase_invalid",
            },
        ),
{
    match planned {
        Some(true) => AiCoordinatorStep::Continue,
        None => AiCoordinatorStep::Fail(
            match stage {
                AiPlanStage::Initial => "initial_plan_failed",
                AiPlanStage::AdoptedContinuation => "adopted_continuation_plan_failed",
                AiPlanStage::Continuation => "continuation_plan_failed",
            },
        ),
        Some(false) => AiCoordinatorStep::Fail(
            match stage {
                AiPlanStage::Initial => "initial_plan_phase_invalid",
                AiPlanStage::AdoptedContinuation => "adopted_continuation_plan_invalid",
                AiPlanStage::Continuation => "continuation_plan_phase_invalid",
            },
        ),
    }
}

/// The step before each provider turn: cancellation stops the run, and the
/// loop guard must admit another provider turn.
pub fn turn_begin_step(cancelled: bool, turn_fits: bool) -> (r: AiCoordinatorStep)
    ensures
        cancelled ==> r == AiCoordinatorStep::Cancel,
        !cancelled && !turn_fits ==> r == AiCoordinatorStep::Fail("provider_turn_limit_reached"),
        !cancelled && turn_fits ==> r == AiCoordinatorStep::Continue,
{
    if cancelled {
        AiCoordinatorStep::Cancel
    } else if !turn_fits {
        AiCoordinatorStep::Fail("provider_turn_limit_reached")
    } else {
        AiCoordinatorStep::Continue
    }
}

/// The step after resolving the current rules for a planned turn: they must
/// still carry the planned fingerprint, the run must be within their
/// duration, the planned call must fit their projected usage, and a
/// retained-session plan needs an installed provider-session service.
pub fn rule_plan_step(
    rules_current: bool,
    within_duration: bool,
    projection_admitted: bool,
    session_plan: bool,
    session_service: bool,
) -> (r: AiCoordinatorStep)
    ensures
        !rules_current ==> r == AiCoordinatorStep::Fail("agent_rule_plan_stale"),
        rules_current && !within_duration ==> r == AiCoordinatorStep::Fail("agent_rule_duration_exceeded"),
        rules_current && within_duration && !projection_admitted ==> r == AiCoordinatorStep::Fail(
            "agent_rule_plan_denied",
        ),
        rules_current && within_duration && projection_admitted && session_plan && !session_service
            ==> r == AiCoordinatorStep::Fail("provider_session_service_unavailable"),
        rules_current && within_duration && projection_admitted && (!session_plan || session_service)
            ==> r == AiCoordinatorStep::Continue,
{
    if !rules_current {
        AiCoordinatorStep::Fail("agent_rule_plan_stale")
    } else if !within_duration {
        AiCoordinatorStep::Fail("agent_rule_duration_exceeded")
    } else if !projection_admitted {
        AiCoordinatorStep::Fail("agent_rule_plan_denied")
    } else if session_plan && !session_service {
        AiCoordinatorStep::Fail("provider_session_service_unavailable")
    } else {
        AiCoordinatorStep::Continue
    }
}

/// What happens to a run's capability-delivery surface when a turn plan
/// arrives.
#[derive(Clone, Copy, Debug, PartialEq, Eq, Structural)]
pub enum AiDeliveryTransition {
    /// The run is fixed to have no delivery surface.
    FixNone,
    /// The plan's surface becomes (or stays) the run's surface.
    Adopt,
    /// Nothing changes: the run has no surface and the plan brings none.
    Unchanged,
    /// The plan's surface is refused (`capability_delivery_surface_invalid`).
    Invalid,
}

/// The delivery transition. `fixed` is whether the run's surface was already
/// fixed by an earlier plan, `current` whether it has one, `incoming`
/// whether the plan brings one, `matches_offered` whether that surface is
/// exactly the tools the plan offers, and `same_run` whether it shares the
/// current surface's run state.
pub open spec fn delivery_transition_spec(
    fixed: bool,
    current: bool,
    incoming: bool,
    matches_offered: bool,
    same_run: bool,
) -> AiDeliveryTransition {
    if !fixed && !incoming {
        AiDeliveryTransition::FixNone
    } else if !fixed && incoming && matches_offered {
        AiDeliveryTransition::Adopt
    } else if fixed && !current && !incoming {
        AiDeliveryTransition::Unchanged
    } else if fixed && current && incoming && matches_offered && same_run {
        AiDeliveryTransition::Adopt
    } else {
        AiDeliveryTransition::Invalid
    }
}

/// Decides the capability-delivery transition for a new turn plan.
pub fn delivery_transition(
    fixed: bool,
    current: bool,
    incoming: bool,
    matches_offered: bool,
    same_run: bool,
) -> (r: AiDeliveryTransition)
    ensures
        r == delivery_transition_spec(fixed, current, incoming, matches_offered, same_run),
{
    if !fixed && !incoming {
        AiDeliveryTransition::FixNone
    } else if !fixed && incoming && matches_offered {
        AiDeliveryTransition::Adopt
    } else if fixed && !current && !incoming {
        AiDeliveryTransition::Unchanged
    } else if fixed && current && incoming && matches_offered && same_run {
        AiDeliveryTransition::Adopt
    } else {
        AiDeliveryTransition::Invalid
    }
}

/// Law: once a run's delivery surface is fixed it can neither appear, nor
/// disappear, nor be replaced by a surface of another run or one that does
/// not match the offered tools.
pub proof fn lemma_delivery_surface_is_fixed_per_run(
    current: bool,
    incoming: bool,
    matches_offered: bool,
    same_run: bool,
)
    ensures
        current != incoming ==> delivery_transition_spec(true, current, incoming, matches_offered, same_run)
            == AiDeliveryTransition::Invalid,
        incoming && !(matches_offered && same_run) ==> delivery_transition_spec(
            true,
            current,
            incoming,
            matches_offered,
            same_run,
        ) == AiDeliveryTransition::Invalid,
        incoming && !matches_offered ==> delivery_transition_spec(
            false,
            current,
            incoming,
            matches_offered,
            same_run,
        ) == AiDeliveryTransition::Invalid,
{
}

/// What a tool-free provider result proves about committing its retained
/// provider-session turn.
#[derive(Clone, Copy, Debug, PartialEq, Eq, Structural)]
pub enum AiSessionCommitProof {
    /// The result carries no retained turn to commit.
    Absent,
    /// The commit proof does not bind to the persisted output.
    Invalid,
    /// The retained turn may be committed.
    Valid,
}

/// How a tool-free provider result is finished.
#[derive(Clone, Copy, Debug)]
pub enum AiOutputCompletionStep {
    /// Report cancellation after invalidating the retained session (before
    /// output) or requiring its cleanup (after output) for this reason.
    Cancel(&'static str),
    /// Close for recovery in the provider-output phase with this reason,
    /// first invalidating the retained session for the second reason, when
    /// given.
    Recover(&'static str, Option<&'static str>),
    /// Finish the run as completed (`agent_completed`); commit the retained
    /// turn afterwards when `commit` holds, and first invalidate the retained
    /// session for `invalidate`, when given.
    Finish { commit: bool, invalidate: Option<&'static str> },
}

/// The step that finishes a tool-free provider result.
pub open spec fn output_completion_spec(
    cancelled_before_output: bool,
    output_persisted: bool,
    cancelled_after_output: bool,
    commit_proof: AiSessionCommitProof,
    session_service: bool,
) -> AiOutputCompletionStep {
    if cancelled_before_output {
        AiOutputCompletionStep::Cancel("provider_session_cancelled_before_output")
    } else if !output_persisted {
        AiOutputCompletionStep::Recover(
            "provider_output_uncertain",
            Some("provider_session_output_uncertain"),
        )
    } else if cancelled_after_output {
        AiOutputCompletionStep::Cancel("provider_session_cancelled_after_output")
    } else {
        match commit_proof {
            AiSessionCommitProof::Absent => (AiOutputCompletionStep::Finish {
                commit: false,
                invalidate: None,
            }),
            AiSessionCommitProof::Invalid => (AiOutputCompletionStep::Finish {
                commit: false,
                invalidate: Some("provider_session_commit_proof_invalid"),
            }),
            AiSessionCommitProof::Valid => if session_service {
                (AiOutputCompletionStep::Finish { commit: true, invalidate: None })
            } else {
                AiOutputCompletionStep::Recover("provider_session_commit_service_unavailable", None)
            },
        }
    }
}

/// Decides how a tool-free provider result is finished, from what the
/// coordinator observed in order: cancellation before the output write,
/// whether the output was durably persisted, cancellation after it, the
/// retained-turn commit proof, and whether a provider-session service is
/// installed. An uncertain output write is a recovery, never a replay.
pub fn output_completion_step(
    cancelled_before_output: bool,
    output_persisted: bool,
    cancelled_after_output: bool,
    commit_proof: AiSessionCommitProof,
    session_service: bool,
) -> (r: AiOutputCompletionStep)
    ensures
        r == output_completion_spec(
            cancelled_before_output,
            output_persisted,
            cancelled_after_output,
            commit_proof,
            session_service,
        ),
{
    if cancelled_before_output {
        return AiOutputCompletionStep::Cancel("provider_session_cancelled_before_output");
    }
    if !output_persisted {
        return AiOutputCompletionStep::Recover(
            "provider_output_uncertain",
            Some("provider_session_output_uncertain"),
        );
    }
    if cancelled_after_output {
        return AiOutputCompletionStep::Cancel("provider_session_cancelled_after_output");
    }
    match commit_proof {
        AiSessionCommitProof::Absent => AiOutputCompletionStep::Finish { commit: false, invalidate: None },
        AiSessionCommitProof::Invalid => AiOutputCompletionStep::Finish {
            commit: false,
            invalidate: Some("provider_session_commit_proof_invalid"),
        },
        AiSessionCommitProof::Valid => if session_service {
            AiOutputCompletionStep::Finish { commit: true, invalidate: None }
        } else {
            AiOutputCompletionStep::Recover("provider_session_commit_service_unavailable", None)
        },
    }
}

/// The cleanup a retained provider session needs after the terminal write:
/// when the run could not be finished while a commit was pending, or when the
/// commit itself failed. A failed commit never changes the completed outcome.
pub fn completion_cleanup_reason(finished: bool, commit_pending: bool, committed: bool) -> (r: Option<
    &'static str,
>)
    ensures
        !finished && commit_pending ==> r == Some("provider_session_terminal_write_uncertain"),
        !finished && !commit_pending ==> r is None,
        finished && commit_pending && !committed ==> r == Some("provider_session_commit_uncertain"),
        finished && (!commit_pending || committed) ==> r is None,
{
    if !finished {
        if commit_pending {
            Some("provider_session_terminal_write_uncertain")
        } else {
            None
        }
    } else if commit_pending && !committed {
        Some("provider_session_commit_uncertain")
    } else {
        None
    }
}

/// Law: a tool-free result whose output write is uncertain is never reported
/// as completed, and one cancelled before its output write never writes it.
pub proof fn lemma_uncertain_output_never_completes(
    cancelled_after_output: bool,
    commit_proof: AiSessionCommitProof,
    session_service: bool,
)
    ensures
        output_completion_spec(false, false, cancelled_after_output, commit_proof, session_service) is Recover,
        forall|persisted: bool|
            #[trigger] output_completion_spec(true, persisted, cancelled_after_output, commit_proof, session_service)
                == AiOutputCompletionStep::Cancel("provider_session_cancelled_before_output"),
{
}

/// The facts of an exact provider-call plan that the coordinator reads.
#[derive(Debug)]
pub struct AiProviderCallPlan {
    /// Exact scope of the call.
    pub scope: AiScope,
    /// Correlation identifier carried to every durable record.
    pub correlation_id: String,
    /// The plan offers validated application tools.
    pub has_application_tools: bool,
    /// An initial request with no tools, built-ins, continuation, or result input.
    pub tool_free_initial: bool,
    /// An initial provider-retained request with application tools and no
    /// attachments, result input, reasoning summaries, or output schema.
    pub dynamic_tool_initial: bool,
    /// The plan continues through a provider-retained continuation.
    pub provider_retained_continuation: bool,
    /// The plan continues an earlier turn.
    pub continuation: bool,
    /// Key of the provider-session descriptor the plan was built for.
    pub provider_session_descriptor: Option<String>,
    /// Exact definitions offered to the provider.
    pub offered_tools: Vec<ModelToolDefinition>,
}

/// Exact resolved-rule evidence for one scope.
#[derive(Debug)]
pub struct AiResolvedRuleSet {
    /// Scope the rules were resolved for.
    pub target_scope: AiScope,
    /// Fingerprint of the resolved rules.
    pub fingerprint: String,
}

/// The server-selected route for exact application-tool results. The planner
/// builds and validates it with the egress configuration; the coordinator only
/// carries it to every exact tool result.
#[derive(Clone, Debug)]
pub struct AiToolResultEgressRoute {
    /// Provider family receiving results.
    pub provider_kind: String,
    /// Exact provider model receiving results.
    pub provider_model: String,
    /// Reviewed destination label.
    pub destination: String,
}

/// Exact durable provider-session claim/create/resume for one turn.
#[derive(Debug)]
pub struct AiProviderSessionTurnPlan {
    /// Key of the provider-session descriptor.
    pub descriptor: String,
    /// Registration fingerprint of the descriptor.
    pub registration_fingerprint: String,
}

/// How a planned turn uses tools.
#[derive(Clone, Debug)]
pub enum AiReadOnlyAgentTurnMode {
    /// A tool-free chat turn.
    ChatOnly,
    /// Custom application tools with their result route.
    ApplicationTools(AiToolResultEgressRoute),
    /// Coordinator-owned in-flight application tools with their result route.
    ExperimentalDynamicTools(AiToolResultEgressRoute),
}

/// The kind of a turn mode.
pub open spec fn mode_kind(mode: AiReadOnlyAgentTurnMode) -> AiReadOnlyAgentTurnModeKind {
    match mode {
        AiReadOnlyAgentTurnMode::ChatOnly => AiReadOnlyAgentTurnModeKind::ChatOnly,
        AiReadOnlyAgentTurnMode::ApplicationTools(_) => AiReadOnlyAgentTurnModeKind::ApplicationTools,
        AiReadOnlyAgentTurnMode::ExperimentalDynamicTools(_) => AiReadOnlyAgentTurnModeKind::ExperimentalDynamicTools,
    }
}

/// One host-planned provider turn bound to current rule evidence: a truly
/// tool-free initial chat request, or custom application tools with one
/// structurally valid result route. It authorizes nothing; every decision
/// remains fresh per turn and call.
#[derive(Debug)]
pub struct AiReadOnlyAgentTurnPlan {
    provider_call: AiProviderCallPlan,
    mode: AiReadOnlyAgentTurnMode,
    rules: AiResolvedRuleSet,
    uses_byok: bool,
    provider_session: Option<AiProviderSessionTurnPlan>,
    capability_delivery: Option<AiCapabilityDeliveryTurn>,
}

/// The call is exactly bound to the rules' scope.
pub open spec fn rule_bound(call: AiProviderCallPlan, rules: AiResolvedRuleSet) -> bool {
    same_scope(call.scope, rules.target_scope)
}

impl AiReadOnlyAgentTurnPlan {
    /// The provider call.
    pub closed spec fn plan_call(&self) -> AiProviderCallPlan {
        self.provider_call
    }

    /// The turn mode.
    pub closed spec fn plan_mode(&self) -> AiReadOnlyAgentTurnMode {
        self.mode
    }

    /// The rule evidence.
    pub closed spec fn plan_rules(&self) -> AiResolvedRuleSet {
        self.rules
    }

    /// Whether the selected credential profile is BYOK.
    pub closed spec fn plan_uses_byok(&self) -> bool {
        self.uses_byok
    }

    /// The provider-session plan, if any.
    pub closed spec fn plan_session(&self) -> Option<AiProviderSessionTurnPlan> {
        self.provider_session
    }

    /// The capability delivery turn, if any.
    pub closed spec fn plan_delivery(&self) -> Option<AiCapabilityDeliveryTurn> {
        self.capability_delivery
    }

    /// Binds a provider plan with validated application tools to current rule
    /// evidence and the route used for every exact tool result.
    pub fn new(
        provider_call: AiProviderCallPlan,
        result_egress_route: AiToolResultEgressRoute,
        route_check: Result<(), AiError>,
        rules: AiResolvedRuleSet,
        uses_byok: bool,
    ) -> (r: Result<Self, AiError>)
        ensures
            r is Ok <==> provider_call.has_application_tools && rule_bound(provider_call, rules)
                && route_check is Ok,
            !(provider_call.has_application_tools && rule_bound(provider_call, rules)) ==> (r matches Err(e) && e is InvalidInput),
            provider_call.has_application_tools && rule_bound(provider_call, rules) ==> (route_check matches Err(e)
                ==> r == Err::<Self, AiError>(e)),
            r matches Ok(p) ==> p.plan_call() == provider_call && p.plan_mode()
                == AiReadOnlyAgentTurnMode::ApplicationTools(result_egress_route) && p.plan_rules()
                == rules && p.plan_uses_byok() == uses_byok && p.plan_session() is None
                && p.plan_delivery() is None,
    {
        if !provider_call.has_application_tools || !provider_call.scope.same_as(&rules.target_scope) {
            return Err(
                AiError::InvalidInput("agent turn plan has no tools or exact rule binding".to_string()),
            );
        }
        if let Err(e) = route_check {
            return Err(e);
        }
        Ok(
            AiReadOnlyAgentTurnPlan {
                provider_call,
                mode: AiReadOnlyAgentTurnMode::ApplicationTools(result_egress_route),
                rules,
                uses_byok,
                provider_session: None,
                capability_delivery: None,
            },
        )
    }

    /// Binds a truly tool-free initial provider call to current rule evidence.
    pub fn new_chat(provider_call: AiProviderCallPlan, rules: AiResolvedRuleSet, uses_byok: bool) -> (r:
        Result<Self, AiError>)
        ensures
            r is Ok <==> provider_call.tool_free_initial && rule_bound(provider_call, rules),
            r matches Ok(p) ==> p.plan_call() == provider_call && p.plan_mode()
                == AiReadOnlyAgentTurnMode::ChatOnly && p.plan_rules() == rules && p.plan_uses_byok()
                == uses_byok && p.plan_session() is None && p.plan_delivery() is None,
            r matches Err(e) ==> e is InvalidInput,
    {
        if !provider_call.tool_free_initial || !provider_call.scope.same_as(&rules.target_scope) {
            return Err(
                AiError::InvalidInput(
                    "chat turn plan is not tool-free or exactly rule-bound".to_string(),
                ),
            );
        }
        Ok(
            AiReadOnlyAgentTurnPlan {
                provider_call,
                mode: AiReadOnlyAgentTurnMode::ChatOnly,
                rules,
                uses_byok,
                provider_session: None,
                capability_delivery: None,
            },
        )
    }

    /// Binds an initial provider-retained turn to the coordinator-owned
    /// in-flight application-tool bridge.
    pub fn new_experimental_dynamic_tools(
        provider_call: AiProviderCallPlan,
        result_egress_route: AiToolResultEgressRoute,
        route_check: Result<(), AiError>,
        rules: AiResolvedRuleSet,
        uses_byok: bool,
    ) -> (r: Result<Self, AiError>)
        ensures
            r is Ok <==> provider_call.dynamic_tool_initial && rule_bound(provider_call, rules)
                && route_check is Ok,
            !(provider_call.dynamic_tool_initial && rule_bound(provider_call, rules)) ==> (r matches Err(e) && e is InvalidInput),
            provider_call.dynamic_tool_initial && rule_bound(provider_call, rules) ==> (route_check matches Err(e)
                ==> r == Err::<Self, AiError>(e)),
            r matches Ok(p) ==> p.plan_call() == provider_call && p.plan_mode()
                == AiReadOnlyAgentTurnMode::ExperimentalDynamicTools(result_egress_route)
                && p.plan_rules() == rules && p.plan_uses_byok() == uses_byok && p.plan_session() is None
                && p.plan_delivery() is None,
    {
        if !provider_call.dynamic_tool_initial || !provider_call.scope.same_as(&rules.target_scope) {
            return Err(
                AiError::InvalidInput(
                    "experimental dynamic-tool plan is not a closed initial request or exactly rule-bound".to_string(),
                ),
            );
        }
        if let Err(e) = route_check {
            return Err(e);
        }
        Ok(
            AiReadOnlyAgentTurnPlan {
                provider_call,
                mode: AiReadOnlyAgentTurnMode::ExperimentalDynamicTools(result_egress_route),
                rules,
                uses_byok,
                provider_session: None,
                capability_delivery: None,
            },
        )
    }

    /// Enables exact durable provider-session claim/create/resume for this
    /// turn: the session must match the call's descriptor, the call must
    /// continue through a provider-retained continuation, the turn must be
    /// chat-only or dynamic, and a delivery turn already bound must carry the
    /// same registration fingerprint.
    pub fn with_provider_session(self, session: AiProviderSessionTurnPlan) -> (r: Result<
        Self,
        AiError,
    >)
        ensures
            r is Ok <==> {
                &&& self.plan_call().provider_session_descriptor matches Some(d) && d@
                    == session.descriptor@
                &&& self.plan_call().provider_retained_continuation
                &&& !(self.plan_mode() is ApplicationTools)
                &&& self.plan_delivery() matches Some(delivery) ==> delivery.turn_binding().fingerprint
                    == session.registration_fingerprint@
            },
            r matches Ok(p) ==> p.plan_call() == self.plan_call() && p.plan_mode() == self.plan_mode()
                && p.plan_rules() == self.plan_rules() && p.plan_uses_byok() == self.plan_uses_byok()
                && p.plan_session() == Some(session) && p.plan_delivery() == self.plan_delivery(),
            r matches Err(e) ==> e is InvalidInput,
    {
        let descriptor_matches = match &self.provider_call.provider_session_descriptor {
            Some(d) => same_text(d.as_str(), session.descriptor.as_str()),
            None => false,
        };
        let delivery_conflicts = match &self.capability_delivery {
            Some(delivery) => !same_text(
                session.registration_fingerprint.as_str(),
                delivery.session_binding().fingerprint(),
            ),
            None => false,
        };
        let application = match &self.mode {
            AiReadOnlyAgentTurnMode::ApplicationTools(_) => true,
            _ => false,
        };
        if !descriptor_matches || !self.provider_call.provider_retained_continuation || application
            || delivery_conflicts {
            return Err(
                AiError::InvalidInput(
                    "provider-session plan does not match the exact provider call".to_string(),
                ),
            );
        }
        let mut plan = self;
        plan.provider_session = Some(session);
        Ok(plan)
    }

    /// Binds this turn to one crate-owned capability delivery surface: the
    /// offered definitions must be exactly the delivery turn's current tools,
    /// the turn must carry a result route, and a session plan already bound
    /// must carry the same registration fingerprint.
    pub fn with_capability_delivery(self, delivery: AiCapabilityDeliveryTurn) -> (r: Result<
        Self,
        AiError,
    >)
        ensures
            r is Ok <==> {
                &&& delivery.turn_tools().len() == self.plan_call().offered_tools@.len()
                &&& forall|i: int|
                    0 <= i < self.plan_call().offered_tools@.len() ==> same_definition(
                        #[trigger] delivery.turn_tools()[i],
                        self.plan_call().offered_tools@[i],
                    )
                &&& !(self.plan_mode() is ChatOnly)
                &&& self.plan_session() matches Some(session) ==> delivery.turn_binding().fingerprint
                    == session.registration_fingerprint@
            },
            r matches Ok(p) ==> p.plan_call() == self.plan_call() && p.plan_mode() == self.plan_mode()
                && p.plan_rules() == self.plan_rules() && p.plan_uses_byok() == self.plan_uses_byok()
                && p.plan_session() == self.plan_session() && p.plan_delivery() == Some(delivery),
            r matches Err(e) ==> e is InvalidInput,
    {
        let offered_match = delivery.matches_offered_tools(self.provider_call.offered_tools.as_slice());
        let chat = match &self.mode {
            AiReadOnlyAgentTurnMode::ChatOnly => true,
            _ => false,
        };
        let session_conflicts = match &self.provider_session {
            Some(session) => !same_text(
                session.registration_fingerprint.as_str(),
                delivery.session_binding().fingerprint(),
            ),
            None => false,
        };
        if !offered_match || chat || session_conflicts {
            return Err(
                AiError::InvalidInput(
                    "capability delivery surface does not match the exact provider call".to_string(),
                ),
            );
        }
        let mut plan = self;
        plan.capability_delivery = Some(delivery);
        Ok(plan)
    }

    /// Whether the provider call continues an earlier turn.
    pub fn is_continuation(&self) -> (r: bool)
        ensures
            r == self.plan_call().continuation,
    {
        self.provider_call.continuation
    }

    /// The fingerprint of the bound rules.
    pub fn rule_fingerprint(&self) -> (r: &str)
        ensures
            r@ == self.plan_rules().fingerprint@,
    {
        self.rules.fingerprint.as_str()
    }

    /// The kind of the turn mode.
    pub fn mode_kind(&self) -> (r: AiReadOnlyAgentTurnModeKind)
        ensures
            r == mode_kind(self.plan_mode()),
    {
        match &self.mode {
            AiReadOnlyAgentTurnMode::ChatOnly => AiReadOnlyAgentTurnModeKind::ChatOnly,
            AiReadOnlyAgentTurnMode::ApplicationTools(_) => AiReadOnlyAgentTurnModeKind::ApplicationTools,
            AiReadOnlyAgentTurnMode::ExperimentalDynamicTools(_) => AiReadOnlyAgentTurnModeKind::ExperimentalDynamicTools,
        }
    }

    /// Takes the plan apart for execution: the call, its scope and
    /// correlation identifier, the mode, the rules, the BYOK flag, and the
    /// optional session and delivery bindings.
    pub fn into_parts(self) -> (r: (
        AiProviderCallPlan,
        AiScope,
        String,
        AiReadOnlyAgentTurnMode,
        AiResolvedRuleSet,
        bool,
        Option<AiProviderSessionTurnPlan>,
        Option<AiCapabilityDeliveryTurn>,
    ))
        ensures
            r.0 == self.plan_call(),
            same_scope(r.1, self.plan_call().scope),
            r.2@ == self.plan_call().correlation_id@,
            r.3 == self.plan_mode(),
            r.4 == self.plan_rules(),
            r.5 == self.plan_uses_byok(),
            r.6 == self.plan_session(),
            r.7 == self.plan_delivery(),
    {
        let scope = self.provider_call.scope.duplicate();
        let correlation_id = self.provider_call.correlation_id.clone();
        (
            self.provider_call,
            scope,
            correlation_id,
            self.mode,
            self.rules,
            self.uses_byok,
            self.provider_session,
            self.capability_delivery,
        )
    }
}

} // verus!
