//! Closed native approval checkpoint proofs: the order of callback outcomes
//! in a native turn and the exact approval record that pauses it.

use vstd::prelude::*;

use crate::approvals::{
    binding_fields_present, binding_hash, preview_resources_ok, AiApprovalBinding,
    AiCanonicalActionPreview,
};
use crate::digest::{uuid_string, uuid_text};
use crate::error::AiError;
use crate::scope::{same_scope, AiScope};
use crate::text::{byte_len, is_blank, same_text, blank, utf8_len};

verus! {

/// One provider-requested tool call of a completed native turn.
#[derive(Clone, Debug)]
pub struct ProviderToolSnapshot {
    /// Provider callback identifier.
    pub call_id: String,
    /// Registered tool identifier.
    pub tool_id: String,
    /// Provider-visible name, when the provider reported one.
    pub provider_name: Option<String>,
    /// Exact registered tool fingerprint.
    pub tool_fingerprint: String,
    /// Canonical JSON text of the arguments.
    pub arguments: String,
}

/// Whether a protected native outcome came from an application tool or from
/// a framework control receipt.
#[derive(Clone, Copy, Debug, PartialEq, Eq, Structural)]
pub enum NativeOutcomeKind {
    /// An ordinary application tool result.
    Application,
    /// A framework control receipt with no effect.
    FrameworkControl,
}

/// Framework control recorded for a native tool call.
#[derive(Clone, Copy, Debug, PartialEq, Eq, Structural)]
pub enum AiNativeToolControlKind {
    /// The call awaits a human approval.
    ApprovalPending,
    /// The call was paused because an earlier consequential call awaits approval.
    ConsequentialCallsPaused,
}

/// One recorded outcome: position, tool-call identifier, callback identifier,
/// kind, and control.
pub type NativeOutcome<'a> = (usize, u128, &'a str, NativeOutcomeKind, Option<AiNativeToolControlKind>);

/// The kind/control rule for the outcome at `position`: application results
/// before and after the pending call carry no control, the pending call is
/// the approval-pending control, and every later consequential call may be a
/// paused control.
pub open spec fn outcome_kind_ok(
    position: int,
    pending: int,
    kind: NativeOutcomeKind,
    control: Option<AiNativeToolControlKind>,
) -> bool {
    match (kind, control) {
        (NativeOutcomeKind::Application, None) => position != pending,
        (NativeOutcomeKind::FrameworkControl, Some(AiNativeToolControlKind::ApprovalPending)) => position == pending,
        (NativeOutcomeKind::FrameworkControl, Some(AiNativeToolControlKind::ConsequentialCallsPaused)) => position > pending,
        _ => false,
    }
}

/// The outcome at `position` is the exact record for the requested call.
pub open spec fn outcome_ok(
    position: int,
    pending: int,
    candidate: u128,
    expected: ProviderToolSnapshot,
    outcome: NativeOutcome,
) -> bool {
    &&& outcome.0 == position
    &&& outcome.1 != 0
    &&& outcome.2@ == expected.call_id@
    &&& (outcome.1 == candidate) == (position == pending)
    &&& outcome_kind_ok(position, pending, outcome.3, outcome.4)
}

/// A complete, unique, ordered outcome list with the exact pending identity.
pub open spec fn native_order_ok(
    pending: usize,
    candidate: u128,
    requested: Seq<ProviderToolSnapshot>,
    outcomes: Seq<NativeOutcome>,
) -> bool {
    &&& 0 < requested.len() <= 256
    &&& pending < requested.len()
    &&& candidate != 0
    &&& outcomes.len() == requested.len()
    &&& forall|p: int|
        0 <= p < outcomes.len() ==> outcome_ok(p, pending as int, candidate, requested[p], #[trigger] outcomes[p])
    &&& forall|a: int, b: int|
        0 <= a < outcomes.len() && 0 <= b < outcomes.len() && a != b ==> #[trigger] outcomes[a].1
            != #[trigger] outcomes[b].1
    &&& forall|a: int, b: int|
        0 <= a < outcomes.len() && 0 <= b < outcomes.len() && a != b ==> #[trigger] outcomes[a].2@
            != #[trigger] outcomes[b].2@
}

fn kind_ok(
    position: usize,
    pending: usize,
    kind: NativeOutcomeKind,
    control: Option<AiNativeToolControlKind>,
) -> (r: bool)
    ensures
        r == outcome_kind_ok(position as int, pending as int, kind, control),
{
    match (kind, control) {
        (NativeOutcomeKind::Application, None) => position != pending,
        (NativeOutcomeKind::FrameworkControl, Some(AiNativeToolControlKind::ApprovalPending)) => position == pending,
        (NativeOutcomeKind::FrameworkControl, Some(AiNativeToolControlKind::ConsequentialCallsPaused)) => position > pending,
        _ => false,
    }
}

/// Requires every requested call to have exactly one outcome, in request
/// order, with unique non-nil identifiers and callbacks, and with the
/// candidate identity exactly at the pending position.
pub fn validate_native_order(
    pending: usize,
    candidate: u128,
    requested: &[ProviderToolSnapshot],
    outcomes: &[NativeOutcome],
) -> (r: Result<(), AiError>)
    ensures
        r is Ok <==> native_order_ok(pending, candidate, requested@, outcomes@),
        r matches Err(e) ==> e is Conflict,
{
    if requested.len() == 0 || requested.len() > 256 || pending >= requested.len() || candidate == 0 {
        return Err(AiError::Conflict);
    }
    let mut position: usize = 0;
    while position < outcomes.len()
        invariant
            position <= outcomes@.len(),
            0 < requested@.len() <= 256,
            pending < requested@.len(),
            candidate != 0,
            position <= requested@.len(),
            forall|p: int|
                0 <= p < position ==> outcome_ok(p, pending as int, candidate, requested@[p], #[trigger] outcomes@[p]),
            forall|a: int, b: int|
                0 <= a < position && 0 <= b < position && a != b ==> #[trigger] outcomes@[a].1
                    != #[trigger] outcomes@[b].1,
            forall|a: int, b: int|
                0 <= a < position && 0 <= b < position && a != b ==> #[trigger] outcomes@[a].2@
                    != #[trigger] outcomes@[b].2@,
        decreases outcomes@.len() - position,
    {
        if position >= requested.len() {
            return Err(AiError::Conflict);
        }
        let (index, id, callback, kind, control) = outcomes[position];
        let expected = &requested[position];
        if index != position || id == 0 || !same_text(callback, expected.call_id.as_str()) || (id
            == candidate) != (position == pending) || !kind_ok(position, pending, kind, control) {
            return Err(AiError::Conflict);
        }
        let mut earlier: usize = 0;
        while earlier < position
            invariant
                position < outcomes@.len(),
                earlier <= position,
                id == outcomes@[position as int].1,
                callback@ == outcomes@[position as int].2@,
                forall|a: int| 0 <= a < earlier ==> outcomes@[a].1 != id && outcomes@[a].2@ != callback@,
            decreases position - earlier,
        {
            let (_, other_id, other_callback, _, _) = outcomes[earlier];
            if other_id == id || same_text(other_callback, callback) {
                return Err(AiError::Conflict);
            }
            earlier = earlier + 1;
        }
        position = position + 1;
    }
    if position != requested.len() {
        return Err(AiError::Conflict);
    }
    Ok(())
}

/// Row identity under which protected checkpoint state is encrypted.
#[derive(Clone, Debug)]
pub struct ContentProtectionContext {
    /// Protected entity name.
    pub entity: String,
    /// Protected row identifier.
    pub row_id: String,
    /// Protected field name.
    pub field: String,
    /// Scope whose content policy applies.
    pub scope: AiScope,
}

/// The protection context of one run checkpoint row.
pub fn native_context(id: u128, scope: &AiScope) -> (r: ContentProtectionContext)
    ensures
        r.entity@ == "graphql_orm_ai_run_checkpoints"@,
        r.row_id@ == uuid_text(id),
        r.field@ == "protected_state"@,
        same_scope(r.scope, *scope),
{
    ContentProtectionContext {
        entity: "graphql_orm_ai_run_checkpoints".to_owned(),
        row_id: uuid_string(id),
        field: "protected_state".to_owned(),
        scope: scope.duplicate(),
    }
}

/// Durable tool-call fields checked against its approval.
#[derive(Clone, Debug)]
pub struct AiToolCallRecord {
    /// Tool call identifier.
    pub id: u128,
    /// Approval linked to the call, when one was requested.
    pub approval_id: Option<u128>,
    /// Canonical argument hash.
    pub argument_hash: String,
    /// Exact registered tool fingerprint.
    pub tool_fingerprint: String,
    /// Provider callback identifier.
    pub provider_call_id: String,
    /// Registered tool identifier.
    pub tool_id: String,
    /// Durable call state.
    pub state: String,
    /// Completion time (Unix seconds), once completed.
    pub completed_at: Option<i64>,
    /// Policy version the resolver was authorized under.
    pub authorization_policy_version: Option<String>,
    /// Authorization-state digest the resolver was authorized under.
    pub authorization_state_digest: Option<String>,
    /// Hash of the result's egress manifest.
    pub result_egress_manifest_hash: Option<String>,
    /// Owning run.
    pub run_id: u128,
    /// Whether the protected payload was purged.
    pub payload_purged: bool,
    /// Lease generation the call was recorded under.
    pub lease_generation: i64,
    /// Provider family of the turn that requested it.
    pub provider_kind: Option<String>,
    /// Provider model of that turn.
    pub provider_model: Option<String>,
    /// Provider response of that turn.
    pub provider_response_id: Option<String>,
    /// Budget reservation of that turn.
    pub budget_reservation_id: Option<u128>,
    /// Position of the call in its turn.
    pub tool_call_index: i64,
    /// Provider turn the call belongs to.
    pub provider_turn_index: i64,
    /// Reviewed risk class.
    pub risk: String,
}

/// Durable run-step fields of one application tool call.
#[derive(Clone, Debug)]
pub struct AiRunStepRecord {
    /// Owning run.
    pub run_id: u128,
    /// Step kind.
    pub step_kind: String,
    /// Lease generation the step was recorded under.
    pub lease_generation: i64,
    /// Step state.
    pub state: String,
    /// Whether the step finished.
    pub finished: bool,
}

/// The provider turn a native checkpoint was taken from.
#[derive(Clone, Debug)]
pub struct NativeProviderTurn {
    /// Run.
    pub run_id: u128,
    /// Provider execution attempt of the turn.
    pub attempt_id: u128,
    /// Lease generation of the turn.
    pub lease_generation: i64,
    /// Provider family.
    pub provider_kind: String,
    /// Provider model.
    pub provider_model: String,
    /// Provider response identifier, if any.
    pub provider_response_id: Option<String>,
    /// Budget reservation.
    pub budget_reservation_id: u128,
}

/// Durable approval fields checked against a native approval checkpoint.
#[derive(Clone, Debug)]
pub struct AiApprovalRecord {
    /// Approval identifier.
    pub id: u128,
    /// Bound tool call.
    pub tool_call_id: u128,
    /// Owning session.
    pub session_id: u128,
    /// Canonical argument hash.
    pub argument_hash: String,
    /// Exact registered tool fingerprint.
    pub tool_fingerprint: String,
    /// Complete action-envelope hash.
    pub binding_hash: String,
    /// Canonical action-preview hash.
    pub action_preview_hash: String,
    /// Policy version recorded for the action.
    pub policy_version: String,
    /// Authorization-state digest recorded for the action.
    pub authorization_state_digest: String,
    /// Maximum consumptions.
    pub maximum_uses: i64,
    /// Decision time (Unix seconds) once decided.
    pub decided_at: Option<i64>,
    /// Human approver subject once decided.
    pub approver_subject: Option<String>,
    /// Fingerprint of the requesting principal reference.
    pub principal_reference_fingerprint: String,
    /// Lifecycle state.
    pub state: String,
    /// Consumptions so far.
    pub consumed_uses: i64,
    /// Consumption time (Unix seconds), once consumed.
    pub consumed_at: Option<i64>,
    /// Exclusive expiry (Unix seconds).
    pub expires_at: i64,
}

/// The approval is the decided one-shot record for this exact call, session,
/// principal, and prepared action envelope.
pub open spec fn native_approval_ok(
    lease_session_id: u128,
    lease_principal_fingerprint: Seq<char>,
    binding: AiApprovalBinding,
    call: AiToolCallRecord,
    approval: AiApprovalRecord,
) -> bool {
    &&& approval.tool_call_id == call.id
    &&& approval.session_id == lease_session_id
    &&& call.approval_id == Some(approval.id)
    &&& approval.argument_hash@ == call.argument_hash@
    &&& approval.tool_fingerprint@ == call.tool_fingerprint@
    &&& approval.binding_hash@ == binding_hash(binding)
    &&& approval.action_preview_hash@ == binding.preview_hash@
    &&& approval.policy_version@ == binding.policy_version@
    &&& approval.authorization_state_digest@ == binding.authorization_state_digest@
    &&& approval.maximum_uses == 1
    &&& approval.decided_at is Some
    &&& match approval.approver_subject {
        Some(subject) => subject@.len() > 0,
        None => false,
    }
    &&& approval.principal_reference_fingerprint@ == lease_principal_fingerprint
}

/// Requires the stored approval to be exactly the decided one-shot approval
/// of the prepared native action.
pub fn validate_native_approval(
    lease_session_id: u128,
    lease_principal_fingerprint: &str,
    binding: &AiApprovalBinding,
    call: &AiToolCallRecord,
    approval: &AiApprovalRecord,
) -> (r: Result<(), AiError>)
    ensures
        r is Ok <==> native_approval_ok(
            lease_session_id,
            lease_principal_fingerprint@,
            *binding,
            *call,
            *approval,
        ),
        r matches Err(e) ==> e is Conflict,
{
    let linked = match call.approval_id {
        Some(id) => id == approval.id,
        None => false,
    };
    let approver_present = match &approval.approver_subject {
        Some(subject) => subject.as_str().unicode_len() != 0,
        None => false,
    };
    if approval.tool_call_id != call.id || approval.session_id != lease_session_id || !linked
        || approval.argument_hash != call.argument_hash || approval.tool_fingerprint
        != call.tool_fingerprint || !same_text(
        approval.binding_hash.as_str(),
        binding.stable_hash().as_str(),
    ) || approval.action_preview_hash != binding.preview_hash || approval.policy_version
        != binding.policy_version || approval.authorization_state_digest
        != binding.authorization_state_digest || approval.maximum_uses != 1
        || approval.decided_at.is_none() || !approver_present || !same_text(
        approval.principal_reference_fingerprint.as_str(),
        lease_principal_fingerprint,
    ) {
        return Err(AiError::Conflict);
    }
    Ok(())
}

/// The completed tool result recorded by an approved native outcome.
#[derive(Clone, Debug)]
pub struct NativeToolResultSnapshot {
    /// Tool call identifier.
    pub id: u128,
    /// Provider callback identifier.
    pub provider_call_id: String,
    /// Durable call state.
    pub state: String,
    /// Hash of the result's egress manifest.
    pub egress_manifest_hash: String,
    /// The callback and tool identifiers of its model input, when that input
    /// is a tool-result block.
    pub result_block: Option<(String, String)>,
}

/// The approval evidence an approved-outcome checkpoint recorded.
#[derive(Clone, Debug)]
pub struct NativeApprovalEvidence {
    /// Complete action-envelope hash.
    pub binding_hash: String,
    /// Canonical action-preview hash.
    pub preview_hash: String,
    /// Policy version.
    pub policy_version: String,
    /// Authorization-state digest.
    pub authorization_state_digest: String,
}

/// An optional text equals a text.
pub open spec fn some_text(o: Option<String>, t: Seq<char>) -> bool {
    match o {
        Some(s) => s@ == t,
        None => false,
    }
}

/// The approved native outcome is exactly the completed result of the
/// consumed one-shot approval: same call, a completed or failed state, a
/// single recorded consumption matching the checkpoint's evidence, the
/// resolver authorized under the approval's policy and state, and the
/// result's egress manifest and model input bound to the call.
pub open spec fn native_consumed_outcome_ok(
    tool: NativeToolResultSnapshot,
    call: AiToolCallRecord,
    approval: AiApprovalRecord,
    evidence: NativeApprovalEvidence,
) -> bool {
    &&& tool.id == call.id
    &&& tool.provider_call_id@ == call.provider_call_id@
    &&& tool.state@ == call.state@
    &&& (call.state@ == "completed"@ || call.state@ == "execution_failed"@)
    &&& call.completed_at is Some
    &&& approval.state@ == "consumed"@
    &&& approval.consumed_uses == 1
    &&& approval.consumed_at is Some
    &&& approval.binding_hash@ == evidence.binding_hash@
    &&& approval.action_preview_hash@ == evidence.preview_hash@
    &&& approval.policy_version@ == evidence.policy_version@
    &&& approval.authorization_state_digest@ == evidence.authorization_state_digest@
    &&& some_text(call.authorization_policy_version, approval.policy_version@)
    &&& some_text(call.authorization_state_digest, approval.authorization_state_digest@)
    &&& some_text(call.result_egress_manifest_hash, tool.egress_manifest_hash@)
    &&& tool.result_block matches Some(block) && block.0@ == call.provider_call_id@ && block.1@
        == call.tool_id@
}

fn some_text_equals(o: &Option<String>, t: &str) -> (r: bool)
    ensures
        r == some_text(*o, t@),
{
    match o {
        Some(s) => same_text(s.as_str(), t),
        None => false,
    }
}

/// Requires an approved native outcome to be exactly the completed result
/// of its consumed approval.
pub fn validate_native_consumed_outcome(
    tool: &NativeToolResultSnapshot,
    call: &AiToolCallRecord,
    approval: &AiApprovalRecord,
    evidence: &NativeApprovalEvidence,
) -> (r: Result<(), AiError>)
    ensures
        r is Ok <==> native_consumed_outcome_ok(*tool, *call, *approval, *evidence),
        r matches Err(e) ==> e is Conflict,
{
    let finished = same_text(call.state.as_str(), "completed") || same_text(
        call.state.as_str(),
        "execution_failed",
    );
    if tool.id != call.id || !same_text(tool.provider_call_id.as_str(), call.provider_call_id.as_str())
        || !same_text(tool.state.as_str(), call.state.as_str()) || !finished
        || call.completed_at.is_none() || !same_text(approval.state.as_str(), "consumed")
        || approval.consumed_uses != 1 || approval.consumed_at.is_none() || !same_text(
        approval.binding_hash.as_str(),
        evidence.binding_hash.as_str(),
    ) || !same_text(approval.action_preview_hash.as_str(), evidence.preview_hash.as_str())
        || !same_text(approval.policy_version.as_str(), evidence.policy_version.as_str())
        || !same_text(
        approval.authorization_state_digest.as_str(),
        evidence.authorization_state_digest.as_str(),
    ) || !some_text_equals(&call.authorization_policy_version, approval.policy_version.as_str())
        || !some_text_equals(
        &call.authorization_state_digest,
        approval.authorization_state_digest.as_str(),
    ) || !some_text_equals(&call.result_egress_manifest_hash, tool.egress_manifest_hash.as_str()) {
        return Err(AiError::Conflict);
    }
    match &tool.result_block {
        Some((call_id, tool_id)) => {
            if !same_text(call_id.as_str(), call.provider_call_id.as_str()) || !same_text(
                tool_id.as_str(),
                call.tool_id.as_str(),
            ) {
                return Err(AiError::Conflict);
            }
        },
        None => {
            return Err(AiError::Conflict);
        },
    }
    Ok(())
}

/// Two optional texts are equal.
pub open spec fn same_optional_text(a: Option<String>, b: Option<String>) -> bool {
    match (a, b) {
        (None, None) => true,
        (Some(x), Some(y)) => x@ == y@,
        _ => false,
    }
}

fn optional_text_equal(a: &Option<String>, b: &Option<String>) -> (r: bool)
    ensures
        r == same_optional_text(*a, *b),
{
    match (a, b) {
        (None, None) => true,
        (Some(x), Some(y)) => same_text(x.as_str(), y.as_str()),
        _ => false,
    }
}

/// The step state expected for a call: `running` for the still-executing
/// pending call of a finalized, not yet completed checkpoint; otherwise the
/// call's own state.
pub open spec fn expected_step_state(
    index: int,
    pending: int,
    finalized: bool,
    completed: bool,
    call_state: Seq<char>,
) -> Seq<char> {
    if finalized && index == pending && !completed {
        "running"@
    } else {
        call_state
    }
}

/// The durable call and step of outcome `index` are exactly the provider's
/// requested call: same run, unpurged, an application-tool step, the lease
/// generation of the turn (the pending call may have been re-leased up to
/// the current generation, and must be current until completed), the same
/// provider, response, reservation, callback, tool, fingerprint, position,
/// turn, and argument hash, and a step that mirrors the call.
pub open spec fn native_call_record_ok(
    index: int,
    pending: int,
    provider_turns: u32,
    finalized: bool,
    completed: bool,
    lease_generation: i64,
    provider: NativeProviderTurn,
    requested: ProviderToolSnapshot,
    requested_argument_hash: Seq<char>,
    call: AiToolCallRecord,
    step: AiRunStepRecord,
) -> bool {
    &&& call.run_id == provider.run_id
    &&& !call.payload_purged
    &&& step.step_kind@ == "application_tool"@
    &&& (index != pending ==> call.lease_generation == provider.lease_generation)
    &&& (index == pending ==> provider.lease_generation <= call.lease_generation
        <= lease_generation && (completed || call.lease_generation == lease_generation))
    &&& some_text(call.provider_kind, provider.provider_kind@)
    &&& some_text(call.provider_model, provider.provider_model@)
    &&& same_optional_text(call.provider_response_id, provider.provider_response_id)
    &&& call.budget_reservation_id == Some(provider.budget_reservation_id)
    &&& call.provider_call_id@ == requested.call_id@
    &&& call.tool_id@ == requested.tool_id@
    &&& call.tool_fingerprint@ == requested.tool_fingerprint@
    &&& call.tool_call_index == index
    &&& call.provider_turn_index == provider_turns - 1
    &&& call.argument_hash@ == requested_argument_hash
    &&& step.run_id == call.run_id
    &&& step.lease_generation == call.lease_generation
    &&& step.state@ == expected_step_state(index, pending, finalized, completed, call.state@)
}

/// Checks the durable call and step behind outcome `index` of a native
/// checkpoint. `requested_argument_hash` is the canonical hash of the
/// requested arguments.
pub fn validate_native_call_record(
    index: usize,
    pending: usize,
    provider_turns: u32,
    finalized: bool,
    completed: bool,
    lease_generation: i64,
    provider: &NativeProviderTurn,
    requested: &ProviderToolSnapshot,
    requested_argument_hash: &str,
    call: &AiToolCallRecord,
    step: &AiRunStepRecord,
) -> (r: Result<(), AiError>)
    requires
        provider_turns >= 1,
    ensures
        r is Ok <==> native_call_record_ok(
            index as int,
            pending as int,
            provider_turns,
            finalized,
            completed,
            lease_generation,
            *provider,
            *requested,
            requested_argument_hash@,
            *call,
            *step,
        ),
        r matches Err(e) ==> e is Conflict,
{
    let generation_ok = if index != pending {
        call.lease_generation == provider.lease_generation
    } else {
        provider.lease_generation <= call.lease_generation && call.lease_generation
            <= lease_generation && (completed || call.lease_generation == lease_generation)
    };
    let expected_state: &str = if finalized && index == pending && !completed {
        "running"
    } else {
        call.state.as_str()
    };
    let index_ok = (index as u128) <= (i64::MAX as u128) && call.tool_call_index == index as i64;
    if call.run_id != provider.run_id || call.payload_purged || !same_text(
        step.step_kind.as_str(),
        "application_tool",
    ) || !generation_ok || !some_text_equals(&call.provider_kind, provider.provider_kind.as_str())
        || !some_text_equals(&call.provider_model, provider.provider_model.as_str())
        || !optional_text_equal(&call.provider_response_id, &provider.provider_response_id)
        || call.budget_reservation_id != Some(provider.budget_reservation_id) || !same_text(
        call.provider_call_id.as_str(),
        requested.call_id.as_str(),
    ) || !same_text(call.tool_id.as_str(), requested.tool_id.as_str()) || !same_text(
        call.tool_fingerprint.as_str(),
        requested.tool_fingerprint.as_str(),
    ) || !index_ok || call.provider_turn_index != (provider_turns - 1) as i64 || !same_text(
        call.argument_hash.as_str(),
        requested_argument_hash,
    ) || step.run_id != call.run_id || step.lease_generation != call.lease_generation
        || !same_text(step.state.as_str(), expected_state) {
        return Err(AiError::Conflict);
    }
    Ok(())
}

/// An ordinary application outcome of a native turn: no control, not the
/// pending call, completed or failed with both records finished, no
/// approval, a reviewed risk class (only read-only after the pending call),
/// and a single-source manifest naming the call whose hash the call records.
pub open spec fn native_application_outcome_ok(
    index: int,
    pending: int,
    call: AiToolCallRecord,
    step_finished: bool,
    manifest_source_kind: Seq<char>,
    manifest_source_reference: Seq<char>,
    manifest_hash: Seq<char>,
) -> bool {
    &&& index != pending
    &&& (call.state@ == "completed"@ || call.state@ == "execution_failed"@)
    &&& call.completed_at is Some
    &&& step_finished
    &&& call.approval_id is None
    &&& (call.risk@ == "read_only"@ || call.risk@ == "low_risk_write"@ || call.risk@
        == "non_idempotent_write"@)
    &&& (index > pending ==> call.risk@ == "read_only"@)
    &&& manifest_source_kind == "application_tool_result"@
    &&& manifest_source_reference == uuid_text(call.id)
    &&& some_text(call.result_egress_manifest_hash, manifest_hash)
}

/// Checks one ordinary application outcome of a native turn.
pub fn validate_native_application_outcome(
    index: usize,
    pending: usize,
    call: &AiToolCallRecord,
    step_finished: bool,
    manifest_source_kind: &str,
    manifest_source_reference: &str,
    manifest_hash: &str,
) -> (r: Result<(), AiError>)
    ensures
        r is Ok <==> native_application_outcome_ok(
            index as int,
            pending as int,
            *call,
            step_finished,
            manifest_source_kind@,
            manifest_source_reference@,
            manifest_hash@,
        ),
        r matches Err(e) ==> e is Conflict,
{
    let finished_state = same_text(call.state.as_str(), "completed") || same_text(
        call.state.as_str(),
        "execution_failed",
    );
    let read_only = same_text(call.risk.as_str(), "read_only");
    let reviewed_risk = read_only || same_text(call.risk.as_str(), "low_risk_write") || same_text(
        call.risk.as_str(),
        "non_idempotent_write",
    );
    let reference = uuid_string(call.id);
    if index == pending || !finished_state || call.completed_at.is_none() || !step_finished
        || call.approval_id.is_some() || !reviewed_risk || (index > pending && !read_only)
        || !same_text(manifest_source_kind, "application_tool_result") || !same_text(
        manifest_source_reference,
        reference.as_str(),
    ) || !some_text_equals(&call.result_egress_manifest_hash, manifest_hash) {
        return Err(AiError::Conflict);
    }
    Ok(())
}

/// Durable fields of the native approval candidate behind a checkpoint.
#[derive(Clone, Debug)]
pub struct AiNativeApprovalCandidateRecord {
    /// Candidate identifier: the pending tool call.
    pub id: u128,
    /// Lifecycle state (`prepared` or `finalized`).
    pub state: String,
    /// Owning run.
    pub run_id: u128,
    /// Provider execution attempt.
    pub attempt_id: u128,
    /// Lease generation of the provider turn.
    pub lease_generation: i64,
    /// Budget reservation of the provider turn.
    pub budget_reservation_id: u128,
    /// Whether the protected payload was purged.
    pub payload_purged: bool,
    /// Complete action-envelope hash.
    pub binding_hash: String,
    /// Canonical action-preview hash.
    pub preview_hash: String,
    /// Hash of the protected control receipt.
    pub control_receipt_hash: Option<String>,
    /// Egress decision of the control receipt.
    pub control_egress_decision_id: Option<u128>,
    /// Egress manifest hash of the control receipt.
    pub control_egress_manifest_hash: Option<String>,
    /// Approval created when the candidate was finalized.
    pub final_approval_id: Option<u128>,
    /// Checkpoint that settled the candidate.
    pub settled_checkpoint_id: Option<u128>,
}

/// The candidate is exactly the one the checkpoint's provider turn prepared:
/// in the expected state, for this run, attempt, generation, and reservation,
/// unpurged, with its control receipt recorded; a prepared candidate is not
/// yet finalized or settled, and a finalized one has its approval and was
/// settled by the source checkpoint.
pub open spec fn native_candidate_ok(
    candidate: AiNativeApprovalCandidateRecord,
    candidate_state: Seq<char>,
    lease_run_id: u128,
    provider: NativeProviderTurn,
    source_checkpoint: Option<u128>,
) -> bool {
    &&& candidate.state@ == candidate_state
    &&& candidate.run_id == lease_run_id
    &&& candidate.attempt_id == provider.attempt_id
    &&& candidate.lease_generation == provider.lease_generation
    &&& candidate.budget_reservation_id == provider.budget_reservation_id
    &&& !candidate.payload_purged
    &&& candidate.control_receipt_hash is Some
    &&& candidate.control_egress_decision_id is Some
    &&& candidate.control_egress_manifest_hash is Some
    &&& (candidate_state == "prepared"@ ==> candidate.final_approval_id is None
        && candidate.settled_checkpoint_id is None)
    &&& (candidate_state == "finalized"@ ==> candidate.final_approval_id is Some
        && candidate.settled_checkpoint_id == source_checkpoint)
}

/// Checks the native approval candidate behind a checkpoint.
pub fn validate_native_candidate(
    candidate: &AiNativeApprovalCandidateRecord,
    candidate_state: &str,
    lease_run_id: u128,
    provider: &NativeProviderTurn,
    source_checkpoint: Option<u128>,
) -> (r: Result<(), AiError>)
    ensures
        r is Ok <==> native_candidate_ok(
            *candidate,
            candidate_state@,
            lease_run_id,
            *provider,
            source_checkpoint,
        ),
        r matches Err(e) ==> e is Conflict,
{
    let prepared = same_text(candidate_state, "prepared");
    let finalized = same_text(candidate_state, "finalized");
    if !same_text(candidate.state.as_str(), candidate_state) || candidate.run_id != lease_run_id
        || candidate.attempt_id != provider.attempt_id || candidate.lease_generation
        != provider.lease_generation || candidate.budget_reservation_id
        != provider.budget_reservation_id || candidate.payload_purged
        || candidate.control_receipt_hash.is_none() || candidate.control_egress_decision_id.is_none()
        || candidate.control_egress_manifest_hash.is_none() || (prepared && (
    candidate.final_approval_id.is_some() || candidate.settled_checkpoint_id.is_some()))
        || (finalized && (candidate.final_approval_id.is_none()
        || candidate.settled_checkpoint_id != source_checkpoint)) {
        return Err(AiError::Conflict);
    }
    Ok(())
}

/// The context a native approval was prepared in.
#[derive(Clone, Debug)]
pub struct NativeApprovalContext {
    /// Scope of the prepared action.
    pub scope: AiScope,
    /// Position of the pending call in its turn.
    pub tool_call_index: usize,
    /// Provider turn of the pending call.
    pub provider_turn_index: u32,
    /// Correlation identifier of the run.
    pub correlation_id: String,
}

/// The protected preparation is exactly the candidate's: a valid envelope and
/// preview, prepared in the checkpoint's scope, position, turn, and
/// correlation, for the candidate call in the lease's session, hashing to the
/// candidate's envelope and preview hashes, for a write tool.
pub open spec fn native_preparation_ok(
    binding: AiApprovalBinding,
    preview: AiCanonicalActionPreview,
    context: NativeApprovalContext,
    write_maturity: bool,
    scope: AiScope,
    pending_call_index: usize,
    provider_turns: u32,
    correlation_id: Seq<char>,
    candidate: AiNativeApprovalCandidateRecord,
    lease_session_id: u128,
) -> bool {
    &&& same_scope(context.scope, scope)
    &&& context.tool_call_index == pending_call_index
    &&& context.provider_turn_index == provider_turns - 1
    &&& context.correlation_id@ == correlation_id
    &&& binding.tool_call_id == candidate.id
    &&& binding.session_id == lease_session_id
    &&& binding_hash(binding) == candidate.binding_hash@
    &&& binding.preview_hash@ == candidate.preview_hash@
    &&& write_maturity
}

/// Checks the protected preparation of a native approval candidate: the
/// envelope must validate against its preview (else the envelope's
/// configuration error) and match the candidate and checkpoint (else a
/// conflict). `write_maturity` is whether the tool is an autonomous or
/// supervised write.
pub fn validate_native_preparation(
    binding: &AiApprovalBinding,
    preview: &AiCanonicalActionPreview,
    context: &NativeApprovalContext,
    write_maturity: bool,
    scope: &AiScope,
    pending_call_index: usize,
    provider_turns: u32,
    correlation_id: &str,
    candidate: &AiNativeApprovalCandidateRecord,
    lease_session_id: u128,
) -> (r: Result<(), AiError>)
    requires
        provider_turns >= 1,
    ensures
        !(preview_resources_ok(*preview, binding.resources@, binding.preview_hash@)
            && binding_fields_present(*binding)) ==> (r matches Err(e) && e is InvalidConfiguration),
        preview_resources_ok(*preview, binding.resources@, binding.preview_hash@)
            && binding_fields_present(*binding) ==> (r is Ok <==> native_preparation_ok(
            *binding,
            *preview,
            *context,
            write_maturity,
            *scope,
            pending_call_index,
            provider_turns,
            correlation_id@,
            *candidate,
            lease_session_id,
        )),
        preview_resources_ok(*preview, binding.resources@, binding.preview_hash@)
            && binding_fields_present(*binding) && r is Err ==> (r matches Err(e) && e is Conflict),
{
    binding.validate(preview)?;
    if !context.scope.same_as(scope) || context.tool_call_index != pending_call_index
        || context.provider_turn_index != provider_turns - 1 || !same_text(
        context.correlation_id.as_str(),
        correlation_id,
    ) || binding.tool_call_id != candidate.id || binding.session_id != lease_session_id
        || !same_text(binding.stable_hash().as_str(), candidate.binding_hash.as_str())
        || !same_text(binding.preview_hash.as_str(), candidate.preview_hash.as_str())
        || !write_maturity {
        return Err(AiError::Conflict);
    }
    Ok(())
}

/// The approval-pending control receipt is for the candidate call at the
/// pending position, in the state its lifecycle allows (`approval_prepared`
/// for a prepared candidate, `waiting_approval` for a finalized one, a
/// finished state once completed), for the envelope's arguments and tool,
/// with the candidate's control manifest.
pub open spec fn native_pending_control_ok(
    index: int,
    pending: int,
    call: AiToolCallRecord,
    candidate: AiNativeApprovalCandidateRecord,
    candidate_state: Seq<char>,
    completed: bool,
    binding: AiApprovalBinding,
    manifest_hash: Seq<char>,
) -> bool {
    &&& index == pending
    &&& call.id == candidate.id
    &&& (!completed ==> (candidate_state == "prepared"@ && call.state@ == "approval_prepared"@)
        || (candidate_state == "finalized"@ && call.state@ == "waiting_approval"@))
    &&& (completed ==> call.state@ == "completed"@ || call.state@ == "execution_failed"@)
    &&& call.argument_hash@ == binding.argument_hash@
    &&& call.tool_fingerprint@ == binding.tool_fingerprint@
    &&& some_text(candidate.control_egress_manifest_hash, manifest_hash)
}

/// Checks the approval-pending control receipt of a native turn.
pub fn validate_native_pending_control(
    index: usize,
    pending: usize,
    call: &AiToolCallRecord,
    candidate: &AiNativeApprovalCandidateRecord,
    candidate_state: &str,
    completed: bool,
    binding: &AiApprovalBinding,
    manifest_hash: &str,
) -> (r: Result<(), AiError>)
    ensures
        r is Ok <==> native_pending_control_ok(
            index as int,
            pending as int,
            *call,
            *candidate,
            candidate_state@,
            completed,
            *binding,
            manifest_hash@,
        ),
        r matches Err(e) ==> e is Conflict,
{
    let waiting = (same_text(candidate_state, "prepared") && same_text(
        call.state.as_str(),
        "approval_prepared",
    )) || (same_text(candidate_state, "finalized") && same_text(
        call.state.as_str(),
        "waiting_approval",
    ));
    let finished = same_text(call.state.as_str(), "completed") || same_text(
        call.state.as_str(),
        "execution_failed",
    );
    if index != pending || call.id != candidate.id || (!completed && !waiting) || (completed
        && !finished) || !same_text(call.argument_hash.as_str(), binding.argument_hash.as_str())
        || !same_text(call.tool_fingerprint.as_str(), binding.tool_fingerprint.as_str())
        || !some_text_equals(&candidate.control_egress_manifest_hash, manifest_hash) {
        return Err(AiError::Conflict);
    }
    Ok(())
}

/// A consequential call paused behind the pending approval: after the
/// pending position, blocked by the control, finished, and without approval.
pub open spec fn native_paused_control_ok(
    index: int,
    pending: int,
    call: AiToolCallRecord,
    step_finished: bool,
) -> bool {
    &&& index > pending
    &&& call.state@ == "control_blocked"@
    &&& call.completed_at is Some
    &&& step_finished
    &&& call.approval_id is None
}

/// Checks a consequential call paused behind the pending approval.
pub fn validate_native_paused_control(
    index: usize,
    pending: usize,
    call: &AiToolCallRecord,
    step_finished: bool,
) -> (r: Result<(), AiError>)
    ensures
        r is Ok <==> native_paused_control_ok(index as int, pending as int, *call, step_finished),
        r matches Err(e) ==> e is Conflict,
{
    if index <= pending || !same_text(call.state.as_str(), "control_blocked")
        || call.completed_at.is_none() || !step_finished || call.approval_id.is_some() {
        return Err(AiError::Conflict);
    }
    Ok(())
}

/// The durable row of one run checkpoint, as adoption reads it.
#[derive(Clone, Debug)]
pub struct NativeCheckpointRow {
    /// Checkpoint identifier.
    pub id: u128,
    /// Provider execution attempt.
    pub attempt_id: u128,
    /// Lease generation.
    pub lease_generation: i64,
    /// Provider response, if any.
    pub provider_response_id: Option<String>,
    /// Budget reservation, if any.
    pub budget_reservation_id: Option<u128>,
    /// Fingerprint of the protected checkpoint.
    pub checkpoint_hash: String,
}

/// The provider turn a validated source proves is the one its checkpoint row
/// recorded, and the candidate was finalized into this approval.
pub open spec fn native_source_row_ok(
    provider: NativeProviderTurn,
    row: NativeCheckpointRow,
    candidate: AiNativeApprovalCandidateRecord,
    approval_id: u128,
) -> bool {
    &&& provider.attempt_id == row.attempt_id
    &&& provider.lease_generation == row.lease_generation
    &&& row.budget_reservation_id == Some(provider.budget_reservation_id)
    &&& same_optional_text(provider.provider_response_id, row.provider_response_id)
    &&& candidate.final_approval_id == Some(approval_id)
}

/// Checks that a validated native source is the one its checkpoint row
/// recorded, finalized into the given approval.
pub fn validate_native_source_row(
    provider: &NativeProviderTurn,
    row: &NativeCheckpointRow,
    candidate: &AiNativeApprovalCandidateRecord,
    approval_id: u128,
) -> (r: Result<(), AiError>)
    ensures
        r is Ok <==> native_source_row_ok(*provider, *row, *candidate, approval_id),
        r matches Err(e) ==> e is Conflict,
{
    if provider.attempt_id != row.attempt_id || provider.lease_generation != row.lease_generation
        || row.budget_reservation_id != Some(provider.budget_reservation_id)
        || !optional_text_equal(&provider.provider_response_id, &row.provider_response_id)
        || candidate.final_approval_id != Some(approval_id) {
        return Err(AiError::Conflict);
    }
    Ok(())
}

/// The parked approval wait of a native turn.
#[derive(Clone, Debug)]
pub struct NativeParkedWait {
    /// Format version.
    pub format_version: u8,
    /// Wait kind.
    pub kind: String,
    /// Approval awaited.
    pub approval_id: u128,
    /// Tool call awaiting it.
    pub tool_call_id: u128,
    /// Source checkpoint of the native turn.
    pub source_checkpoint_id: u128,
    /// Fingerprint of that source checkpoint.
    pub source_checkpoint_fingerprint: String,
    /// Retained provider-session binding parked for the wait.
    pub provider_session_binding_id: u128,
    /// Park generation of that binding.
    pub provider_session_park_generation: i64,
    /// Fingerprint of the parked continuation.
    pub provider_session_continuation_fingerprint: String,
}

/// The parked wait is the approval wait of the claimed approval and call,
/// recorded after exactly this source checkpoint in the same provider turn,
/// and the claim re-leased the run once under a new attempt.
pub open spec fn native_parked_wait_ok(
    parked: NativeParkedWait,
    claim_approval_id: u128,
    claim_tool_call_id: u128,
    parked_row: NativeCheckpointRow,
    source_row: NativeCheckpointRow,
    lease_generation: i64,
    lease_attempt_id: u128,
) -> bool {
    &&& parked.format_version == 1
    &&& parked.kind@ == "approval_wait_parked"@
    &&& parked.approval_id == claim_approval_id
    &&& parked.tool_call_id == claim_tool_call_id
    &&& parked.source_checkpoint_fingerprint@ == source_row.checkpoint_hash@
    &&& parked_row.attempt_id == source_row.attempt_id
    &&& parked_row.lease_generation == source_row.lease_generation
    &&& same_optional_text(parked_row.provider_response_id, source_row.provider_response_id)
    &&& parked_row.budget_reservation_id == source_row.budget_reservation_id
    &&& source_row.lease_generation + 1 == lease_generation
    &&& source_row.attempt_id != lease_attempt_id
}

/// Checks the parked approval wait an approved claim resumes.
pub fn validate_native_parked_wait(
    parked: &NativeParkedWait,
    claim_approval_id: u128,
    claim_tool_call_id: u128,
    parked_row: &NativeCheckpointRow,
    source_row: &NativeCheckpointRow,
    lease_generation: i64,
    lease_attempt_id: u128,
) -> (r: Result<(), AiError>)
    ensures
        r is Ok <==> native_parked_wait_ok(
            *parked,
            claim_approval_id,
            claim_tool_call_id,
            *parked_row,
            *source_row,
            lease_generation,
            lease_attempt_id,
        ),
        r matches Err(e) ==> e is Conflict,
{
    let next_generation = source_row.lease_generation < i64::MAX && source_row.lease_generation + 1
        == lease_generation;
    if parked.format_version != 1 || !same_text(parked.kind.as_str(), "approval_wait_parked")
        || parked.approval_id != claim_approval_id || parked.tool_call_id != claim_tool_call_id
        || !same_text(
        parked.source_checkpoint_fingerprint.as_str(),
        source_row.checkpoint_hash.as_str(),
    ) || parked_row.attempt_id != source_row.attempt_id || parked_row.lease_generation
        != source_row.lease_generation || !optional_text_equal(
        &parked_row.provider_response_id,
        &source_row.provider_response_id,
    ) || parked_row.budget_reservation_id != source_row.budget_reservation_id || !next_generation
        || source_row.attempt_id == lease_attempt_id {
        return Err(AiError::Conflict);
    }
    Ok(())
}

/// The durable retained provider-session binding parked for a wait.
#[derive(Clone, Debug)]
pub struct ParkedSessionBinding {
    /// Owning session.
    pub session_id: u128,
    /// Run that claimed the binding.
    pub claimed_run_id: Option<u128>,
    /// Binding state.
    pub state: String,
    /// Kind of the parked wait.
    pub parked_wait_kind: Option<String>,
    /// Identifier of the parked wait.
    pub parked_wait_id: Option<u128>,
    /// Park generation.
    pub park_generation: i64,
    /// Source checkpoint of the parked turn.
    pub parked_source_checkpoint_id: Option<u128>,
    /// Fingerprint of that source checkpoint.
    pub parked_source_checkpoint_fingerprint: Option<String>,
    /// Parked checkpoint.
    pub parked_checkpoint_id: Option<u128>,
    /// Fingerprint of the parked checkpoint.
    pub parked_checkpoint_fingerprint: Option<String>,
    /// Fingerprint of the parked continuation.
    pub parked_continuation_fingerprint: Option<String>,
    /// When the provider confirmed the park (Unix seconds).
    pub parked_confirmed_at: Option<i64>,
    /// When the park expires (Unix seconds).
    pub parked_expires_at: Option<i64>,
}

/// The binding is parked, confirmed and unexpired at `now`, for exactly this
/// session, run, approval wait, park generation, checkpoints, and
/// continuation.
pub open spec fn parked_session_binding_ok(
    binding: ParkedSessionBinding,
    lease_session_id: u128,
    lease_run_id: u128,
    approval_id: u128,
    parked: NativeParkedWait,
    source_row: NativeCheckpointRow,
    parked_row: NativeCheckpointRow,
    now: i64,
) -> bool {
    &&& binding.session_id == lease_session_id
    &&& binding.claimed_run_id == Some(lease_run_id)
    &&& binding.state@ == "parked_wait"@
    &&& some_text(binding.parked_wait_kind, "approval"@)
    &&& binding.parked_wait_id == Some(approval_id)
    &&& binding.park_generation == parked.provider_session_park_generation
    &&& binding.parked_source_checkpoint_id == Some(source_row.id)
    &&& some_text(binding.parked_source_checkpoint_fingerprint, source_row.checkpoint_hash@)
    &&& binding.parked_checkpoint_id == Some(parked_row.id)
    &&& some_text(binding.parked_checkpoint_fingerprint, parked_row.checkpoint_hash@)
    &&& some_text(
        binding.parked_continuation_fingerprint,
        parked.provider_session_continuation_fingerprint@,
    )
    &&& binding.parked_confirmed_at is Some
    &&& binding.parked_expires_at matches Some(expiry) && expiry > now
}

/// Checks the retained provider-session binding parked for an approval wait.
pub fn validate_parked_session_binding(
    binding: &ParkedSessionBinding,
    lease_session_id: u128,
    lease_run_id: u128,
    approval_id: u128,
    parked: &NativeParkedWait,
    source_row: &NativeCheckpointRow,
    parked_row: &NativeCheckpointRow,
    now: i64,
) -> (r: Result<(), AiError>)
    ensures
        r is Ok <==> parked_session_binding_ok(
            *binding,
            lease_session_id,
            lease_run_id,
            approval_id,
            *parked,
            *source_row,
            *parked_row,
            now,
        ),
        r matches Err(e) ==> e is Conflict,
{
    let unexpired = match binding.parked_expires_at {
        Some(expiry) => expiry > now,
        None => false,
    };
    if binding.session_id != lease_session_id || binding.claimed_run_id != Some(lease_run_id)
        || !same_text(binding.state.as_str(), "parked_wait") || !some_text_equals(
        &binding.parked_wait_kind,
        "approval",
    ) || binding.parked_wait_id != Some(approval_id) || binding.park_generation
        != parked.provider_session_park_generation || binding.parked_source_checkpoint_id
        != Some(source_row.id) || !some_text_equals(
        &binding.parked_source_checkpoint_fingerprint,
        source_row.checkpoint_hash.as_str(),
    ) || binding.parked_checkpoint_id != Some(parked_row.id) || !some_text_equals(
        &binding.parked_checkpoint_fingerprint,
        parked_row.checkpoint_hash.as_str(),
    ) || !some_text_equals(
        &binding.parked_continuation_fingerprint,
        parked.provider_session_continuation_fingerprint.as_str(),
    ) || binding.parked_confirmed_at.is_none() || !unexpired {
        return Err(AiError::Conflict);
    }
    Ok(())
}

/// The approval is claimed for resumption and not yet consumed or expired at
/// `now`, and its call has neither completed nor stored a result.
pub open spec fn resume_claim_ok(
    approval: AiApprovalRecord,
    call: AiToolCallRecord,
    result_stored: bool,
    now: i64,
) -> bool {
    &&& approval.state@ == "resume_claimed"@
    &&& approval.consumed_uses == 0
    &&& approval.consumed_at is None
    &&& approval.expires_at > now
    &&& call.completed_at is None
    &&& !result_stored
}

/// Checks that an approved claim may resume its native call exactly once.
pub fn validate_native_resume_claim(
    approval: &AiApprovalRecord,
    call: &AiToolCallRecord,
    result_stored: bool,
    now: i64,
) -> (r: Result<(), AiError>)
    ensures
        r is Ok <==> resume_claim_ok(*approval, *call, result_stored, now),
        r matches Err(e) ==> e is Conflict,
{
    if !same_text(approval.state.as_str(), "resume_claimed") || approval.consumed_uses != 0
        || approval.consumed_at.is_some() || approval.expires_at <= now || call.completed_at.is_some()
        || result_stored {
        return Err(AiError::Conflict);
    }
    Ok(())
}

/// The checkpoint kind of a native approval source checkpoint.
pub const NATIVE_SOURCE_KIND: &'static str = "native_approval_provider_turn_persisted";

/// The header of a native approval source checkpoint.
#[derive(Clone, Debug)]
pub struct NativeSourceHeader {
    /// Format version.
    pub format_version: u8,
    /// Checkpoint kind.
    pub checkpoint_kind: String,
    /// Provider turns of the run so far.
    pub provider_turns: u32,
    /// Tool calls of the run so far.
    pub total_tool_calls: u32,
    /// Whether the correlation identifier is a valid reference under the
    /// host's reference rule.
    pub correlation_reference_valid: bool,
    /// Fingerprint of the resolved rules.
    pub rule_fingerprint: String,
    /// Provider calls counted by the rule usage.
    pub rule_provider_calls: u64,
    /// Steps counted by the rule usage.
    pub rule_steps: u64,
    /// Recorded callback outcomes.
    pub outcome_count: usize,
    /// Position of the pending call among the outcomes.
    pub pending_call_index: usize,
}

/// The header of the provider result snapshot held by a native source
/// checkpoint.
#[derive(Clone, Debug)]
pub struct NativeProviderResultHeader {
    /// Snapshot format version.
    pub format_version: u32,
    /// Session of the turn.
    pub session_id: u128,
    /// Run of the turn.
    pub run_id: u128,
    /// Provider execution attempt of the turn.
    pub attempt_id: u128,
    /// Lease generation of the turn.
    pub lease_generation: i64,
    /// Tool calls the provider requested.
    pub tool_call_count: usize,
    /// Whether the provider response identifier is a valid reference under
    /// the host's reference rule; `None` when the snapshot has none.
    pub response_reference_valid: Option<bool>,
}

/// The source header is a native approval source of this format for the
/// leased session and run: at least one provider turn, a valid correlation
/// reference, a 64-byte rule fingerprint, between 1 and 256 outcomes, one per
/// requested tool call, the pending call among them, run totals that count
/// them, rule usage that matches the totals, a provider turn of this lease
/// (of exactly this attempt and generation while the candidate is only
/// prepared), a snapshot format of 1 or 2, and a valid response reference.
pub open spec fn native_source_header_ok(
    source: NativeSourceHeader,
    provider: NativeProviderResultHeader,
    lease_session_id: u128,
    lease_run_id: u128,
    lease_attempt_id: u128,
    lease_generation: i64,
    candidate_prepared: bool,
) -> bool {
    &&& source.format_version == 1
    &&& source.checkpoint_kind@ == NATIVE_SOURCE_KIND@
    &&& source.provider_turns > 0
    &&& source.correlation_reference_valid
    &&& byte_len(source.rule_fingerprint@) == 64
    &&& 1 <= source.outcome_count <= 256
    &&& source.outcome_count == provider.tool_call_count
    &&& source.pending_call_index < source.outcome_count
    &&& source.total_tool_calls >= source.outcome_count
    &&& source.rule_provider_calls == source.provider_turns
    &&& source.rule_steps == source.provider_turns + source.total_tool_calls
    &&& provider.session_id == lease_session_id
    &&& provider.run_id == lease_run_id
    &&& 0 < provider.lease_generation <= lease_generation
    &&& (candidate_prepared ==> provider.attempt_id == lease_attempt_id
        && provider.lease_generation == lease_generation)
    &&& 1 <= provider.format_version <= 2
    &&& provider.response_reference_valid == Some(true)
}

/// Checks the header of a native approval source checkpoint against its
/// provider result snapshot and the current lease. Anything else is a
/// conflict.
pub fn validate_native_source_header(
    source: &NativeSourceHeader,
    provider: &NativeProviderResultHeader,
    lease_session_id: u128,
    lease_run_id: u128,
    lease_attempt_id: u128,
    lease_generation: i64,
    candidate_prepared: bool,
) -> (r: Result<(), AiError>)
    ensures
        r is Ok <==> native_source_header_ok(
            *source,
            *provider,
            lease_session_id,
            lease_run_id,
            lease_attempt_id,
            lease_generation,
            candidate_prepared,
        ),
        r matches Err(e) ==> e is Conflict,
{
    let response_ok = match provider.response_reference_valid {
        Some(valid) => valid,
        None => false,
    };
    if source.format_version != 1 || !same_text(source.checkpoint_kind.as_str(), NATIVE_SOURCE_KIND)
        || source.provider_turns == 0 || !source.correlation_reference_valid || utf8_len(
        source.rule_fingerprint.as_str(),
    ) != 64 || source.outcome_count == 0 || source.outcome_count > 256 || source.outcome_count
        != provider.tool_call_count || source.pending_call_index >= source.outcome_count
        || (source.total_tool_calls as usize) < source.outcome_count || source.rule_provider_calls
        != source.provider_turns as u64 || source.rule_steps != source.provider_turns as u64
        + source.total_tool_calls as u64 || provider.session_id != lease_session_id
        || provider.run_id != lease_run_id || provider.lease_generation <= 0
        || provider.lease_generation > lease_generation || (candidate_prepared && (
    provider.attempt_id != lease_attempt_id || provider.lease_generation != lease_generation))
        || provider.format_version < 1 || provider.format_version > 2 || !response_ok {
        return Err(AiError::Conflict);
    }
    Ok(())
}

/// One recorded outcome agrees with the call the provider requested at its
/// position: outcome format 1, a callback that is a valid reference, a
/// 64-byte tool fingerprint, and a tool-result input block for exactly that
/// callback and tool.
pub open spec fn native_outcome_snapshot_ok(
    format_version: u8,
    requested: ProviderToolSnapshot,
    call_reference_valid: bool,
    tool_result: Option<(String, String)>,
) -> bool {
    &&& format_version == 1
    &&& call_reference_valid
    &&& byte_len(requested.tool_fingerprint@) == 64
    &&& match tool_result {
        Some(block) => block.0@ == requested.call_id@ && block.1@ == requested.tool_id@,
        None => false,
    }
}

/// Checks one recorded outcome of a native source against the call the
/// provider requested at its position. `call_reference_valid` is whether the
/// callback is a valid reference under the host's reference rule, and
/// `tool_result` the callback and tool of the outcome's input block, or
/// `None` when that block is not a tool result. Anything else is a conflict.
pub fn validate_native_outcome_snapshot(
    format_version: u8,
    requested: &ProviderToolSnapshot,
    call_reference_valid: bool,
    tool_result: &Option<(String, String)>,
) -> (r: Result<(), AiError>)
    ensures
        r is Ok <==> native_outcome_snapshot_ok(
            format_version,
            *requested,
            call_reference_valid,
            *tool_result,
        ),
        r matches Err(e) ==> e is Conflict,
{
    if format_version != 1 || !call_reference_valid || utf8_len(requested.tool_fingerprint.as_str())
        != 64 {
        return Err(AiError::Conflict);
    }
    match tool_result {
        Some(block) => {
            if !same_text(block.0.as_str(), requested.call_id.as_str()) || !same_text(
                block.1.as_str(),
                requested.tool_id.as_str(),
            ) {
                return Err(AiError::Conflict);
            }
            Ok(())
        },
        None => Err(AiError::Conflict),
    }
}

} // verus!
