//! Authenticated application GraphQL execution targets and contracts.

use vstd::prelude::*;

use crate::approvals::{binding_hash, AiApprovalBinding};
use crate::error::ToolExecutionError;
use crate::native::ProviderToolSnapshot;
use crate::scope::{opt_text, AiScope};
use crate::text::{blank, is_blank, same_text};

verus! {

/// Deployment trust/routing class for authenticated GraphQL execution.
#[derive(Clone, Copy, Debug, PartialEq, Eq, Structural)]
pub enum GraphqlExecutionTargetClass {
    /// Finished schema executing in the current process.
    Local,
    /// Private routed/composed GraphQL endpoint.
    PrivateRouted,
    /// Private direct service endpoint, disabled unless explicitly registered.
    PrivateDirect,
}

/// Non-secret deployment registration for one logical GraphQL destination.
#[derive(Clone, Debug)]
pub struct GraphqlExecutionTarget {
    /// Stable logical ID used by server-owned tool descriptors.
    pub id: String,
    /// Local/routed/direct trust class.
    pub class: GraphqlExecutionTargetClass,
    /// Credential audience required for a remote target.
    pub audience: Option<String>,
    /// Resource type required for a remote target.
    pub resource_type: Option<String>,
    /// Resource identifier required for a remote target.
    pub resource_id: Option<String>,
    /// Exact compiled or registry schema fingerprint.
    pub schema_fingerprint: String,
}

/// A present, non-empty optional value.
pub open spec fn present(value: Option<String>) -> bool {
    match value {
        Some(v) => v@.len() > 0,
        None => false,
    }
}

/// A target with a schema fingerprint whose remote classes carry an
/// audience and resource binding.
pub open spec fn target_valid(t: GraphqlExecutionTarget) -> bool {
    &&& !is_blank(t.schema_fingerprint@)
    &&& t.class != GraphqlExecutionTargetClass::Local ==> present(t.audience) && present(
        t.resource_type,
    ) && present(t.resource_id)
}

fn is_present(value: &Option<String>) -> (r: bool)
    ensures
        r == present(*value),
{
    match value {
        Some(v) => v.as_str().unicode_len() != 0,
        None => false,
    }
}

impl GraphqlExecutionTarget {
    /// Validates a logical target without accepting or exposing a URL.
    pub fn validate(&self) -> (r: Result<(), ToolExecutionError>)
        ensures
            r is Ok <==> target_valid(*self),
            r matches Err(e) ==> e == ToolExecutionError::InvalidTarget,
    {
        if blank(self.schema_fingerprint.as_str()) {
            return Err(ToolExecutionError::InvalidTarget);
        }
        if self.class != GraphqlExecutionTargetClass::Local && (!is_present(&self.audience)
            || !is_present(&self.resource_type) || !is_present(&self.resource_id)) {
            return Err(ToolExecutionError::InvalidTarget);
        }
        Ok(())
    }
}

/// Exact target/schema/document/projection/disclosure binding of one
/// server-authored GraphQL operation.
#[derive(Clone, Debug)]
pub struct GraphqlOperationContract {
    /// Registered logical execution target.
    pub target_id: String,
    /// Exact target schema fingerprint.
    pub schema_fingerprint: String,
    /// Operation name.
    pub operation_name: String,
    /// Stable hash of the operation document.
    pub document_hash: String,
    /// Result projection fingerprint.
    pub result_projection_fingerprint: String,
    /// Disclosure schema fingerprint.
    pub disclosure_schema_fingerprint: String,
}

/// Immutable deployment registry for logical GraphQL execution targets.
#[derive(Clone, Debug)]
pub struct GraphqlExecutionTargetRegistry {
    targets: Vec<GraphqlExecutionTarget>,
}

/// No two registered targets share an identifier.
pub open spec fn distinct_target_ids(s: Seq<GraphqlExecutionTarget>) -> bool {
    forall|i: int, j: int|
        0 <= i < s.len() && 0 <= j < s.len() && i != j ==> #[trigger] s[i].id@ != #[trigger] s[j].id@
}

/// The registered targets keyed by identifier.
pub open spec fn targets_by_id(s: Seq<GraphqlExecutionTarget>) -> Map<
    Seq<char>,
    GraphqlExecutionTarget,
>
    decreases s.len(),
{
    if s.len() == 0 {
        Map::empty()
    } else {
        targets_by_id(s.drop_last()).insert(s.last().id@, s.last())
    }
}

proof fn lemma_targets_by_id(s: Seq<GraphqlExecutionTarget>)
    requires
        distinct_target_ids(s),
    ensures
        forall|k: Seq<char>|
            targets_by_id(s).contains_key(k) <==> exists|i: int| 0 <= i < s.len() && #[trigger] s[i].id@ == k,
        forall|i: int| 0 <= i < s.len() ==> targets_by_id(s)[#[trigger] s[i].id@] == s[i],
    decreases s.len(),
{
    if s.len() > 0 {
        let p = s.drop_last();
        assert(distinct_target_ids(p)) by {
            assert forall|i: int, j: int|
                0 <= i < p.len() && 0 <= j < p.len() && i != j implies #[trigger] p[i].id@
                != #[trigger] p[j].id@ by {
                assert(p[i] == s[i]);
                assert(p[j] == s[j]);
            }
        }
        lemma_targets_by_id(p);
        assert forall|k: Seq<char>|
            targets_by_id(s).contains_key(k) <==> exists|i: int| 0 <= i < s.len() && #[trigger] s[i].id@ == k by {
            if exists|i: int| 0 <= i < s.len() && #[trigger] s[i].id@ == k {
                let i = choose|i: int| 0 <= i < s.len() && #[trigger] s[i].id@ == k;
                if i < s.len() - 1 {
                    assert(p[i].id@ == k);
                }
            }
            if targets_by_id(p).contains_key(k) {
                let i = choose|i: int| 0 <= i < p.len() && #[trigger] p[i].id@ == k;
                assert(s[i].id@ == k);
            }
        }
        assert forall|i: int| 0 <= i < s.len() implies targets_by_id(s)[#[trigger] s[i].id@] == s[i] by {
            if i < s.len() - 1 {
                assert(p[i] == s[i]);
                assert(s[i].id@ != s.last().id@);
            }
        }
    }
}

impl View for GraphqlExecutionTargetRegistry {
    type V = Map<Seq<char>, GraphqlExecutionTarget>;

    closed spec fn view(&self) -> Map<Seq<char>, GraphqlExecutionTarget> {
        targets_by_id(self.targets@)
    }
}

impl GraphqlExecutionTargetRegistry {
    /// The registry's own invariant: identifiers are distinct.
    pub closed spec fn wf(&self) -> bool {
        distinct_target_ids(self.targets@)
    }

    /// Creates an empty registry. No target is implicitly trusted.
    pub fn new() -> (r: Self)
        ensures
            r.wf(),
            r@ == Map::<Seq<char>, GraphqlExecutionTarget>::empty(),
    {
        GraphqlExecutionTargetRegistry { targets: Vec::new() }
    }

    fn position(&self, id: &str) -> (r: Option<usize>)
        requires
            self.wf(),
        ensures
            match r {
                Some(i) => i < self.targets@.len() && self.targets@[i as int].id@ == id@,
                None => forall|i: int| 0 <= i < self.targets@.len() ==> #[trigger] self.targets@[i].id@ != id@,
            },
    {
        let mut i: usize = 0;
        while i < self.targets.len()
            invariant
                i <= self.targets@.len(),
                forall|k: int| 0 <= k < i ==> #[trigger] self.targets@[k].id@ != id@,
            decreases self.targets@.len() - i,
        {
            if same_text(self.targets[i].id.as_str(), id) {
                return Some(i);
            }
            i = i + 1;
        }
        None
    }

    /// Registers one validated logical target; an invalid target or an
    /// identifier that is already registered is refused.
    pub fn register(&mut self, target: GraphqlExecutionTarget) -> (r: Result<(), ToolExecutionError>)
        requires
            old(self).wf(),
        ensures
            final(self).wf(),
            r is Ok <==> target_valid(target) && !old(self)@.contains_key(target.id@),
            r is Ok ==> final(self)@ == old(self)@.insert(target.id@, target),
            r is Err ==> final(self)@ == old(self)@,
            r matches Err(e) ==> e == ToolExecutionError::InvalidTarget,
    {
        proof {
            lemma_targets_by_id(self.targets@);
        }
        target.validate()?;
        if self.position(target.id.as_str()).is_some() {
            return Err(ToolExecutionError::InvalidTarget);
        }
        let ghost before = self.targets@;
        self.targets.push(target);
        proof {
            assert(self.targets@.drop_last() =~= before);
            assert(distinct_target_ids(self.targets@)) by {
                assert forall|i: int, j: int|
                    0 <= i < self.targets@.len() && 0 <= j < self.targets@.len() && i != j implies #[trigger] self.targets@[i].id@
                    != #[trigger] self.targets@[j].id@ by {
                    if i < before.len() && j < before.len() {
                        assert(self.targets@[i] == before[i]);
                        assert(self.targets@[j] == before[j]);
                    } else if i < before.len() {
                        assert(self.targets@[i] == before[i]);
                    } else {
                        assert(self.targets@[j] == before[j]);
                    }
                }
            }
        }
        Ok(())
    }

    /// Resolves a logical target without making its destination model-visible.
    pub fn target(&self, id: &str) -> (r: Option<&GraphqlExecutionTarget>)
        requires
            self.wf(),
        ensures
            match r {
                Some(t) => self@.contains_key(id@) && *t == self@[id@],
                None => !self@.contains_key(id@),
            },
    {
        proof {
            lemma_targets_by_id(self.targets@);
        }
        match self.position(id) {
            Some(i) => Some(&self.targets[i]),
            None => None,
        }
    }

    /// Checks an operation contract against the registered target: the
    /// schema fingerprint and document hash must match and every name and
    /// fingerprint must be present.
    pub fn validate_contract(
        &self,
        contract: &GraphqlOperationContract,
        document_hash: &str,
    ) -> (r: Result<&GraphqlExecutionTarget, ToolExecutionError>)
        requires
            self.wf(),
        ensures
            !self@.contains_key(contract.target_id@) ==> r == Err::<
                &GraphqlExecutionTarget,
                ToolExecutionError,
            >(ToolExecutionError::InvalidTarget),
            self@.contains_key(contract.target_id@) ==> match r {
                Ok(t) => *t == self@[contract.target_id@] && contract_current(*t, *contract, document_hash@),
                Err(e) => e == ToolExecutionError::StaleContract && !contract_current(
                    self@[contract.target_id@],
                    *contract,
                    document_hash@,
                ),
            },
    {
        let target = match self.target(contract.target_id.as_str()) {
            Some(t) => t,
            None => return Err(ToolExecutionError::InvalidTarget),
        };
        if target.schema_fingerprint != contract.schema_fingerprint || !same_text(
            contract.document_hash.as_str(),
            document_hash,
        ) || blank(contract.operation_name.as_str()) || blank(
            contract.result_projection_fingerprint.as_str(),
        ) || blank(contract.disclosure_schema_fingerprint.as_str()) {
            return Err(ToolExecutionError::StaleContract);
        }
        Ok(target)
    }
}

/// A contract that still matches its registered target and document.
pub open spec fn contract_current(
    target: GraphqlExecutionTarget,
    contract: GraphqlOperationContract,
    document_hash: Seq<char>,
) -> bool {
    &&& target.schema_fingerprint@ == contract.schema_fingerprint@
    &&& contract.document_hash@ == document_hash
    &&& !is_blank(contract.operation_name@)
    &&& !is_blank(contract.result_projection_fingerprint@)
    &&& !is_blank(contract.disclosure_schema_fingerprint@)
}

/// Invocation metadata linked into the host's normal audit context.
#[derive(Clone, Debug)]
pub struct GraphqlInvocationContext {
    /// Run causing the operation.
    pub run_id: u128,
    /// Tool call causing the operation.
    pub tool_call_id: u128,
    /// Application scope in which tool policy and resolver authorization run.
    pub scope: AiScope,
    /// Correlation identifier shared with the outer AI audit.
    pub correlation_id: String,
    /// Causal command/event identifier propagated into application audit.
    pub causation_id: String,
    /// Safe delegation/grant reference; never a bearer credential.
    pub delegation_reference: Option<String>,
    /// Optional idempotency key for a descriptor proven idempotent.
    pub idempotency_key: Option<String>,
}

/// Closed origin of a crate-authored registered tool execution binding.
#[derive(Clone, Copy, Debug, PartialEq, Eq, Structural)]
pub enum AiRegisteredToolExecutionKind {
    /// Exact static descriptor admitted through ordinary host tool policy.
    StaticOperation,
    /// Exact generated query capability admitted by active target policy.
    GeneratedQuery,
    /// Exact generated mutation capability.
    GeneratedMutation,
}

/// The approval a tool-policy decision requires before execution.
#[derive(Clone, Copy, Debug, PartialEq, Eq, Structural)]
pub enum AiApprovalRule {
    /// No approval.
    NoApproval,
    /// One human approval, consumed once.
    OneShot,
}

/// What current host tool policy decided for one exact request.
#[derive(Clone, Debug)]
pub struct AiToolAuthorizationFacts {
    /// Every part of the decision allows the request.
    pub complete_allow: bool,
    /// The approval the decision requires.
    pub approval_requirement: AiApprovalRule,
    /// Policy version of the decision.
    pub policy_version: String,
    /// Safe digest of the authorization state.
    pub authorization_state_digest: String,
}

/// A direct execution is authorized: the decision allows the request
/// completely and requires no approval.
pub open spec fn direct_execution_allowed(facts: AiToolAuthorizationFacts) -> bool {
    facts.complete_allow && facts.approval_requirement == AiApprovalRule::NoApproval
}

/// An execution bound to a consumed approval is authorized: the decision
/// allows the request completely, under the policy version and state digest
/// the approval was bound to, and requires the approval that was consumed
/// when one is named.
pub open spec fn bound_execution_allowed(
    facts: AiToolAuthorizationFacts,
    expected_policy_version: Seq<char>,
    expected_authorization_state_digest: Seq<char>,
    required_approval: Option<AiApprovalRule>,
) -> bool {
    &&& facts.complete_allow
    &&& facts.policy_version@ == expected_policy_version
    &&& facts.authorization_state_digest@ == expected_authorization_state_digest
    &&& match required_approval {
        Some(required) => facts.approval_requirement == required,
        None => true,
    }
}

/// Checks a current decision before a direct execution.
pub fn authorize_direct_execution(facts: &AiToolAuthorizationFacts) -> (r: Result<(), ToolExecutionError>)
    ensures
        r is Ok <==> direct_execution_allowed(*facts),
        r is Err ==> r == Err::<(), ToolExecutionError>(ToolExecutionError::Authorization),
{
    if !facts.complete_allow || facts.approval_requirement != AiApprovalRule::NoApproval {
        return Err(ToolExecutionError::Authorization);
    }
    Ok(())
}

/// Checks a current decision before an execution bound to a consumed
/// approval.
pub fn authorize_bound_execution(
    facts: &AiToolAuthorizationFacts,
    expected_policy_version: &str,
    expected_authorization_state_digest: &str,
    required_approval: Option<AiApprovalRule>,
) -> (r: Result<(), ToolExecutionError>)
    ensures
        r is Ok <==> bound_execution_allowed(
            *facts,
            expected_policy_version@,
            expected_authorization_state_digest@,
            required_approval,
        ),
        r is Err ==> r == Err::<(), ToolExecutionError>(ToolExecutionError::Authorization),
{
    let approval_ok = match required_approval {
        Some(required) => facts.approval_requirement == required,
        None => true,
    };
    if !facts.complete_allow || !same_text(facts.policy_version.as_str(), expected_policy_version)
        || !same_text(
        facts.authorization_state_digest.as_str(),
        expected_authorization_state_digest,
    ) || !approval_ok {
        return Err(ToolExecutionError::Authorization);
    }
    Ok(())
}

/// What an authenticated tool execution observed last.
#[derive(Debug)]
pub enum AiToolBridgeEvent {
    /// A request arrived with its operation name and its contract's.
    Requested { operation_name: String, contract_operation_name: String },
    /// The contract was checked against the registered target.
    ContractChecked(Result<(), ToolExecutionError>),
    /// The principal was rehydrated (`true`) or could not be.
    PrincipalResolved(bool),
    /// The current decision was checked.
    Authorized(Result<(), ToolExecutionError>),
    /// The canonical request context was built.
    ContextBuilt(Result<(), ToolExecutionError>),
}

/// What an authenticated tool execution does next.
#[derive(Clone, Copy, Debug, PartialEq, Eq, Structural)]
pub enum AiToolBridgeAction {
    /// Check the contract against the registered target.
    CheckContract,
    /// Rehydrate the principal.
    ResolvePrincipal,
    /// Ask current host policy and check its decision.
    Authorize,
    /// Build the canonical request context.
    BuildContext,
    /// Run the request.
    Execute,
    /// Stop with this error.
    Fail(ToolExecutionError),
}

/// The next action of an authenticated tool execution, in its fixed order:
/// operation name, contract, principal, policy, context, and only then the
/// resolver. Any failure stops it: a renamed operation is a stale contract,
/// a principal that cannot be rehydrated is a reauthorization failure, and
/// the other steps stop with their own error.
pub open spec fn tool_bridge_next(event: AiToolBridgeEvent) -> AiToolBridgeAction {
    match event {
        AiToolBridgeEvent::Requested { operation_name, contract_operation_name } => if operation_name@
            == contract_operation_name@ {
            AiToolBridgeAction::CheckContract
        } else {
            AiToolBridgeAction::Fail(ToolExecutionError::StaleContract)
        },
        AiToolBridgeEvent::ContractChecked(r) => match r {
            Ok(_) => AiToolBridgeAction::ResolvePrincipal,
            Err(e) => AiToolBridgeAction::Fail(e),
        },
        AiToolBridgeEvent::PrincipalResolved(resolved) => if resolved {
            AiToolBridgeAction::Authorize
        } else {
            AiToolBridgeAction::Fail(ToolExecutionError::Reauthorization)
        },
        AiToolBridgeEvent::Authorized(r) => match r {
            Ok(_) => AiToolBridgeAction::BuildContext,
            Err(e) => AiToolBridgeAction::Fail(e),
        },
        AiToolBridgeEvent::ContextBuilt(r) => match r {
            Ok(_) => AiToolBridgeAction::Execute,
            Err(e) => AiToolBridgeAction::Fail(e),
        },
    }
}

/// Decides the next action of an authenticated tool execution. Only a built
/// context leads to the resolver.
pub fn tool_bridge_step(event: &AiToolBridgeEvent) -> (r: AiToolBridgeAction)
    ensures
        r == tool_bridge_next(*event),
        r is Execute <==> *event matches AiToolBridgeEvent::ContextBuilt(Ok(_)),
{
    match event {
        AiToolBridgeEvent::Requested { operation_name, contract_operation_name } => {
            if same_text(operation_name.as_str(), contract_operation_name.as_str()) {
                AiToolBridgeAction::CheckContract
            } else {
                AiToolBridgeAction::Fail(ToolExecutionError::StaleContract)
            }
        },
        AiToolBridgeEvent::ContractChecked(r) => match r {
            Ok(_) => AiToolBridgeAction::ResolvePrincipal,
            Err(e) => AiToolBridgeAction::Fail(*e),
        },
        AiToolBridgeEvent::PrincipalResolved(resolved) => {
            if *resolved {
                AiToolBridgeAction::Authorize
            } else {
                AiToolBridgeAction::Fail(ToolExecutionError::Reauthorization)
            }
        },
        AiToolBridgeEvent::Authorized(r) => match r {
            Ok(_) => AiToolBridgeAction::BuildContext,
            Err(e) => AiToolBridgeAction::Fail(*e),
        },
        AiToolBridgeEvent::ContextBuilt(r) => match r {
            Ok(_) => AiToolBridgeAction::Execute,
            Err(e) => AiToolBridgeAction::Fail(*e),
        },
    }
}

/// The run lease a tool call executes under.
#[derive(Clone, Copy, Debug)]
pub struct AiToolLeaseFacts {
    /// Session.
    pub session_id: u128,
    /// Run.
    pub run_id: u128,
    /// Provider execution attempt.
    pub attempt_id: u128,
    /// Lease generation.
    pub lease_generation: i64,
}

/// The completed provider turn that requested a tool call.
#[derive(Clone, Debug)]
pub struct AiToolProviderTurnFacts {
    /// Session of the turn.
    pub session_id: u128,
    /// Run of the turn.
    pub run_id: u128,
    /// Provider execution attempt of the turn.
    pub attempt_id: u128,
    /// Lease generation of the turn.
    pub lease_generation: i64,
    /// Provider family.
    pub provider_kind: String,
    /// Provider model.
    pub provider_model: String,
    /// Provider profile of the authorized inference manifest.
    pub provider_profile_id: String,
    /// Provider response identifier, when available.
    pub provider_response_id: Option<String>,
    /// Budget reservation.
    pub budget_reservation_id: u128,
    /// Registration fingerprint of the claimed retained provider session.
    pub provider_registration_fingerprint: Option<String>,
    /// Tool calls the provider requested.
    pub tool_calls: Vec<ProviderToolSnapshot>,
}

/// The exact registered request about to execute.
#[derive(Clone, Debug)]
pub struct AiToolRequestFacts {
    /// Run of the invocation.
    pub run_id: u128,
    /// Durable tool call of the invocation.
    pub tool_call_id: u128,
    /// Canonical JSON text of the variables.
    pub variables: String,
    /// Canonical digest of the variables.
    pub argument_hash: String,
}

/// The facts of one tool execution's provenance.
pub struct AiToolExecutionProvenanceView {
    pub session_id: u128,
    pub run_id: u128,
    pub tool_call_id: u128,
    pub attempt_id: u128,
    pub lease_generation: i64,
    pub provider_kind: Seq<char>,
    pub provider_model: Seq<char>,
    pub provider_profile_id: Seq<char>,
    pub provider_call_id: Seq<char>,
    pub provider_response_id: Option<Seq<char>>,
    pub budget_reservation_id: u128,
    pub execution_selection: Option<(Seq<char>, Seq<char>)>,
    pub provider_registration_fingerprint: Option<Seq<char>>,
    pub tool_fingerprint: Seq<char>,
    pub argument_hash: Seq<char>,
    pub approval_id: Option<u128>,
    pub approval_binding_hash: Option<Seq<char>>,
    pub policy_version: Option<Seq<char>>,
    pub authorization_state_digest: Option<Seq<char>>,
}

/// Immutable provenance of one application tool execution: the exact run,
/// provider turn and call, tool contract, and, for approved execution, the
/// consumed approval.
#[derive(Clone, Debug)]
pub struct AiToolExecutionProvenance {
    session_id: u128,
    run_id: u128,
    tool_call_id: u128,
    attempt_id: u128,
    lease_generation: i64,
    provider_kind: String,
    provider_model: String,
    provider_profile_id: String,
    provider_call_id: String,
    provider_response_id: Option<String>,
    budget_reservation_id: u128,
    execution_selection: Option<(String, String)>,
    provider_registration_fingerprint: Option<String>,
    tool_fingerprint: String,
    argument_hash: String,
    approval_id: Option<u128>,
    approval_binding_hash: Option<String>,
    policy_version: Option<String>,
    authorization_state_digest: Option<String>,
}

/// The texts of a provider/model pair.
pub open spec fn pair_text(p: Option<(String, String)>) -> Option<(Seq<char>, Seq<char>)> {
    match p {
        Some(pair) => Some((pair.0@, pair.1@)),
        None => None,
    }
}

impl View for AiToolExecutionProvenance {
    type V = AiToolExecutionProvenanceView;

    closed spec fn view(&self) -> AiToolExecutionProvenanceView {
        AiToolExecutionProvenanceView {
            session_id: self.session_id,
            run_id: self.run_id,
            tool_call_id: self.tool_call_id,
            attempt_id: self.attempt_id,
            lease_generation: self.lease_generation,
            provider_kind: self.provider_kind@,
            provider_model: self.provider_model@,
            provider_profile_id: self.provider_profile_id@,
            provider_call_id: self.provider_call_id@,
            provider_response_id: opt_text(self.provider_response_id),
            budget_reservation_id: self.budget_reservation_id,
            execution_selection: pair_text(self.execution_selection),
            provider_registration_fingerprint: opt_text(self.provider_registration_fingerprint),
            tool_fingerprint: self.tool_fingerprint@,
            argument_hash: self.argument_hash@,
            approval_id: self.approval_id,
            approval_binding_hash: opt_text(self.approval_binding_hash),
            policy_version: opt_text(self.policy_version),
            authorization_state_digest: opt_text(self.authorization_state_digest),
        }
    }
}

/// The number of requested calls with this provider callback identifier.
pub open spec fn calls_with_id(calls: Seq<ProviderToolSnapshot>, call_id: Seq<char>) -> nat
    decreases calls.len(),
{
    if calls.len() == 0 {
        0
    } else {
        calls_with_id(calls.drop_last(), call_id) + if calls.last().call_id@ == call_id {
            1nat
        } else {
            0nat
        }
    }
}

/// The position of the first requested call with this identifier, or -1.
pub open spec fn first_call_with_id(calls: Seq<ProviderToolSnapshot>, call_id: Seq<char>) -> int
    decreases calls.len(),
{
    if calls.len() == 0 {
        -1
    } else {
        let earlier = first_call_with_id(calls.drop_last(), call_id);
        if earlier >= 0 {
            earlier
        } else if calls.last().call_id@ == call_id {
            calls.len() - 1
        } else {
            -1
        }
    }
}

/// A provenance may be minted: the provider turn is the lease's, the request
/// belongs to the lease's run, an admitted routing selection names the turn's
/// provider and model, and exactly one requested call has the callback
/// identifier, for this tool and fingerprint with exactly these variables.
pub open spec fn provenance_ok(
    lease: AiToolLeaseFacts,
    provider: AiToolProviderTurnFacts,
    provider_call_id: Seq<char>,
    tool_id: Seq<char>,
    tool_fingerprint: Seq<char>,
    request: AiToolRequestFacts,
    execution_selection: Option<(Seq<char>, Seq<char>)>,
) -> bool {
    let calls = provider.tool_calls@;
    let k = first_call_with_id(calls, provider_call_id);
    &&& provider.session_id == lease.session_id
    &&& provider.run_id == lease.run_id
    &&& provider.attempt_id == lease.attempt_id
    &&& provider.lease_generation == lease.lease_generation
    &&& request.run_id == lease.run_id
    &&& (execution_selection matches Some(sel) ==> sel.0 == provider.provider_kind@ && sel.1
        == provider.provider_model@)
    &&& calls_with_id(calls, provider_call_id) == 1
    &&& calls[k].tool_id@ == tool_id
    &&& calls[k].tool_fingerprint@ == tool_fingerprint
    &&& calls[k].arguments@ == request.variables@
}

/// The provenance minted for a call: the lease's identity, the turn's
/// provider facts, the request's call and variables digest, and no approval
/// or policy recomputation yet.
pub open spec fn minted_provenance(
    lease: AiToolLeaseFacts,
    provider: AiToolProviderTurnFacts,
    provider_call_id: Seq<char>,
    tool_fingerprint: Seq<char>,
    request: AiToolRequestFacts,
    execution_selection: Option<(Seq<char>, Seq<char>)>,
) -> AiToolExecutionProvenanceView {
    AiToolExecutionProvenanceView {
        session_id: lease.session_id,
        run_id: lease.run_id,
        tool_call_id: request.tool_call_id,
        attempt_id: lease.attempt_id,
        lease_generation: lease.lease_generation,
        provider_kind: provider.provider_kind@,
        provider_model: provider.provider_model@,
        provider_profile_id: provider.provider_profile_id@,
        provider_call_id: provider_call_id,
        provider_response_id: opt_text(provider.provider_response_id),
        budget_reservation_id: provider.budget_reservation_id,
        execution_selection: execution_selection,
        provider_registration_fingerprint: opt_text(provider.provider_registration_fingerprint),
        tool_fingerprint: tool_fingerprint,
        argument_hash: request.argument_hash@,
        approval_id: None,
        approval_binding_hash: None,
        policy_version: None,
        authorization_state_digest: None,
    }
}

fn copy_text(o: &Option<String>) -> (r: Option<String>)
    ensures
        opt_text(r) == opt_text(*o),
{
    match o {
        Some(t) => Some(t.clone()),
        None => None,
    }
}

proof fn lemma_call_count_step(calls: Seq<ProviderToolSnapshot>, call_id: Seq<char>, i: int)
    requires
        0 <= i < calls.len(),
    ensures
        calls_with_id(calls.subrange(0, i + 1), call_id) == calls_with_id(calls.subrange(0, i), call_id)
            + if calls[i].call_id@ == call_id {
            1nat
        } else {
            0nat
        },
        first_call_with_id(calls.subrange(0, i + 1), call_id) == if first_call_with_id(
            calls.subrange(0, i),
            call_id,
        ) >= 0 {
            first_call_with_id(calls.subrange(0, i), call_id)
        } else if calls[i].call_id@ == call_id {
            i
        } else {
            -1
        },
{
    let next = calls.subrange(0, i + 1);
    assert(next.drop_last() =~= calls.subrange(0, i));
}

proof fn lemma_first_call_bounds(calls: Seq<ProviderToolSnapshot>, call_id: Seq<char>)
    ensures
        calls_with_id(calls, call_id) > 0 ==> 0 <= first_call_with_id(calls, call_id) < calls.len()
            && calls[first_call_with_id(calls, call_id)].call_id@ == call_id,
        calls_with_id(calls, call_id) == 0 ==> first_call_with_id(calls, call_id) == -1,
    decreases calls.len(),
{
    if calls.len() > 0 {
        lemma_first_call_bounds(calls.drop_last(), call_id);
        let d = calls.drop_last();
        if calls_with_id(d, call_id) > 0 {
            assert(calls[first_call_with_id(d, call_id)] == d[first_call_with_id(d, call_id)]);
        }
    }
}

impl AiToolExecutionProvenance {
    /// Mints the provenance of one requested call, or refuses a stale
    /// contract: a provider turn of another lease, a request of another run,
    /// a routing selection for another provider or model, or a callback
    /// identifier that names no call, or more than one, or one for another
    /// tool, fingerprint or variables.
    pub fn from_provider_call(
        lease: &AiToolLeaseFacts,
        provider: &AiToolProviderTurnFacts,
        provider_call_id: &str,
        tool_id: &str,
        tool_fingerprint: &str,
        request: &AiToolRequestFacts,
        execution_selection: Option<(String, String)>,
    ) -> (r: Result<Self, ToolExecutionError>)
        ensures
            r is Ok <==> provenance_ok(
                *lease,
                *provider,
                provider_call_id@,
                tool_id@,
                tool_fingerprint@,
                *request,
                pair_text(execution_selection),
            ),
            r matches Ok(p) ==> p@ == minted_provenance(
                *lease,
                *provider,
                provider_call_id@,
                tool_fingerprint@,
                *request,
                pair_text(execution_selection),
            ),
            r matches Err(e) ==> e == ToolExecutionError::StaleContract,
    {
        let selection_ok = match &execution_selection {
            Some(sel) => same_text(sel.0.as_str(), provider.provider_kind.as_str()) && same_text(
                sel.1.as_str(),
                provider.provider_model.as_str(),
            ),
            None => true,
        };
        if provider.session_id != lease.session_id || provider.run_id != lease.run_id
            || provider.attempt_id != lease.attempt_id || provider.lease_generation
            != lease.lease_generation || request.run_id != lease.run_id || !selection_ok {
            return Err(ToolExecutionError::StaleContract);
        }
        let ghost calls = provider.tool_calls@;
        let mut count: usize = 0;
        let mut found: usize = 0;
        let mut i: usize = 0;
        proof {
            assert(calls.subrange(0, 0) =~= Seq::<ProviderToolSnapshot>::empty());
        }
        while i < provider.tool_calls.len()
            invariant
                calls == provider.tool_calls@,
                i <= calls.len(),
                count as nat == calls_with_id(calls.subrange(0, i as int), provider_call_id@),
                count <= i,
                count > 0 ==> found as int == first_call_with_id(
                    calls.subrange(0, i as int),
                    provider_call_id@,
                ),
                count == 0 ==> first_call_with_id(calls.subrange(0, i as int), provider_call_id@)
                    == -1,
            decreases calls.len() - i,
        {
            proof {
                lemma_call_count_step(calls, provider_call_id@, i as int);
                lemma_first_call_bounds(calls.subrange(0, i as int), provider_call_id@);
            }
            if same_text(provider.tool_calls[i].call_id.as_str(), provider_call_id) {
                if count == 0 {
                    found = i;
                }
                count = count + 1;
            }
            i = i + 1;
        }
        proof {
            assert(calls.subrange(0, calls.len() as int) =~= calls);
        }
        if count != 1 {
            return Err(ToolExecutionError::StaleContract);
        }
        proof {
            lemma_first_call_bounds(calls, provider_call_id@);
        }
        let call = &provider.tool_calls[found];
        if !same_text(call.tool_id.as_str(), tool_id) || !same_text(
            call.tool_fingerprint.as_str(),
            tool_fingerprint,
        ) || !same_text(call.arguments.as_str(), request.variables.as_str()) {
            return Err(ToolExecutionError::StaleContract);
        }
        let p = AiToolExecutionProvenance {
            session_id: lease.session_id,
            run_id: lease.run_id,
            tool_call_id: request.tool_call_id,
            attempt_id: lease.attempt_id,
            lease_generation: lease.lease_generation,
            provider_kind: provider.provider_kind.clone(),
            provider_model: provider.provider_model.clone(),
            provider_profile_id: provider.provider_profile_id.clone(),
            provider_call_id: call.call_id.clone(),
            provider_response_id: copy_text(&provider.provider_response_id),
            budget_reservation_id: provider.budget_reservation_id,
            execution_selection,
            provider_registration_fingerprint: copy_text(&provider.provider_registration_fingerprint),
            tool_fingerprint: tool_fingerprint.to_string(),
            argument_hash: request.argument_hash.clone(),
            approval_id: None,
            approval_binding_hash: None,
            policy_version: None,
            authorization_state_digest: None,
        };
        Ok(p)
    }

    /// Records the consumed approval the execution runs under, or refuses a
    /// stale contract: an approval whose envelope hash is not the stable hash
    /// of `binding`, or an envelope for another session, call, tool
    /// fingerprint or variables digest.
    pub fn with_consumed_approval(
        self,
        approval_id: u128,
        approval_binding_hash: &str,
        binding: &AiApprovalBinding,
    ) -> (r: Result<Self, ToolExecutionError>)
        ensures
            r is Ok <==> {
                &&& approval_binding_hash@ == binding_hash(*binding)
                &&& self@.session_id == binding.session_id
                &&& self@.tool_call_id == binding.tool_call_id
                &&& self@.tool_fingerprint == binding.tool_fingerprint@
                &&& self@.argument_hash == binding.argument_hash@
            },
            r matches Ok(p) ==> p@ == (AiToolExecutionProvenanceView {
                approval_id: Some(approval_id),
                approval_binding_hash: Some(approval_binding_hash@),
                ..self@
            }),
            r matches Err(e) ==> e == ToolExecutionError::StaleContract,
    {
        let expected = binding.stable_hash();
        if !same_text(approval_binding_hash, expected.as_str()) || self.session_id
            != binding.session_id || self.tool_call_id != binding.tool_call_id || !same_text(
            self.tool_fingerprint.as_str(),
            binding.tool_fingerprint.as_str(),
        ) || !same_text(self.argument_hash.as_str(), binding.argument_hash.as_str()) {
            return Err(ToolExecutionError::StaleContract);
        }
        let mut p = self;
        p.approval_id = Some(approval_id);
        p.approval_binding_hash = Some(approval_binding_hash.to_string());
        Ok(p)
    }

    /// Whether the provenance belongs to this exact request: same run and
    /// call, tool fingerprint and variables digest, and an approval identity
    /// exactly when an approval hash is recorded.
    pub fn matches_request(
        &self,
        fingerprint: &str,
        run_id: u128,
        tool_call_id: u128,
        argument_hash: &str,
    ) -> (r: bool)
        ensures
            r == (self@.run_id == run_id && self@.tool_call_id == tool_call_id
                && self@.tool_fingerprint == fingerprint@ && self@.argument_hash == argument_hash@
                && (self@.approval_id is Some) == (self@.approval_binding_hash is Some)),
    {
        self.run_id == run_id && self.tool_call_id == tool_call_id && same_text(
            self.tool_fingerprint.as_str(),
            fingerprint,
        ) && same_text(self.argument_hash.as_str(), argument_hash) && (self.approval_id.is_some()
            == self.approval_binding_hash.is_some())
    }

    /// AI session owning the invocation.
    pub fn session_id(&self) -> (r: u128)
        ensures
            r == self@.session_id,
    {
        self.session_id
    }

    /// Run owning the invocation.
    pub fn run_id(&self) -> (r: u128)
        ensures
            r == self@.run_id,
    {
        self.run_id
    }

    /// Exact durable application tool call.
    pub fn tool_call_id(&self) -> (r: u128)
        ensures
            r == self@.tool_call_id,
    {
        self.tool_call_id
    }

    /// Provider execution attempt that produced the call.
    pub fn attempt_id(&self) -> (r: u128)
        ensures
            r == self@.attempt_id,
    {
        self.attempt_id
    }

    /// Provider execution fencing generation.
    pub fn lease_generation(&self) -> (r: i64)
        ensures
            r == self@.lease_generation,
    {
        self.lease_generation
    }

    /// Provider accounting correlation.
    pub fn budget_reservation_id(&self) -> (r: u128)
        ensures
            r == self@.budget_reservation_id,
    {
        self.budget_reservation_id
    }

    /// Consumed one-shot approval, only for approved execution.
    pub fn approval_id(&self) -> (r: Option<u128>)
        ensures
            r == self@.approval_id,
    {
        self.approval_id
    }

    /// Actual provider family.
    pub fn provider_kind(&self) -> (r: &str)
        ensures
            r@ == self@.provider_kind,
    {
        self.provider_kind.as_str()
    }

    /// Actual provider model.
    pub fn provider_model(&self) -> (r: &str)
        ensures
            r@ == self@.provider_model,
    {
        self.provider_model.as_str()
    }

    /// Exact provider profile from the authorized inference manifest.
    pub fn provider_profile_id(&self) -> (r: &str)
        ensures
            r@ == self@.provider_profile_id,
    {
        self.provider_profile_id.as_str()
    }

    /// Opaque provider-native call identifier.
    pub fn provider_call_id(&self) -> (r: &str)
        ensures
            r@ == self@.provider_call_id,
    {
        self.provider_call_id.as_str()
    }

    /// Exact compiled registered tool fingerprint.
    pub fn tool_fingerprint(&self) -> (r: &str)
        ensures
            r@ == self@.tool_fingerprint,
    {
        self.tool_fingerprint.as_str()
    }

    /// Canonical hash of the exact GraphQL variables.
    pub fn argument_hash(&self) -> (r: &str)
        ensures
            r@ == self@.argument_hash,
    {
        self.argument_hash.as_str()
    }

    /// Opaque provider response identifier, when available.
    pub fn provider_response_id(&self) -> (r: Option<&str>)
        ensures
            match r {
                Some(t) => self@.provider_response_id == Some(t@),
                None => self@.provider_response_id is None,
            },
    {
        match &self.provider_response_id {
            Some(t) => Some(t.as_str()),
            None => None,
        }
    }

    /// Exact retained-provider registration fingerprint, when present.
    pub fn provider_registration_fingerprint(&self) -> (r: Option<&str>)
        ensures
            match r {
                Some(t) => self@.provider_registration_fingerprint == Some(t@),
                None => self@.provider_registration_fingerprint is None,
            },
    {
        match &self.provider_registration_fingerprint {
            Some(t) => Some(t.as_str()),
            None => None,
        }
    }

    /// Exact consumed approval envelope hash, when present.
    pub fn approval_binding_hash(&self) -> (r: Option<&str>)
        ensures
            match r {
                Some(t) => self@.approval_binding_hash == Some(t@),
                None => self@.approval_binding_hash is None,
            },
    {
        match &self.approval_binding_hash {
            Some(t) => Some(t.as_str()),
            None => None,
        }
    }

    /// Policy version recomputed immediately before execution; absent in the earlier durable origin record.
    pub fn policy_version(&self) -> (r: Option<&str>)
        ensures
            match r {
                Some(t) => self@.policy_version == Some(t@),
                None => self@.policy_version is None,
            },
    {
        match &self.policy_version {
            Some(t) => Some(t.as_str()),
            None => None,
        }
    }

    /// Safe current authorization digest recomputed immediately before execution.
    pub fn authorization_state_digest(&self) -> (r: Option<&str>)
        ensures
            match r {
                Some(t) => self@.authorization_state_digest == Some(t@),
                None => self@.authorization_state_digest is None,
            },
    {
        match &self.authorization_state_digest {
            Some(t) => Some(t.as_str()),
            None => None,
        }
    }

    /// Immutable admitted session routing selection (provider family and
    /// model), when present.
    pub fn execution_selection(&self) -> (r: Option<(&str, &str)>)
        ensures
            match r {
                Some(pair) => self@.execution_selection == Some((pair.0@, pair.1@)),
                None => self@.execution_selection is None,
            },
    {
        match &self.execution_selection {
            Some(pair) => Some((pair.0.as_str(), pair.1.as_str())),
            None => None,
        }
    }

}

} // verus!
