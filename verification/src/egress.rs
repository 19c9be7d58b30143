//! Append-only egress decision audit: which decisions may be recorded, the
//! exact redacted record written for one, and how an existing record is
//! compared so that an exact replay is idempotent and changed evidence is a
//! conflict.

use vstd::prelude::*;

use crate::error::AiError;
use crate::text::{blank, byte_len, is_blank, same_text};

verus! {

/// What an egress sends.
#[derive(Clone, Copy, Debug, PartialEq, Eq, Structural)]
pub enum AiEgressCapability {
    /// Model inference.
    ModelInference,
    /// Web search.
    WebSearch,
    /// Image analysis.
    ImageAnalysis,
    /// Image generation.
    ImageGeneration,
    /// Provider file upload.
    ProviderFile,
    /// Code execution.
    CodeExecution,
    /// Remote MCP.
    RemoteMcp,
    /// An application-tool result.
    ToolResult,
}

/// The stored name of a capability.
pub open spec fn capability_name(value: AiEgressCapability) -> Seq<char> {
    match value {
        AiEgressCapability::ModelInference => "model_inference"@,
        AiEgressCapability::WebSearch => "web_search"@,
        AiEgressCapability::ImageAnalysis => "image_analysis"@,
        AiEgressCapability::ImageGeneration => "image_generation"@,
        AiEgressCapability::ProviderFile => "provider_file"@,
        AiEgressCapability::CodeExecution => "code_execution"@,
        AiEgressCapability::RemoteMcp => "remote_mcp"@,
        AiEgressCapability::ToolResult => "tool_result"@,
    }
}

/// Returns the stored name of a capability.
pub fn capability_value(value: AiEgressCapability) -> (r: &'static str)
    ensures
        r@ == capability_name(value),
{
    match value {
        AiEgressCapability::ModelInference => "model_inference",
        AiEgressCapability::WebSearch => "web_search",
        AiEgressCapability::ImageAnalysis => "image_analysis",
        AiEgressCapability::ImageGeneration => "image_generation",
        AiEgressCapability::ProviderFile => "provider_file",
        AiEgressCapability::CodeExecution => "code_execution",
        AiEgressCapability::RemoteMcp => "remote_mcp",
        AiEgressCapability::ToolResult => "tool_result",
    }
}

/// Sensitivity of the data in an egress.
#[derive(Clone, Copy, Debug, PartialEq, Eq, Structural)]
pub enum DataClassification {
    /// Public data.
    Public,
    /// Internal data.
    Internal,
    /// Confidential data.
    Confidential,
    /// Restricted data.
    Restricted,
    /// Secret data.
    Secret,
}

/// The stored name of a classification.
pub open spec fn classification_name(value: DataClassification) -> Seq<char> {
    match value {
        DataClassification::Public => "public"@,
        DataClassification::Internal => "internal"@,
        DataClassification::Confidential => "confidential"@,
        DataClassification::Restricted => "restricted"@,
        DataClassification::Secret => "secret"@,
    }
}

/// Returns the stored name of a classification.
pub fn classification_value(value: DataClassification) -> (r: &'static str)
    ensures
        r@ == classification_name(value),
{
    match value {
        DataClassification::Public => "public",
        DataClassification::Internal => "internal",
        DataClassification::Confidential => "confidential",
        DataClassification::Restricted => "restricted",
        DataClassification::Secret => "secret",
    }
}

/// Whether an egress was allowed.
#[derive(Clone, Copy, Debug, PartialEq, Eq, Structural)]
pub enum AiEgressOutcome {
    /// Allowed.
    Allow,
    /// Denied.
    Deny,
}

/// The stored name of an outcome.
pub open spec fn outcome_name(value: AiEgressOutcome) -> Seq<char> {
    match value {
        AiEgressOutcome::Allow => "allow"@,
        AiEgressOutcome::Deny => "deny"@,
    }
}

/// Returns the stored name of an outcome.
pub fn outcome_value(value: AiEgressOutcome) -> (r: &'static str)
    ensures
        r@ == outcome_name(value),
{
    match value {
        AiEgressOutcome::Allow => "allow",
        AiEgressOutcome::Deny => "deny",
    }
}

/// Why an egress was allowed or denied.
#[derive(Clone, Copy, Debug, PartialEq, Eq, Structural)]
pub enum AiEgressReason {
    /// Allowed.
    Allowed,
    /// The deployment denies it.
    DeploymentDenied,
    /// Policy denies it.
    PolicyDenied,
    /// The principal may not send it.
    PrincipalDenied,
    /// The classification is too high.
    ClassificationDenied,
    /// Secret data may not leave.
    SecretDataDenied,
    /// Consent is required.
    ConsentRequired,
    /// A limit is exceeded.
    LimitExceeded,
}

/// The stored reason code.
pub open spec fn reason_name(value: AiEgressReason) -> Seq<char> {
    match value {
        AiEgressReason::Allowed => "allowed"@,
        AiEgressReason::DeploymentDenied => "deployment_denied"@,
        AiEgressReason::PolicyDenied => "policy_denied"@,
        AiEgressReason::PrincipalDenied => "principal_denied"@,
        AiEgressReason::ClassificationDenied => "classification_denied"@,
        AiEgressReason::SecretDataDenied => "secret_data_denied"@,
        AiEgressReason::ConsentRequired => "consent_required"@,
        AiEgressReason::LimitExceeded => "limit_exceeded"@,
    }
}

/// Returns the stored reason code.
pub fn reason_value(value: AiEgressReason) -> (r: &'static str)
    ensures
        r@ == reason_name(value),
{
    match value {
        AiEgressReason::Allowed => "allowed",
        AiEgressReason::DeploymentDenied => "deployment_denied",
        AiEgressReason::PolicyDenied => "policy_denied",
        AiEgressReason::PrincipalDenied => "principal_denied",
        AiEgressReason::ClassificationDenied => "classification_denied",
        AiEgressReason::SecretDataDenied => "secret_data_denied",
        AiEgressReason::ConsentRequired => "consent_required",
        AiEgressReason::LimitExceeded => "limit_exceeded",
    }
}

/// The facts of an egress manifest that the audit records.
#[derive(Clone, Debug)]
pub struct AiEgressAuditFacts {
    /// Run the egress belongs to, if any.
    pub run_id: Option<u128>,
    /// Scope kind.
    pub scope_kind: String,
    /// Scope identifier.
    pub scope_id: String,
    /// Destination label.
    pub destination: String,
    /// Capability.
    pub capability: AiEgressCapability,
    /// Highest classification among the manifest's sources.
    pub maximum_classification: DataClassification,
    /// Estimated bytes.
    pub estimated_bytes: u64,
    /// Estimated tokens.
    pub estimated_tokens: u64,
}

/// One egress decision.
#[derive(Clone, Debug)]
pub struct AiEgressDecision {
    /// Decision identifier.
    pub id: u128,
    /// Deciding principal's subject.
    pub principal_subject: String,
    /// Stable hash of the manifest decided on.
    pub manifest_hash: String,
    /// Policy version applied.
    pub policy_version: String,
    /// Outcome.
    pub outcome: AiEgressOutcome,
    /// Reason.
    pub reason: AiEgressReason,
}

/// One redacted, append-only egress audit record.
#[derive(Clone, Debug)]
pub struct AiEgressEventRecord {
    /// Decision identifier.
    pub id: u128,
    /// Run, if any.
    pub run_id: Option<u128>,
    /// Deciding principal's subject.
    pub principal_subject: String,
    /// Scope kind.
    pub scope_kind: String,
    /// Scope identifier.
    pub scope_id: String,
    /// Manifest hash.
    pub manifest_hash: String,
    /// Destination label.
    pub destination: String,
    /// Stored capability name.
    pub capability: String,
    /// Stored classification name.
    pub classification: String,
    /// Stored outcome name.
    pub outcome: String,
    /// Stored reason code.
    pub reason_code: String,
    /// Policy version.
    pub policy_version: String,
    /// Estimated bytes.
    pub estimated_bytes: i64,
    /// Estimated tokens.
    pub estimated_tokens: i64,
}

/// A text that is present and at most `maximum` UTF-8 bytes.
pub open spec fn bounded_text(s: Seq<char>, maximum: int) -> bool {
    !is_blank(s) && byte_len(s) <= maximum
}

/// What the audit accepts: the decision is for this exact manifest, and
/// every recorded text and estimate is present and representable.
pub open spec fn record_valid(
    manifest: AiEgressAuditFacts,
    manifest_hash: Seq<char>,
    decision: AiEgressDecision,
) -> bool {
    &&& decision.manifest_hash@ == manifest_hash
    &&& bounded_text(decision.principal_subject@, 1024)
    &&& bounded_text(manifest.scope_kind@, 128)
    &&& bounded_text(manifest.scope_id@, 1024)
    &&& bounded_text(manifest.destination@, 1024)
    &&& bounded_text(decision.policy_version@, 256)
    &&& manifest.estimated_bytes <= i64::MAX
    &&& manifest.estimated_tokens <= i64::MAX
}

fn bounded(s: &str, maximum: usize) -> (r: bool)
    ensures
        r == bounded_text(s@, maximum as int),
{
    !blank(s) && crate::text::utf8_len(s) <= maximum
}

/// Rejects a decision that is not for the manifest with hash
/// `manifest_hash`, or whose recorded texts and estimates are absent or out
/// of range.
pub fn validate_record(
    manifest: &AiEgressAuditFacts,
    manifest_hash: &str,
    decision: &AiEgressDecision,
) -> (r: Result<(), AiError>)
    ensures
        r is Ok <==> record_valid(*manifest, manifest_hash@, *decision),
        r matches Err(e) ==> e is InvalidInput,
{
    if !same_text(decision.manifest_hash.as_str(), manifest_hash) || !bounded(
        decision.principal_subject.as_str(),
        1024,
    ) || !bounded(manifest.scope_kind.as_str(), 128) || !bounded(manifest.scope_id.as_str(), 1024)
        || !bounded(manifest.destination.as_str(), 1024) || !bounded(
        decision.policy_version.as_str(),
        256,
    ) || manifest.estimated_bytes > i64::MAX as u64 || manifest.estimated_tokens
        > i64::MAX as u64 {
        return Err(AiError::InvalidInput("invalid redacted egress audit event".to_string()));
    }
    Ok(())
}

/// An existing record is exactly the record of this decision.
pub open spec fn record_matches_spec(
    record: AiEgressEventRecord,
    manifest: AiEgressAuditFacts,
    decision: AiEgressDecision,
) -> bool {
    &&& record.id == decision.id
    &&& record.run_id == manifest.run_id
    &&& record.principal_subject@ == decision.principal_subject@
    &&& record.scope_kind@ == manifest.scope_kind@
    &&& record.scope_id@ == manifest.scope_id@
    &&& record.manifest_hash@ == decision.manifest_hash@
    &&& record.destination@ == manifest.destination@
    &&& record.capability@ == capability_name(manifest.capability)
    &&& record.classification@ == classification_name(manifest.maximum_classification)
    &&& record.outcome@ == outcome_name(decision.outcome)
    &&& record.reason_code@ == reason_name(decision.reason)
    &&& record.policy_version@ == decision.policy_version@
    &&& record.estimated_bytes >= 0 && record.estimated_bytes == manifest.estimated_bytes
    &&& record.estimated_tokens >= 0 && record.estimated_tokens == manifest.estimated_tokens
}

/// Whether an existing record is exactly the record of this decision.
pub fn record_matches(
    record: &AiEgressEventRecord,
    manifest: &AiEgressAuditFacts,
    decision: &AiEgressDecision,
) -> (r: bool)
    ensures
        r == record_matches_spec(*record, *manifest, *decision),
{
    record.id == decision.id && record.run_id == manifest.run_id && same_text(
        record.principal_subject.as_str(),
        decision.principal_subject.as_str(),
    ) && same_text(record.scope_kind.as_str(), manifest.scope_kind.as_str()) && same_text(
        record.scope_id.as_str(),
        manifest.scope_id.as_str(),
    ) && same_text(record.manifest_hash.as_str(), decision.manifest_hash.as_str()) && same_text(
        record.destination.as_str(),
        manifest.destination.as_str(),
    ) && same_text(record.capability.as_str(), capability_value(manifest.capability))
        && same_text(
        record.classification.as_str(),
        classification_value(manifest.maximum_classification),
    ) && same_text(record.outcome.as_str(), outcome_value(decision.outcome)) && same_text(
        record.reason_code.as_str(),
        reason_value(decision.reason),
    ) && same_text(record.policy_version.as_str(), decision.policy_version.as_str())
        && record.estimated_bytes >= 0 && record.estimated_bytes as u64 == manifest.estimated_bytes
        && record.estimated_tokens >= 0 && record.estimated_tokens as u64
        == manifest.estimated_tokens
}

/// Builds the redacted record of a valid decision.
pub fn egress_event_record(manifest: &AiEgressAuditFacts, decision: &AiEgressDecision) -> (r:
    AiEgressEventRecord)
    requires
        manifest.estimated_bytes <= i64::MAX,
        manifest.estimated_tokens <= i64::MAX,
    ensures
        record_matches_spec(r, *manifest, *decision),
{
    AiEgressEventRecord {
        id: decision.id,
        run_id: manifest.run_id,
        principal_subject: decision.principal_subject.clone(),
        scope_kind: manifest.scope_kind.clone(),
        scope_id: manifest.scope_id.clone(),
        manifest_hash: decision.manifest_hash.clone(),
        destination: manifest.destination.clone(),
        capability: capability_value(manifest.capability).to_string(),
        classification: classification_value(manifest.maximum_classification).to_string(),
        outcome: outcome_value(decision.outcome).to_string(),
        reason_code: reason_value(decision.reason).to_string(),
        policy_version: decision.policy_version.clone(),
        estimated_bytes: manifest.estimated_bytes as i64,
        estimated_tokens: manifest.estimated_tokens as i64,
    }
}

/// What the audit does with one decision, given the record already stored
/// under its identifier.
#[derive(Clone, Debug)]
pub enum AiEgressAuditStep {
    /// The exact record is already there: an idempotent replay.
    AlreadyRecorded,
    /// Insert this record.
    Insert(AiEgressEventRecord),
}

/// Decides one audit write: an invalid decision is refused, an exact replay
/// is accepted without a write, changed evidence under the same identifier
/// is a conflict, and otherwise the redacted record is inserted.
pub fn egress_audit_step(
    existing: Option<&AiEgressEventRecord>,
    manifest: &AiEgressAuditFacts,
    manifest_hash: &str,
    decision: &AiEgressDecision,
) -> (r: Result<AiEgressAuditStep, AiError>)
    ensures
        !record_valid(*manifest, manifest_hash@, *decision) ==> (r matches Err(e)
            && e is InvalidInput),
        record_valid(*manifest, manifest_hash@, *decision) ==> match existing {
            Some(record) => if record_matches_spec(*record, *manifest, *decision) {
                r matches Ok(AiEgressAuditStep::AlreadyRecorded)
            } else {
                r matches Err(e) && e is Conflict
            },
            None => r matches Ok(AiEgressAuditStep::Insert(record)) && record_matches_spec(
                record,
                *manifest,
                *decision,
            ),
        },
{
    validate_record(manifest, manifest_hash, decision)?;
    match existing {
        Some(record) => {
            if record_matches(record, manifest, decision) {
                Ok(AiEgressAuditStep::AlreadyRecorded)
            } else {
                Err(AiError::Conflict)
            }
        },
        None => Ok(AiEgressAuditStep::Insert(egress_event_record(manifest, decision))),
    }
}

proof fn lemma_outcome_names_distinct(a: AiEgressOutcome, b: AiEgressOutcome)
    requires
        a != b,
    ensures
        outcome_name(a) != outcome_name(b),
{
    reveal_strlit("allow");
    reveal_strlit("deny");
    assert(outcome_name(a).len() != outcome_name(b).len());
}

proof fn lemma_reason_name_key(r: AiEgressReason)
    ensures
        reason_name(r).len() == match r {
            AiEgressReason::Allowed => 7int,
            AiEgressReason::DeploymentDenied => 17,
            AiEgressReason::PolicyDenied => 13,
            AiEgressReason::PrincipalDenied => 16,
            AiEgressReason::ClassificationDenied => 21,
            AiEgressReason::SecretDataDenied => 18,
            AiEgressReason::ConsentRequired => 16,
            AiEgressReason::LimitExceeded => 14,
        },
        reason_name(r)[0] == match r {
            AiEgressReason::Allowed => 'a',
            AiEgressReason::DeploymentDenied => 'd',
            AiEgressReason::PolicyDenied => 'p',
            AiEgressReason::PrincipalDenied => 'p',
            AiEgressReason::ClassificationDenied => 'c',
            AiEgressReason::SecretDataDenied => 's',
            AiEgressReason::ConsentRequired => 'c',
            AiEgressReason::LimitExceeded => 'l',
        },
{
    reveal_strlit("allowed");
    reveal_strlit("deployment_denied");
    reveal_strlit("policy_denied");
    reveal_strlit("principal_denied");
    reveal_strlit("classification_denied");
    reveal_strlit("secret_data_denied");
    reveal_strlit("consent_required");
    reveal_strlit("limit_exceeded");
}

proof fn lemma_reason_names_distinct(a: AiEgressReason, b: AiEgressReason)
    requires
        a != b,
    ensures
        reason_name(a) != reason_name(b),
{
    lemma_reason_name_key(a);
    lemma_reason_name_key(b);
    if reason_name(a) == reason_name(b) {
        assert(reason_name(a).len() == reason_name(b).len());
        assert(reason_name(a)[0] == reason_name(b)[0]);
    }
}

proof fn lemma_capability_names_distinct(a: AiEgressCapability, b: AiEgressCapability)
    requires
        a != b,
    ensures
        capability_name(a) != capability_name(b),
{
    reveal_strlit("model_inference");
    reveal_strlit("web_search");
    reveal_strlit("image_analysis");
    reveal_strlit("image_generation");
    reveal_strlit("provider_file");
    reveal_strlit("code_execution");
    reveal_strlit("remote_mcp");
    reveal_strlit("tool_result");
    if capability_name(a) == capability_name(b) {
        assert(capability_name(a).len() == capability_name(b).len());
        assert(capability_name(a)[0] == capability_name(b)[0]);
    }
}

proof fn lemma_classification_names_distinct(a: DataClassification, b: DataClassification)
    requires
        a != b,
    ensures
        classification_name(a) != classification_name(b),
{
    reveal_strlit("public");
    reveal_strlit("internal");
    reveal_strlit("confidential");
    reveal_strlit("restricted");
    reveal_strlit("secret");
    if classification_name(a) == classification_name(b) {
        assert(classification_name(a).len() == classification_name(b).len());
        assert(classification_name(a)[0] == classification_name(b)[0]);
    }
}

/// Two decisions, each with its manifest facts, carry the same audit
/// evidence: every field the redacted record keeps is equal.
pub open spec fn same_audit_evidence(
    manifest: AiEgressAuditFacts,
    decision: AiEgressDecision,
    other_manifest: AiEgressAuditFacts,
    other: AiEgressDecision,
) -> bool {
    &&& other.id == decision.id
    &&& other_manifest.run_id == manifest.run_id
    &&& other.principal_subject@ == decision.principal_subject@
    &&& other_manifest.scope_kind@ == manifest.scope_kind@
    &&& other_manifest.scope_id@ == manifest.scope_id@
    &&& other.manifest_hash@ == decision.manifest_hash@
    &&& other_manifest.destination@ == manifest.destination@
    &&& other_manifest.capability == manifest.capability
    &&& other_manifest.maximum_classification == manifest.maximum_classification
    &&& other.outcome == decision.outcome
    &&& other.reason == decision.reason
    &&& other.policy_version@ == decision.policy_version@
    &&& other_manifest.estimated_bytes == manifest.estimated_bytes
    &&& other_manifest.estimated_tokens == manifest.estimated_tokens
}

/// Law: the record an audit stored for one decision is matched by a later
/// decision exactly when that decision carries the same evidence. So auditing
/// the same decision again is an idempotent replay, and a decision under the
/// same identifier whose manifest facts or decision fields changed is a
/// conflict (the outcomes `egress_audit_step` gives for a matching and a
/// mismatching stored record).
pub proof fn lemma_audit_replay_matches_exactly_the_same_evidence(
    record: AiEgressEventRecord,
    manifest: AiEgressAuditFacts,
    decision: AiEgressDecision,
    other_manifest: AiEgressAuditFacts,
    other: AiEgressDecision,
)
    requires
        record_matches_spec(record, manifest, decision),
    ensures
        record_matches_spec(record, other_manifest, other) <==> same_audit_evidence(
            manifest,
            decision,
            other_manifest,
            other,
        ),
{
    if other.outcome != decision.outcome {
        lemma_outcome_names_distinct(other.outcome, decision.outcome);
    }
    if other.reason != decision.reason {
        lemma_reason_names_distinct(other.reason, decision.reason);
    }
    if other_manifest.capability != manifest.capability {
        lemma_capability_names_distinct(other_manifest.capability, manifest.capability);
    }
    if other_manifest.maximum_classification != manifest.maximum_classification {
        lemma_classification_names_distinct(
            other_manifest.maximum_classification,
            manifest.maximum_classification,
        );
    }
}

/// Codes of persistence errors, as the storage layer reports them.
#[derive(Clone, Copy, Debug, PartialEq, Eq, Structural)]
pub enum AiPersistenceErrorCode {
    /// Invalid input.
    InvalidInput,
    /// Invalid cursor.
    CursorInvalid,
    /// Page limit exceeded.
    PageLimitExceeded,
    /// Unauthenticated.
    Unauthenticated,
    /// Forbidden.
    Forbidden,
    /// Not found.
    NotFound,
    /// Conflict.
    Conflict,
    /// Constraint violation.
    ConstraintViolation,
    /// Service unavailable.
    ServiceUnavailable,
    /// Internal error.
    InternalError,
    /// Authorization misconfigured.
    AuthorizationMisconfigured,
}

/// Maps a persistence error to a safe library error; `message` is the
/// storage layer's public message.
pub fn map_persistence_error(code: AiPersistenceErrorCode, message: &str) -> (r: AiError)
    ensures
        (code is InvalidInput || code is CursorInvalid || code is PageLimitExceeded) <==> (r matches AiError::InvalidInput(m) && m@ == message@),
        (code is Unauthenticated || code is Forbidden) <==> r is Forbidden,
        code is NotFound <==> r is NotFound,
        (code is Conflict || code is ConstraintViolation) <==> r is Conflict,
        (code is ServiceUnavailable || code is InternalError || code is AuthorizationMisconfigured)
            <==> r is PersistenceFailed,
{
    match code {
        AiPersistenceErrorCode::InvalidInput
        | AiPersistenceErrorCode::CursorInvalid
        | AiPersistenceErrorCode::PageLimitExceeded => AiError::InvalidInput(message.to_string()),
        AiPersistenceErrorCode::Unauthenticated | AiPersistenceErrorCode::Forbidden => AiError::Forbidden,
        AiPersistenceErrorCode::NotFound => AiError::NotFound,
        AiPersistenceErrorCode::Conflict | AiPersistenceErrorCode::ConstraintViolation => AiError::Conflict,
        AiPersistenceErrorCode::ServiceUnavailable
        | AiPersistenceErrorCode::InternalError
        | AiPersistenceErrorCode::AuthorizationMisconfigured => AiError::PersistenceFailed,
    }
}

} // verus!
