//! GraphQL-managed AI configuration rules: budget ceilings, reclamation
//! bounds, retention bounds, provider data contracts, and content protection.

use vstd::prelude::*;

use crate::digest::{json_quoted, json_string};
use crate::error::AiError;
use crate::scope::AiScope;
use crate::text::{
    byte_len, contains_control, has_control, same_text, starts_with, strip_prefix, trim_text,
    trimmed, utf8_len,
};

verus! {

/// Budget amounts in each metered dimension.
#[derive(Clone, Copy, Debug, PartialEq, Eq, Structural)]
pub struct AiBudgetAmounts {
    /// Input tokens.
    pub input_tokens: u64,
    /// Output tokens.
    pub output_tokens: u64,
    /// Tool units.
    pub tool_units: u64,
    /// Image units.
    pub image_units: u64,
    /// Cost in micro-units.
    pub cost_microunits: u64,
    /// Runs.
    pub runs: u64,
}

/// Deployment hard bounds for GraphQL-managed budget policies. GraphQL
/// values may only narrow these ceilings.
#[derive(Clone, Copy, Debug, PartialEq, Eq, Structural)]
pub struct AiBudgetPolicyManagementLimits {
    maximum_ceiling: AiBudgetAmounts,
    maximum_policies_per_scope: usize,
}

impl View for AiBudgetPolicyManagementLimits {
    type V = (AiBudgetAmounts, usize);

    closed spec fn view(&self) -> (AiBudgetAmounts, usize) {
        (self.maximum_ceiling, self.maximum_policies_per_scope)
    }
}

impl AiBudgetPolicyManagementLimits {
    /// Creates validated deployment management bounds: the per-scope policy
    /// count must be in `1..=100`.
    pub fn new(maximum_ceiling: AiBudgetAmounts, maximum_policies_per_scope: usize) -> (r: Result<
        Self,
        AiError,
    >)
        ensures
            r is Ok <==> 1 <= maximum_policies_per_scope <= 100,
            r matches Ok(l) ==> l@ == (maximum_ceiling, maximum_policies_per_scope),
            r matches Err(e) ==> e is InvalidConfiguration,
    {
        if !(1 <= maximum_policies_per_scope && maximum_policies_per_scope <= 100) {
            return Err(
                AiError::InvalidConfiguration("invalid budget-policy management limits".to_string()),
            );
        }
        Ok(AiBudgetPolicyManagementLimits { maximum_ceiling, maximum_policies_per_scope })
    }

    /// Returns the greatest ceiling GraphQL may configure in each dimension.
    pub fn maximum_ceiling(self) -> (r: AiBudgetAmounts)
        ensures
            r == self@.0,
    {
        self.maximum_ceiling
    }

    /// Returns the maximum number of policies for one exact scope.
    pub fn maximum_policies_per_scope(self) -> (r: usize)
        ensures
            r == self@.1,
    {
        self.maximum_policies_per_scope
    }
}

/// Deployment hard bounds for privileged budget-reservation reclamation.
/// `minimum_expired_age` is in nanoseconds.
#[derive(Clone, Copy, Debug, PartialEq, Eq, Structural)]
pub struct AiBudgetReclamationLimits {
    minimum_expired_age: i128,
    maximum_reservation_scan: usize,
}

impl View for AiBudgetReclamationLimits {
    type V = (i128, usize);

    closed spec fn view(&self) -> (i128, usize) {
        (self.minimum_expired_age, self.maximum_reservation_scan)
    }
}

impl AiBudgetReclamationLimits {
    /// Every value of the type has a positive age and a read window in
    /// `1..=1000`.
    #[verifier::type_invariant]
    pub closed spec fn limits_hold(&self) -> bool {
        self.minimum_expired_age > 0 && 1 <= self.maximum_reservation_scan <= 1000
    }

    /// Creates validated reclamation bounds: the age must be positive and the
    /// bounded read window in `1..=1000`.
    pub fn new(minimum_expired_age: i128, maximum_reservation_scan: usize) -> (r: Result<
        Self,
        AiError,
    >)
        ensures
            r is Ok <==> minimum_expired_age > 0 && 1 <= maximum_reservation_scan <= 1000,
            r matches Ok(l) ==> l@ == (minimum_expired_age, maximum_reservation_scan),
            r matches Err(e) ==> e is InvalidConfiguration,
    {
        if minimum_expired_age <= 0 || !(1 <= maximum_reservation_scan && maximum_reservation_scan
            <= 1000) {
            return Err(
                AiError::InvalidConfiguration("invalid budget reclamation limits".to_string()),
            );
        }
        Ok(AiBudgetReclamationLimits { minimum_expired_age, maximum_reservation_scan })
    }

    /// Returns how long an expiry must already have passed (nanoseconds).
    pub fn minimum_expired_age(self) -> (r: i128)
        ensures
            r == self@.0,
            r > 0,
    {
        proof {
            use_type_invariant(&self);
        }
        self.minimum_expired_age
    }

    /// Returns the bounded reservation read window.
    pub fn maximum_reservation_scan(self) -> (r: usize)
        ensures
            r == self@.1,
            1 <= r <= 1000,
    {
        proof {
            use_type_invariant(&self);
        }
        self.maximum_reservation_scan
    }
}

/// A character admitted in an OpenAI-compatible retention label.
pub open spec fn retention_char(c: char) -> bool {
    ('a' <= c && c <= 'z') || ('A' <= c && c <= 'Z') || ('0' <= c && c <= '9') || c == '-' || c
        == '_' || c == '.' || c == ':'
}

/// A bounded retention label and a tool-call capability that parallel calls
/// can rely on.
pub open spec fn compatible_profile_ok(retention: Seq<char>, custom_tools: bool, parallel_tool_calls: bool) -> bool {
    &&& 0 < retention.len() <= 200
    &&& forall|i: int| 0 <= i < retention.len() ==> retention_char(#[trigger] retention[i])
    &&& (parallel_tool_calls ==> custom_tools)
}

/// Validates the reviewed capability and retention contract of an
/// OpenAI-compatible provider profile.
pub fn validate_compatible_profile(retention: &str, custom_tools: bool, parallel_tool_calls: bool) -> (r: Result<
    (),
    String,
>)
    ensures
        r is Ok <==> compatible_profile_ok(retention@, custom_tools, parallel_tool_calls),
{
    let n = retention.unicode_len();
    let mut ok = n > 0 && n <= 200;
    let mut i: usize = 0;
    while ok && i < n
        invariant
            n == retention@.len(),
            i <= n,
            ok ==> 0 < n <= 200,
            ok ==> forall|k: int| 0 <= k < i ==> retention_char(#[trigger] retention@[k]),
            !ok ==> !compatible_profile_ok(retention@, custom_tools, parallel_tool_calls),
        decreases n - i,
    {
        let c = retention.get_char(i);
        if !(('a' <= c && c <= 'z') || ('A' <= c && c <= 'Z') || ('0' <= c && c <= '9') || c
            == '-' || c == '_' || c == '.' || c == ':') {
            ok = false;
        }
        i = i + 1;
    }
    if !ok {
        return Err("invalid OpenAI-compatible retention label".to_string());
    }
    if parallel_tool_calls && !custom_tools {
        return Err("parallel OpenAI-compatible tool calls require custom-tool capability".to_string());
    }
    Ok(())
}

/// Retention-policy input for one scope (durations in seconds).
#[derive(Clone, Debug)]
pub struct SetAiRetentionPolicyInput {
    /// Scope the policy applies to.
    pub scope: AiScope,
    /// Message retention, or `None` to keep messages.
    pub message_retention_seconds: Option<i64>,
    /// Streaming delta retention.
    pub delta_retention_seconds: i64,
    /// Raw provider payload retention.
    pub raw_payload_retention_seconds: i64,
    /// Audit retention.
    pub audit_retention_seconds: i64,
    /// Purge delay for deleted content.
    pub deleted_content_purge_seconds: i64,
    /// Whether provider-side files must be deleted.
    pub provider_file_delete_required: bool,
    /// Inbox event retention.
    pub inbox_event_retention_seconds: i64,
    /// Minimum inbox events kept.
    pub inbox_minimum_events: i64,
}

/// A retention duration between one minute and ten years.
pub open spec fn retention_seconds_ok(seconds: i64) -> bool {
    60 <= seconds <= 315_576_000
}

/// Retention bounds accepted for a policy.
pub open spec fn retention_input_ok(input: SetAiRetentionPolicyInput) -> bool {
    &&& retention_seconds_ok(input.delta_retention_seconds)
    &&& retention_seconds_ok(input.raw_payload_retention_seconds)
    &&& retention_seconds_ok(input.audit_retention_seconds)
    &&& retention_seconds_ok(input.deleted_content_purge_seconds)
    &&& retention_seconds_ok(input.inbox_event_retention_seconds)
    &&& match input.message_retention_seconds {
        Some(seconds) => retention_seconds_ok(seconds),
        None => true,
    }
    &&& 1 <= input.inbox_minimum_events <= 100_000
}

fn seconds_ok(seconds: i64) -> (r: bool)
    ensures
        r == retention_seconds_ok(seconds),
{
    60 <= seconds && seconds <= 315_576_000
}

/// Rejects retention durations outside one minute to ten years and inbox
/// minimums outside `1..=100000`.
pub fn validate_retention_input(input: &SetAiRetentionPolicyInput) -> (r: Result<(), AiError>)
    ensures
        r is Ok <==> retention_input_ok(*input),
        r matches Err(e) ==> e is InvalidInput,
{
    let message_ok = match input.message_retention_seconds {
        Some(seconds) => seconds_ok(seconds),
        None => true,
    };
    if !seconds_ok(input.delta_retention_seconds) || !seconds_ok(input.raw_payload_retention_seconds)
        || !seconds_ok(input.audit_retention_seconds) || !seconds_ok(
        input.deleted_content_purge_seconds,
    ) || !seconds_ok(input.inbox_event_retention_seconds) || !message_ok || !(1
        <= input.inbox_minimum_events && input.inbox_minimum_events <= 100_000) {
        return Err(AiError::InvalidInput("invalid AI retention policy bounds".to_string()));
    }
    Ok(())
}

/// Budget-policy upsert input.
#[derive(Clone, Debug)]
pub struct UpsertAiBudgetPolicyInput {
    /// Existing policy, when updating.
    pub id: Option<u128>,
    /// Scope the policy applies to.
    pub scope: AiScope,
    /// Principal kind (`user` or `api_token:<kind>`), for a principal policy.
    pub principal_kind: Option<String>,
    /// Principal subject, for a principal policy.
    pub principal_subject: Option<String>,
    /// Budget interval kind.
    pub interval_kind: String,
    /// Input-token ceiling.
    pub maximum_input_tokens: Option<i64>,
    /// Output-token ceiling.
    pub maximum_output_tokens: Option<i64>,
    /// Tool-unit ceiling.
    pub maximum_tool_units: Option<i64>,
    /// Image-unit ceiling.
    pub maximum_image_units: Option<i64>,
    /// Cost ceiling in micro-units.
    pub maximum_cost_microunits: Option<i64>,
    /// Run ceiling.
    pub maximum_runs: Option<i64>,
    /// Whether the policy is enforced.
    pub enabled: bool,
    /// Row version observed by the caller, when updating.
    pub expected_version: Option<i64>,
}

/// A consistent policy identity: a non-nil id exactly when a non-negative
/// expected version is given, and a principal kind exactly with a subject.
pub open spec fn budget_identity_ok(input: UpsertAiBudgetPolicyInput) -> bool {
    &&& input.id != Some(0u128)
    &&& match input.expected_version {
        Some(v) => v >= 0,
        None => true,
    }
    &&& (input.id is Some) == (input.expected_version is Some)
    &&& (input.principal_kind is Some) == (input.principal_subject is Some)
}

/// A lowercase API-token principal kind: `[a-z0-9_-]{1,64}`.
pub open spec fn token_kind_ok(kind: Seq<char>) -> bool {
    &&& 0 < kind.len() <= 64
    &&& forall|i: int|
        0 <= i < kind.len() ==> ('a' <= #[trigger] kind[i] && kind[i] <= 'z') || ('0' <= kind[i]
            && kind[i] <= '9') || kind[i] == '_' || kind[i] == '-'
}

/// An already trimmed principal kind and subject that a policy may name.
pub open spec fn budget_principal_ok(kind: Seq<char>, subject: Seq<char>) -> bool {
    &&& (kind == "user"@ || (starts_with(kind, "api_token:"@) && token_kind_ok(
        kind.subrange("api_token:"@.len() as int, kind.len() as int),
    )))
    &&& subject.len() > 0
    &&& byte_len(subject) <= 512
    &&& !has_control(subject)
}

/// A ceiling within the deployment hard maximum.
pub open spec fn ceiling_ok(value: Option<i64>, hard_maximum: u64) -> bool {
    match value {
        Some(v) => 0 <= v && v <= hard_maximum,
        None => true,
    }
}

/// At least one ceiling, and every ceiling within its hard maximum.
pub open spec fn budget_ceilings_ok(input: UpsertAiBudgetPolicyInput, maximum: AiBudgetAmounts) -> bool {
    &&& (input.maximum_input_tokens is Some || input.maximum_output_tokens is Some
        || input.maximum_tool_units is Some || input.maximum_image_units is Some
        || input.maximum_cost_microunits is Some || input.maximum_runs is Some)
    &&& ceiling_ok(input.maximum_input_tokens, maximum.input_tokens)
    &&& ceiling_ok(input.maximum_output_tokens, maximum.output_tokens)
    &&& ceiling_ok(input.maximum_tool_units, maximum.tool_units)
    &&& ceiling_ok(input.maximum_image_units, maximum.image_units)
    &&& ceiling_ok(input.maximum_cost_microunits, maximum.cost_microunits)
    &&& ceiling_ok(input.maximum_runs, maximum.runs)
}

/// Law: a budget policy whose ceilings are accepted names at least one
/// ceiling, and every ceiling it names is non-negative and within the
/// deployment's hard maximum for that amount.
pub proof fn lemma_accepted_ceilings_within_hard_maximum(
    input: UpsertAiBudgetPolicyInput,
    maximum: AiBudgetAmounts,
)
    requires
        budget_ceilings_ok(input, maximum),
    ensures
        input.maximum_input_tokens is Some || input.maximum_output_tokens is Some
            || input.maximum_tool_units is Some || input.maximum_image_units is Some
            || input.maximum_cost_microunits is Some || input.maximum_runs is Some,
        input.maximum_input_tokens matches Some(v) ==> 0 <= v && v <= maximum.input_tokens,
        input.maximum_output_tokens matches Some(v) ==> 0 <= v && v <= maximum.output_tokens,
        input.maximum_tool_units matches Some(v) ==> 0 <= v && v <= maximum.tool_units,
        input.maximum_image_units matches Some(v) ==> 0 <= v && v <= maximum.image_units,
        input.maximum_cost_microunits matches Some(v) ==> 0 <= v && v <= maximum.cost_microunits,
        input.maximum_runs matches Some(v) ==> 0 <= v && v <= maximum.runs,
{
}

fn ceiling_within(value: Option<i64>, hard_maximum: u64) -> (r: bool)
    ensures
        r == ceiling_ok(value, hard_maximum),
{
    match value {
        Some(v) => v >= 0 && (v as u64) <= hard_maximum,
        None => true,
    }
}

fn token_kind_valid(kind: &str) -> (r: bool)
    ensures
        r == token_kind_ok(kind@),
{
    let n = kind.unicode_len();
    if n == 0 || n > 64 {
        return false;
    }
    let mut i: usize = 0;
    while i < n
        invariant
            n == kind@.len(),
            i <= n,
            forall|k: int|
                0 <= k < i ==> ('a' <= #[trigger] kind@[k] && kind@[k] <= 'z') || ('0' <= kind@[k]
                    && kind@[k] <= '9') || kind@[k] == '_' || kind@[k] == '-',
        decreases n - i,
    {
        let c = kind.get_char(i);
        if !(('a' <= c && c <= 'z') || ('0' <= c && c <= '9') || c == '_' || c == '-') {
            return false;
        }
        i = i + 1;
    }
    true
}

fn budget_principal_valid(kind: &str, subject: &str) -> (r: bool)
    ensures
        r == budget_principal_ok(kind@, subject@),
{
    let kind_ok = same_text(kind, "user") || match strip_prefix(kind, "api_token:") {
        Some(rest) => token_kind_valid(rest),
        None => false,
    };
    kind_ok && subject.unicode_len() != 0 && utf8_len(subject) <= 512 && !contains_control(subject)
}

/// Normalizes a budget-policy input in place (trims the principal kind and
/// subject) and validates its identity, principal, and ceilings against the
/// deployment hard maximum.
pub fn normalize_and_validate_budget_policy_input(
    input: &mut UpsertAiBudgetPolicyInput,
    maximum: AiBudgetAmounts,
) -> (r: Result<(), AiError>)
    ensures
        !budget_identity_ok(*old(input)) ==> r is Err && *final(input) == *old(input),
        budget_identity_ok(*old(input)) ==> {
            &&& final(input).id == old(input).id
            &&& final(input).expected_version == old(input).expected_version
            &&& final(input).maximum_input_tokens == old(input).maximum_input_tokens
            &&& final(input).maximum_output_tokens == old(input).maximum_output_tokens
            &&& final(input).maximum_tool_units == old(input).maximum_tool_units
            &&& final(input).maximum_image_units == old(input).maximum_image_units
            &&& final(input).maximum_cost_microunits == old(input).maximum_cost_microunits
            &&& final(input).maximum_runs == old(input).maximum_runs
            &&& final(input).enabled == old(input).enabled
            &&& match (old(input).principal_kind, old(input).principal_subject) {
                (Some(kind), Some(subject)) => {
                    &&& final(input).principal_kind matches Some(k) && k@ == trimmed(kind@)
                    &&& final(input).principal_subject matches Some(s) && s@ == trimmed(subject@)
                    &&& (r is Ok <==> budget_principal_ok(trimmed(kind@), trimmed(subject@))
                        && budget_ceilings_ok(*old(input), maximum))
                },
                _ => {
                    &&& final(input).principal_kind is None
                    &&& final(input).principal_subject is None
                    &&& (r is Ok <==> budget_ceilings_ok(*old(input), maximum))
                },
            }
        },
        r is Ok ==> (old(input).maximum_input_tokens matches Some(v) ==> 0 <= v && v <= maximum.input_tokens),
        r is Ok ==> (old(input).maximum_output_tokens matches Some(v) ==> 0 <= v && v <= maximum.output_tokens),
        r is Ok ==> (old(input).maximum_tool_units matches Some(v) ==> 0 <= v && v <= maximum.tool_units),
        r is Ok ==> (old(input).maximum_image_units matches Some(v) ==> 0 <= v && v <= maximum.image_units),
        r is Ok ==> (old(input).maximum_cost_microunits matches Some(v) ==> 0 <= v && v <= maximum.cost_microunits),
        r is Ok ==> (old(input).maximum_runs matches Some(v) ==> 0 <= v && v <= maximum.runs),
        r matches Err(e) ==> e is InvalidInput,
{
    let nil_id = match input.id {
        Some(id) => id == 0,
        None => false,
    };
    let negative_version = match input.expected_version {
        Some(v) => v < 0,
        None => false,
    };
    if nil_id || negative_version || input.id.is_some() != input.expected_version.is_some()
        || input.principal_kind.is_some() != input.principal_subject.is_some() {
        return Err(AiError::InvalidInput("invalid AI budget policy identity".to_string()));
    }
    let named = match (&input.principal_kind, &input.principal_subject) {
        (Some(kind), Some(subject)) => Some((trim_text(kind.as_str()), trim_text(subject.as_str()))),
        _ => None,
    };
    if let Some((kind, subject)) = named {
        let valid = budget_principal_valid(kind.as_str(), subject.as_str());
        input.principal_kind = Some(kind);
        input.principal_subject = Some(subject);
        if !valid {
            return Err(AiError::InvalidInput("invalid AI budget policy principal".to_string()));
        }
    }
    let any = input.maximum_input_tokens.is_some() || input.maximum_output_tokens.is_some()
        || input.maximum_tool_units.is_some() || input.maximum_image_units.is_some()
        || input.maximum_cost_microunits.is_some() || input.maximum_runs.is_some();
    if !any || !ceiling_within(input.maximum_input_tokens, maximum.input_tokens) || !ceiling_within(
        input.maximum_output_tokens,
        maximum.output_tokens,
    ) || !ceiling_within(input.maximum_tool_units, maximum.tool_units) || !ceiling_within(
        input.maximum_image_units,
        maximum.image_units,
    ) || !ceiling_within(input.maximum_cost_microunits, maximum.cost_microunits)
        || !ceiling_within(input.maximum_runs, maximum.runs) {
        return Err(AiError::InvalidInput("invalid AI budget policy ceilings".to_string()));
    }
    Ok(())
}

/// Content-protection mode of a scope.
#[derive(Clone, Copy, Debug, PartialEq, Eq, Structural)]
pub enum AiContentProtectionMode {
    /// The database manages encryption at rest.
    DatabaseManaged,
    /// The application encrypts protected fields itself.
    ApplicationEncrypted,
}

/// The stored name of a protection mode.
pub open spec fn protection_mode_name(mode: AiContentProtectionMode) -> Seq<char> {
    match mode {
        AiContentProtectionMode::DatabaseManaged => "database_managed"@,
        AiContentProtectionMode::ApplicationEncrypted => "application_encrypted"@,
    }
}

/// The stored name of a protection mode.
pub fn protection_mode_value(mode: AiContentProtectionMode) -> (r: &'static str)
    ensures
        r@ == protection_mode_name(mode),
{
    match mode {
        AiContentProtectionMode::DatabaseManaged => "database_managed",
        AiContentProtectionMode::ApplicationEncrypted => "application_encrypted",
    }
}

/// Distinct protection modes have distinct stored names, so parsing the
/// stored name of a mode gives back that mode.
pub proof fn lemma_protection_mode_names_are_distinct(a: AiContentProtectionMode, b: AiContentProtectionMode)
    ensures
        protection_mode_name(a) == protection_mode_name(b) ==> a == b,
{
    reveal_strlit("database_managed");
    reveal_strlit("application_encrypted");
    if a != b {
        assert(protection_mode_name(a).len() != protection_mode_name(b).len());
    }
}

/// Parses a stored protection-mode name.
pub fn parse_protection_mode(value: &str) -> (r: Result<AiContentProtectionMode, AiError>)
    ensures
        match r {
            Ok(mode) => protection_mode_name(mode) == value@,
            Err(e) => e is InvalidConfiguration && value@ != "database_managed"@ && value@
                != "application_encrypted"@,
        },
{
    if same_text(value, "database_managed") {
        Ok(AiContentProtectionMode::DatabaseManaged)
    } else if same_text(value, "application_encrypted") {
        Ok(AiContentProtectionMode::ApplicationEncrypted)
    } else {
        Err(AiError::InvalidConfiguration("unknown content-protection mode".to_string()))
    }
}

/// Reviewed capability and retention contract of an OpenAI-compatible
/// provider profile.
#[derive(Clone, Debug)]
pub struct AiOpenAiCompatibleProfileInput {
    /// Provider-side retention label.
    pub retention: String,
    /// Whether the endpoint accepts custom function tools.
    pub custom_tools: bool,
    /// Whether the endpoint accepts parallel tool calls.
    pub parallel_tool_calls: bool,
    /// Whether the endpoint honours structured output.
    pub structured_output: bool,
    /// Whether the endpoint retains continuations provider-side.
    pub provider_retained_continuation: bool,
}

/// Version of the stored OpenAI-compatible data policy.
pub const OPENAI_COMPATIBLE_DATA_POLICY_VERSION: u32 = 1;

/// JSON of a boolean.
pub open spec fn bool_text(b: bool) -> Seq<char> {
    if b {
        "true"@
    } else {
        "false"@
    }
}

fn bool_json_text(b: bool) -> (r: &'static str)
    ensures
        r@ == bool_text(b),
{
    if b {
        "true"
    } else {
        "false"
    }
}

/// The stored data policy of a compatible profile: canonical JSON of its
/// contract, under the current policy version.
pub open spec fn stored_compatible_policy(profile: AiOpenAiCompatibleProfileInput) -> Seq<char> {
    "{\"openai_compatible\":{\"custom_tools\":"@ + bool_text(profile.custom_tools)
        + ",\"parallel_tool_calls\":"@ + bool_text(profile.parallel_tool_calls)
        + ",\"provider_retained_continuation\":"@ + bool_text(profile.provider_retained_continuation)
        + ",\"retention\":"@ + json_quoted(profile.retention@) + ",\"structured_output\":"@
        + bool_text(profile.structured_output) + ",\"version\":1}}"@
}

/// The data policy stored with a provider profile: for an OpenAI-compatible
/// kind the validated contract is required and stored; any other kind takes
/// none and stores the empty object.
pub fn provider_data_policy(
    openai_compatible_kind: bool,
    compatible: Option<&AiOpenAiCompatibleProfileInput>,
) -> (r: Result<String, AiError>)
    ensures
        r is Ok <==> match compatible {
            Some(p) => openai_compatible_kind && compatible_profile_ok(
                p.retention@,
                p.custom_tools,
                p.parallel_tool_calls,
            ),
            None => !openai_compatible_kind,
        },
        r matches Ok(text) ==> text@ == match compatible {
            Some(p) => stored_compatible_policy(*p),
            None => "{}"@,
        },
        r matches Err(e) ==> e is InvalidInput,
{
    match compatible {
        Some(profile) => {
            if !openai_compatible_kind {
                return Err(
                    AiError::InvalidInput(
                        "OpenAI-compatible configuration is invalid for this provider kind".to_string(),
                    ),
                );
            }
            match validate_compatible_profile(
                profile.retention.as_str(),
                profile.custom_tools,
                profile.parallel_tool_calls,
            ) {
                Ok(()) => {},
                Err(message) => {
                    return Err(AiError::InvalidInput(message));
                },
            }
            let mut text = "{\"openai_compatible\":{\"custom_tools\":".to_string();
            text.append(bool_json_text(profile.custom_tools));
            text.append(",\"parallel_tool_calls\":");
            text.append(bool_json_text(profile.parallel_tool_calls));
            text.append(",\"provider_retained_continuation\":");
            text.append(bool_json_text(profile.provider_retained_continuation));
            text.append(",\"retention\":");
            text.append(json_string(profile.retention.as_str()).as_str());
            text.append(",\"structured_output\":");
            text.append(bool_json_text(profile.structured_output));
            text.append(",\"version\":1}}");
            proof {
                assert(text@ =~= stored_compatible_policy(*profile));
            }
            Ok(text)
        },
        None => {
            if openai_compatible_kind {
                return Err(
                    AiError::InvalidInput(
                        "OpenAI-compatible profiles require a reviewed capability and retention contract".to_string(),
                    ),
                );
            }
            Ok("{}".to_string())
        },
    }
}

/// A stored provider data policy, as far as the profile view reads it.
#[derive(Clone, Debug)]
pub enum StoredProviderDataPolicy {
    /// The empty object.
    Empty,
    /// A typed OpenAI-compatible contract.
    OpenAiCompatible {
        /// Stored policy version.
        version: u32,
        /// The contract.
        profile: AiOpenAiCompatibleProfileInput,
    },
    /// Anything else.
    Malformed,
}

/// What the profile view reports of a stored data policy: for an
/// OpenAI-compatible kind, nothing for a legacy empty policy, else the
/// current-version valid contract; for any other kind only the empty policy
/// is valid.
pub fn provider_data_policy_view(
    openai_compatible_kind: bool,
    stored: &StoredProviderDataPolicy,
) -> (r: Result<Option<AiOpenAiCompatibleProfileInput>, AiError>)
    ensures
        r is Ok <==> match *stored {
            StoredProviderDataPolicy::Empty => true,
            StoredProviderDataPolicy::OpenAiCompatible { version, profile } => openai_compatible_kind
                && version == OPENAI_COMPATIBLE_DATA_POLICY_VERSION && compatible_profile_ok(
                profile.retention@,
                profile.custom_tools,
                profile.parallel_tool_calls,
            ),
            StoredProviderDataPolicy::Malformed => false,
        },
        r matches Ok(v) ==> match *stored {
            StoredProviderDataPolicy::OpenAiCompatible { version, profile } => v matches Some(p)
                && p.retention@ == profile.retention@ && p.custom_tools == profile.custom_tools
                && p.parallel_tool_calls == profile.parallel_tool_calls && p.structured_output
                == profile.structured_output && p.provider_retained_continuation
                == profile.provider_retained_continuation,
            _ => v is None,
        },
        r matches Err(e) ==> e is InvalidConfiguration,
{
    match stored {
        StoredProviderDataPolicy::Empty => Ok(None),
        StoredProviderDataPolicy::Malformed => {
            if openai_compatible_kind {
                Err(
                    AiError::InvalidConfiguration(
                        "invalid OpenAI-compatible provider data policy".to_string(),
                    ),
                )
            } else {
                Err(AiError::InvalidConfiguration("unexpected provider data policy".to_string()))
            }
        },
        StoredProviderDataPolicy::OpenAiCompatible { version, profile } => {
            if !openai_compatible_kind {
                return Err(
                    AiError::InvalidConfiguration("unexpected provider data policy".to_string()),
                );
            }
            if *version != OPENAI_COMPATIBLE_DATA_POLICY_VERSION {
                return Err(
                    AiError::InvalidConfiguration(
                        "unsupported OpenAI-compatible provider data-policy version".to_string(),
                    ),
                );
            }
            match validate_compatible_profile(
                profile.retention.as_str(),
                profile.custom_tools,
                profile.parallel_tool_calls,
            ) {
                Ok(()) => {},
                Err(message) => {
                    return Err(AiError::InvalidConfiguration(message));
                },
            }
            Ok(
                Some(
                    AiOpenAiCompatibleProfileInput {
                        retention: profile.retention.clone(),
                        custom_tools: profile.custom_tools,
                        parallel_tool_calls: profile.parallel_tool_calls,
                        structured_output: profile.structured_output,
                        provider_retained_continuation: profile.provider_retained_continuation,
                    },
                ),
            )
        },
    }
}

/// What the `url` crate's parser reports of an endpoint.
#[derive(Clone, Debug)]
pub struct ParsedEndpoint {
    /// Scheme.
    pub scheme: String,
    /// Host, when there is one.
    pub host: Option<String>,
    /// User name (empty when absent).
    pub username: String,
    /// Password, when there is one.
    pub password: Option<String>,
    /// Query, when there is one.
    pub query: Option<String>,
    /// Fragment, when there is one.
    pub fragment: Option<String>,
    /// The URL's serialization.
    pub serialization: String,
}

/// The parsed components as plain values.
pub open spec fn endpoint_components(p: ParsedEndpoint) -> (
    Seq<char>,
    Option<Seq<char>>,
    Seq<char>,
    Option<Seq<char>>,
    Option<Seq<char>>,
    Option<Seq<char>>,
    Seq<char>,
) {
    (
        p.scheme@,
        opt_text_of(p.host),
        p.username@,
        opt_text_of(p.password),
        opt_text_of(p.query),
        opt_text_of(p.fragment),
        p.serialization@,
    )
}

/// The text of an optional string.
pub open spec fn opt_text_of(o: Option<String>) -> Option<Seq<char>> {
    match o {
        Some(s) => Some(s@),
        None => None,
    }
}

/// What `url::Url::parse` reports for an input, or `None` when it rejects it.
pub uninterp spec fn url_parse(input: Seq<char>) -> Option<
    (
        Seq<char>,
        Option<Seq<char>>,
        Seq<char>,
        Option<Seq<char>>,
        Option<Seq<char>>,
        Option<Seq<char>>,
        Seq<char>,
    ),
>;

/// Calls `url::Url::parse` and reads back the scheme, host, user name,
/// password, query, fragment, and serialization. Claimed: the components are
/// those named by `url_parse` for the input, and a rejected input is `None`
/// exactly when `url_parse` names none.
#[verifier::external_body]
fn parse_endpoint(input: &str) -> (r: Option<ParsedEndpoint>)
    ensures
        r matches Some(p) ==> url_parse(input@) == Some(endpoint_components(p)),
        r is None <==> url_parse(input@) is None,
{
    let url = match url::Url::parse(input) {
        Ok(url) => url,
        Err(_) => return None,
    };
    Some(ParsedEndpoint {
        scheme: url.scheme().to_string(),
        host: url.host_str().map(str::to_string),
        username: url.username().to_string(),
        password: url.password().map(str::to_string),
        query: url.query().map(str::to_string),
        fragment: url.fragment().map(str::to_string),
        serialization: url.as_str().to_string(),
    })
}

/// A parsed endpoint is safe: HTTP(S), a host, no credentials, no query, no
/// fragment.
pub open spec fn endpoint_safe(
    c: (
        Seq<char>,
        Option<Seq<char>>,
        Seq<char>,
        Option<Seq<char>>,
        Option<Seq<char>>,
        Option<Seq<char>>,
        Seq<char>,
    ),
) -> bool {
    &&& (c.0 == "http"@ || c.0 == "https"@)
    &&& c.1 is Some
    &&& c.2.len() == 0
    &&& c.3 is None
    &&& c.4 is None
    &&& c.5 is None
}

/// The endpoint a provider profile stores, before the deployment's endpoint
/// policy is asked: native kinds take none; configurable kinds need a
/// present, parseable, safe endpoint, stored in its serialized form.
pub open spec fn endpoint_candidate_spec(configurable: bool, base_url: Option<Seq<char>>) -> Option<
    Option<Seq<char>>,
> {
    if !configurable {
        if base_url is None {
            Some(None)
        } else {
            None
        }
    } else {
        match base_url {
            None => None,
            Some(raw) => {
                let t = trimmed(raw);
                if t.len() == 0 {
                    None
                } else {
                    match url_parse(t) {
                        None => None,
                        Some(c) => if endpoint_safe(c) {
                            Some(Some(c.6))
                        } else {
                            None
                        },
                    }
                }
            },
        }
    }
}

/// Normalizes a provider endpoint up to the deployment policy decision.
pub fn normalize_endpoint_candidate(configurable: bool, base_url: Option<&str>) -> (r: Result<
    Option<String>,
    AiError,
>)
    ensures
        r is Ok <==> endpoint_candidate_spec(configurable, opt_str(base_url)) is Some,
        r matches Ok(v) ==> Some(opt_text_of(v)) == endpoint_candidate_spec(
            configurable,
            opt_str(base_url),
        ),
        r matches Err(e) ==> e is InvalidInput,
{
    if !configurable {
        return match base_url {
            None => Ok(None),
            Some(_) => Err(
                AiError::InvalidInput("native provider endpoints are deployment-fixed".to_string()),
            ),
        };
    }
    let raw = match base_url {
        Some(raw) => trim_text(raw),
        None => {
            return Err(AiError::InvalidInput("provider endpoint is required".to_string()));
        },
    };
    if raw.unicode_len() == 0 {
        return Err(AiError::InvalidInput("provider endpoint is required".to_string()));
    }
    let parsed = match parse_endpoint(raw.as_str()) {
        Some(p) => p,
        None => {
            return Err(AiError::InvalidInput("invalid provider endpoint".to_string()));
        },
    };
    let scheme_ok = same_text(parsed.scheme.as_str(), "http") || same_text(
        parsed.scheme.as_str(),
        "https",
    );
    if !scheme_ok || parsed.host.is_none() || parsed.username.unicode_len() != 0
        || parsed.password.is_some() || parsed.query.is_some() || parsed.fragment.is_some() {
        return Err(AiError::InvalidInput("unsafe provider endpoint".to_string()));
    }
    Ok(Some(parsed.serialization))
}

/// The text of an optional string slice.
pub open spec fn opt_str(o: Option<&str>) -> Option<Seq<char>> {
    match o {
        Some(s) => Some(s@),
        None => None,
    }
}

/// Applies the deployment's endpoint decision to a normalized endpoint: an
/// endpoint the policy refuses is forbidden; no endpoint needs no decision.
pub fn authorize_normalized_endpoint(candidate: Option<String>, endpoint_authorized: bool) -> (r:
    Result<Option<String>, AiError>)
    ensures
        candidate is None ==> r == Ok::<Option<String>, AiError>(None),
        candidate is Some && endpoint_authorized ==> r == Ok::<Option<String>, AiError>(candidate),
        candidate is Some && !endpoint_authorized ==> (r matches Err(e) && e is Forbidden),
{
    match candidate {
        None => Ok(None),
        Some(endpoint) => {
            if endpoint_authorized {
                Ok(Some(endpoint))
            } else {
                Err(AiError::Forbidden)
            }
        },
    }
}

/// The state a content-protection policy is written in.
#[derive(Clone, Copy, Debug, PartialEq, Eq, Structural)]
pub struct AiContentProtectionState {
    /// Mode.
    pub protection_mode: AiContentProtectionMode,
    /// Whether protected content may be read and written under it now.
    pub ready: bool,
    /// Whether its key migration is done.
    pub migration_ready: bool,
}

/// Decides the state written for a requested mode: database-managed mode
/// takes no key policy and is ready at once; application encryption needs a
/// key policy and starts pending.
pub fn content_protection_state(mode: AiContentProtectionMode, key_policy_present: bool) -> (r:
    Result<AiContentProtectionState, AiError>)
    ensures
        r is Ok <==> (mode is DatabaseManaged) != key_policy_present,
        r matches Ok(state) ==> state.protection_mode == mode && state.ready == (
        mode is DatabaseManaged) && state.migration_ready == state.ready,
        r matches Err(e) ==> e is InvalidInput,
{
    let database_managed = match mode {
        AiContentProtectionMode::DatabaseManaged => true,
        AiContentProtectionMode::ApplicationEncrypted => false,
    };
    if database_managed == key_policy_present {
        return Err(
            AiError::InvalidInput("content-protection key policy does not match mode".to_string()),
        );
    }
    Ok(
        AiContentProtectionState {
            protection_mode: mode,
            ready: database_managed,
            migration_ready: database_managed,
        },
    )
}

/// The stored migration state of a policy.
pub fn migration_state_value(migration_ready: bool) -> (r: &'static str)
    ensures
        migration_ready ==> r@ == "ready"@,
        !migration_ready ==> r@ == "pending"@,
{
    if migration_ready {
        "ready"
    } else {
        "pending"
    }
}

/// Whether a stored content-protection policy is reported ready: its flag
/// is set and its migration state is `ready`.
pub fn content_policy_ready(ready: bool, migration_state: &str) -> (r: bool)
    ensures
        r == (ready && migration_state@ == "ready"@),
{
    ready && same_text(migration_state, "ready")
}

/// How a once-per-scope policy is written.
#[derive(Clone, Copy, Debug, PartialEq, Eq, Structural)]
pub enum SingletonPolicyWrite {
    /// Insert the scope's policy.
    Create,
    /// Compare-and-swap the existing policy with this id at this version.
    Update(u128, i64),
}

/// The write for the scope's existing policies and an expected version.
pub open spec fn singleton_write_spec(existing: Seq<u128>, expected_version: Option<i64>) -> Option<
    SingletonPolicyWrite,
> {
    if existing.len() == 0 && expected_version is None {
        Some(SingletonPolicyWrite::Create)
    } else if existing.len() == 1 && expected_version is Some {
        Some(SingletonPolicyWrite::Update(existing[0], expected_version->0))
    } else {
        None
    }
}

/// Chooses how a once-per-scope policy is written from the policies found
/// for the scope (at most two are read): more than one is a broken
/// invariant; a create expects none and gives no version, an update expects
/// exactly one and gives its version; anything else is a conflict.
pub fn singleton_policy_write(existing: &[u128], expected_version: Option<i64>) -> (r: Result<
    SingletonPolicyWrite,
    AiError,
>)
    ensures
        existing@.len() > 1 ==> (r matches Err(e) && e is PersistenceFailed),
        existing@.len() <= 1 ==> (r is Ok <==> singleton_write_spec(existing@, expected_version) is Some),
        r matches Ok(w) ==> singleton_write_spec(existing@, expected_version) == Some(w),
        existing@.len() <= 1 && r is Err ==> (r matches Err(e) && e is Conflict),
{
    if existing.len() > 1 {
        return Err(AiError::PersistenceFailed);
    }
    if existing.len() == 0 {
        return match expected_version {
            None => Ok(SingletonPolicyWrite::Create),
            Some(_) => Err(AiError::Conflict),
        };
    }
    match expected_version {
        Some(v) => Ok(SingletonPolicyWrite::Update(existing[0], v)),
        None => Err(AiError::Conflict),
    }
}

/// Normalizes a provider display name: trimmed, present, at most 200 UTF-8
/// bytes.
pub fn normalize_display_name(display_name: &str) -> (r: Result<String, AiError>)
    ensures
        r is Ok <==> trimmed(display_name@).len() > 0 && byte_len(trimmed(display_name@)) <= 200,
        r matches Ok(n) ==> n@ == trimmed(display_name@),
        r matches Err(e) ==> e is InvalidInput,
{
    let name = trim_text(display_name);
    if name.unicode_len() == 0 || utf8_len(name.as_str()) > 200 {
        return Err(AiError::InvalidInput("invalid provider display name".to_string()));
    }
    Ok(name)
}

/// How a provider-profile upsert writes.
#[derive(Clone, Copy, Debug, PartialEq, Eq, Structural)]
pub enum ProviderProfileWrite {
    /// Insert a new profile without a credential.
    Create,
    /// Compare-and-swap the profile with this id at this version.
    Update(u128, i64),
}

/// Chooses how a provider-profile upsert writes: both id and version for an
/// update, neither for a create; a mix is invalid input.
pub fn provider_profile_write(id: Option<u128>, expected_version: Option<i64>) -> (r: Result<
    ProviderProfileWrite,
    AiError,
>)
    ensures
        (id is None && expected_version is None) ==> r matches Ok(ProviderProfileWrite::Create),
        (id is Some && expected_version is Some) ==> (r matches Ok(
            ProviderProfileWrite::Update(i, v),
        ) && Some(i) == id && Some(v) == expected_version),
        (id is Some) != (expected_version is Some) ==> (r matches Err(e) && e is InvalidInput),
{
    match (id, expected_version) {
        (None, None) => Ok(ProviderProfileWrite::Create),
        (Some(i), Some(v)) => Ok(ProviderProfileWrite::Update(i, v)),
        _ => Err(AiError::InvalidInput("invalid provider profile identity".to_string())),
    }
}

/// Checks an update of an existing profile: it must belong to the exact
/// scope (else a conflict), and a local-harness profile may not keep a
/// credential (else invalid input).
pub fn check_provider_profile_update(
    current_scope_key: &str,
    scope_key: &str,
    local_harness: bool,
    credential_configured: bool,
) -> (r: Result<(), AiError>)
    ensures
        current_scope_key@ != scope_key@ ==> (r matches Err(e) && e is Conflict),
        current_scope_key@ == scope_key@ && local_harness && credential_configured ==> (r matches Err(
            e,
        ) && e is InvalidInput),
        r is Ok <==> current_scope_key@ == scope_key@ && !(local_harness && credential_configured),
{
    if !same_text(current_scope_key, scope_key) {
        return Err(AiError::Conflict);
    }
    if local_harness && credential_configured {
        return Err(
            AiError::InvalidInput("a local harness profile takes no credential".to_string()),
        );
    }
    Ok(())
}

/// A change of a provider profile's stored credential.
#[derive(Clone, Copy, Debug, PartialEq, Eq, Structural)]
pub enum ProviderCredentialChange {
    /// Store a new credential, rotating out any previous one.
    Store,
    /// Remove the stored credential.
    Remove,
}

/// Checks a credential change against the stored profile: a local-harness
/// profile accepts no credential (invalid input), and the version the caller
/// observed must still be current (else a conflict).
pub fn check_provider_credential_change(
    change: ProviderCredentialChange,
    local_harness: bool,
    row_version: i64,
    expected_version: i64,
) -> (r: Result<(), AiError>)
    ensures
        change == ProviderCredentialChange::Store && local_harness ==> (r matches Err(e)
            && e is InvalidInput),
        !(change == ProviderCredentialChange::Store && local_harness) && row_version
            != expected_version ==> (r matches Err(e) && e is Conflict),
        r is Ok <==> !(change == ProviderCredentialChange::Store && local_harness) && row_version
            == expected_version,
{
    if change == ProviderCredentialChange::Store && local_harness {
        return Err(
            AiError::InvalidInput(
                "local-harness profiles do not accept provider credentials".to_string(),
            ),
        );
    }
    if row_version != expected_version {
        return Err(AiError::Conflict);
    }
    Ok(())
}

/// The audit action and reason code a credential change records; the reason
/// also marks the cleanup queued for a previous secret.
pub open spec fn credential_audit_names(change: ProviderCredentialChange) -> (Seq<char>, Seq<char>) {
    match change {
        ProviderCredentialChange::Store => ("ai.provider_credential.set"@, "credential_rotated"@),
        ProviderCredentialChange::Remove => ("ai.provider_credential.remove"@, "credential_removed"@),
    }
}

/// The audit action and reason code of a credential change.
pub fn credential_audit_fact(change: ProviderCredentialChange) -> (r: (&'static str, &'static str))
    ensures
        (r.0@, r.1@) == credential_audit_names(change),
{
    match change {
        ProviderCredentialChange::Store => ("ai.provider_credential.set", "credential_rotated"),
        ProviderCredentialChange::Remove => ("ai.provider_credential.remove", "credential_removed"),
    }
}

} // verus!
