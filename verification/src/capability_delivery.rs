//! Provider-neutral capability delivery: mode selection, exact initial tool
//! surfaces, the frozen broker definitions, and retained session bindings.

use vstd::prelude::*;

use crate::digest::{
    fingerprint_text, is_sha256_hex, json_quoted, json_string, lemma_json_quoted_injective,
    text_fingerprint, valid_sha256,
};
use crate::error::AiError;
use crate::text::{
    byte_len, contains_control, has_control, holds_text, same_text, sorted_unique_texts,
    strictly_sorted_texts, text_lt, utf8_len,
};
use crate::tools::{
    definition_valid, is_alias_char, sort_by_tool_id, sorted_by_tool_id, unique_provider_names, unique_tool_ids,
    valid_provider_name, ModelToolDefinition,
};

verus! {

/// Frozen broker tool identifier for bounded capability discovery.
pub const AI_CAPABILITY_DISCOVER_TOOL_ID: &'static str = "graphql.capabilities.discover";

/// Frozen broker tool identifier for loading one exact capability contract.
pub const AI_CAPABILITY_DESCRIBE_TOOL_ID: &'static str = "graphql.capabilities.describe";

/// Frozen broker tool identifier for executing one loaded exact capability.
pub const AI_CAPABILITY_EXECUTE_TOOL_ID: &'static str = "graphql.capabilities.execute";

/// Current broker request/response envelope version.
pub const AI_CAPABILITY_BROKER_VERSION: u16 = 1;

/// Capability-definition delivery strategy selected by the coordinator.
#[derive(Clone, Copy, Debug, PartialEq, Eq, Structural, Hash, PartialOrd, Ord)]
pub enum AiCapabilityDeliveryMode {
    /// Send a small exact definition set eagerly.
    EagerExact,
    /// Start with discovery and install selected definitions on continuation.
    ClientDeferred,
    /// Use a reviewed provider-native search/deferred-loading representation.
    ProviderDeferred,
    /// Keep a frozen discovery/describe/execute broker for the full session.
    FixedBroker,
}

/// The `snake_case` name a delivery mode serializes as.
pub open spec fn mode_name(mode: AiCapabilityDeliveryMode) -> Seq<char> {
    match mode {
        AiCapabilityDeliveryMode::EagerExact => "eager_exact"@,
        AiCapabilityDeliveryMode::ClientDeferred => "client_deferred"@,
        AiCapabilityDeliveryMode::ProviderDeferred => "provider_deferred"@,
        AiCapabilityDeliveryMode::FixedBroker => "fixed_broker"@,
    }
}

impl AiCapabilityDeliveryMode {
    /// The `snake_case` wire name of this mode.
    pub fn as_str(self) -> (r: &'static str)
        ensures
            r@ == mode_name(self),
    {
        match self {
            AiCapabilityDeliveryMode::EagerExact => "eager_exact",
            AiCapabilityDeliveryMode::ClientDeferred => "client_deferred",
            AiCapabilityDeliveryMode::ProviderDeferred => "provider_deferred",
            AiCapabilityDeliveryMode::FixedBroker => "fixed_broker",
        }
    }
}

/// Deployment bounds used when selecting a capability delivery strategy.
#[derive(Clone, Copy, Debug, PartialEq, Eq, Structural)]
pub struct AiCapabilityDeliveryLimits {
    /// Maximum definitions admitted into eager mode.
    pub maximum_eager_definitions: u16,
    /// Maximum canonical definition bytes admitted into eager mode.
    pub maximum_eager_definition_bytes: u32,
    /// Maximum exact definitions installed after one discovery continuation.
    pub maximum_deferred_definitions: u16,
    /// Maximum bounded discovery results retained per fenced run.
    pub maximum_retained_searches: u16,
    /// Maximum short-lived loaded bindings retained per fenced run.
    pub maximum_loaded_bindings: u16,
    /// Maximum canonical bytes in one describe planning contract.
    pub maximum_describe_bytes: u32,
}

fn default_maximum_retained_searches() -> (r: u16)
    ensures
        r == 4,
{
    4
}

fn default_maximum_loaded_bindings() -> (r: u16)
    ensures
        r == 16,
{
    16
}

fn default_maximum_describe_bytes() -> (r: u32)
    ensures
        r == 512 * 1024,
{
    512 * 1024
}

impl Default for AiCapabilityDeliveryLimits {
    fn default() -> (r: Self)
        ensures
            r.maximum_eager_definitions == 16,
            r.maximum_eager_definition_bytes == 256 * 1024,
            r.maximum_deferred_definitions == 8,
            r.maximum_retained_searches == 4,
            r.maximum_loaded_bindings == 16,
            r.maximum_describe_bytes == 512 * 1024,
    {
        AiCapabilityDeliveryLimits {
            maximum_eager_definitions: 16,
            maximum_eager_definition_bytes: 256 * 1024,
            maximum_deferred_definitions: 8,
            maximum_retained_searches: default_maximum_retained_searches(),
            maximum_loaded_bindings: default_maximum_loaded_bindings(),
            maximum_describe_bytes: default_maximum_describe_bytes(),
        }
    }
}

/// A limit set that can represent a complete discover/describe/execute
/// broker interaction within the compiled ceilings.
pub open spec fn limits_valid(l: AiCapabilityDeliveryLimits) -> bool {
    &&& l.maximum_eager_definitions != 0
    &&& l.maximum_eager_definition_bytes != 0
    &&& l.maximum_deferred_definitions != 0
    &&& l.maximum_deferred_definitions <= l.maximum_loaded_bindings
    &&& l.maximum_retained_searches != 0
    &&& l.maximum_retained_searches <= 64
    &&& l.maximum_loaded_bindings != 0
    &&& l.maximum_loaded_bindings <= 256
    &&& 1024 <= l.maximum_describe_bytes
    &&& l.maximum_describe_bytes <= 4 * 1024 * 1024
}

/// A configuration error with exactly this message.
pub open spec fn configuration_error(e: AiError, message: Seq<char>) -> bool {
    e matches AiError::InvalidConfiguration(m) && m@ == message
}

impl AiCapabilityDeliveryLimits {
    /// Rejects a limit set that cannot represent a complete
    /// discover/describe/execute broker interaction.
    pub fn validate(self) -> (r: Result<(), AiError>)
        ensures
            r is Ok <==> limits_valid(self),
            r matches Err(e) ==> configuration_error(e, "capability delivery limits are invalid"@),
    {
        if self.maximum_eager_definitions == 0 || self.maximum_eager_definition_bytes == 0
            || self.maximum_deferred_definitions == 0 || self.maximum_deferred_definitions
            > self.maximum_loaded_bindings || self.maximum_retained_searches == 0
            || self.maximum_retained_searches > 64 || self.maximum_loaded_bindings == 0
            || self.maximum_loaded_bindings > 256 || self.maximum_describe_bytes < 1_024
            || self.maximum_describe_bytes > 4 * 1_024 * 1_024 {
            return Err(
                AiError::InvalidConfiguration("capability delivery limits are invalid".to_string()),
            );
        }
        Ok(())
    }
}

/// Coordinator-selected exact capability delivery decision.
#[derive(Clone, Copy, Debug, PartialEq, Eq, Structural)]
pub struct AiCapabilityDeliveryDecision {
    /// Selected reviewed mode.
    pub mode: AiCapabilityDeliveryMode,
}

impl View for AiCapabilityDeliveryDecision {
    type V = AiCapabilityDeliveryMode;

    closed spec fn view(&self) -> AiCapabilityDeliveryMode {
        self.mode
    }
}

impl AiCapabilityDeliveryDecision {
    /// Selected reviewed mode.
    pub fn mode(self) -> (r: AiCapabilityDeliveryMode)
        ensures
            r == self@,
    {
        self.mode
    }
}

/// Exact initial tool surface produced for one coordinator-selected mode.
#[derive(Clone, Debug)]
pub struct AiCapabilityDeliverySurface {
    mode: AiCapabilityDeliveryMode,
    tools: Vec<ModelToolDefinition>,
}

impl View for AiCapabilityDeliverySurface {
    type V = (AiCapabilityDeliveryMode, Seq<ModelToolDefinition>);

    closed spec fn view(&self) -> (AiCapabilityDeliveryMode, Seq<ModelToolDefinition>) {
        (self.mode, self.tools@)
    }
}

impl AiCapabilityDeliverySurface {
    /// The surface of a run-owned delivery turn.
    pub(crate) fn from_parts(mode: AiCapabilityDeliveryMode, tools: Vec<ModelToolDefinition>) -> (r: Self)
        ensures
            r@ == (mode, tools@),
    {
        AiCapabilityDeliverySurface { mode, tools }
    }

    /// Selected mode.
    pub fn mode(&self) -> (r: AiCapabilityDeliveryMode)
        ensures
            r == self@.0,
    {
        self.mode
    }

    /// Exact initial provider definitions. Client-deferred mode contains only
    /// discovery; provider-deferred mode contains filtered definitions marked
    /// for native deferred loading.
    pub fn tools(&self) -> (r: &[ModelToolDefinition])
        ensures
            r@ == self@.1,
    {
        self.tools.as_slice()
    }
}

/// Reviewed provider declarations relevant to capability delivery.
#[derive(Clone, Debug)]
pub struct ProviderCapabilities {
    /// Whether the provider accepts custom function tools.
    pub custom_tools: bool,
    /// Delivery modes the provider adapter has been reviewed for.
    pub capability_delivery_modes: Vec<AiCapabilityDeliveryMode>,
}

impl Default for ProviderCapabilities {
    fn default() -> (r: Self)
        ensures
            !r.custom_tools,
            r.capability_delivery_modes@.len() == 0,
    {
        ProviderCapabilities { custom_tools: false, capability_delivery_modes: Vec::new() }
    }
}

fn supports(provider: &ProviderCapabilities, mode: AiCapabilityDeliveryMode) -> (r: bool)
    ensures
        r == provider.capability_delivery_modes@.contains(mode),
{
    let mut i: usize = 0;
    while i < provider.capability_delivery_modes.len()
        invariant
            i <= provider.capability_delivery_modes@.len(),
            forall|j: int| 0 <= j < i ==> provider.capability_delivery_modes@[j] != mode,
        decreases provider.capability_delivery_modes@.len() - i,
    {
        let candidate = provider.capability_delivery_modes[i];
        if candidate == mode {
            assert(provider.capability_delivery_modes@[i as int] == mode);
            return true;
        }
        i = i + 1;
    }
    false
}

/// The safest admissible delivery mode for a provider's declared modes and
/// the exact definition size; `None` when no declared mode can represent it.
pub open spec fn admissible_mode(
    supported: Seq<AiCapabilityDeliveryMode>,
    exact_definition_count: usize,
    exact_definition_bytes: usize,
    retained_definitions_frozen: bool,
    limits: AiCapabilityDeliveryLimits,
) -> Option<AiCapabilityDeliveryMode> {
    let eager_fits = exact_definition_count <= limits.maximum_eager_definitions
        && exact_definition_bytes <= limits.maximum_eager_definition_bytes;
    if retained_definitions_frozen && supported.contains(AiCapabilityDeliveryMode::FixedBroker) {
        Some(AiCapabilityDeliveryMode::FixedBroker)
    } else if eager_fits && supported.contains(AiCapabilityDeliveryMode::EagerExact) {
        Some(AiCapabilityDeliveryMode::EagerExact)
    } else if supported.contains(AiCapabilityDeliveryMode::ProviderDeferred) {
        Some(AiCapabilityDeliveryMode::ProviderDeferred)
    } else if !retained_definitions_frozen && supported.contains(
        AiCapabilityDeliveryMode::ClientDeferred,
    ) {
        Some(AiCapabilityDeliveryMode::ClientDeferred)
    } else if supported.contains(AiCapabilityDeliveryMode::FixedBroker) {
        Some(AiCapabilityDeliveryMode::FixedBroker)
    } else {
        None
    }
}

/// Law: the selected mode is always one the provider declared; exact
/// eager delivery is selected only when the exact definitions fit both eager
/// bounds (count and bytes); a frozen retained surface never gets
/// client-deferred delivery; and a frozen surface of a provider declaring a
/// fixed broker always gets it.
pub proof fn lemma_admissible_mode_respects_declarations_and_bounds(
    supported: Seq<AiCapabilityDeliveryMode>,
    exact_definition_count: usize,
    exact_definition_bytes: usize,
    retained_definitions_frozen: bool,
    limits: AiCapabilityDeliveryLimits,
)
    ensures
        admissible_mode(
            supported,
            exact_definition_count,
            exact_definition_bytes,
            retained_definitions_frozen,
            limits,
        ) matches Some(mode) ==> supported.contains(mode),
        admissible_mode(
            supported,
            exact_definition_count,
            exact_definition_bytes,
            retained_definitions_frozen,
            limits,
        ) == Some(AiCapabilityDeliveryMode::EagerExact) ==> exact_definition_count
            <= limits.maximum_eager_definitions && exact_definition_bytes
            <= limits.maximum_eager_definition_bytes,
        retained_definitions_frozen ==> admissible_mode(
            supported,
            exact_definition_count,
            exact_definition_bytes,
            retained_definitions_frozen,
            limits,
        ) != Some(AiCapabilityDeliveryMode::ClientDeferred),
        !(retained_definitions_frozen && supported.contains(AiCapabilityDeliveryMode::FixedBroker))
            && supported.contains(AiCapabilityDeliveryMode::EagerExact) && exact_definition_count
            <= limits.maximum_eager_definitions && exact_definition_bytes
            <= limits.maximum_eager_definition_bytes ==> admissible_mode(
            supported,
            exact_definition_count,
            exact_definition_bytes,
            retained_definitions_frozen,
            limits,
        ) == Some(AiCapabilityDeliveryMode::EagerExact),
        retained_definitions_frozen && supported.contains(AiCapabilityDeliveryMode::FixedBroker)
            ==> admissible_mode(
            supported,
            exact_definition_count,
            exact_definition_bytes,
            retained_definitions_frozen,
            limits,
        ) == Some(AiCapabilityDeliveryMode::FixedBroker),
        admissible_mode(
            supported,
            exact_definition_count,
            exact_definition_bytes,
            retained_definitions_frozen,
            limits,
        ) is None <==> !(supported.contains(AiCapabilityDeliveryMode::FixedBroker)
            || supported.contains(AiCapabilityDeliveryMode::ProviderDeferred) || (
        supported.contains(AiCapabilityDeliveryMode::EagerExact) && exact_definition_count
            <= limits.maximum_eager_definitions && exact_definition_bytes
            <= limits.maximum_eager_definition_bytes) || (!retained_definitions_frozen
            && supported.contains(AiCapabilityDeliveryMode::ClientDeferred))),
{
}

/// Selects the safest admissible delivery mode from provider declarations and
/// exact definition size. Prompt text cannot influence this decision.
pub fn select_capability_delivery_mode(
    provider: &ProviderCapabilities,
    exact_definition_count: usize,
    exact_definition_bytes: usize,
    retained_definitions_frozen: bool,
    limits: AiCapabilityDeliveryLimits,
) -> (r: Result<AiCapabilityDeliveryDecision, AiError>)
    ensures
        !limits_valid(limits) ==> r is Err,
        limits_valid(limits) ==> match admissible_mode(
            provider.capability_delivery_modes@,
            exact_definition_count,
            exact_definition_bytes,
            retained_definitions_frozen,
            limits,
        ) {
            Some(mode) => r matches Ok(d) && d@ == mode,
            None => r is Err,
        },
        !limits_valid(limits) ==> (r matches Err(e) && configuration_error(
            e,
            "capability delivery limits are invalid"@,
        )),
        limits_valid(limits) ==> (r matches Err(e) ==> configuration_error(
            e,
            "provider has no admissible capability delivery mode"@,
        )),
        r matches Ok(d) ==> provider.capability_delivery_modes@.contains(d@),
        r matches Ok(d) && d@ == AiCapabilityDeliveryMode::EagerExact ==> exact_definition_count
            <= limits.maximum_eager_definitions && exact_definition_bytes
            <= limits.maximum_eager_definition_bytes,
        match delivery_mode_step(
            provider.capability_delivery_modes@,
            exact_definition_count,
            exact_definition_bytes,
            retained_definitions_frozen,
            limits,
        ) {
            Ok(mode) => r matches Ok(d) && d@ == mode,
            Err(message) => failed_with(r, message),
        },
{
    limits.validate()?;
    let eager_fits = exact_definition_count <= limits.maximum_eager_definitions as usize
        && exact_definition_bytes <= limits.maximum_eager_definition_bytes as usize;
    let selected = if retained_definitions_frozen && supports(
        provider,
        AiCapabilityDeliveryMode::FixedBroker,
    ) {
        Some(AiCapabilityDeliveryMode::FixedBroker)
    } else if eager_fits && supports(provider, AiCapabilityDeliveryMode::EagerExact) {
        Some(AiCapabilityDeliveryMode::EagerExact)
    } else if supports(provider, AiCapabilityDeliveryMode::ProviderDeferred) {
        Some(AiCapabilityDeliveryMode::ProviderDeferred)
    } else if !retained_definitions_frozen && supports(
        provider,
        AiCapabilityDeliveryMode::ClientDeferred,
    ) {
        Some(AiCapabilityDeliveryMode::ClientDeferred)
    } else if supports(provider, AiCapabilityDeliveryMode::FixedBroker) {
        Some(AiCapabilityDeliveryMode::FixedBroker)
    } else {
        None
    };
    match selected {
        Some(mode) => Ok(AiCapabilityDeliveryDecision { mode }),
        None => Err(
            AiError::InvalidConfiguration(
                "provider has no admissible capability delivery mode".to_string(),
            ),
        ),
    }
}

/// Canonical parameter schema of the discovery broker tool.
pub const DISCOVER_PARAMETERS: &'static str = "{\"additionalProperties\":false,\"properties\":{\"entityOrClass\":{\"maxLength\":256,\"type\":[\"string\",\"null\"]},\"kind\":{\"enum\":[\"generated_query\",null],\"type\":[\"string\",\"null\"]},\"maximumResults\":{\"maximum\":32,\"minimum\":1,\"type\":\"integer\"},\"namespace\":{\"maxLength\":256,\"type\":[\"string\",\"null\"]},\"text\":{\"maxLength\":1024,\"type\":\"string\"}},\"required\":[\"text\",\"namespace\",\"kind\",\"entityOrClass\",\"maximumResults\"],\"type\":\"object\"}";

/// Canonical parameter schema of the describe broker tool.
pub const DESCRIBE_PARAMETERS: &'static str = "{\"additionalProperties\":false,\"properties\":{\"candidateFingerprint\":{\"maxLength\":64,\"minLength\":64,\"type\":\"string\"},\"capabilityId\":{\"maxLength\":200,\"type\":\"string\"}},\"required\":[\"capabilityId\",\"candidateFingerprint\"],\"type\":\"object\"}";

/// Canonical parameter schema of the execute broker tool.
pub const EXECUTE_PARAMETERS: &'static str = "{\"additionalProperties\":false,\"properties\":{\"arguments\":{\"description\":\"Optional root arguments admitted by planSchema.arguments. Flatten each supplied scalar leaf into one name/value entry using its dotted public path; omit this array when no root argument is needed.\",\"items\":{\"additionalProperties\":false,\"properties\":{\"name\":{\"description\":\"Exact dotted public argument path admitted by planSchema.arguments.\",\"maxLength\":256,\"minLength\":1,\"type\":\"string\"},\"value\":{\"description\":\"Scalar value for the exact argument path.\",\"type\":[\"string\",\"integer\",\"number\",\"boolean\",\"null\"]}},\"required\":[\"name\",\"value\"],\"type\":\"object\"},\"maxItems\":64,\"type\":\"array\"},\"loadedReference\":{\"description\":\"Exact loadedReference returned by the matching describe call.\",\"maxLength\":64,\"minLength\":64,\"type\":\"string\"},\"maximumItems\":{\"description\":\"Optional root result bound. Supply a positive value only when planSchema exposes maximumItems; otherwise omit it.\",\"maximum\":10000,\"minimum\":1,\"type\":[\"integer\",\"null\"]},\"relationshipArguments\":{\"description\":\"Optional relationship arguments admitted by planSchema.relationshipArguments. Omit when that schema has no applicable relationship argument.\",\"items\":{\"additionalProperties\":false,\"properties\":{\"arguments\":{\"items\":{\"additionalProperties\":false,\"properties\":{\"name\":{\"maxLength\":256,\"minLength\":1,\"type\":\"string\"},\"value\":{\"type\":[\"string\",\"integer\",\"number\",\"boolean\",\"null\"]}},\"required\":[\"name\",\"value\"],\"type\":\"object\"},\"maxItems\":64,\"type\":\"array\"},\"path\":{\"maxLength\":512,\"minLength\":1,\"type\":\"string\"}},\"required\":[\"path\",\"arguments\"],\"type\":\"object\"},\"maxItems\":64,\"type\":\"array\"},\"relationshipMaximumItems\":{\"description\":\"Optional relationship bounds admitted by planSchema.relationshipMaximumItems. Omit when the exact relationship path is not present there.\",\"items\":{\"additionalProperties\":false,\"properties\":{\"maximumItems\":{\"maximum\":10000,\"minimum\":1,\"type\":\"integer\"},\"path\":{\"maxLength\":512,\"minLength\":1,\"type\":\"string\"}},\"required\":[\"path\",\"maximumItems\"],\"type\":\"object\"},\"maxItems\":64,\"type\":\"array\"},\"selections\":{\"description\":\"One or more exact scalar paths copied from planSchema.selections.items.enum.\",\"items\":{\"maxLength\":512,\"type\":\"string\"},\"maxItems\":256,\"type\":\"array\",\"uniqueItems\":true}},\"required\":[\"loadedReference\",\"selections\"],\"type\":\"object\"}";

/// Model-visible description of the discovery broker tool.
pub const DISCOVER_DESCRIPTION: &'static str = "Search the current reviewed GraphQL read-query capability index.";

/// Model-visible description of the describe broker tool.
pub const DESCRIBE_DESCRIPTION: &'static str = "Load one exact current capability and return its bounded public planning contract.";

/// Model-visible description of the execute broker tool.
pub const EXECUTE_DESCRIPTION: &'static str = "Execute one previously loaded exact capability. Copy only fields admitted by the returned planSchema: flatten argument leaves into name/value entries, and omit optional wrapper fields that the planSchema does not expose.";

/// Canonical JSON object whose fingerprint identifies one broker definition:
/// `{"index_fingerprint", "parameters", "tool_id", "version": 1}`.
pub open spec fn broker_fingerprint_text(
    tool_id: Seq<char>,
    index_fingerprint: Seq<char>,
    parameters: Seq<char>,
) -> Seq<char> {
    "{\"index_fingerprint\":"@ + json_quoted(index_fingerprint) + ",\"parameters\":"@ + parameters
        + ",\"tool_id\":"@ + json_quoted(tool_id) + ",\"version\":1}"@
}

/// `d` is the crate-authored broker definition with these exact fields.
pub open spec fn is_broker_definition(
    d: ModelToolDefinition,
    tool_id: Seq<char>,
    provider_name: Seq<char>,
    description: Seq<char>,
    index_fingerprint: Seq<char>,
    parameters: Seq<char>,
) -> bool {
    &&& d.tool_id@ == tool_id
    &&& d.provider_name@ == provider_name
    &&& d.description@ == description
    &&& d.parameters@ == parameters
    &&& d.fingerprint@ == text_fingerprint(
        broker_fingerprint_text(tool_id, index_fingerprint, parameters),
    )
    &&& d.strict
    &&& !d.defer_loading
}

/// The frozen discovery definition for one compact index.
pub open spec fn is_discovery_definition(d: ModelToolDefinition, index_fingerprint: Seq<char>) -> bool {
    is_broker_definition(
        d,
        AI_CAPABILITY_DISCOVER_TOOL_ID@,
        "graphql_capabilities_discover"@,
        DISCOVER_DESCRIPTION@,
        index_fingerprint,
        DISCOVER_PARAMETERS@,
    )
}

/// The frozen describe definition for one compact index.
pub open spec fn is_describe_definition(d: ModelToolDefinition, index_fingerprint: Seq<char>) -> bool {
    is_broker_definition(
        d,
        AI_CAPABILITY_DESCRIBE_TOOL_ID@,
        "graphql_capabilities_describe"@,
        DESCRIBE_DESCRIPTION@,
        index_fingerprint,
        DESCRIBE_PARAMETERS@,
    )
}

/// The frozen execute definition for one compact index.
pub open spec fn is_execute_definition(d: ModelToolDefinition, index_fingerprint: Seq<char>) -> bool {
    is_broker_definition(
        d,
        AI_CAPABILITY_EXECUTE_TOOL_ID@,
        "graphql_capabilities_execute"@,
        EXECUTE_DESCRIPTION@,
        index_fingerprint,
        EXECUTE_PARAMETERS@,
    )
}

/// The three frozen broker definitions, in discover, describe, execute order.
pub open spec fn is_fixed_broker_surface(
    tools: Seq<ModelToolDefinition>,
    index_fingerprint: Seq<char>,
) -> bool {
    &&& tools.len() == 3
    &&& is_discovery_definition(tools[0], index_fingerprint)
    &&& is_describe_definition(tools[1], index_fingerprint)
    &&& is_execute_definition(tools[2], index_fingerprint)
}

fn broker_definition(
    tool_id: &str,
    provider_name: &str,
    description: &str,
    index_fingerprint: &str,
    parameters: &str,
) -> (r: ModelToolDefinition)
    ensures
        is_broker_definition(
            r,
            tool_id@,
            provider_name@,
            description@,
            index_fingerprint@,
            parameters@,
        ),
{
    let mut text = "{\"index_fingerprint\":".to_owned();
    text.append(json_string(index_fingerprint).as_str());
    text.append(",\"parameters\":");
    text.append(parameters);
    text.append(",\"tool_id\":");
    text.append(json_string(tool_id).as_str());
    text.append(",\"version\":1}");
    let fingerprint = fingerprint_text(text.as_str());
    ModelToolDefinition {
        tool_id: tool_id.to_owned(),
        provider_name: provider_name.to_owned(),
        fingerprint,
        description: description.to_owned(),
        parameters: parameters.to_owned(),
        strict: true,
        defer_loading: false,
    }
}

pub(crate) fn discovery_definition(index_fingerprint: &str) -> (r: ModelToolDefinition)
    ensures
        is_discovery_definition(r, index_fingerprint@),
{
    broker_definition(
        AI_CAPABILITY_DISCOVER_TOOL_ID,
        "graphql_capabilities_discover",
        DISCOVER_DESCRIPTION,
        index_fingerprint,
        DISCOVER_PARAMETERS,
    )
}

fn fixed_broker_definitions(index_fingerprint: &str) -> (r: Vec<ModelToolDefinition>)
    ensures
        is_fixed_broker_surface(r@, index_fingerprint@),
{
    let discover = discovery_definition(index_fingerprint);
    let describe = broker_definition(
        AI_CAPABILITY_DESCRIBE_TOOL_ID,
        "graphql_capabilities_describe",
        DESCRIBE_DESCRIPTION,
        index_fingerprint,
        DESCRIBE_PARAMETERS,
    );
    let execute = broker_definition(
        AI_CAPABILITY_EXECUTE_TOOL_ID,
        "graphql_capabilities_execute",
        EXECUTE_DESCRIPTION,
        index_fingerprint,
        EXECUTE_PARAMETERS,
    );
    let mut tools = Vec::new();
    tools.push(discover);
    tools.push(describe);
    tools.push(execute);
    tools
}

/// Returns the three frozen broker definitions for one exact compact index.
///
/// The definitions are crate-authored and deterministic: a host installs them
/// verbatim and cannot widen, rename, or re-fingerprint the broker surface.
pub fn capability_broker_definitions(index_fingerprint: &str) -> (r: Result<
    Vec<ModelToolDefinition>,
    AiError,
>)
    ensures
        r is Ok <==> is_sha256_hex(index_fingerprint@),
        r matches Ok(tools) ==> is_fixed_broker_surface(tools@, index_fingerprint@),
        r matches Err(e) ==> e is InvalidConfiguration,
{
    if !valid_sha256(index_fingerprint) {
        return Err(
            AiError::InvalidConfiguration(
                "capability delivery index fingerprint is invalid".to_string(),
            ),
        );
    }
    Ok(fixed_broker_definitions(index_fingerprint))
}

/// One of the three identifiers reserved for the frozen broker.
pub open spec fn is_reserved_tool_id(id: Seq<char>) -> bool {
    id == AI_CAPABILITY_DISCOVER_TOOL_ID@ || id == AI_CAPABILITY_DESCRIBE_TOOL_ID@ || id
        == AI_CAPABILITY_EXECUTE_TOOL_ID@
}

/// Host-filtered definitions that may form an exact surface: a well-formed
/// index fingerprint, valid definitions, no reserved broker identifier, and
/// no duplicated identifier or provider name.
pub open spec fn surface_input_ok(
    index_fingerprint: Seq<char>,
    definitions: Seq<ModelToolDefinition>,
) -> bool {
    &&& is_sha256_hex(index_fingerprint)
    &&& forall|i: int| 0 <= i < definitions.len() ==> definition_valid(#[trigger] definitions[i])
    &&& forall|i: int|
        0 <= i < definitions.len() ==> !is_reserved_tool_id(#[trigger] definitions[i].tool_id@)
    &&& unique_tool_ids(definitions)
    &&& unique_provider_names(definitions)
}

/// The definition marked for provider-native deferred loading.
pub open spec fn deferred(d: ModelToolDefinition) -> ModelToolDefinition {
    ModelToolDefinition { defer_loading: true, ..d }
}

/// The exact initial tools for a mode over already-validated definitions.
pub open spec fn surface_tools_for(
    mode: AiCapabilityDeliveryMode,
    index_fingerprint: Seq<char>,
    definitions: Seq<ModelToolDefinition>,
    tools: Seq<ModelToolDefinition>,
) -> bool {
    match mode {
        AiCapabilityDeliveryMode::EagerExact => tools.to_multiset() == definitions.to_multiset()
            && sorted_by_tool_id(tools),
        AiCapabilityDeliveryMode::ProviderDeferred => tools.to_multiset() == definitions.map_values(
            |d: ModelToolDefinition| deferred(d),
        ).to_multiset() && sorted_by_tool_id(tools),
        AiCapabilityDeliveryMode::ClientDeferred => tools.len() == 1 && is_discovery_definition(
            tools[0],
            index_fingerprint,
        ),
        AiCapabilityDeliveryMode::FixedBroker => is_fixed_broker_surface(tools, index_fingerprint),
    }
}

fn check_surface_input(index_fingerprint: &str, definitions: &Vec<ModelToolDefinition>) -> (r: bool)
    ensures
        r == surface_input_ok(index_fingerprint@, definitions@),
{
    if !valid_sha256(index_fingerprint) {
        return false;
    }
    let mut i: usize = 0;
    while i < definitions.len()
        invariant
            i <= definitions@.len(),
            is_sha256_hex(index_fingerprint@),
            forall|k: int| 0 <= k < i ==> definition_valid(#[trigger] definitions@[k]),
            forall|k: int| 0 <= k < i ==> !is_reserved_tool_id(#[trigger] definitions@[k].tool_id@),
            forall|a: int, b: int|
                0 <= a < i && 0 <= b < i && a != b ==> #[trigger] definitions@[a].tool_id@
                    != #[trigger] definitions@[b].tool_id@,
            forall|a: int, b: int|
                0 <= a < i && 0 <= b < i && a != b ==> #[trigger] definitions@[a].provider_name@
                    != #[trigger] definitions@[b].provider_name@,
        decreases definitions@.len() - i,
    {
        let d = &definitions[i];
        if d.validate().is_err() {
            return false;
        }
        if same_text(d.tool_id.as_str(), AI_CAPABILITY_DISCOVER_TOOL_ID) || same_text(
            d.tool_id.as_str(),
            AI_CAPABILITY_DESCRIBE_TOOL_ID,
        ) || same_text(d.tool_id.as_str(), AI_CAPABILITY_EXECUTE_TOOL_ID) {
            return false;
        }
        let mut j: usize = 0;
        while j < i
            invariant
                i < definitions@.len(),
                j <= i,
                d == definitions@[i as int],
                forall|b: int| 0 <= b < j ==> definitions@[b].tool_id@ != d.tool_id@,
                forall|b: int| 0 <= b < j ==> definitions@[b].provider_name@ != d.provider_name@,
            decreases i - j,
        {
            if same_text(definitions[j].tool_id.as_str(), d.tool_id.as_str()) || same_text(
                definitions[j].provider_name.as_str(),
                d.provider_name.as_str(),
            ) {
                return false;
            }
            j = j + 1;
        }
        i = i + 1;
    }
    true
}

fn mark_deferred(definitions: Vec<ModelToolDefinition>) -> (r: Vec<ModelToolDefinition>)
    ensures
        r@ == definitions@.map_values(|d: ModelToolDefinition| deferred(d)),
{
    let mut out: Vec<ModelToolDefinition> = Vec::new();
    let mut rest = definitions;
    let ghost original = rest@;
    let total = rest.len();
    let mut taken: usize = 0;
    while rest.len() > 0
        invariant
            taken + rest@.len() == original.len(),
            original.len() == total,
            rest@ == original.subrange(taken as int, original.len() as int),
            out@ == original.subrange(0, taken as int).map_values(
                |d: ModelToolDefinition| deferred(d),
            ),
        decreases rest@.len(),
    {
        let mut d = rest.remove(0);
        d.defer_loading = true;
        out.push(d);
        taken = taken + 1;
        proof {
            assert(rest@ =~= original.subrange(taken as int, original.len() as int));
            assert(out@ =~= original.subrange(0, taken as int).map_values(
                |d: ModelToolDefinition| deferred(d),
            ));
        }
    }
    proof {
        assert(original.subrange(0, original.len() as int) =~= original);
    }
    out
}

/// Builds the exact initial capability surface after host filtering.
///
/// Provider-deferred definitions are only the already-authorized candidates,
/// so provider-native search cannot discover a hidden definition. Search and
/// registration remain non-authoritative at execution.
pub fn prepare_capability_delivery_surface(
    decision: AiCapabilityDeliveryDecision,
    index_fingerprint: &str,
    filtered_exact_definitions: Vec<ModelToolDefinition>,
) -> (r: Result<AiCapabilityDeliverySurface, AiError>)
    ensures
        r is Ok <==> surface_input_ok(index_fingerprint@, filtered_exact_definitions@),
        r matches Ok(surface) ==> surface@.0 == decision@ && surface_tools_for(
            decision@,
            index_fingerprint@,
            filtered_exact_definitions@,
            surface@.1,
        ),
        r matches Err(e) ==> configuration_error(
            e,
            "capability definitions are invalid, reserved, or ambiguous"@,
        ),
        surface_step(decision@, index_fingerprint@, filtered_exact_definitions@, r),
{
    if !check_surface_input(index_fingerprint, &filtered_exact_definitions) {
        return Err(
            AiError::InvalidConfiguration(
                "capability definitions are invalid, reserved, or ambiguous".to_string(),
            ),
        );
    }
    let tools = match decision.mode {
        AiCapabilityDeliveryMode::EagerExact => sort_by_tool_id(filtered_exact_definitions),
        AiCapabilityDeliveryMode::ProviderDeferred => {
            let ghost original = filtered_exact_definitions@;
            let marked = mark_deferred(filtered_exact_definitions);
            proof {
                assert forall|i: int, j: int|
                    0 <= i < marked@.len() && 0 <= j < marked@.len() && i != j implies #[trigger] marked@[i].tool_id@
                    != #[trigger] marked@[j].tool_id@ by {
                    assert(marked@[i].tool_id == original[i].tool_id);
                    assert(marked@[j].tool_id == original[j].tool_id);
                }
            }
            sort_by_tool_id(marked)
        },
        AiCapabilityDeliveryMode::ClientDeferred => {
            let mut tools = Vec::new();
            tools.push(discovery_definition(index_fingerprint));
            tools
        },
        AiCapabilityDeliveryMode::FixedBroker => fixed_broker_definitions(index_fingerprint),
    };
    Ok(AiCapabilityDeliverySurface { mode: decision.mode, tools })
}

/// `true` or `false` as JSON.
pub open spec fn bool_json(b: bool) -> Seq<char> {
    if b {
        "true"@
    } else {
        "false"@
    }
}

/// The canonical JSON object a definition serializes as, fields in
/// declaration order.
pub open spec fn definition_json(d: ModelToolDefinition) -> Seq<char> {
    "{\"tool_id\":"@ + json_quoted(d.tool_id@) + ",\"provider_name\":"@ + json_quoted(
        d.provider_name@,
    ) + ",\"fingerprint\":"@ + json_quoted(d.fingerprint@) + ",\"description\":"@ + json_quoted(
        d.description@,
    ) + ",\"parameters\":"@ + d.parameters@ + ",\"strict\":"@ + bool_json(d.strict)
        + ",\"defer_loading\":"@ + bool_json(d.defer_loading) + "}"@
}

/// Total canonical serialized byte cost of a definition sequence.
pub open spec fn definitions_bytes(s: Seq<ModelToolDefinition>) -> int
    decreases s.len(),
{
    if s.len() == 0 {
        0
    } else {
        definitions_bytes(s.drop_last()) + byte_len(definition_json(s.last())) as int
    }
}

proof fn lemma_definitions_bytes_prefix(s: Seq<ModelToolDefinition>, i: int)
    requires
        0 <= i <= s.len(),
    ensures
        definitions_bytes(s.subrange(0, i)) <= definitions_bytes(s),
    decreases s.len() - i,
{
    if i < s.len() {
        lemma_definitions_bytes_prefix(s, i + 1);
        assert(s.subrange(0, i + 1).drop_last() =~= s.subrange(0, i));
    } else {
        assert(s.subrange(0, i) =~= s);
    }
}

fn definition_json_text(d: &ModelToolDefinition) -> (r: String)
    ensures
        r@ == definition_json(*d),
{
    let mut text = "{\"tool_id\":".to_owned();
    text.append(json_string(d.tool_id.as_str()).as_str());
    text.append(",\"provider_name\":");
    text.append(json_string(d.provider_name.as_str()).as_str());
    text.append(",\"fingerprint\":");
    text.append(json_string(d.fingerprint.as_str()).as_str());
    text.append(",\"description\":");
    text.append(json_string(d.description.as_str()).as_str());
    text.append(",\"parameters\":");
    text.append(d.parameters.as_str());
    text.append(",\"strict\":");
    text.append(if d.strict { "true" } else { "false" });
    text.append(",\"defer_loading\":");
    text.append(if d.defer_loading { "true" } else { "false" });
    text.append("}");
    text
}

/// What measuring a definition set gives: its canonical byte cost, or the
/// message of the failure when the cost does not fit in a `usize`.
pub open spec fn definition_bytes_step(definitions: Seq<ModelToolDefinition>) -> Result<usize, Seq<char>> {
    if definitions_bytes(definitions) <= usize::MAX {
        Ok(definitions_bytes(definitions) as usize)
    } else {
        Err("capability definitions are too large"@)
    }
}

/// What selecting a delivery mode gives: the admissible mode, or the message
/// of the failure (invalid limits first, then no admissible mode).
pub open spec fn delivery_mode_step(
    supported: Seq<AiCapabilityDeliveryMode>,
    exact_definition_count: usize,
    exact_definition_bytes: usize,
    retained_definitions_frozen: bool,
    limits: AiCapabilityDeliveryLimits,
) -> Result<AiCapabilityDeliveryMode, Seq<char>> {
    if !limits_valid(limits) {
        Err("capability delivery limits are invalid"@)
    } else {
        match admissible_mode(
            supported,
            exact_definition_count,
            exact_definition_bytes,
            retained_definitions_frozen,
            limits,
        ) {
            Some(mode) => Ok(mode),
            None => Err("provider has no admissible capability delivery mode"@),
        }
    }
}

/// A result failed with a configuration error carrying exactly this message.
pub open spec fn failed_with<T>(r: Result<T, AiError>, message: Seq<char>) -> bool {
    r matches Err(e) && configuration_error(e, message)
}

/// What building the surface for a selected mode gives: the exact surface
/// of that mode when the definitions and index fingerprint are acceptable,
/// otherwise its configuration error.
pub open spec fn surface_step(
    mode: AiCapabilityDeliveryMode,
    index_fingerprint: Seq<char>,
    definitions: Seq<ModelToolDefinition>,
    r: Result<AiCapabilityDeliverySurface, AiError>,
) -> bool {
    if surface_input_ok(index_fingerprint, definitions) {
        r matches Ok(surface) && surface@.0 == mode && surface_tools_for(
            mode,
            index_fingerprint,
            definitions,
            surface@.1,
        )
    } else {
        failed_with(r, "capability definitions are invalid, reserved, or ambiguous"@)
    }
}

/// The plan as the composition of its three steps: measure, then select,
/// then build; the first step that fails gives the result's error.
pub open spec fn composed_plan(
    supported: Seq<AiCapabilityDeliveryMode>,
    index_fingerprint: Seq<char>,
    definitions: Seq<ModelToolDefinition>,
    retained_definitions_frozen: bool,
    limits: AiCapabilityDeliveryLimits,
    r: Result<AiCapabilityDeliverySurface, AiError>,
) -> bool {
    match definition_bytes_step(definitions) {
        Err(message) => failed_with(r, message),
        Ok(bytes) => match delivery_mode_step(
            supported,
            definitions.len() as usize,
            bytes,
            retained_definitions_frozen,
            limits,
        ) {
            Err(message) => failed_with(r, message),
            Ok(mode) => surface_step(mode, index_fingerprint, definitions, r),
        },
    }
}

/// The message of the first failing plan step, or `None` when the plan
/// succeeds.
pub open spec fn plan_failure(
    supported: Seq<AiCapabilityDeliveryMode>,
    index_fingerprint: Seq<char>,
    definitions: Seq<ModelToolDefinition>,
    retained_definitions_frozen: bool,
    limits: AiCapabilityDeliveryLimits,
) -> Option<Seq<char>> {
    match definition_bytes_step(definitions) {
        Err(message) => Some(message),
        Ok(bytes) => match delivery_mode_step(
            supported,
            definitions.len() as usize,
            bytes,
            retained_definitions_frozen,
            limits,
        ) {
            Err(message) => Some(message),
            Ok(_) => if surface_input_ok(index_fingerprint, definitions) {
                None
            } else {
                Some("capability definitions are invalid, reserved, or ambiguous"@)
            },
        },
    }
}

/// Canonical serialized byte cost of one exact definition set.
///
/// This is the measurement `select_capability_delivery_mode` compares against
/// [`AiCapabilityDeliveryLimits::maximum_eager_definition_bytes`].
pub fn capability_definition_bytes(definitions: &[ModelToolDefinition]) -> (r: Result<
    usize,
    AiError,
>)
    ensures
        r is Ok <==> definitions_bytes(definitions@) <= usize::MAX,
        r matches Ok(n) ==> n == definitions_bytes(definitions@),
        r matches Err(e) ==> configuration_error(e, "capability definitions are too large"@),
        match definition_bytes_step(definitions@) {
            Ok(n) => r == Ok::<usize, AiError>(n),
            Err(message) => failed_with(r, message),
        },
{
    let mut total: usize = 0;
    let mut i: usize = 0;
    while i < definitions.len()
        invariant
            i <= definitions@.len(),
            total == definitions_bytes(definitions@.subrange(0, i as int)),
        decreases definitions@.len() - i,
    {
        let encoded = definition_json_text(&definitions[i]);
        let size = utf8_len(encoded.as_str());
        proof {
            assert(definitions@.subrange(0, i + 1).drop_last() =~= definitions@.subrange(
                0,
                i as int,
            ));
        }
        match total.checked_add(size) {
            Some(next) => {
                total = next;
            },
            None => {
                proof {
                    lemma_definitions_bytes_prefix(definitions@, i + 1);
                }
                return Err(
                    AiError::InvalidConfiguration(
                        "capability definitions are too large".to_string(),
                    ),
                );
            },
        }
        i = i + 1;
    }
    proof {
        assert(definitions@.subrange(0, definitions@.len() as int) =~= definitions@);
    }
    Ok(total)
}

/// Selects the delivery mode and builds the exact initial surface in one step:
/// measure the filtered definitions, select the mode, then build the surface.
/// The result is that composition: the first step that fails gives the error,
/// with its message. Prompt text never reaches either decision.
pub fn plan_capability_delivery(
    provider: &ProviderCapabilities,
    index_fingerprint: &str,
    filtered_exact_definitions: Vec<ModelToolDefinition>,
    retained_definitions_frozen: bool,
    limits: AiCapabilityDeliveryLimits,
) -> (r: Result<AiCapabilityDeliverySurface, AiError>)
    ensures
        r is Ok <==> {
            &&& definitions_bytes(filtered_exact_definitions@) <= usize::MAX
            &&& limits_valid(limits)
            &&& admissible_mode(
                provider.capability_delivery_modes@,
                filtered_exact_definitions@.len() as usize,
                definitions_bytes(filtered_exact_definitions@) as usize,
                retained_definitions_frozen,
                limits,
            ) is Some
            &&& surface_input_ok(index_fingerprint@, filtered_exact_definitions@)
        },
        r matches Ok(surface) ==> {
            &&& Some(surface@.0) == admissible_mode(
                provider.capability_delivery_modes@,
                filtered_exact_definitions@.len() as usize,
                definitions_bytes(filtered_exact_definitions@) as usize,
                retained_definitions_frozen,
                limits,
            )
            &&& surface_tools_for(
                surface@.0,
                index_fingerprint@,
                filtered_exact_definitions@,
                surface@.1,
            )
        },
        composed_plan(
            provider.capability_delivery_modes@,
            index_fingerprint@,
            filtered_exact_definitions@,
            retained_definitions_frozen,
            limits,
            r,
        ),
        plan_failure(
            provider.capability_delivery_modes@,
            index_fingerprint@,
            filtered_exact_definitions@,
            retained_definitions_frozen,
            limits,
        ) matches Some(message) ==> failed_with(r, message),
{
    let bytes = capability_definition_bytes(filtered_exact_definitions.as_slice())?;
    let decision = select_capability_delivery_mode(
        provider,
        filtered_exact_definitions.len(),
        bytes,
        retained_definitions_frozen,
        limits,
    )?;
    prepare_capability_delivery_surface(decision, index_fingerprint, filtered_exact_definitions)
}

/// One frozen capability-broker meta-operation.
///
/// Resolving an operation from a tool identifier is discovery, not
/// authorization: every dispatch still rehydrates the principal and reapplies
/// current host policy.
#[derive(Clone, Copy, Debug, PartialEq, Eq, Structural, Hash, PartialOrd, Ord)]
pub enum AiCapabilityBrokerOperation {
    /// Bounded authority-neutral search over the current compact index.
    Discover,
    /// Load one exact current capability and return its planning contract.
    Describe,
    /// Execute one previously loaded exact capability through a closed plan.
    Execute,
}

/// The frozen identifier of a broker operation.
pub open spec fn operation_tool_id(op: AiCapabilityBrokerOperation) -> Seq<char> {
    match op {
        AiCapabilityBrokerOperation::Discover => AI_CAPABILITY_DISCOVER_TOOL_ID@,
        AiCapabilityBrokerOperation::Describe => AI_CAPABILITY_DESCRIBE_TOOL_ID@,
        AiCapabilityBrokerOperation::Execute => AI_CAPABILITY_EXECUTE_TOOL_ID@,
    }
}

/// The broker operation a tool identifier names, if any.
pub open spec fn operation_for_tool_id(tool_id: Seq<char>) -> Option<AiCapabilityBrokerOperation> {
    if tool_id == AI_CAPABILITY_DISCOVER_TOOL_ID@ {
        Some(AiCapabilityBrokerOperation::Discover)
    } else if tool_id == AI_CAPABILITY_DESCRIBE_TOOL_ID@ {
        Some(AiCapabilityBrokerOperation::Describe)
    } else if tool_id == AI_CAPABILITY_EXECUTE_TOOL_ID@ {
        Some(AiCapabilityBrokerOperation::Execute)
    } else {
        None
    }
}

/// Each broker operation is found again from its own tool identifier.
pub proof fn lemma_broker_tool_ids_round_trip(op: AiCapabilityBrokerOperation)
    ensures
        operation_for_tool_id(operation_tool_id(op)) == Some(op),
{
    reveal_strlit("graphql.capabilities.discover");
    reveal_strlit("graphql.capabilities.describe");
    reveal_strlit("graphql.capabilities.execute");
    assert(AI_CAPABILITY_DISCOVER_TOOL_ID@[22] != AI_CAPABILITY_DESCRIBE_TOOL_ID@[22]);
    assert(AI_CAPABILITY_DISCOVER_TOOL_ID@[21] != AI_CAPABILITY_EXECUTE_TOOL_ID@[21]);
    assert(AI_CAPABILITY_DESCRIBE_TOOL_ID@[21] != AI_CAPABILITY_EXECUTE_TOOL_ID@[21]);
}

impl AiCapabilityBrokerOperation {
    /// Resolves the frozen broker operation for one stable tool identifier.
    /// Returns `None` for every ordinary registered capability.
    pub fn from_tool_id(tool_id: &str) -> (r: Option<Self>)
        ensures
            r == operation_for_tool_id(tool_id@),
    {
        if same_text(tool_id, AI_CAPABILITY_DISCOVER_TOOL_ID) {
            Some(AiCapabilityBrokerOperation::Discover)
        } else if same_text(tool_id, AI_CAPABILITY_DESCRIBE_TOOL_ID) {
            Some(AiCapabilityBrokerOperation::Describe)
        } else if same_text(tool_id, AI_CAPABILITY_EXECUTE_TOOL_ID) {
            Some(AiCapabilityBrokerOperation::Execute)
        } else {
            None
        }
    }

    /// Frozen stable tool identifier for this operation.
    pub fn tool_id(self) -> (r: &'static str)
        ensures
            r@ == operation_tool_id(self),
    {
        match self {
            AiCapabilityBrokerOperation::Discover => AI_CAPABILITY_DISCOVER_TOOL_ID,
            AiCapabilityBrokerOperation::Describe => AI_CAPABILITY_DESCRIBE_TOOL_ID,
            AiCapabilityBrokerOperation::Execute => AI_CAPABILITY_EXECUTE_TOOL_ID,
        }
    }

    /// Whether this operation can reach an application resolver: only
    /// `Execute` can; discovery and describe grant no execution authority.
    pub fn reaches_resolver(self) -> (r: bool)
        ensures
            r == (self == AiCapabilityBrokerOperation::Execute),
    {
        match self {
            AiCapabilityBrokerOperation::Execute => true,
            _ => false,
        }
    }
}

/// A byte that a provider alias keeps as it is: `[A-Za-z0-9_-]`.
pub open spec fn alias_byte_kept(b: u8) -> bool {
    (48 <= b <= 57) || (65 <= b <= 90) || (97 <= b <= 122) || b == 95 || b == 45
}

/// The alias character for one UTF-8 byte of a tool identifier: the byte
/// itself when it is kept, otherwise `_`.
pub open spec fn alias_char(b: u8) -> char {
    if alias_byte_kept(b) {
        b as char
    } else {
        '_'
    }
}

/// A tool identifier with every UTF-8 byte outside `[A-Za-z0-9_-]` replaced
/// by `_`.
pub open spec fn sanitized_alias(tool_id: Seq<char>) -> Seq<char> {
    vstd::utf8::encode_utf8(tool_id).map_values(|b: u8| alias_char(b))
}

/// An identifier that is already a provider function name: sanitizing
/// leaves it as it is and it has at most 64 characters.
pub open spec fn alias_unchanged(tool_id: Seq<char>) -> bool {
    sanitized_alias(tool_id) == tool_id && tool_id.len() <= 64
}

/// The provider alias of a capability: the identifier itself when it is
/// already a provider function name; otherwise at most 47 characters of the
/// sanitized identifier, `_`, and the first 16 hexadecimal digits of the
/// identifier's fingerprint.
pub open spec fn provider_alias(tool_id: Seq<char>) -> Seq<char> {
    let s = sanitized_alias(tool_id);
    if alias_unchanged(tool_id) {
        tool_id
    } else {
        s.subrange(0, if s.len() < 47 { s.len() as int } else { 47 }) + "_"@ + text_fingerprint(
            tool_id,
        ).subrange(0, 16)
    }
}

/// Two distinct capabilities share a provider alias only through the digest:
/// never when both identifiers are already provider function names, and
/// otherwise only when the 16 digest digits that end the alias of a digested
/// identifier also end the other alias (a collision of two 64-bit digest
/// prefixes when both are digested).
pub proof fn lemma_provider_alias_collision_is_digest_collision(a: Seq<char>, b: Seq<char>)
    requires
        is_sha256_hex(text_fingerprint(a)),
        is_sha256_hex(text_fingerprint(b)),
    ensures
        a != b && alias_unchanged(a) && alias_unchanged(b) ==> provider_alias(a) != provider_alias(b),
        a != b && provider_alias(a) == provider_alias(b) && !alias_unchanged(a) && !alias_unchanged(b)
            ==> text_fingerprint(a).subrange(0, 16) == text_fingerprint(b).subrange(0, 16),
        a != b && provider_alias(a) == provider_alias(b) && !alias_unchanged(a) && alias_unchanged(b)
            ==> b.len() >= 17 && b.subrange(b.len() - 16, b.len() as int) == text_fingerprint(a).subrange(0, 16),
{
    reveal_strlit("_");
    let pa = provider_alias(a);
    let pb = provider_alias(b);
    if !alias_unchanged(a) {
        let sa = sanitized_alias(a);
        let ka: int = if sa.len() < 47 { sa.len() as int } else { 47 };
        assert(pa.len() == ka + 17);
        assert(pa.subrange(ka + 1, ka + 17) =~= text_fingerprint(a).subrange(0, 16));
        assert(pa[ka] == '_');
        if pa == pb && !alias_unchanged(b) {
            let sb = sanitized_alias(b);
            let kb: int = if sb.len() < 47 { sb.len() as int } else { 47 };
            assert(pb.len() == kb + 17);
            assert(pb.subrange(kb + 1, kb + 17) =~= text_fingerprint(b).subrange(0, 16));
        }
        if pa == pb && alias_unchanged(b) {
            assert(pb == b);
            assert(b.subrange(b.len() - 16, b.len() as int) =~= pa.subrange(ka + 1, ka + 17));
        }
    }
}

proof fn lemma_encode_utf8_push(a: Seq<char>, c: char)
    ensures
        vstd::utf8::encode_utf8(a.push(c)) == vstd::utf8::encode_utf8(a) + vstd::utf8::encode_scalar(
            c as u32,
        ),
    decreases a.len(),
{
    if a.len() == 0 {
        assert(a.push(c).drop_first() =~= Seq::<char>::empty());
        assert(a.push(c)[0] == c);
        assert(vstd::utf8::encode_utf8(a.push(c).drop_first()) =~= Seq::<u8>::empty());
        assert(vstd::utf8::encode_utf8(a) =~= Seq::<u8>::empty());
        assert(vstd::utf8::encode_utf8(a.push(c)) =~= vstd::utf8::encode_scalar(c as u32));
    } else {
        assert(a.push(c).drop_first() =~= a.drop_first().push(c));
        lemma_encode_utf8_push(a.drop_first(), c);
        assert(vstd::utf8::encode_utf8(a.push(c)) =~= vstd::utf8::encode_utf8(a)
            + vstd::utf8::encode_scalar(c as u32));
    }
}

proof fn lemma_high_bytes(v: u32)
    ensures
        (0xC0u8 | ((v >> 6u32) & 0x1Fu32) as u8) >= 0x80,
        (0xE0u8 | ((v >> 12u32) & 0x0Fu32) as u8) >= 0x80,
        (0xF0u8 | ((v >> 18u32) & 0x7u32) as u8) >= 0x80,
        (0x80u8 | (v & 0x3Fu32) as u8) >= 0x80,
        (0x80u8 | ((v >> 6u32) & 0x3Fu32) as u8) >= 0x80,
        (0x80u8 | ((v >> 12u32) & 0x3Fu32) as u8) >= 0x80,
        v <= 0x7F ==> (v & 0x7Fu32) as u8 == v,
{
    assert((0xC0u8 | ((v >> 6u32) & 0x1Fu32) as u8) >= 0x80) by (bit_vector);
    assert((0xE0u8 | ((v >> 12u32) & 0x0Fu32) as u8) >= 0x80) by (bit_vector);
    assert((0xF0u8 | ((v >> 18u32) & 0x7u32) as u8) >= 0x80) by (bit_vector);
    assert((0x80u8 | (v & 0x3Fu32) as u8) >= 0x80) by (bit_vector);
    assert((0x80u8 | ((v >> 6u32) & 0x3Fu32) as u8) >= 0x80) by (bit_vector);
    assert((0x80u8 | ((v >> 12u32) & 0x3Fu32) as u8) >= 0x80) by (bit_vector);
    assert(v <= 0x7F ==> (v & 0x7Fu32) as u8 == v) by (bit_vector);
}

/// Derives one deterministic bounded provider alias for a capability
/// identifier. An identifier that is already a provider function name (at
/// most 64 bytes of `[A-Za-z0-9_-]`) is its own alias. Any other identifier
/// has its unsafe bytes replaced by `_`, keeps at most 47 of those
/// characters, and gets `_` and a short digest of the complete identifier
/// appended, so that sanitizing or truncating never makes two distinct
/// capabilities share one alias except through the digest. The alias is a
/// naming convention only and grants nothing.
pub fn capability_provider_alias(tool_id: &str) -> (r: String)
    ensures
        r@ == provider_alias(tool_id@),
        tool_id@.len() > 0 ==> valid_provider_name(r@),
{
    let n = tool_id.unicode_len();
    let mut out = String::new();
    let mut i: usize = 0;
    proof {
        reveal_strlit("_");
        reveal_strlit("__");
        reveal_strlit("___");
        reveal_strlit("____");
        assert(tool_id@.subrange(0, 0) =~= Seq::<char>::empty());
        assert(sanitized_alias(tool_id@.subrange(0, 0)) =~= Seq::<char>::empty());
    }
    while i < n
        invariant
            n == tool_id@.len(),
            i <= n,
            out@ == sanitized_alias(tool_id@.subrange(0, i as int)),
            "_"@ == seq!['_'],
            "__"@ == seq!['_', '_'],
            "___"@ == seq!['_', '_', '_'],
            "____"@ == seq!['_', '_', '_', '_'],
        decreases n - i,
    {
        let c = tool_id.get_char(i);
        let v = c as u32;
        let ghost before = out@;
        let ghost prefix = tool_id@.subrange(0, i as int);
        proof {
            assert(tool_id@.subrange(0, i + 1) =~= prefix.push(c));
            lemma_encode_utf8_push(prefix, c);
            lemma_high_bytes(v);
            vstd::utf8::char_is_scalar(c);
            let enc = vstd::utf8::encode_utf8(prefix);
            let sc = vstd::utf8::encode_scalar(v);
            assert((enc + sc).map_values(|b: u8| alias_char(b)) =~= enc.map_values(
                |b: u8| alias_char(b),
            ) + sc.map_values(|b: u8| alias_char(b)));
        }
        if ('0' <= c && c <= '9') || ('A' <= c && c <= 'Z') || ('a' <= c && c <= 'z') || c == '_'
            || c == '-' {
            out.append(tool_id.substring_char(i, i + 1));
            proof {
                let sc = vstd::utf8::encode_scalar(v);
                assert(sc =~= seq![v as u8]);
                assert(alias_char(v as u8) == c);
                assert(sc.map_values(|b: u8| alias_char(b)) =~= seq![c]);
                assert(out@ =~= sanitized_alias(tool_id@.subrange(0, i + 1)));
            }
        } else if v < 0x80 {
            out.append("_");
            proof {
                let sc = vstd::utf8::encode_scalar(v);
                assert(sc =~= seq![v as u8]);
                assert(sc.map_values(|b: u8| alias_char(b)) =~= seq!['_']);
                assert(out@ =~= sanitized_alias(tool_id@.subrange(0, i + 1)));
            }
        } else if v < 0x800 {
            out.append("__");
            proof {
                let sc = vstd::utf8::encode_scalar(v);
                assert(sc.map_values(|b: u8| alias_char(b)) =~= seq!['_', '_']);
                assert(out@ =~= sanitized_alias(tool_id@.subrange(0, i + 1)));
            }
        } else if v < 0x10000 {
            out.append("___");
            proof {
                let sc = vstd::utf8::encode_scalar(v);
                assert(sc.map_values(|b: u8| alias_char(b)) =~= seq!['_', '_', '_']);
                assert(out@ =~= sanitized_alias(tool_id@.subrange(0, i + 1)));
            }
        } else {
            out.append("____");
            proof {
                let sc = vstd::utf8::encode_scalar(v);
                assert(sc.map_values(|b: u8| alias_char(b)) =~= seq!['_', '_', '_', '_']);
                assert(out@ =~= sanitized_alias(tool_id@.subrange(0, i + 1)));
            }
        }
        i = i + 1;
    }
    proof {
        assert(tool_id@.subrange(0, n as int) =~= tool_id@);
        lemma_sanitized_alias_chars(tool_id@);
    }
    let out_len = out.as_str().unicode_len();
    if out_len <= 64 && same_text(out.as_str(), tool_id) {
        return out;
    }
    let digest = fingerprint_text(tool_id);
    let keep: usize = if out_len < 47 {
        out_len
    } else {
        47
    };
    let mut alias = out.as_str().substring_char(0, keep).to_owned();
    alias.append("_");
    alias.append(digest.as_str().substring_char(0, 16));
    proof {
        assert(alias@ =~= provider_alias(tool_id@));
        assert forall|k: int| 0 <= k < alias@.len() implies is_alias_char(#[trigger] alias@[k]) by {
            if k < keep {
                assert(alias@[k] == out@[k]);
            } else if k > keep {
                assert(alias@[k] == digest@[k - keep - 1]);
            }
        }
    }
    alias
}

proof fn lemma_sanitized_alias_chars(tool_id: Seq<char>)
    ensures
        forall|k: int|
            0 <= k < sanitized_alias(tool_id).len() ==> is_alias_char(#[trigger] sanitized_alias(tool_id)[k]),
        tool_id.len() > 0 ==> sanitized_alias(tool_id).len() > 0,
{
    let bytes = vstd::utf8::encode_utf8(tool_id);
    assert forall|k: int| 0 <= k < sanitized_alias(tool_id).len() implies is_alias_char(
        #[trigger] sanitized_alias(tool_id)[k],
    ) by {
        assert(sanitized_alias(tool_id)[k] == alias_char(bytes[k]));
    }
    if tool_id.len() > 0 {
        vstd::utf8::char_is_scalar(tool_id[0]);
        assert(vstd::utf8::encode_scalar(tool_id[0] as u32).len() > 0);
    }
}

/// Observed broker call amplification for one fenced run.
#[derive(Clone, Copy, Debug, Default, PartialEq, Eq, Structural)]
pub struct AiCapabilityBrokerAmplification {
    /// Accepted discovery calls.
    pub discover_calls: u32,
    /// Accepted describe calls.
    pub describe_calls: u32,
    /// Accepted execute calls.
    pub execute_calls: u32,
}

/// Saturating `u32` addition.
pub open spec fn saturating_sum(a: int, b: int) -> int {
    if a + b > u32::MAX {
        u32::MAX as int
    } else {
        a + b
    }
}

impl AiCapabilityBrokerAmplification {
    /// Total accepted broker calls, saturating at `u32::MAX`.
    pub fn total_calls(self) -> (r: u32)
        ensures
            r == saturating_sum(
                saturating_sum(self.discover_calls as int, self.describe_calls as int),
                self.execute_calls as int,
            ),
    {
        self.discover_calls.saturating_add(self.describe_calls).saturating_add(self.execute_calls)
    }
}

/// Reasoning effort requested from the model, including "not specified".
#[derive(Clone, Copy, Debug, PartialEq, Eq, Structural, Hash)]
pub enum ModelReasoningEffort {
    /// No explicit effort was requested.
    Unspecified,
    /// Minimal reasoning.
    Minimal,
    /// Low reasoning.
    Low,
    /// Medium reasoning.
    Medium,
    /// High reasoning.
    High,
}

/// The `snake_case` name a reasoning effort serializes as.
pub open spec fn effort_name(effort: ModelReasoningEffort) -> Seq<char> {
    match effort {
        ModelReasoningEffort::Unspecified => "unspecified"@,
        ModelReasoningEffort::Minimal => "minimal"@,
        ModelReasoningEffort::Low => "low"@,
        ModelReasoningEffort::Medium => "medium"@,
        ModelReasoningEffort::High => "high"@,
    }
}

impl ModelReasoningEffort {
    /// The `snake_case` wire name of this effort.
    pub fn as_str(self) -> (r: &'static str)
        ensures
            r@ == effort_name(self),
    {
        match self {
            ModelReasoningEffort::Unspecified => "unspecified",
            ModelReasoningEffort::Minimal => "minimal",
            ModelReasoningEffort::Low => "low",
            ModelReasoningEffort::Medium => "medium",
            ModelReasoningEffort::High => "high",
        }
    }
}

/// Execution-relevant retained provider-session definition binding.
#[derive(Clone, Debug)]
pub struct AiProviderCapabilitySessionBinding {
    delivery_mode: AiCapabilityDeliveryMode,
    capability_index_fingerprint: String,
    static_bootstrap_tool_fingerprints: Vec<String>,
    provider_projection_version: String,
    model: String,
    reasoning_effort: ModelReasoningEffort,
    registration_identity: String,
    fingerprint: String,
}

/// Abstract content of a provider-session binding.
pub struct SessionBindingView {
    pub delivery_mode: AiCapabilityDeliveryMode,
    pub capability_index_fingerprint: Seq<char>,
    pub static_bootstrap_tool_fingerprints: Seq<Seq<char>>,
    pub provider_projection_version: Seq<char>,
    pub model: Seq<char>,
    pub reasoning_effort: ModelReasoningEffort,
    pub registration_identity: Seq<char>,
    pub fingerprint: Seq<char>,
}

/// The texts of a string sequence.
pub open spec fn texts(s: Seq<String>) -> Seq<Seq<char>> {
    s.map_values(|t: String| t@)
}

impl View for AiProviderCapabilitySessionBinding {
    type V = SessionBindingView;

    closed spec fn view(&self) -> SessionBindingView {
        SessionBindingView {
            delivery_mode: self.delivery_mode,
            capability_index_fingerprint: self.capability_index_fingerprint@,
            static_bootstrap_tool_fingerprints: texts(self.static_bootstrap_tool_fingerprints@),
            provider_projection_version: self.provider_projection_version@,
            model: self.model@,
            reasoning_effort: self.reasoning_effort,
            registration_identity: self.registration_identity@,
            fingerprint: self.fingerprint@,
        }
    }
}

/// A bounded, present, control-free binding label.
pub open spec fn valid_binding_label(s: Seq<char>) -> bool {
    s.len() > 0 && byte_len(s) <= 512 && !has_control(s)
}

/// Inputs from which a provider-session binding may be built.
pub open spec fn session_binding_input_ok(
    capability_index_fingerprint: Seq<char>,
    static_bootstrap: Seq<String>,
    provider_projection_version: Seq<char>,
    model: Seq<char>,
    registration_identity: Seq<char>,
    distinct_static_count: int,
) -> bool {
    &&& valid_binding_label(provider_projection_version)
    &&& valid_binding_label(model)
    &&& is_sha256_hex(capability_index_fingerprint)
    &&& is_sha256_hex(registration_identity)
    &&& distinct_static_count <= 64
    &&& forall|i: int|
        0 <= i < static_bootstrap.len() ==> is_sha256_hex(#[trigger] static_bootstrap[i]@)
}

/// How many distinct texts a string sequence holds.
pub open spec fn distinct_count(v: Seq<String>) -> int {
    texts(v).to_set().len() as int
}

proof fn lemma_distinct_count(v: Seq<String>, set: Seq<String>)
    requires
        strictly_sorted_texts(set),
        forall|t: Seq<char>| holds_text(set, t) <==> holds_text(v, t),
    ensures
        set.len() == distinct_count(v),
{
    let ts = texts(set);
    assert(ts.no_duplicates()) by {
        assert forall|i: int, j: int| 0 <= i < ts.len() && 0 <= j < ts.len() && i != j implies ts[i]
            != ts[j] by {
            if i < j {
                assert(crate::text::text_lt(set[i]@, set[j]@));
            } else {
                assert(crate::text::text_lt(set[j]@, set[i]@));
            }
            crate::text::lemma_text_lt_irreflexive(ts[i]);
        }
    }
    assert(ts.to_set() =~= texts(v).to_set()) by {
        assert forall|t: Seq<char>| ts.to_set().contains(t) <==> texts(v).to_set().contains(t) by {
            if ts.contains(t) {
                let k = choose|k: int| 0 <= k < ts.len() && ts[k] == t;
                assert(set[k]@ == t);
                assert(holds_text(set, t));
                let j = choose|j: int| 0 <= j < v.len() && #[trigger] v[j]@ == t;
                assert(texts(v)[j] == t);
            }
            if texts(v).contains(t) {
                let j = choose|j: int| 0 <= j < texts(v).len() && texts(v)[j] == t;
                assert(v[j]@ == t);
                assert(holds_text(v, t));
                let k = choose|k: int| 0 <= k < set.len() && #[trigger] set[k]@ == t;
                assert(ts[k] == t);
            }
        }
    }
    ts.unique_seq_to_set();
}

/// Comma-separated JSON string literals.
pub open spec fn json_items(items: Seq<Seq<char>>) -> Seq<char>
    decreases items.len(),
{
    if items.len() == 0 {
        Seq::empty()
    } else if items.len() == 1 {
        json_quoted(items[0])
    } else {
        json_items(items.drop_last()) + ","@ + json_quoted(items.last())
    }
}

/// The canonical JSON object whose fingerprint identifies a provider-session
/// binding (keys in sorted order, as a JSON map holds them).
pub open spec fn session_binding_text(
    delivery_mode: AiCapabilityDeliveryMode,
    capability_index_fingerprint: Seq<char>,
    static_bootstrap: Seq<Seq<char>>,
    provider_projection_version: Seq<char>,
    model: Seq<char>,
    reasoning_effort: ModelReasoningEffort,
    registration_identity: Seq<char>,
) -> Seq<char> {
    "{\"capability_index_fingerprint\":"@ + json_quoted(capability_index_fingerprint)
        + ",\"delivery_mode\":"@ + json_quoted(mode_name(delivery_mode)) + ",\"model\":"@
        + json_quoted(model) + ",\"provider_projection_version\":"@ + json_quoted(
        provider_projection_version,
    ) + ",\"reasoning_effort\":"@ + json_quoted(effort_name(reasoning_effort))
        + ",\"registration_identity\":"@ + json_quoted(registration_identity)
        + ",\"static_bootstrap_tool_fingerprints\":["@ + json_items(static_bootstrap)
        + "],\"version\":1}"@
}

proof fn lemma_cancel_right(a: Seq<char>, b: Seq<char>, s: Seq<char>)
    requires
        a + s == b + s,
    ensures
        a == b,
{
    let t = a + s;
    assert((a + s).len() == a.len() + s.len());
    assert((b + s).len() == b.len() + s.len());
    assert(a =~= t.subrange(0, a.len() as int));
    assert(b =~= t.subrange(0, b.len() as int));
}

proof fn lemma_cancel_left(p: Seq<char>, x: Seq<char>, y: Seq<char>)
    requires
        p + x == p + y,
    ensures
        x == y,
{
    let t = p + x;
    assert((p + x).len() == p.len() + x.len());
    assert((p + y).len() == p.len() + y.len());
    assert(x =~= t.subrange(p.len() as int, t.len() as int));
    assert(y =~= t.subrange(p.len() as int, t.len() as int));
}

proof fn lemma_mode_names_distinct(a: AiCapabilityDeliveryMode, b: AiCapabilityDeliveryMode)
    requires
        a != b,
    ensures
        mode_name(a) != mode_name(b),
{
    reveal_strlit("eager_exact");
    reveal_strlit("client_deferred");
    reveal_strlit("provider_deferred");
    reveal_strlit("fixed_broker");
    assert(mode_name(a).len() != mode_name(b).len());
}

proof fn lemma_effort_names_distinct(a: ModelReasoningEffort, b: ModelReasoningEffort)
    requires
        a != b,
    ensures
        effort_name(a) != effort_name(b),
{
    reveal_strlit("unspecified");
    reveal_strlit("minimal");
    reveal_strlit("low");
    reveal_strlit("medium");
    reveal_strlit("high");
    assert(effort_name(a).len() != effort_name(b).len());
}

proof fn lemma_binding_text_separates_mode(
    mode: AiCapabilityDeliveryMode,
    other_mode: AiCapabilityDeliveryMode,
    model: Seq<char>,
    reasoning_effort: ModelReasoningEffort,
    capability_index_fingerprint: Seq<char>,
    static_bootstrap: Seq<Seq<char>>,
    provider_projection_version: Seq<char>,
    registration_identity: Seq<char>,
)
    requires
        mode != other_mode,
    ensures
        session_binding_text(
            mode,
            capability_index_fingerprint,
            static_bootstrap,
            provider_projection_version,
            model,
            reasoning_effort,
            registration_identity,
        ) != session_binding_text(
            other_mode,
            capability_index_fingerprint,
            static_bootstrap,
            provider_projection_version,
            model,
            reasoning_effort,
            registration_identity,
        ),
{
    let a0 = "{\"capability_index_fingerprint\":"@;
    let a1 = a0 + json_quoted(capability_index_fingerprint);
    let a2 = a1 + ",\"delivery_mode\":"@;
    let a3 = a2 + json_quoted(mode_name(mode));
    let a4 = a3 + ",\"model\":"@;
    let a5 = a4 + json_quoted(model);
    let a6 = a5 + ",\"provider_projection_version\":"@;
    let a7 = a6 + json_quoted(provider_projection_version);
    let a8 = a7 + ",\"reasoning_effort\":"@;
    let a9 = a8 + json_quoted(effort_name(reasoning_effort));
    let a10 = a9 + ",\"registration_identity\":"@;
    let a11 = a10 + json_quoted(registration_identity);
    let a12 = a11 + ",\"static_bootstrap_tool_fingerprints\":["@;
    let a13 = a12 + json_items(static_bootstrap);
    let a14 = a13 + "],\"version\":1}"@;
    let b0 = "{\"capability_index_fingerprint\":"@;
    let b1 = b0 + json_quoted(capability_index_fingerprint);
    let b2 = b1 + ",\"delivery_mode\":"@;
    let b3 = b2 + json_quoted(mode_name(other_mode));
    let b4 = b3 + ",\"model\":"@;
    let b5 = b4 + json_quoted(model);
    let b6 = b5 + ",\"provider_projection_version\":"@;
    let b7 = b6 + json_quoted(provider_projection_version);
    let b8 = b7 + ",\"reasoning_effort\":"@;
    let b9 = b8 + json_quoted(effort_name(reasoning_effort));
    let b10 = b9 + ",\"registration_identity\":"@;
    let b11 = b10 + json_quoted(registration_identity);
    let b12 = b11 + ",\"static_bootstrap_tool_fingerprints\":["@;
    let b13 = b12 + json_items(static_bootstrap);
    let b14 = b13 + "],\"version\":1}"@;
    assert(session_binding_text(
        mode,
        capability_index_fingerprint,
        static_bootstrap,
        provider_projection_version,
        model,
        reasoning_effort,
        registration_identity,
    ) == a14);
    assert(session_binding_text(
        other_mode,
        capability_index_fingerprint,
        static_bootstrap,
        provider_projection_version,
        model,
        reasoning_effort,
        registration_identity,
    ) == b14);
    if a14 == b14 {
        lemma_cancel_right(a13, b13, "],\"version\":1}"@);
        lemma_cancel_right(a12, b12, json_items(static_bootstrap));
        lemma_cancel_right(a11, b11, ",\"static_bootstrap_tool_fingerprints\":["@);
        lemma_cancel_right(a10, b10, json_quoted(registration_identity));
        lemma_cancel_right(a9, b9, ",\"registration_identity\":"@);
        lemma_cancel_right(a8, b8, json_quoted(effort_name(reasoning_effort)));
        lemma_cancel_right(a7, b7, ",\"reasoning_effort\":"@);
        lemma_cancel_right(a6, b6, json_quoted(provider_projection_version));
        lemma_cancel_right(a5, b5, ",\"provider_projection_version\":"@);
        lemma_cancel_right(a4, b4, json_quoted(model));
        lemma_cancel_right(a3, b3, ",\"model\":"@);
        lemma_cancel_left(a2, json_quoted(mode_name(mode)), json_quoted(mode_name(other_mode)));
        lemma_mode_names_distinct(mode, other_mode);
        lemma_json_quoted_injective(mode_name(mode), mode_name(other_mode));
    }
}

proof fn lemma_binding_text_separates_model(
    model: Seq<char>,
    other_model: Seq<char>,
    mode: AiCapabilityDeliveryMode,
    reasoning_effort: ModelReasoningEffort,
    capability_index_fingerprint: Seq<char>,
    static_bootstrap: Seq<Seq<char>>,
    provider_projection_version: Seq<char>,
    registration_identity: Seq<char>,
)
    requires
        model != other_model,
    ensures
        session_binding_text(
            mode,
            capability_index_fingerprint,
            static_bootstrap,
            provider_projection_version,
            model,
            reasoning_effort,
            registration_identity,
        ) != session_binding_text(
            mode,
            capability_index_fingerprint,
            static_bootstrap,
            provider_projection_version,
            other_model,
            reasoning_effort,
            registration_identity,
        ),
{
    let a0 = "{\"capability_index_fingerprint\":"@;
    let a1 = a0 + json_quoted(capability_index_fingerprint);
    let a2 = a1 + ",\"delivery_mode\":"@;
    let a3 = a2 + json_quoted(mode_name(mode));
    let a4 = a3 + ",\"model\":"@;
    let a5 = a4 + json_quoted(model);
    let a6 = a5 + ",\"provider_projection_version\":"@;
    let a7 = a6 + json_quoted(provider_projection_version);
    let a8 = a7 + ",\"reasoning_effort\":"@;
    let a9 = a8 + json_quoted(effort_name(reasoning_effort));
    let a10 = a9 + ",\"registration_identity\":"@;
    let a11 = a10 + json_quoted(registration_identity);
    let a12 = a11 + ",\"static_bootstrap_tool_fingerprints\":["@;
    let a13 = a12 + json_items(static_bootstrap);
    let a14 = a13 + "],\"version\":1}"@;
    let b0 = "{\"capability_index_fingerprint\":"@;
    let b1 = b0 + json_quoted(capability_index_fingerprint);
    let b2 = b1 + ",\"delivery_mode\":"@;
    let b3 = b2 + json_quoted(mode_name(mode));
    let b4 = b3 + ",\"model\":"@;
    let b5 = b4 + json_quoted(other_model);
    let b6 = b5 + ",\"provider_projection_version\":"@;
    let b7 = b6 + json_quoted(provider_projection_version);
    let b8 = b7 + ",\"reasoning_effort\":"@;
    let b9 = b8 + json_quoted(effort_name(reasoning_effort));
    let b10 = b9 + ",\"registration_identity\":"@;
    let b11 = b10 + json_quoted(registration_identity);
    let b12 = b11 + ",\"static_bootstrap_tool_fingerprints\":["@;
    let b13 = b12 + json_items(static_bootstrap);
    let b14 = b13 + "],\"version\":1}"@;
    assert(session_binding_text(
        mode,
        capability_index_fingerprint,
        static_bootstrap,
        provider_projection_version,
        model,
        reasoning_effort,
        registration_identity,
    ) == a14);
    assert(session_binding_text(
        mode,
        capability_index_fingerprint,
        static_bootstrap,
        provider_projection_version,
        other_model,
        reasoning_effort,
        registration_identity,
    ) == b14);
    if a14 == b14 {
        lemma_cancel_right(a13, b13, "],\"version\":1}"@);
        lemma_cancel_right(a12, b12, json_items(static_bootstrap));
        lemma_cancel_right(a11, b11, ",\"static_bootstrap_tool_fingerprints\":["@);
        lemma_cancel_right(a10, b10, json_quoted(registration_identity));
        lemma_cancel_right(a9, b9, ",\"registration_identity\":"@);
        lemma_cancel_right(a8, b8, json_quoted(effort_name(reasoning_effort)));
        lemma_cancel_right(a7, b7, ",\"reasoning_effort\":"@);
        lemma_cancel_right(a6, b6, json_quoted(provider_projection_version));
        lemma_cancel_right(a5, b5, ",\"provider_projection_version\":"@);
        lemma_cancel_left(a4, json_quoted(model), json_quoted(other_model));
        lemma_json_quoted_injective(model, other_model);
    }
}

proof fn lemma_binding_text_separates_effort(
    reasoning_effort: ModelReasoningEffort,
    other_effort: ModelReasoningEffort,
    mode: AiCapabilityDeliveryMode,
    model: Seq<char>,
    capability_index_fingerprint: Seq<char>,
    static_bootstrap: Seq<Seq<char>>,
    provider_projection_version: Seq<char>,
    registration_identity: Seq<char>,
)
    requires
        reasoning_effort != other_effort,
    ensures
        session_binding_text(
            mode,
            capability_index_fingerprint,
            static_bootstrap,
            provider_projection_version,
            model,
            reasoning_effort,
            registration_identity,
        ) != session_binding_text(
            mode,
            capability_index_fingerprint,
            static_bootstrap,
            provider_projection_version,
            model,
            other_effort,
            registration_identity,
        ),
{
    let a0 = "{\"capability_index_fingerprint\":"@;
    let a1 = a0 + json_quoted(capability_index_fingerprint);
    let a2 = a1 + ",\"delivery_mode\":"@;
    let a3 = a2 + json_quoted(mode_name(mode));
    let a4 = a3 + ",\"model\":"@;
    let a5 = a4 + json_quoted(model);
    let a6 = a5 + ",\"provider_projection_version\":"@;
    let a7 = a6 + json_quoted(provider_projection_version);
    let a8 = a7 + ",\"reasoning_effort\":"@;
    let a9 = a8 + json_quoted(effort_name(reasoning_effort));
    let a10 = a9 + ",\"registration_identity\":"@;
    let a11 = a10 + json_quoted(registration_identity);
    let a12 = a11 + ",\"static_bootstrap_tool_fingerprints\":["@;
    let a13 = a12 + json_items(static_bootstrap);
    let a14 = a13 + "],\"version\":1}"@;
    let b0 = "{\"capability_index_fingerprint\":"@;
    let b1 = b0 + json_quoted(capability_index_fingerprint);
    let b2 = b1 + ",\"delivery_mode\":"@;
    let b3 = b2 + json_quoted(mode_name(mode));
    let b4 = b3 + ",\"model\":"@;
    let b5 = b4 + json_quoted(model);
    let b6 = b5 + ",\"provider_projection_version\":"@;
    let b7 = b6 + json_quoted(provider_projection_version);
    let b8 = b7 + ",\"reasoning_effort\":"@;
    let b9 = b8 + json_quoted(effort_name(other_effort));
    let b10 = b9 + ",\"registration_identity\":"@;
    let b11 = b10 + json_quoted(registration_identity);
    let b12 = b11 + ",\"static_bootstrap_tool_fingerprints\":["@;
    let b13 = b12 + json_items(static_bootstrap);
    let b14 = b13 + "],\"version\":1}"@;
    assert(session_binding_text(
        mode,
        capability_index_fingerprint,
        static_bootstrap,
        provider_projection_version,
        model,
        reasoning_effort,
        registration_identity,
    ) == a14);
    assert(session_binding_text(
        mode,
        capability_index_fingerprint,
        static_bootstrap,
        provider_projection_version,
        model,
        other_effort,
        registration_identity,
    ) == b14);
    if a14 == b14 {
        lemma_cancel_right(a13, b13, "],\"version\":1}"@);
        lemma_cancel_right(a12, b12, json_items(static_bootstrap));
        lemma_cancel_right(a11, b11, ",\"static_bootstrap_tool_fingerprints\":["@);
        lemma_cancel_right(a10, b10, json_quoted(registration_identity));
        lemma_cancel_right(a9, b9, ",\"registration_identity\":"@);
        lemma_cancel_left(
            a8,
            json_quoted(effort_name(reasoning_effort)),
            json_quoted(effort_name(other_effort)),
        );
        lemma_effort_names_distinct(reasoning_effort, other_effort);
        lemma_json_quoted_injective(effort_name(reasoning_effort), effort_name(other_effort));
    }
}

/// Law: the canonical text of a provider-session binding changes whenever
/// its delivery mode, its model, or its reasoning effort changes and the
/// other fields stay, so each such change reaches the fingerprint's input.
pub proof fn lemma_session_binding_text_separates_mode_model_effort(
    mode: AiCapabilityDeliveryMode,
    other_mode: AiCapabilityDeliveryMode,
    capability_index_fingerprint: Seq<char>,
    static_bootstrap: Seq<Seq<char>>,
    provider_projection_version: Seq<char>,
    model: Seq<char>,
    other_model: Seq<char>,
    reasoning_effort: ModelReasoningEffort,
    other_effort: ModelReasoningEffort,
    registration_identity: Seq<char>,
)
    ensures
        mode != other_mode ==> session_binding_text(
            mode,
            capability_index_fingerprint,
            static_bootstrap,
            provider_projection_version,
            model,
            reasoning_effort,
            registration_identity,
        ) != session_binding_text(
            other_mode,
            capability_index_fingerprint,
            static_bootstrap,
            provider_projection_version,
            model,
            reasoning_effort,
            registration_identity,
        ),
        model != other_model ==> session_binding_text(
            mode,
            capability_index_fingerprint,
            static_bootstrap,
            provider_projection_version,
            model,
            reasoning_effort,
            registration_identity,
        ) != session_binding_text(
            mode,
            capability_index_fingerprint,
            static_bootstrap,
            provider_projection_version,
            other_model,
            reasoning_effort,
            registration_identity,
        ),
        reasoning_effort != other_effort ==> session_binding_text(
            mode,
            capability_index_fingerprint,
            static_bootstrap,
            provider_projection_version,
            model,
            reasoning_effort,
            registration_identity,
        ) != session_binding_text(
            mode,
            capability_index_fingerprint,
            static_bootstrap,
            provider_projection_version,
            model,
            other_effort,
            registration_identity,
        ),
{
    if mode != other_mode {
        lemma_binding_text_separates_mode(
            mode,
            other_mode,
            model,
            reasoning_effort,
            capability_index_fingerprint,
            static_bootstrap,
            provider_projection_version,
            registration_identity,
        );
    }
    if model != other_model {
        lemma_binding_text_separates_model(
            model,
            other_model,
            mode,
            reasoning_effort,
            capability_index_fingerprint,
            static_bootstrap,
            provider_projection_version,
            registration_identity,
        );
    }
    if reasoning_effort != other_effort {
        lemma_binding_text_separates_effort(
            reasoning_effort,
            other_effort,
            mode,
            model,
            capability_index_fingerprint,
            static_bootstrap,
            provider_projection_version,
            registration_identity,
        );
    }
}

pub(crate) fn valid_binding_value(value: &str) -> (r: bool)
    ensures
        r == valid_binding_label(value@),
{
    value.unicode_len() != 0 && utf8_len(value) <= 512 && !contains_control(value)
}

fn json_item_list(items: &Vec<String>) -> (r: String)
    ensures
        r@ == json_items(texts(items@)),
{
    let mut out = String::new();
    let mut i: usize = 0;
    while i < items.len()
        invariant
            i <= items@.len(),
            out@ == json_items(texts(items@.subrange(0, i as int))),
        decreases items@.len() - i,
    {
        proof {
            assert(texts(items@.subrange(0, i + 1)).drop_last() =~= texts(
                items@.subrange(0, i as int),
            ));
        }
        if i > 0 {
            out.append(",");
        }
        out.append(json_string(items[i].as_str()).as_str());
        i = i + 1;
    }
    proof {
        assert(items@.subrange(0, items@.len() as int) =~= items@);
    }
    out
}

/// A retained session binding keeps its bootstrap fingerprints as a set:
/// two strictly ascending lists with the same members are the same list.
/// Bindings built from bootstrap lists with the same members, in any order
/// and with any repetition, therefore keep the same list and fingerprint.
pub proof fn lemma_bootstrap_set_is_canonical(a: Seq<Seq<char>>, b: Seq<Seq<char>>)
    requires
        forall|i: int, j: int| 0 <= i < j < a.len() ==> text_lt(#[trigger] a[i], #[trigger] a[j]),
        forall|i: int, j: int| 0 <= i < j < b.len() ==> text_lt(#[trigger] b[i], #[trigger] b[j]),
        forall|t: Seq<char>| a.contains(t) <==> b.contains(t),
    ensures
        a == b,
    decreases a.len(),
{
    if a.len() == 0 {
        if b.len() > 0 {
            assert(b.contains(b[0]));
        }
        assert(b =~= a);
    } else if b.len() == 0 {
        assert(a.contains(a[0]));
    } else {
        assert(a.contains(a[0]));
        assert(b.contains(b[0]));
        let k = choose|k: int| 0 <= k < b.len() && b[k] == a[0];
        let m = choose|m: int| 0 <= m < a.len() && a[m] == b[0];
        if a[0] != b[0] {
            assert(k > 0 && m > 0);
            assert(text_lt(b[0], b[k]));
            assert(text_lt(a[0], a[m]));
            crate::text::lemma_text_lt_asymmetric(a[0], b[0]);
        }
        let a1 = a.drop_first();
        let b1 = b.drop_first();
        assert forall|t: Seq<char>| a1.contains(t) <==> b1.contains(t) by {
            if a1.contains(t) {
                let i = choose|i: int| 0 <= i < a1.len() && a1[i] == t;
                assert(a[i + 1] == t);
                assert(text_lt(a[0], t));
                crate::text::lemma_text_lt_irreflexive(t);
                assert(b.contains(t));
                let j = choose|j: int| 0 <= j < b.len() && b[j] == t;
                assert(j != 0);
                assert(b1[j - 1] == t);
            }
            if b1.contains(t) {
                let i = choose|i: int| 0 <= i < b1.len() && b1[i] == t;
                assert(b[i + 1] == t);
                assert(text_lt(b[0], t));
                crate::text::lemma_text_lt_irreflexive(t);
                assert(a.contains(t));
                let j = choose|j: int| 0 <= j < a.len() && a[j] == t;
                assert(j != 0);
                assert(a1[j - 1] == t);
            }
        }
        assert forall|i: int, j: int| 0 <= i < j < a1.len() implies text_lt(#[trigger] a1[i], #[trigger] a1[j]) by {
            assert(a1[i] == a[i + 1] && a1[j] == a[j + 1]);
        }
        assert forall|i: int, j: int| 0 <= i < j < b1.len() implies text_lt(#[trigger] b1[i], #[trigger] b1[j]) by {
            assert(b1[i] == b[i + 1] && b1[j] == b[j + 1]);
        }
        lemma_bootstrap_set_is_canonical(a1, b1);
        assert(a =~= seq![a[0]] + a1);
        assert(b =~= seq![b[0]] + b1);
    }
}

impl AiProviderCapabilitySessionBinding {
    /// Creates one immutable provider-session binding. The bootstrap
    /// fingerprints form a set: they are kept sorted and without repetition.
    pub fn new(
        delivery_mode: AiCapabilityDeliveryMode,
        capability_index_fingerprint: &str,
        static_bootstrap_tool_fingerprints: Vec<String>,
        provider_projection_version: &str,
        model: &str,
        reasoning_effort: ModelReasoningEffort,
        registration_identity: &str,
    ) -> (r: Result<Self, AiError>)
        ensures
            match r {
                Ok(binding) => {
                    let v = binding@;
                    &&& session_binding_input_ok(
                        capability_index_fingerprint@,
                        static_bootstrap_tool_fingerprints@,
                        provider_projection_version@,
                        model@,
                        registration_identity@,
                        distinct_count(static_bootstrap_tool_fingerprints@),
                    )
                    &&& v.static_bootstrap_tool_fingerprints.len() == distinct_count(
                        static_bootstrap_tool_fingerprints@,
                    )
                    &&& v.delivery_mode == delivery_mode
                    &&& v.capability_index_fingerprint == capability_index_fingerprint@
                    &&& v.provider_projection_version == provider_projection_version@
                    &&& v.model == model@
                    &&& v.reasoning_effort == reasoning_effort
                    &&& v.registration_identity == registration_identity@
                    &&& forall|i: int, j: int|
                        0 <= i < j < v.static_bootstrap_tool_fingerprints.len() ==> crate::text::text_lt(
                            #[trigger] v.static_bootstrap_tool_fingerprints[i],
                            #[trigger] v.static_bootstrap_tool_fingerprints[j],
                        )
                    &&& forall|t: Seq<char>|
                        v.static_bootstrap_tool_fingerprints.contains(t) <==> holds_text(
                            static_bootstrap_tool_fingerprints@,
                            t,
                        )
                    &&& v.fingerprint == text_fingerprint(
                        session_binding_text(
                            delivery_mode,
                            capability_index_fingerprint@,
                            v.static_bootstrap_tool_fingerprints,
                            provider_projection_version@,
                            model@,
                            reasoning_effort,
                            registration_identity@,
                        ),
                    )
                    &&& is_sha256_hex(v.fingerprint)
                },
                Err(e) => e is InvalidConfiguration && !session_binding_input_ok(
                    capability_index_fingerprint@,
                    static_bootstrap_tool_fingerprints@,
                    provider_projection_version@,
                    model@,
                    registration_identity@,
                    distinct_count(static_bootstrap_tool_fingerprints@),
                ),
            },
    {
        if !valid_binding_value(provider_projection_version) || !valid_binding_value(model) {
            return Err(
                AiError::InvalidConfiguration(
                    "provider capability session binding is invalid".to_string(),
                ),
            );
        }
        let set = sorted_unique_texts(&static_bootstrap_tool_fingerprints);
        proof {
            lemma_distinct_count(static_bootstrap_tool_fingerprints@, set@);
        }
        let mut all_valid = true;
        let mut i: usize = 0;
        while i < set.len()
            invariant
                i <= set@.len(),
                all_valid == forall|k: int| 0 <= k < i ==> is_sha256_hex(#[trigger] set@[k]@),
            decreases set@.len() - i,
        {
            if !valid_sha256(set[i].as_str()) {
                all_valid = false;
            }
            i = i + 1;
        }
        proof {
            assert((forall|k: int| 0 <= k < set@.len() ==> is_sha256_hex(#[trigger] set@[k]@))
                == (forall|k: int|
                0 <= k < static_bootstrap_tool_fingerprints@.len() ==> is_sha256_hex(
                    #[trigger] static_bootstrap_tool_fingerprints@[k]@,
                ))) by {
                if forall|k: int| 0 <= k < set@.len() ==> is_sha256_hex(#[trigger] set@[k]@) {
                    assert forall|k: int|
                        0 <= k < static_bootstrap_tool_fingerprints@.len() implies is_sha256_hex(
                        #[trigger] static_bootstrap_tool_fingerprints@[k]@,
                    ) by {
                        assert(holds_text(
                            static_bootstrap_tool_fingerprints@,
                            static_bootstrap_tool_fingerprints@[k]@,
                        ));
                    }
                }
                if forall|k: int|
                    0 <= k < static_bootstrap_tool_fingerprints@.len() ==> is_sha256_hex(
                        #[trigger] static_bootstrap_tool_fingerprints@[k]@,
                    ) {
                    assert forall|k: int| 0 <= k < set@.len() implies is_sha256_hex(
                        #[trigger] set@[k]@,
                    ) by {
                        assert(holds_text(set@, set@[k]@));
                    }
                }
            }
        }
        if !valid_sha256(capability_index_fingerprint) || !valid_sha256(registration_identity)
            || set.len() > 64 || !all_valid {
            return Err(
                AiError::InvalidConfiguration(
                    "provider bootstrap tool binding is invalid".to_string(),
                ),
            );
        }
        let mut text = "{\"capability_index_fingerprint\":".to_owned();
        text.append(json_string(capability_index_fingerprint).as_str());
        text.append(",\"delivery_mode\":");
        text.append(json_string(delivery_mode.as_str()).as_str());
        text.append(",\"model\":");
        text.append(json_string(model).as_str());
        text.append(",\"provider_projection_version\":");
        text.append(json_string(provider_projection_version).as_str());
        text.append(",\"reasoning_effort\":");
        text.append(json_string(reasoning_effort.as_str()).as_str());
        text.append(",\"registration_identity\":");
        text.append(json_string(registration_identity).as_str());
        text.append(",\"static_bootstrap_tool_fingerprints\":[");
        text.append(json_item_list(&set).as_str());
        text.append("],\"version\":1}");
        let fingerprint = fingerprint_text(text.as_str());
        proof {
            assert forall|t: Seq<char>|
                texts(set@).contains(t) <==> holds_text(set@, t) by {
                if holds_text(set@, t) {
                    let k = choose|k: int| 0 <= k < set@.len() && #[trigger] set@[k]@ == t;
                    assert(texts(set@)[k] == t);
                }
            }
        }
        Ok(AiProviderCapabilitySessionBinding {
            delivery_mode,
            capability_index_fingerprint: capability_index_fingerprint.to_owned(),
            static_bootstrap_tool_fingerprints: set,
            provider_projection_version: provider_projection_version.to_owned(),
            model: model.to_owned(),
            reasoning_effort,
            registration_identity: registration_identity.to_owned(),
            fingerprint,
        })
    }

    /// Coordinator-selected delivery mode.
    pub fn delivery_mode(&self) -> (r: AiCapabilityDeliveryMode)
        ensures
            r == self@.delivery_mode,
    {
        self.delivery_mode
    }

    /// Exact canonical capability-index-set fingerprint.
    pub fn capability_index_fingerprint(&self) -> (r: &str)
        ensures
            r@ == self@.capability_index_fingerprint,
    {
        self.capability_index_fingerprint.as_str()
    }

    /// Exact canonical capability-index-set fingerprint (the explicit
    /// multi-target name for [`Self::capability_index_fingerprint`]).
    pub fn capability_index_set_fingerprint(&self) -> (r: &str)
        ensures
            r@ == self@.capability_index_fingerprint,
    {
        self.capability_index_fingerprint.as_str()
    }

    /// Exact frozen static bootstrap tool fingerprints, sorted and distinct.
    pub fn static_bootstrap_tool_fingerprints(&self) -> (r: &[String])
        ensures
            texts(r@) == self@.static_bootstrap_tool_fingerprints,
    {
        self.static_bootstrap_tool_fingerprints.as_slice()
    }

    /// Reviewed provider projection algorithm version.
    pub fn provider_projection_version(&self) -> (r: &str)
        ensures
            r@ == self@.provider_projection_version,
    {
        self.provider_projection_version.as_str()
    }

    /// Exact model bound into the retained session.
    pub fn model(&self) -> (r: &str)
        ensures
            r@ == self@.model,
    {
        self.model.as_str()
    }

    /// Exact reasoning effort bound into the retained session.
    pub fn reasoning_effort(&self) -> (r: ModelReasoningEffort)
        ensures
            r == self@.reasoning_effort,
    {
        self.reasoning_effort
    }

    /// Immutable provider registration identity incorporated into this binding.
    pub fn registration_identity(&self) -> (r: &str)
        ensures
            r@ == self@.registration_identity,
    {
        self.registration_identity.as_str()
    }

    /// Complete immutable binding fingerprint.
    pub fn fingerprint(&self) -> (r: &str)
        ensures
            r@ == self@.fingerprint,
    {
        self.fingerprint.as_str()
    }
}

} // verus!
