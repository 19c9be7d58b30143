//! Loaded capability bindings and the bounded broker state of one fenced run:
//! what a load mints, the fences checked before execution, and the retained
//! searches and loaded bindings that let a later describe or execute be
//! matched to an exact earlier candidate.

use std::collections::VecDeque;
use vstd::prelude::*;

use crate::capability_delivery::{
    limits_valid, saturating_sum, valid_binding_label, valid_binding_value,
    AiCapabilityBrokerAmplification, AiCapabilityDeliveryLimits,
};
use crate::digest::{fingerprint_text, json_quoted, text_fingerprint, uuid_json, uuid_json_text, json_string};
use crate::error::AiError;
use crate::text::same_text;
use crate::tools::{
    definition_valid, sort_definitions_stable, stable_by_tool_id, unique_tool_ids,
    ModelToolDefinition,
};

verus! {

/// Exact run fence supplied when loading or executing one discovered entry.
#[derive(Clone, Debug)]
pub struct AiCapabilityRunBinding {
    /// Session identifier.
    pub session_id: u128,
    /// Run identifier.
    pub run_id: u128,
    /// Exact attempt identifier.
    pub attempt_id: u128,
    /// Monotonic lease generation.
    pub lease_generation: i64,
    /// Provider family.
    pub provider_kind: String,
    /// Exact provider capability-session fingerprint.
    pub provider_session_fingerprint: String,
}

/// Current host authorization decision for loading/executing one entry.
#[derive(Clone, Debug)]
pub struct AiCapabilityAuthorityDecision {
    /// Whether the current principal may use the exact entry in this run.
    pub allowed: bool,
    /// Safe current policy fingerprint/version bound into the handle.
    pub policy_fingerprint: String,
}

/// One candidate of a crate-owned discovery result.
#[derive(Clone, Debug)]
pub struct AiCapabilitySearchCandidate {
    /// Capability identifier.
    pub id: String,
    /// Capability kind.
    pub kind: String,
    /// Capability fingerprint.
    pub capability_fingerprint: String,
    /// Exact index-entry fingerprint.
    pub entry_fingerprint: String,
}

impl AiCapabilitySearchCandidate {
    /// An equal copy.
    pub fn duplicate(&self) -> (r: Self)
        ensures
            r == *self,
    {
        AiCapabilitySearchCandidate {
            id: self.id.clone(),
            kind: self.kind.clone(),
            capability_fingerprint: self.capability_fingerprint.clone(),
            entry_fingerprint: self.entry_fingerprint.clone(),
        }
    }
}

/// One crate-owned discovery result: the candidates the principal may see.
#[derive(Clone, Debug)]
pub struct AiCapabilitySearchResult {
    /// Fingerprint of the index set the search ran against.
    pub index_set_fingerprint: String,
    /// Permitted candidates, in ranking order.
    pub candidates: Vec<AiCapabilitySearchCandidate>,
}

impl View for AiCapabilitySearchResult {
    /// The index-set fingerprint and the candidates.
    type V = (Seq<char>, Seq<AiCapabilitySearchCandidate>);

    open spec fn view(&self) -> (Seq<char>, Seq<AiCapabilitySearchCandidate>) {
        (self.index_set_fingerprint@, self.candidates@)
    }
}

impl AiCapabilitySearchResult {
    /// A copy with the same index-set fingerprint and candidates.
    pub fn duplicate(&self) -> (r: Self)
        ensures
            r@ == self@,
    {
        let mut candidates: Vec<AiCapabilitySearchCandidate> = Vec::new();
        let mut i: usize = 0;
        while i < self.candidates.len()
            invariant
                i <= self.candidates@.len(),
                candidates@ == self.candidates@.subrange(0, i as int),
            decreases self.candidates@.len() - i,
        {
            candidates.push(self.candidates[i].duplicate());
            i = i + 1;
            proof {
                assert(candidates@ =~= self.candidates@.subrange(0, i as int));
            }
        }
        proof {
            assert(self.candidates@.subrange(0, self.candidates@.len() as int) =~= self.candidates@);
        }
        AiCapabilitySearchResult { index_set_fingerprint: self.index_set_fingerprint.clone(), candidates }
    }
}

/// The arguments of one discover call, as decoded from the model's JSON.
#[derive(Clone, Debug)]
pub struct BrokerDiscoverArguments {
    /// Search text.
    pub text: String,
    /// Namespace filter.
    pub namespace: Option<String>,
    /// Capability kind asked for, by its wire name.
    pub kind: Option<String>,
    /// Entity or class filter.
    pub entity_or_class: Option<String>,
    /// Maximum candidates to return.
    pub maximum_results: u16,
}

/// The wire name of the only kind discovery returns.
pub const GENERATED_QUERY_KIND: &'static str = "generated_query";

/// One search of the current capability index.
#[derive(Clone, Debug)]
pub struct AiCapabilitySearchQuery {
    /// Search text.
    pub text: String,
    /// Namespace filter.
    pub namespace: Option<String>,
    /// Capability kind searched, by its wire name.
    pub kind: String,
    /// Entity or operation filter.
    pub entity_or_operation: Option<String>,
    /// Maximum candidates to return.
    pub maximum_results: u16,
}

/// Discovery may only ask for generated queries.
pub open spec fn discover_kind_ok(kind: Option<String>) -> bool {
    match kind {
        Some(k) => k@ == GENERATED_QUERY_KIND@,
        None => true,
    }
}

/// The search a discover call runs: its filters, restricted to generated
/// queries.
pub open spec fn discover_query_of(a: BrokerDiscoverArguments, q: AiCapabilitySearchQuery) -> bool {
    &&& q.text == a.text
    &&& q.namespace == a.namespace
    &&& q.kind@ == GENERATED_QUERY_KIND@
    &&& q.entity_or_operation == a.entity_or_class
    &&& q.maximum_results == a.maximum_results
}

fn discover_kind_valid(kind: &Option<String>) -> (r: bool)
    ensures
        r == discover_kind_ok(*kind),
{
    match kind {
        Some(k) => same_text(k.as_str(), GENERATED_QUERY_KIND),
        None => true,
    }
}

/// The search of a fixed-broker discover call. Asking for any kind but
/// generated queries is malformed.
pub fn discover_query(arguments: BrokerDiscoverArguments) -> (r: Result<AiCapabilitySearchQuery, AiError>)
    ensures
        r is Ok <==> discover_kind_ok(arguments.kind),
        r matches Ok(q) ==> discover_query_of(arguments, q),
        r matches Err(e) ==> e is InvalidInput,
{
    if !discover_kind_valid(&arguments.kind) {
        return Err(AiError::InvalidInput("broker arguments are invalid".to_string()));
    }
    Ok(
        AiCapabilitySearchQuery {
            text: arguments.text,
            namespace: arguments.namespace,
            kind: GENERATED_QUERY_KIND.to_string(),
            entity_or_operation: arguments.entity_or_class,
            maximum_results: arguments.maximum_results,
        },
    )
}

/// The search of a client-deferred discover call: as for the fixed broker,
/// and asking for more results than the deferred-definition bound is
/// malformed too.
pub fn client_deferred_discover_query(
    arguments: BrokerDiscoverArguments,
    limits: AiCapabilityDeliveryLimits,
) -> (r: Result<AiCapabilitySearchQuery, AiError>)
    ensures
        r is Ok <==> discover_kind_ok(arguments.kind) && arguments.maximum_results
            <= limits.maximum_deferred_definitions,
        r matches Ok(q) ==> discover_query_of(arguments, q),
        r matches Err(e) ==> e is InvalidInput,
{
    if arguments.maximum_results > limits.maximum_deferred_definitions {
        return Err(AiError::InvalidInput("broker arguments are invalid".to_string()));
    }
    discover_query(arguments)
}

/// Checks that a client-deferred discovery returned no more candidates than
/// can be installed as exact definitions.
pub fn check_deferred_discovery_size(
    result: &AiCapabilitySearchResult,
    limits: AiCapabilityDeliveryLimits,
) -> (r: Result<(), AiError>)
    ensures
        r is Ok <==> result@.1.len() <= limits.maximum_deferred_definitions,
        r matches Err(e) ==> e is InvalidConfiguration,
{
    if result.candidates.len() > limits.maximum_deferred_definitions as usize {
        return Err(
            AiError::InvalidConfiguration(
                "deferred discovery exceeded its exact definition bound".to_string(),
            ),
        );
    }
    Ok(())
}

/// The candidates current host policy allows, in ranking order, given one
/// decision per candidate (`None` when the current index has no entry for
/// it); `None` when some candidate has no entry.
pub open spec fn permitted_candidates(
    candidates: Seq<AiCapabilitySearchCandidate>,
    decisions: Seq<Option<bool>>,
) -> Option<Seq<AiCapabilitySearchCandidate>>
    decreases candidates.len(),
{
    if candidates.len() == 0 || decisions.len() == 0 {
        Some(Seq::empty())
    } else {
        match permitted_candidates(candidates.drop_last(), decisions.drop_last()) {
            None => None,
            Some(kept) => match decisions.last() {
                None => None,
                Some(allowed) => if allowed {
                    Some(kept.push(candidates.last()))
                } else {
                    Some(kept)
                },
            },
        }
    }
}

/// Keeps the candidates of a search that current host policy allows, in
/// ranking order. `decisions` holds, per candidate, whether the current
/// decision allows it, or `None` when the current index no longer has its
/// entry, which fails the whole search closed.
pub fn filter_permitted_candidates(
    result: &AiCapabilitySearchResult,
    decisions: &Vec<Option<bool>>,
) -> (r: Result<AiCapabilitySearchResult, AiError>)
    requires
        decisions@.len() == result@.1.len(),
    ensures
        match permitted_candidates(result@.1, decisions@) {
            Some(kept) => r matches Ok(filtered) && filtered@ == (result@.0, kept),
            None => r matches Err(e) && e is Forbidden,
        },
{
    let mut candidates: Vec<AiCapabilitySearchCandidate> = Vec::new();
    let mut i: usize = 0;
    proof {
        assert(result.candidates@.subrange(0, 0) =~= Seq::<AiCapabilitySearchCandidate>::empty());
    }
    while i < result.candidates.len()
        invariant
            i <= result.candidates@.len(),
            decisions@.len() == result.candidates@.len(),
            permitted_candidates(result.candidates@.subrange(0, i as int), decisions@.subrange(0, i as int))
                == Some(candidates@),
        decreases result.candidates@.len() - i,
    {
        let ghost c_next = result.candidates@.subrange(0, i + 1);
        let ghost d_next = decisions@.subrange(0, i + 1);
        proof {
            assert(c_next.drop_last() =~= result.candidates@.subrange(0, i as int));
            assert(d_next.drop_last() =~= decisions@.subrange(0, i as int));
            assert(c_next.last() == result.candidates@[i as int]);
            assert(d_next.last() == decisions@[i as int]);
        }
        match decisions[i] {
            None => {
                proof {
                    assert(permitted_candidates(c_next, d_next) is None);
                    lemma_permitted_stays_refused(result.candidates@, decisions@, i + 1);
                    assert(result.candidates@.subrange(0, result.candidates@.len() as int) =~= result.candidates@);
                    assert(decisions@.subrange(0, decisions@.len() as int) =~= decisions@);
                }
                return Err(AiError::Forbidden);
            },
            Some(allowed) => {
                if allowed {
                    candidates.push(result.candidates[i].duplicate());
                }
            },
        }
        i = i + 1;
    }
    proof {
        assert(result.candidates@.subrange(0, result.candidates@.len() as int) =~= result.candidates@);
        assert(decisions@.subrange(0, decisions@.len() as int) =~= decisions@);
    }
    Ok(
        AiCapabilitySearchResult {
            index_set_fingerprint: result.index_set_fingerprint.clone(),
            candidates,
        },
    )
}

proof fn lemma_permitted_stays_refused(
    candidates: Seq<AiCapabilitySearchCandidate>,
    decisions: Seq<Option<bool>>,
    k: int,
)
    requires
        0 < k <= candidates.len(),
        decisions.len() == candidates.len(),
        permitted_candidates(candidates.subrange(0, k), decisions.subrange(0, k)) is None,
    ensures
        permitted_candidates(candidates, decisions) is None,
    decreases candidates.len() - k,
{
    if k < candidates.len() {
        let c = candidates.subrange(0, k + 1);
        let d = decisions.subrange(0, k + 1);
        assert(c.drop_last() =~= candidates.subrange(0, k));
        assert(d.drop_last() =~= decisions.subrange(0, k));
        lemma_permitted_stays_refused(candidates, decisions, k + 1);
    } else {
        assert(candidates.subrange(0, k) =~= candidates);
        assert(decisions.subrange(0, k) =~= decisions);
    }
}

/// What the current index shows for the entry of one capability.
#[derive(Clone, Debug)]
pub struct AiCapabilityEntryEvidence {
    /// Capability identifier.
    pub id: String,
    /// Capability kind.
    pub kind: String,
    /// Capability fingerprint.
    pub capability_fingerprint: String,
    /// Exact entry fingerprint.
    pub entry_fingerprint: String,
    /// Fingerprint of the current index set.
    pub index_set_fingerprint: String,
    /// Fingerprint of the owning index.
    pub index_fingerprint: String,
    /// Schema fingerprint of the owning index.
    pub schema_fingerprint: String,
    /// Semantic-catalogue fingerprint of the owning index.
    pub semantic_catalogue_fingerprint: String,
    /// Target-policy fingerprint of the owning index.
    pub target_policy_fingerprint: String,
}

/// Opaque short-lived loaded capability proof. Fields are private, so a host
/// or model cannot construct fingerprints, substitute a target, or change a
/// run fence.
#[derive(Clone, Debug)]
pub struct AiLoadedCapabilityBinding {
    nonce: u128,
    principal_reference_fingerprint: String,
    capability_id: String,
    capability_kind: String,
    capability_fingerprint: String,
    entry_fingerprint: String,
    index_set_fingerprint: String,
    index_fingerprint: String,
    schema_fingerprint: String,
    semantic_catalogue_fingerprint: String,
    target_policy_fingerprint: String,
    policy_fingerprint: String,
    session_id: u128,
    run_id: u128,
    attempt_id: u128,
    lease_generation: i64,
    provider_kind: String,
    provider_session_fingerprint: String,
    expires_at: i128,
}

/// What a load binds: the principal, the exact current entry and index, the
/// current policy decision, the run fence, and an expiry.
pub closed spec fn binding_minted(
    b: AiLoadedCapabilityBinding,
    nonce: u128,
    principal_reference_fingerprint: Seq<char>,
    entry: AiCapabilityEntryEvidence,
    policy_fingerprint: Seq<char>,
    run: AiCapabilityRunBinding,
    expires_at: int,
) -> bool {
    &&& b.nonce == nonce
    &&& b.principal_reference_fingerprint@ == principal_reference_fingerprint
    &&& b.capability_id@ == entry.id@
    &&& b.capability_kind@ == entry.kind@
    &&& b.capability_fingerprint@ == entry.capability_fingerprint@
    &&& b.entry_fingerprint@ == entry.entry_fingerprint@
    &&& b.index_set_fingerprint@ == entry.index_set_fingerprint@
    &&& b.index_fingerprint@ == entry.index_fingerprint@
    &&& b.schema_fingerprint@ == entry.schema_fingerprint@
    &&& b.semantic_catalogue_fingerprint@ == entry.semantic_catalogue_fingerprint@
    &&& b.target_policy_fingerprint@ == entry.target_policy_fingerprint@
    &&& b.policy_fingerprint@ == policy_fingerprint
    &&& b.session_id == run.session_id
    &&& b.run_id == run.run_id
    &&& b.attempt_id == run.attempt_id
    &&& b.lease_generation == run.lease_generation
    &&& b.provider_kind@ == run.provider_kind@
    &&& b.provider_session_fingerprint@ == run.provider_session_fingerprint@
    &&& b.expires_at == expires_at
}

/// The audit reference text: canonical JSON of the version, nonce, entry,
/// run, and attempt.
pub closed spec fn audit_reference_json(b: AiLoadedCapabilityBinding) -> Seq<char> {
    "{\"attempt\":"@ + uuid_json_text(b.attempt_id) + ",\"entry\":"@ + json_quoted(
        b.entry_fingerprint@,
    ) + ",\"nonce\":"@ + uuid_json_text(b.nonce) + ",\"run\":"@ + uuid_json_text(b.run_id)
        + ",\"version\":1}"@
}

impl AiLoadedCapabilityBinding {
    /// The loaded capability identifier.
    pub closed spec fn loaded_capability_id(&self) -> Seq<char> {
        self.capability_id@
    }

    /// The loaded capability fingerprint.
    pub closed spec fn loaded_capability_fingerprint(&self) -> Seq<char> {
        self.capability_fingerprint@
    }

    /// The loaded capability family.
    pub closed spec fn loaded_capability_kind(&self) -> Seq<char> {
        self.capability_kind@
    }

    /// When the binding expires (Unix nanoseconds).
    pub closed spec fn loaded_expires_at(&self) -> i128 {
        self.expires_at
    }

    /// The loaded capability family.
    pub fn capability_kind(&self) -> (r: &str)
        ensures
            r@ == self.loaded_capability_kind(),
    {
        self.capability_kind.as_str()
    }

    /// When the binding expires (Unix nanoseconds).
    pub fn expires_at(&self) -> (r: i128)
        ensures
            r == self.loaded_expires_at(),
    {
        self.expires_at
    }

    /// Stable capability ID carried to the ordinary durable tool broker.
    pub fn capability_id(&self) -> (r: &str)
        ensures
            r@ == self.loaded_capability_id(),
    {
        self.capability_id.as_str()
    }

    /// Exact loaded capability fingerprint.
    pub fn capability_fingerprint(&self) -> (r: &str)
        ensures
            r@ == self.loaded_capability_fingerprint(),
    {
        self.capability_fingerprint.as_str()
    }

    /// Opaque non-authoritative audit reference.
    pub fn audit_reference(&self) -> (r: String)
        ensures
            r@ == text_fingerprint(audit_reference_json(*self)),
    {
        let mut text = "{\"attempt\":".to_string();
        text.append(uuid_json(self.attempt_id).as_str());
        text.append(",\"entry\":");
        text.append(json_string(self.entry_fingerprint.as_str()).as_str());
        text.append(",\"nonce\":");
        text.append(uuid_json(self.nonce).as_str());
        text.append(",\"run\":");
        text.append(uuid_json(self.run_id).as_str());
        text.append(",\"version\":1}");
        proof {
            assert(text@ =~= audit_reference_json(*self));
        }
        fingerprint_text(text.as_str())
    }

    /// An equal copy.
    pub fn duplicate(&self) -> (r: Self)
        ensures
            r == *self,
    {
        AiLoadedCapabilityBinding {
            nonce: self.nonce,
            principal_reference_fingerprint: self.principal_reference_fingerprint.clone(),
            capability_id: self.capability_id.clone(),
            capability_kind: self.capability_kind.clone(),
            capability_fingerprint: self.capability_fingerprint.clone(),
            entry_fingerprint: self.entry_fingerprint.clone(),
            index_set_fingerprint: self.index_set_fingerprint.clone(),
            index_fingerprint: self.index_fingerprint.clone(),
            schema_fingerprint: self.schema_fingerprint.clone(),
            semantic_catalogue_fingerprint: self.semantic_catalogue_fingerprint.clone(),
            target_policy_fingerprint: self.target_policy_fingerprint.clone(),
            policy_fingerprint: self.policy_fingerprint.clone(),
            session_id: self.session_id,
            run_id: self.run_id,
            attempt_id: self.attempt_id,
            lease_generation: self.lease_generation,
            provider_kind: self.provider_kind.clone(),
            provider_session_fingerprint: self.provider_session_fingerprint.clone(),
            expires_at: self.expires_at,
        }
    }
}

/// Nanoseconds in one second.
pub const ONE_SECOND_NANOS: i128 = 1_000_000_000;

/// Nanoseconds in five minutes.
pub const FIVE_MINUTES_NANOS: i128 = 300_000_000_000;

/// Checks a loaded-handle TTL: between one second and five minutes.
pub fn validate_loaded_ttl(loaded_ttl: i128) -> (r: Result<(), AiError>)
    ensures
        r is Ok <==> ONE_SECOND_NANOS <= loaded_ttl <= FIVE_MINUTES_NANOS,
        r matches Err(e) ==> e is InvalidConfiguration,
{
    if loaded_ttl < ONE_SECOND_NANOS || loaded_ttl > FIVE_MINUTES_NANOS {
        return Err(AiError::InvalidConfiguration("loaded capability TTL is invalid".to_string()));
    }
    Ok(())
}

/// The search candidate for `capability_id`, when the result holds one.
pub open spec fn first_candidate_index(s: Seq<AiCapabilitySearchCandidate>, capability_id: Seq<char>) -> int
    decreases s.len(),
{
    if s.len() == 0 {
        -1
    } else if s[0].id@ == capability_id {
        0
    } else {
        let rest = first_candidate_index(s.skip(1), capability_id);
        if rest < 0 {
            -1
        } else {
            rest + 1
        }
    }
}

proof fn lemma_first_candidate_step(s: Seq<AiCapabilitySearchCandidate>, capability_id: Seq<char>, i: int)
    requires
        0 <= i < s.len(),
        forall|k: int| 0 <= k < i ==> #[trigger] s[k].id@ != capability_id,
    ensures
        first_candidate_index(s, capability_id) == if s[i].id@ == capability_id {
            i
        } else {
            let rest = first_candidate_index(s.skip(i + 1), capability_id);
            if rest < 0 {
                -1
            } else {
                rest + i + 1
            }
        },
    decreases i,
{
    if i > 0 {
        let t = s.skip(1);
        assert forall|k: int| 0 <= k < i - 1 implies #[trigger] t[k].id@ != capability_id by {
            assert(t[k] == s[k + 1]);
        }
        assert(t[i - 1] == s[i]);
        lemma_first_candidate_step(t, capability_id, i - 1);
        assert(t.skip(i) =~= s.skip(i + 1));
    }
}

proof fn lemma_first_candidate_absent(s: Seq<AiCapabilitySearchCandidate>, capability_id: Seq<char>)
    requires
        forall|k: int| 0 <= k < s.len() ==> #[trigger] s[k].id@ != capability_id,
    ensures
        first_candidate_index(s, capability_id) == -1,
    decreases s.len(),
{
    if s.len() > 0 {
        let t = s.skip(1);
        assert forall|k: int| 0 <= k < t.len() implies #[trigger] t[k].id@ != capability_id by {
            assert(t[k] == s[k + 1]);
        }
        lemma_first_candidate_absent(t, capability_id);
    }
}

fn find_candidate(result: &AiCapabilitySearchResult, capability_id: &str) -> (r: Option<usize>)
    ensures
        r matches Some(i) ==> i as int == first_candidate_index(result.candidates@, capability_id@) && i
            < result.candidates@.len(),
        r matches Some(i) ==> result.candidates@[i as int].id@ == capability_id@,
        r is None ==> first_candidate_index(result.candidates@, capability_id@) == -1,
{
    let mut i: usize = 0;
    while i < result.candidates.len()
        invariant
            i <= result.candidates@.len(),
            forall|k: int| 0 <= k < i ==> #[trigger] result.candidates@[k].id@ != capability_id@,
        decreases result.candidates@.len() - i,
    {
        if same_text(result.candidates[i].id.as_str(), capability_id) {
            proof {
                lemma_first_candidate_step(result.candidates@, capability_id@, i as int);
            }
            return Some(i);
        }
        i = i + 1;
    }
    proof {
        lemma_first_candidate_absent(result.candidates@, capability_id@);
    }
    None
}

/// The load decision: the search must have run against the current index
/// set, and the first candidate for the capability must exist, match the
/// current entry, and be allowed by a current decision with a
/// valid policy fingerprint.
pub open spec fn load_allowed(
    search: (Seq<char>, Seq<AiCapabilitySearchCandidate>),
    capability_id: Seq<char>,
    entry: AiCapabilityEntryEvidence,
    decision: AiCapabilityAuthorityDecision,
) -> bool {
    let i = first_candidate_index(search.1, capability_id);
    &&& search.0 == entry.index_set_fingerprint@
    &&& i >= 0
    &&& entry.id@ == capability_id
    &&& search.1[i].kind@ == entry.kind@
    &&& search.1[i].capability_fingerprint@ == entry.capability_fingerprint@
    &&& search.1[i].entry_fingerprint@ == entry.entry_fingerprint@
    &&& decision.allowed
    &&& valid_binding_label(decision.policy_fingerprint@)
}

/// Mints one loaded binding from a retained search, the current entry of the
/// capability, and a current host decision. `nonce` is fresh randomness and
/// `now` the current instant; the binding expires `loaded_ttl` later.
/// Anything else is forbidden.
pub fn load_capability_binding(
    principal_reference_fingerprint: &str,
    run: &AiCapabilityRunBinding,
    search: &AiCapabilitySearchResult,
    capability_id: &str,
    entry: &AiCapabilityEntryEvidence,
    decision: &AiCapabilityAuthorityDecision,
    nonce: u128,
    now: i128,
    loaded_ttl: i128,
) -> (r: Result<AiLoadedCapabilityBinding, AiError>)
    requires
        i128::MIN <= now + loaded_ttl <= i128::MAX,
    ensures
        r is Ok <==> load_allowed(search@, capability_id@, *entry, *decision),
        r is Ok ==> search.index_set_fingerprint@ == entry.index_set_fingerprint@ && entry.id@
            == capability_id@ && decision.allowed && exists|i: int|
            0 <= i < search.candidates@.len() && (#[trigger] search.candidates@[i]).id@ == capability_id@
                && search.candidates@[i].kind@ == entry.kind@
                && search.candidates@[i].capability_fingerprint@ == entry.capability_fingerprint@
                && search.candidates@[i].entry_fingerprint@ == entry.entry_fingerprint@,
        r matches Ok(b) ==> b.loaded_capability_id() == capability_id@
            && b.loaded_capability_fingerprint() == entry.capability_fingerprint@
            && b.loaded_capability_kind() == entry.kind@,
        r matches Ok(b) ==> binding_minted(
            b,
            nonce,
            principal_reference_fingerprint@,
            *entry,
            decision.policy_fingerprint@,
            *run,
            now + loaded_ttl,
        ),
        r matches Err(e) ==> e is Forbidden,
{
    if !same_text(search.index_set_fingerprint.as_str(), entry.index_set_fingerprint.as_str()) {
        return Err(AiError::Forbidden);
    }
    let found = find_candidate(search, capability_id);
    let i = match found {
        Some(i) => i,
        None => {
            return Err(AiError::Forbidden);
        },
    };
    let candidate = &search.candidates[i];
    if !same_text(entry.id.as_str(), capability_id) || !same_text(
        candidate.kind.as_str(),
        entry.kind.as_str(),
    ) || !same_text(candidate.capability_fingerprint.as_str(), entry.capability_fingerprint.as_str())
        || !same_text(candidate.entry_fingerprint.as_str(), entry.entry_fingerprint.as_str()) {
        return Err(AiError::Forbidden);
    }
    if !decision.allowed || !valid_binding_value(decision.policy_fingerprint.as_str()) {
        return Err(AiError::Forbidden);
    }
    proof {
        assert(search.candidates@[i as int] == *candidate);
    }
    Ok(
        AiLoadedCapabilityBinding {
            nonce,
            principal_reference_fingerprint: principal_reference_fingerprint.to_string(),
            capability_id: entry.id.clone(),
            capability_kind: entry.kind.clone(),
            capability_fingerprint: entry.capability_fingerprint.clone(),
            entry_fingerprint: entry.entry_fingerprint.clone(),
            index_set_fingerprint: entry.index_set_fingerprint.clone(),
            index_fingerprint: entry.index_fingerprint.clone(),
            schema_fingerprint: entry.schema_fingerprint.clone(),
            semantic_catalogue_fingerprint: entry.semantic_catalogue_fingerprint.clone(),
            target_policy_fingerprint: entry.target_policy_fingerprint.clone(),
            policy_fingerprint: decision.policy_fingerprint.clone(),
            session_id: run.session_id,
            run_id: run.run_id,
            attempt_id: run.attempt_id,
            lease_generation: run.lease_generation,
            provider_kind: run.provider_kind.clone(),
            provider_session_fingerprint: run.provider_session_fingerprint.clone(),
            expires_at: now + loaded_ttl,
        },
    )
}

/// The run fence of a loaded binding still holds: same principal, not
/// expired, same session, run, and attempt, a lease generation not older
/// than the binding's, and the same provider and provider session.
pub closed spec fn loaded_fence_holds(
    principal_reference_fingerprint: Seq<char>,
    now: i128,
    run: AiCapabilityRunBinding,
    loaded: AiLoadedCapabilityBinding,
) -> bool {
    &&& principal_reference_fingerprint == loaded.principal_reference_fingerprint@
    &&& now <= loaded.expires_at
    &&& loaded.session_id == run.session_id
    &&& loaded.run_id == run.run_id
    &&& loaded.attempt_id == run.attempt_id
    &&& run.lease_generation >= loaded.lease_generation
    &&& loaded.provider_kind@ == run.provider_kind@
    &&& loaded.provider_session_fingerprint@ == run.provider_session_fingerprint@
}

/// The loaded binding still names the exact current entry and index.
pub closed spec fn loaded_entry_current(
    loaded: AiLoadedCapabilityBinding,
    entry: AiCapabilityEntryEvidence,
) -> bool {
    &&& entry.id@ == loaded.capability_id@
    &&& loaded.capability_kind@ == entry.kind@
    &&& loaded.capability_fingerprint@ == entry.capability_fingerprint@
    &&& loaded.entry_fingerprint@ == entry.entry_fingerprint@
    &&& loaded.index_set_fingerprint@ == entry.index_set_fingerprint@
    &&& loaded.index_fingerprint@ == entry.index_fingerprint@
    &&& loaded.schema_fingerprint@ == entry.schema_fingerprint@
    &&& loaded.semantic_catalogue_fingerprint@ == entry.semantic_catalogue_fingerprint@
    &&& loaded.target_policy_fingerprint@ == entry.target_policy_fingerprint@
}

/// The loaded binding still names the current entry and index, and a fresh
/// decision allows it under the policy fingerprint it was loaded with.
pub closed spec fn loaded_still_authorized(
    loaded: AiLoadedCapabilityBinding,
    entry: AiCapabilityEntryEvidence,
    decision: AiCapabilityAuthorityDecision,
) -> bool {
    &&& loaded_entry_current(loaded, entry)
    &&& decision.allowed
    &&& decision.policy_fingerprint@ == loaded.policy_fingerprint@
}

/// Law: a loaded binding authorizes execution for as long as nothing it was
/// bound to changed. Until it expires, its run fence holds for the run it was
/// loaded in and for that run after any lease renewal, and never for an
/// older lease generation; its entry check holds against the entry it was
/// loaded from under a decision that still allows it with the same policy
/// fingerprint, and fails for a revoked decision or another policy.
pub proof fn lemma_loaded_binding_authorizes_while_unchanged(
    b: AiLoadedCapabilityBinding,
    nonce: u128,
    principal_reference_fingerprint: Seq<char>,
    entry: AiCapabilityEntryEvidence,
    policy_fingerprint: Seq<char>,
    run: AiCapabilityRunBinding,
    expires_at: int,
    now: i128,
    later_run: AiCapabilityRunBinding,
    later_decision: AiCapabilityAuthorityDecision,
)
    requires
        binding_minted(b, nonce, principal_reference_fingerprint, entry, policy_fingerprint, run, expires_at),
        now <= expires_at,
        later_run.session_id == run.session_id,
        later_run.run_id == run.run_id,
        later_run.attempt_id == run.attempt_id,
        later_run.provider_kind@ == run.provider_kind@,
        later_run.provider_session_fingerprint@ == run.provider_session_fingerprint@,
    ensures
        loaded_fence_holds(principal_reference_fingerprint, now, later_run, b)
            <==> later_run.lease_generation >= run.lease_generation,
        loaded_still_authorized(b, entry, later_decision) <==> (later_decision.allowed
            && later_decision.policy_fingerprint@ == policy_fingerprint),
{
}

/// Law: a loaded binding stays current only while nothing it was loaded
/// from has changed. If the current entry passes the currency check of a
/// binding minted from `entry`, then every identity and fingerprint of the
/// current entry (capability, kind, entry, index set, index, schema,
/// semantic catalogue, target policy) equals the one it was loaded with, and
/// the current decision allows it under the policy fingerprint it was loaded
/// with. Any drift, revocation, or policy change is refused.
pub proof fn lemma_loaded_binding_current_only_without_drift(
    b: AiLoadedCapabilityBinding,
    nonce: u128,
    principal_reference_fingerprint: Seq<char>,
    entry: AiCapabilityEntryEvidence,
    policy_fingerprint: Seq<char>,
    run: AiCapabilityRunBinding,
    expires_at: int,
    current: AiCapabilityEntryEvidence,
    decision: AiCapabilityAuthorityDecision,
)
    requires
        binding_minted(b, nonce, principal_reference_fingerprint, entry, policy_fingerprint, run, expires_at),
    ensures
        loaded_still_authorized(b, current, decision) ==> current.id@ == entry.id@,
        loaded_still_authorized(b, current, decision) ==> current.kind@ == entry.kind@,
        loaded_still_authorized(b, current, decision) ==> current.capability_fingerprint@ == entry.capability_fingerprint@,
        loaded_still_authorized(b, current, decision) ==> current.entry_fingerprint@ == entry.entry_fingerprint@,
        loaded_still_authorized(b, current, decision) ==> current.index_set_fingerprint@ == entry.index_set_fingerprint@,
        loaded_still_authorized(b, current, decision) ==> current.index_fingerprint@ == entry.index_fingerprint@,
        loaded_still_authorized(b, current, decision) ==> current.schema_fingerprint@ == entry.schema_fingerprint@,
        loaded_still_authorized(b, current, decision) ==> current.semantic_catalogue_fingerprint@ == entry.semantic_catalogue_fingerprint@,
        loaded_still_authorized(b, current, decision) ==> current.target_policy_fingerprint@ == entry.target_policy_fingerprint@,
        loaded_still_authorized(b, current, decision) ==> decision.allowed
            && decision.policy_fingerprint@ == policy_fingerprint,
        (current.id@ == entry.id@ && current.kind@ == entry.kind@
            && current.capability_fingerprint@ == entry.capability_fingerprint@
            && current.entry_fingerprint@ == entry.entry_fingerprint@
            && current.index_set_fingerprint@ == entry.index_set_fingerprint@
            && current.index_fingerprint@ == entry.index_fingerprint@
            && current.schema_fingerprint@ == entry.schema_fingerprint@
            && current.semantic_catalogue_fingerprint@ == entry.semantic_catalogue_fingerprint@
            && current.target_policy_fingerprint@ == entry.target_policy_fingerprint@
            && decision.allowed && decision.policy_fingerprint@ == policy_fingerprint)
            ==> loaded_still_authorized(b, current, decision),
{
}

/// Law: the run fence of a loaded binding refuses every use outside what it
/// was loaded for: after its expiry, for another principal, session, run,
/// attempt, provider or provider session, or for an older lease generation.
pub proof fn lemma_loaded_fence_refuses_outside_its_run(
    b: AiLoadedCapabilityBinding,
    nonce: u128,
    principal_reference_fingerprint: Seq<char>,
    entry: AiCapabilityEntryEvidence,
    policy_fingerprint: Seq<char>,
    run: AiCapabilityRunBinding,
    expires_at: int,
    caller: Seq<char>,
    now: i128,
    later_run: AiCapabilityRunBinding,
)
    requires
        binding_minted(b, nonce, principal_reference_fingerprint, entry, policy_fingerprint, run, expires_at),
    ensures
        now > expires_at ==> !loaded_fence_holds(caller, now, later_run, b),
        caller != principal_reference_fingerprint ==> !loaded_fence_holds(caller, now, later_run, b),
        later_run.session_id != run.session_id ==> !loaded_fence_holds(caller, now, later_run, b),
        later_run.run_id != run.run_id ==> !loaded_fence_holds(caller, now, later_run, b),
        later_run.attempt_id != run.attempt_id ==> !loaded_fence_holds(caller, now, later_run, b),
        later_run.lease_generation < run.lease_generation ==> !loaded_fence_holds(
            caller,
            now,
            later_run,
            b,
        ),
        later_run.provider_kind@ != run.provider_kind@ ==> !loaded_fence_holds(
            caller,
            now,
            later_run,
            b,
        ),
        later_run.provider_session_fingerprint@ != run.provider_session_fingerprint@
            ==> !loaded_fence_holds(caller, now, later_run, b),
{
}

/// Checks the run fence of a loaded binding before anything else is read.
pub fn check_loaded_fence(
    principal_reference_fingerprint: &str,
    now: i128,
    run: &AiCapabilityRunBinding,
    loaded: &AiLoadedCapabilityBinding,
) -> (r: Result<(), AiError>)
    ensures
        r is Ok <==> loaded_fence_holds(principal_reference_fingerprint@, now, *run, *loaded),
        r matches Err(e) ==> e is Forbidden,
{
    if !same_text(principal_reference_fingerprint, loaded.principal_reference_fingerprint.as_str())
        || now > loaded.expires_at || loaded.session_id != run.session_id || loaded.run_id
        != run.run_id || loaded.attempt_id != run.attempt_id || run.lease_generation
        < loaded.lease_generation || !same_text(
        loaded.provider_kind.as_str(),
        run.provider_kind.as_str(),
    ) || !same_text(
        loaded.provider_session_fingerprint.as_str(),
        run.provider_session_fingerprint.as_str(),
    ) {
        return Err(AiError::Forbidden);
    }
    Ok(())
}

/// Checks that a loaded binding still names the current entry and index, and
/// that a fresh host decision allows it under the same policy fingerprint.
pub fn check_loaded_current(
    loaded: &AiLoadedCapabilityBinding,
    entry: &AiCapabilityEntryEvidence,
    decision: &AiCapabilityAuthorityDecision,
) -> (r: Result<(), AiError>)
    ensures
        r is Ok <==> loaded_still_authorized(*loaded, *entry, *decision),
        r matches Err(e) ==> e is Forbidden,
{
    if !same_text(entry.id.as_str(), loaded.capability_id.as_str()) || !same_text(
        loaded.capability_kind.as_str(),
        entry.kind.as_str(),
    ) || !same_text(loaded.capability_fingerprint.as_str(), entry.capability_fingerprint.as_str())
        || !same_text(loaded.entry_fingerprint.as_str(), entry.entry_fingerprint.as_str())
        || !same_text(loaded.index_set_fingerprint.as_str(), entry.index_set_fingerprint.as_str())
        || !same_text(loaded.index_fingerprint.as_str(), entry.index_fingerprint.as_str())
        || !same_text(loaded.schema_fingerprint.as_str(), entry.schema_fingerprint.as_str())
        || !same_text(
        loaded.semantic_catalogue_fingerprint.as_str(),
        entry.semantic_catalogue_fingerprint.as_str(),
    ) || !same_text(
        loaded.target_policy_fingerprint.as_str(),
        entry.target_policy_fingerprint.as_str(),
    ) {
        return Err(AiError::Forbidden);
    }
    if !decision.allowed || !same_text(
        decision.policy_fingerprint.as_str(),
        loaded.policy_fingerprint.as_str(),
    ) {
        return Err(AiError::Forbidden);
    }
    Ok(())
}

/// Law: a binding freshly loaded for a run passes that run's fence until it
/// expires, and a fresh identical decision over the same current entry keeps
/// it current.
pub proof fn lemma_fresh_binding_passes_its_fences(
    b: AiLoadedCapabilityBinding,
    nonce: u128,
    principal_reference_fingerprint: Seq<char>,
    entry: AiCapabilityEntryEvidence,
    decision: AiCapabilityAuthorityDecision,
    run: AiCapabilityRunBinding,
    now: i128,
    loaded_ttl: i128,
    later: i128,
)
    requires
        binding_minted(
            b,
            nonce,
            principal_reference_fingerprint,
            entry,
            decision.policy_fingerprint@,
            run,
            now + loaded_ttl,
        ),
        decision.allowed,
        later <= now + loaded_ttl,
    ensures
        loaded_fence_holds(principal_reference_fingerprint, later, run, b),
        loaded_still_authorized(b, entry, decision),
{
}

/// Retained searches after one more: the newest `maximum` of them.
pub open spec fn keep_newest<A>(s: Seq<A>, maximum: int) -> Seq<A> {
    if s.len() > maximum {
        s.subrange(s.len() - maximum, s.len() as int)
    } else {
        s
    }
}

/// The loaded entries without the one for `reference`.
pub open spec fn without_reference(
    s: Seq<(Seq<char>, AiLoadedCapabilityBinding)>,
    reference: Seq<char>,
) -> Seq<(Seq<char>, AiLoadedCapabilityBinding)>
    decreases s.len(),
{
    if s.len() == 0 {
        s
    } else {
        let rest = without_reference(s.drop_last(), reference);
        if s.last().0 == reference {
            rest
        } else {
            rest.push(s.last())
        }
    }
}

/// The binding retained for `reference`: the first entry naming it.
pub open spec fn find_loaded(
    s: Seq<(Seq<char>, AiLoadedCapabilityBinding)>,
    reference: Seq<char>,
) -> Option<AiLoadedCapabilityBinding>
    decreases s.len(),
{
    if s.len() == 0 {
        None
    } else if s[0].0 == reference {
        Some(s[0].1)
    } else {
        find_loaded(s.skip(1), reference)
    }
}

/// The index of the newest retained search that holds a candidate with this
/// identifier and entry fingerprint, or -1.
pub open spec fn newest_search_with(
    s: Seq<(Seq<char>, Seq<AiCapabilitySearchCandidate>)>,
    capability_id: Seq<char>,
    entry_fingerprint: Seq<char>,
) -> int
    decreases s.len(),
{
    if s.len() == 0 {
        -1
    } else if exists|k: int|
        0 <= k < s.last().1.len() && (#[trigger] s.last().1[k]).id@ == capability_id
            && s.last().1[k].entry_fingerprint@ == entry_fingerprint {
        s.len() - 1
    } else {
        newest_search_with(s.drop_last(), capability_id, entry_fingerprint)
    }
}

/// Saturating increment of a `u32` counter.
pub open spec fn bumped(n: u32) -> u32 {
    saturating_sum(n as int, 1) as u32
}

/// Bounded process-local broker state for one fenced run: the retained
/// discovery results and short-lived loaded bindings, a pending client
/// installation flag, and accepted call counts. It is never a durable
/// authority: losing it fails the next describe or execute closed.
#[derive(Debug)]
pub struct AiCapabilityBrokerSession {
    searches: VecDeque<AiCapabilitySearchResult>,
    loaded: VecDeque<(String, AiLoadedCapabilityBinding)>,
    deferred_installation_pending: bool,
    amplification: AiCapabilityBrokerAmplification,
    limits: AiCapabilityDeliveryLimits,
}

impl AiCapabilityBrokerSession {
    /// The retained searches, oldest first.
    pub closed spec fn retained_searches(&self) -> Seq<(Seq<char>, Seq<AiCapabilitySearchCandidate>)> {
        self.searches@.map_values(|s: AiCapabilitySearchResult| s@)
    }

    /// The retained loaded entries, oldest first.
    pub closed spec fn loaded_entries(&self) -> Seq<(Seq<char>, AiLoadedCapabilityBinding)> {
        self.loaded@.map_values(|e: (String, AiLoadedCapabilityBinding)| (e.0@, e.1))
    }

    /// Whether a client-deferred installation awaits the next turn.
    pub closed spec fn installation_pending(&self) -> bool {
        self.deferred_installation_pending
    }

    /// Accepted call counts.
    pub closed spec fn counts(&self) -> AiCapabilityBrokerAmplification {
        self.amplification
    }

    /// The bounds of this session.
    pub closed spec fn bounds(&self) -> AiCapabilityDeliveryLimits {
        self.limits
    }

    /// The state respects its bounds and names each loaded reference once;
    /// every value of the type keeps this.
    #[verifier::type_invariant]
    pub closed spec fn wf(&self) -> bool {
        &&& limits_valid(self.limits)
        &&& self.searches@.len() <= self.limits.maximum_retained_searches
        &&& self.loaded@.len() <= self.limits.maximum_loaded_bindings
        &&& distinct_references(self.loaded_entries())
    }

    /// Creates empty bounded broker state for one fenced run.
    pub fn new(limits: AiCapabilityDeliveryLimits) -> (r: Result<Self, AiError>)
        ensures
            r is Ok <==> limits_valid(limits),
            r matches Ok(s) ==> {
                &&& s.retained_searches().len() == 0
                &&& s.loaded_entries().len() == 0
                &&& !s.installation_pending()
                &&& s.counts() == AiCapabilityBrokerAmplification {
                    discover_calls: 0,
                    describe_calls: 0,
                    execute_calls: 0,
                }
                &&& s.bounds() == limits
            },
            r matches Err(e) ==> e is InvalidConfiguration,
    {
        limits.validate()?;
        let s = AiCapabilityBrokerSession {
            searches: VecDeque::new(),
            loaded: VecDeque::new(),
            deferred_installation_pending: false,
            amplification: AiCapabilityBrokerAmplification {
                discover_calls: 0,
                describe_calls: 0,
                execute_calls: 0,
            },
            limits,
        };
        proof {
            assert(s.loaded_entries() =~= Seq::empty());
            assert(s.retained_searches() =~= Seq::empty());
        }
        Ok(s)
    }

    /// Exact bounds applied to retained searches, loaded bindings, and one
    /// describe planning contract.
    pub fn limits(&self) -> (r: AiCapabilityDeliveryLimits)
        ensures
            r == self.bounds(),
    {
        self.limits
    }

    /// Current accepted broker call counts.
    pub fn amplification(&self) -> (r: AiCapabilityBrokerAmplification)
        ensures
            r == self.counts(),
    {
        self.amplification
    }

    /// Loaded bindings still retained for this run.
    pub fn loaded_binding_count(&self) -> (r: usize)
        ensures
            r == self.loaded_entries().len(),
    {
        self.loaded.len()
    }

    /// Exact currently loaded bindings in load order.
    pub fn loaded_bindings(&self) -> (r: Vec<AiLoadedCapabilityBinding>)
        ensures
            r@ == loaded_bindings_of(self.loaded_entries()),
    {
        let mut out: Vec<AiLoadedCapabilityBinding> = Vec::new();
        let mut i: usize = 0;
        while i < self.loaded.len()
            invariant
                i <= self.loaded@.len(),
                out@ == loaded_bindings_of(self.loaded_entries()).subrange(0, i as int),
            decreases self.loaded@.len() - i,
        {
            out.push(self.loaded[i].1.duplicate());
            i = i + 1;
            proof {
                assert(out@ =~= loaded_bindings_of(self.loaded_entries()).subrange(0, i as int));
            }
        }
        proof {
            assert(out@ =~= loaded_bindings_of(self.loaded_entries()));
        }
        out
    }

    /// Retains one accepted discovery result, dropping the oldest beyond the
    /// bound, and counts the discovery call.
    pub fn record_search(&mut self, result: AiCapabilitySearchResult)
        ensures
            final(self).retained_searches() == keep_newest(
                old(self).retained_searches().push(result@),
                old(self).bounds().maximum_retained_searches as int,
            ),
            final(self).loaded_entries() == old(self).loaded_entries(),
            final(self).installation_pending() == old(self).installation_pending(),
            final(self).bounds() == old(self).bounds(),
            final(self).counts() == (AiCapabilityBrokerAmplification {
                discover_calls: bumped(old(self).counts().discover_calls),
                ..old(self).counts()
            }),
    {
        proof {
            use_type_invariant(&*self);
        }
        self.amplification.discover_calls = self.amplification.discover_calls.saturating_add(1);
        let ghost before = self.retained_searches();
        let ghost view = result@;
        let mut searches: VecDeque<AiCapabilitySearchResult> = VecDeque::new();
        std::mem::swap(&mut searches, &mut self.searches);
        searches.push_back(result);
        if searches.len() > self.limits.maximum_retained_searches as usize {
            let _ = searches.pop_front();
        }
        self.searches = searches;
        proof {
            let pushed = before.push(view);
            let expected = keep_newest(pushed, self.limits.maximum_retained_searches as int);
            assert(self.retained_searches() =~= expected);
        }
    }

    /// The newest retained search that offered this exact candidate.
    pub fn candidate_search(&self, capability_id: &str, candidate_fingerprint: &str) -> (r: Option<
        AiCapabilitySearchResult,
    >)
        ensures
            r is None <==> newest_search_with(
                self.retained_searches(),
                capability_id@,
                candidate_fingerprint@,
            ) < 0,
            r matches Some(s) ==> s@ == self.retained_searches()[newest_search_with(
                self.retained_searches(),
                capability_id@,
                candidate_fingerprint@,
            )],
    {
        let ghost all = self.retained_searches();
        let mut i: usize = self.searches.len();
        proof {
            assert(all.subrange(0, i as int) =~= all);
        }
        while i > 0
            invariant
                i <= self.searches@.len(),
                all == self.retained_searches(),
                all.len() == self.searches@.len(),
                newest_search_with(all, capability_id@, candidate_fingerprint@) == newest_search_with(
                    all.subrange(0, i as int),
                    capability_id@,
                    candidate_fingerprint@,
                ),
            decreases i,
        {
            let search = &self.searches[i - 1];
            let ghost prefix = all.subrange(0, i as int);
            proof {
                assert(all[i - 1] == self.searches@[i - 1]@);
                assert(prefix.last() == search@);
                assert(prefix.drop_last() =~= all.subrange(0, i - 1));
            }
            let mut k: usize = 0;
            while k < search.candidates.len()
                invariant
                    k <= search.candidates@.len(),
                    0 < i <= all.len(),
                    all == self.retained_searches(),
                    all[i - 1] == search@,
                    prefix == all.subrange(0, i as int),
                    prefix.last() == search@,
                    prefix.drop_last() == all.subrange(0, i - 1),
                    newest_search_with(all, capability_id@, candidate_fingerprint@)
                        == newest_search_with(prefix, capability_id@, candidate_fingerprint@),
                    forall|j: int|
                        0 <= j < k ==> !((#[trigger] search.candidates@[j]).id@ == capability_id@
                            && search.candidates@[j].entry_fingerprint@ == candidate_fingerprint@),
                decreases search.candidates@.len() - k,
            {
                let c = &search.candidates[k];
                if same_text(c.id.as_str(), capability_id) && same_text(
                    c.entry_fingerprint.as_str(),
                    candidate_fingerprint,
                ) {
                    proof {
                        assert(prefix.last().1[k as int] == search.candidates@[k as int]);
                        assert(newest_search_with(prefix, capability_id@, candidate_fingerprint@)
                            == i - 1);
                    }
                    return Some(search.duplicate());
                }
                k = k + 1;
            }
            proof {
                assert(!exists|j: int|
                    0 <= j < prefix.last().1.len() && (#[trigger] prefix.last().1[j]).id@
                        == capability_id@ && prefix.last().1[j].entry_fingerprint@
                        == candidate_fingerprint@);
            }
            i = i - 1;
        }
        None
    }

    /// Retains one loaded binding under its reference, replacing an earlier
    /// entry for the same reference and dropping the oldest beyond the bound,
    /// and counts the describe call.
    pub fn record_loaded(&mut self, reference: String, binding: AiLoadedCapabilityBinding)
        ensures
            final(self).loaded_entries() == keep_newest(
                without_reference(old(self).loaded_entries(), reference@).push(
                    (reference@, binding),
                ),
                old(self).bounds().maximum_loaded_bindings as int,
            ),
            final(self).retained_searches() == old(self).retained_searches(),
            final(self).installation_pending() == old(self).installation_pending(),
            final(self).bounds() == old(self).bounds(),
            final(self).counts() == (AiCapabilityBrokerAmplification {
                describe_calls: bumped(old(self).counts().describe_calls),
                ..old(self).counts()
            }),
    {
        proof {
            use_type_invariant(&*self);
        }
        self.amplification.describe_calls = self.amplification.describe_calls.saturating_add(1);
        let ghost before = self.loaded_entries();
        let mut kept: VecDeque<(String, AiLoadedCapabilityBinding)> = VecDeque::new();
        let mut i: usize = 0;
        while i < self.loaded.len()
            invariant
                i <= self.loaded@.len(),
                before == self.loaded@.map_values(
                    |e: (String, AiLoadedCapabilityBinding)| (e.0@, e.1),
                ),
                kept@.map_values(|e: (String, AiLoadedCapabilityBinding)| (e.0@, e.1))
                    == without_reference(before.subrange(0, i as int), reference@),
                kept@.len() <= i,
            decreases self.loaded@.len() - i,
        {
            let ghost prefix = before.subrange(0, i + 1);
            proof {
                assert(prefix.drop_last() =~= before.subrange(0, i as int));
                assert(prefix.last() == before[i as int]);
            }
            if !same_text(self.loaded[i].0.as_str(), reference.as_str()) {
                let entry = (self.loaded[i].0.clone(), self.loaded[i].1.duplicate());
                let ghost old_kept = kept@;
                kept.push_back(entry);
                proof {
                    assert(kept@.map_values(|e: (String, AiLoadedCapabilityBinding)| (e.0@, e.1))
                        =~= old_kept.map_values(
                        |e: (String, AiLoadedCapabilityBinding)| (e.0@, e.1),
                    ).push(before[i as int]));
                }
            }
            i = i + 1;
        }
        proof {
            assert(before.subrange(0, before.len() as int) =~= before);
            lemma_without_reference_distinct(before, reference@);
        }
        let ghost kept_view = kept@.map_values(|e: (String, AiLoadedCapabilityBinding)| (e.0@, e.1));
        let ghost reference_view = reference@;
        kept.push_back((reference, binding));
        proof {
            assert(kept@.map_values(|e: (String, AiLoadedCapabilityBinding)| (e.0@, e.1))
                =~= kept_view.push((reference_view, binding)));
            lemma_push_fresh_distinct(kept_view, reference_view, binding);
        }
        let ghost full = kept@.map_values(|e: (String, AiLoadedCapabilityBinding)| (e.0@, e.1));
        if kept.len() > self.limits.maximum_loaded_bindings as usize {
            let _ = kept.pop_front();
            proof {
                assert(kept@.map_values(|e: (String, AiLoadedCapabilityBinding)| (e.0@, e.1))
                    =~= full.subrange(1, full.len() as int));
                lemma_distinct_suffix(full, 1);
            }
        }
        self.loaded = kept;
        proof {
            assert(self.loaded_entries() =~= keep_newest(
                full,
                self.limits.maximum_loaded_bindings as int,
            ));
        }
    }

    /// Retains the discovery result of a client-deferred discover, replaces
    /// the loaded bindings with exactly those it installs, and marks the
    /// installation pending.
    pub fn record_deferred_search(
        &mut self,
        result: AiCapabilitySearchResult,
        loaded: Vec<(String, AiLoadedCapabilityBinding)>,
    )
        requires
            loaded@.len() <= old(self).bounds().maximum_loaded_bindings,
            distinct_references(
                loaded@.map_values(|e: (String, AiLoadedCapabilityBinding)| (e.0@, e.1)),
            ),
        ensures
            final(self).retained_searches() == keep_newest(
                old(self).retained_searches().push(result@),
                old(self).bounds().maximum_retained_searches as int,
            ),
            final(self).loaded_entries() == loaded@.map_values(
                |e: (String, AiLoadedCapabilityBinding)| (e.0@, e.1),
            ),
            final(self).installation_pending(),
            final(self).bounds() == old(self).bounds(),
            final(self).counts() == (AiCapabilityBrokerAmplification {
                discover_calls: bumped(old(self).counts().discover_calls),
                ..old(self).counts()
            }),
    {
        self.record_search(result);
        proof {
            use_type_invariant(&*self);
        }
        let mut source = loaded;
        let ghost whole = source@;
        let mut entries: VecDeque<(String, AiLoadedCapabilityBinding)> = VecDeque::new();
        while source.len() > 0
            invariant
                whole == source@ + entries@,
            decreases source@.len(),
        {
            let ghost before = source@;
            let ghost after = entries@;
            match source.pop() {
                Some(entry) => {
                    entries.push_front(entry);
                    proof {
                        assert(before =~= source@.push(entries@[0]));
                        assert(whole =~= source@ + entries@);
                    }
                },
                None => {},
            }
        }
        proof {
            assert(entries@ =~= whole);
        }
        self.loaded = entries;
        self.deferred_installation_pending = true;
    }

    /// Whether a client-deferred installation awaits the next turn.
    pub fn deferred_installation_pending(&self) -> (r: bool)
        ensures
            r == self.installation_pending(),
    {
        self.deferred_installation_pending
    }

    /// Marks the client-deferred installation complete.
    pub fn complete_deferred_installation(&mut self)
        ensures
            !final(self).installation_pending(),
            final(self).retained_searches() == old(self).retained_searches(),
            final(self).loaded_entries() == old(self).loaded_entries(),
            final(self).counts() == old(self).counts(),
            final(self).bounds() == old(self).bounds(),
    {
        proof {
            use_type_invariant(&*self);
        }
        self.deferred_installation_pending = false;
    }

    /// The binding retained under `reference`, if any.
    pub fn loaded(&self, reference: &str) -> (r: Option<AiLoadedCapabilityBinding>)
        ensures
            r == find_loaded(self.loaded_entries(), reference@),
    {
        let ghost entries = self.loaded_entries();
        let mut i: usize = 0;
        proof {
            assert(entries.skip(0) =~= entries);
        }
        while i < self.loaded.len()
            invariant
                i <= self.loaded@.len(),
                entries == self.loaded_entries(),
                entries.len() == self.loaded@.len(),
                find_loaded(entries, reference@) == find_loaded(entries.skip(i as int), reference@),
            decreases self.loaded@.len() - i,
        {
            proof {
                assert(entries[i as int] == (self.loaded@[i as int].0@, self.loaded@[i as int].1));
                assert(entries.skip(i as int)[0] == entries[i as int]);
                assert(entries.skip(i as int).skip(1) =~= entries.skip(i + 1));
            }
            if same_text(self.loaded[i].0.as_str(), reference) {
                return Some(self.loaded[i].1.duplicate());
            }
            i = i + 1;
        }
        proof {
            assert(entries.skip(i as int).len() == 0);
        }
        None
    }

    /// Counts one accepted execute call.
    pub fn record_execute(&mut self)
        ensures
            final(self).retained_searches() == old(self).retained_searches(),
            final(self).loaded_entries() == old(self).loaded_entries(),
            final(self).installation_pending() == old(self).installation_pending(),
            final(self).bounds() == old(self).bounds(),
            final(self).counts() == (AiCapabilityBrokerAmplification {
                execute_calls: bumped(old(self).counts().execute_calls),
                ..old(self).counts()
            }),
    {
        proof {
            use_type_invariant(&*self);
        }
        self.amplification.execute_calls = self.amplification.execute_calls.saturating_add(1);
    }
}

/// The bindings of loaded entries, in order.
pub open spec fn loaded_bindings_of(
    s: Seq<(Seq<char>, AiLoadedCapabilityBinding)>,
) -> Seq<AiLoadedCapabilityBinding> {
    s.map_values(|e: (Seq<char>, AiLoadedCapabilityBinding)| e.1)
}

/// Each reference names at most one loaded entry.
pub open spec fn distinct_references(s: Seq<(Seq<char>, AiLoadedCapabilityBinding)>) -> bool {
    forall|i: int, j: int| 0 <= i < j < s.len() ==> (#[trigger] s[i]).0 != (#[trigger] s[j]).0
}

proof fn lemma_without_reference_distinct(
    s: Seq<(Seq<char>, AiLoadedCapabilityBinding)>,
    reference: Seq<char>,
)
    requires
        distinct_references(s),
    ensures
        distinct_references(without_reference(s, reference)),
        forall|i: int|
            0 <= i < without_reference(s, reference).len() ==> (#[trigger] without_reference(
                s,
                reference,
            )[i]).0 != reference,
        forall|i: int|
            0 <= i < without_reference(s, reference).len() ==> s.contains(
                #[trigger] without_reference(s, reference)[i],
            ),
    decreases s.len(),
{
    if s.len() > 0 {
        let init = s.drop_last();
        assert(distinct_references(init));
        lemma_without_reference_distinct(init, reference);
        let rest = without_reference(init, reference);
        if s.last().0 != reference {
            let pushed = rest.push(s.last());
            assert forall|i: int| 0 <= i < pushed.len() implies s.contains(#[trigger] pushed[i]) by {
                if i < rest.len() {
                    assert(init.contains(rest[i]));
                    let k = choose|k: int| 0 <= k < init.len() && init[k] == rest[i];
                    assert(s[k] == rest[i]);
                } else {
                    assert(s[s.len() - 1] == pushed[i]);
                }
            }
            assert forall|i: int, j: int| 0 <= i < j < pushed.len() implies (#[trigger] pushed[i]).0
                != (#[trigger] pushed[j]).0 by {
                if j == pushed.len() - 1 {
                    assert(init.contains(rest[i]));
                    let k = choose|k: int| 0 <= k < init.len() && init[k] == rest[i];
                    assert(s[k] == init[k]);
                    assert(s[s.len() - 1] == pushed[j]);
                }
            }
        }
    }
}

proof fn lemma_push_fresh_distinct(
    s: Seq<(Seq<char>, AiLoadedCapabilityBinding)>,
    reference: Seq<char>,
    binding: AiLoadedCapabilityBinding,
)
    requires
        distinct_references(s),
        forall|i: int| 0 <= i < s.len() ==> (#[trigger] s[i]).0 != reference,
    ensures
        distinct_references(s.push((reference, binding))),
{
    let t = s.push((reference, binding));
    assert forall|i: int, j: int| 0 <= i < j < t.len() implies (#[trigger] t[i]).0 != (#[trigger] t[j]).0 by {
        if j == t.len() - 1 {
            assert(t[i] == s[i]);
        } else {
            assert(t[i] == s[i] && t[j] == s[j]);
        }
    }
}

proof fn lemma_distinct_suffix(s: Seq<(Seq<char>, AiLoadedCapabilityBinding)>, k: int)
    requires
        distinct_references(s),
        0 <= k <= s.len(),
    ensures
        distinct_references(s.subrange(k, s.len() as int)),
{
    let t = s.subrange(k, s.len() as int);
    assert forall|i: int, j: int| 0 <= i < j < t.len() implies (#[trigger] t[i]).0 != (#[trigger] t[j]).0 by {
        assert(t[i] == s[i + k] && t[j] == s[j + k]);
    }
}

proof fn lemma_find_loaded_last(s: Seq<(Seq<char>, AiLoadedCapabilityBinding)>, reference: Seq<char>)
    requires
        s.len() > 0,
        s.last().0 == reference,
        forall|i: int| 0 <= i < s.len() - 1 ==> (#[trigger] s[i]).0 != reference,
    ensures
        find_loaded(s, reference) == Some(s.last().1),
    decreases s.len(),
{
    if s.len() > 1 {
        let t = s.skip(1);
        assert forall|i: int| 0 <= i < t.len() - 1 implies (#[trigger] t[i]).0 != reference by {
            assert(t[i] == s[i + 1]);
        }
        assert(t.last() == s.last());
        lemma_find_loaded_last(t, reference);
    }
}

/// Law: once a binding is recorded under a reference, reading that
/// reference gives back exactly that binding.
pub proof fn lemma_loaded_reads_back_recorded(
    before: Seq<(Seq<char>, AiLoadedCapabilityBinding)>,
    reference: Seq<char>,
    binding: AiLoadedCapabilityBinding,
    maximum: int,
)
    requires
        maximum >= 1,
        distinct_references(before),
    ensures
        find_loaded(
            keep_newest(without_reference(before, reference).push((reference, binding)), maximum),
            reference,
        ) == Some(binding),
{
    lemma_without_reference_distinct(before, reference);
    let full = without_reference(before, reference).push((reference, binding));
    let kept = keep_newest(full, maximum);
    assert(kept.len() > 0);
    assert(kept.last() == (reference, binding));
    assert forall|i: int| 0 <= i < kept.len() - 1 implies (#[trigger] kept[i]).0 != reference by {
        let off = full.len() - kept.len();
        assert(kept[i] == full[i + off]);
    }
    lemma_find_loaded_last(kept, reference);
}

/// Law: the broker state never retains more searches or loaded bindings than
/// its bounds, and an accepted call is always counted.
pub proof fn lemma_session_stays_bounded(s: AiCapabilityBrokerSession)
    requires
        s.wf(),
    ensures
        s.retained_searches().len() <= s.bounds().maximum_retained_searches,
        s.loaded_entries().len() <= s.bounds().maximum_loaded_bindings,
{
}

/// The number of loaded bindings for exactly this capability identifier and
/// fingerprint.
pub open spec fn matching_bindings(loaded: Seq<AiLoadedCapabilityBinding>, d: ModelToolDefinition) -> nat
    decreases loaded.len(),
{
    if loaded.len() == 0 {
        0
    } else {
        matching_bindings(loaded.drop_last(), d) + if loaded.last().loaded_capability_id()
            == d.tool_id@ && loaded.last().loaded_capability_fingerprint() == d.fingerprint@ {
            1nat
        } else {
            0nat
        }
    }
}

/// A definition offered for client-deferred installation is well formed and
/// matches exactly one loaded binding.
pub open spec fn deferred_definition_ok(loaded: Seq<AiLoadedCapabilityBinding>, d: ModelToolDefinition) -> bool {
    definition_valid(d) && matching_bindings(loaded, d) == 1
}

/// The definition as installed: loaded eagerly, not deferred.
pub open spec fn undeferred(d: ModelToolDefinition) -> ModelToolDefinition {
    ModelToolDefinition { defer_loading: false, ..d }
}

/// Every definition as installed.
pub open spec fn undeferred_all(s: Seq<ModelToolDefinition>) -> Seq<ModelToolDefinition> {
    s.map_values(|d: ModelToolDefinition| undeferred(d))
}

/// The selection has one definition per loaded binding, within the bound.
pub open spec fn deferred_counts_ok(
    loaded: Seq<AiLoadedCapabilityBinding>,
    definitions: Seq<ModelToolDefinition>,
    limits: AiCapabilityDeliveryLimits,
) -> bool {
    loaded.len() == definitions.len() && loaded.len() <= limits.maximum_deferred_definitions
}

fn count_matching(loaded: &Vec<AiLoadedCapabilityBinding>, d: &ModelToolDefinition) -> (r: usize)
    ensures
        r == matching_bindings(loaded@, *d),
{
    let mut n: usize = 0;
    let mut i: usize = 0;
    while i < loaded.len()
        invariant
            i <= loaded@.len(),
            n == matching_bindings(loaded@.subrange(0, i as int), *d),
            n <= i,
        decreases loaded@.len() - i,
    {
        proof {
            let pre = loaded@.subrange(0, i + 1);
            assert(pre.drop_last() =~= loaded@.subrange(0, i as int));
            assert(pre.last() == loaded@[i as int]);
        }
        if same_text(loaded[i].capability_id.as_str(), d.tool_id.as_str()) && same_text(
            loaded[i].capability_fingerprint.as_str(),
            d.fingerprint.as_str(),
        ) {
            n = n + 1;
        }
        i = i + 1;
    }
    proof {
        assert(loaded@.subrange(0, loaded@.len() as int) =~= loaded@);
    }
    n
}

/// Selects only exact freshly loaded definitions for the next client-deferred
/// continuation: one definition per loaded binding within the bound, each
/// well formed and matching exactly one binding, no identifier twice. The
/// result is loaded eagerly and ordered by tool identifier.
pub fn prepare_client_deferred_continuation(
    loaded: &Vec<AiLoadedCapabilityBinding>,
    exact_definitions: Vec<ModelToolDefinition>,
    limits: AiCapabilityDeliveryLimits,
) -> (r: Result<Vec<ModelToolDefinition>, AiError>)
    ensures
        r is Ok <==> deferred_counts_ok(loaded@, exact_definitions@, limits) && (forall|j: int|
            0 <= j < exact_definitions@.len() ==> deferred_definition_ok(
                loaded@,
                #[trigger] exact_definitions@[j],
            )) && unique_tool_ids(exact_definitions@),
        r matches Ok(v) ==> v@ == stable_by_tool_id(undeferred_all(exact_definitions@)),
        r matches Err(e) ==> (e is Forbidden <==> deferred_counts_ok(
            loaded@,
            exact_definitions@,
            limits,
        ) && exists|i: int|
            0 <= i < exact_definitions@.len() && (forall|j: int|
                0 <= j < i ==> deferred_definition_ok(loaded@, #[trigger] exact_definitions@[j]))
                && definition_valid(exact_definitions@[i]) && matching_bindings(
                loaded@,
                exact_definitions@[i],
            ) != 1),
        r matches Err(e) ==> e is Forbidden || e is InvalidInput,
{
    if loaded.len() != exact_definitions.len() || loaded.len()
        > limits.maximum_deferred_definitions as usize {
        return Err(AiError::InvalidInput("deferred capability selection is invalid".to_string()));
    }
    let ghost original = exact_definitions@;
    let mut installed: Vec<ModelToolDefinition> = Vec::new();
    let mut i: usize = 0;
    while i < exact_definitions.len()
        invariant
            original == exact_definitions@,
            deferred_counts_ok(loaded@, original, limits),
            i <= original.len(),
            forall|j: int| 0 <= j < i ==> deferred_definition_ok(loaded@, #[trigger] original[j]),
            installed@ == undeferred_all(original.subrange(0, i as int)),
        decreases original.len() - i,
    {
        let d = &exact_definitions[i];
        if d.validate().is_err() {
            proof {
                assert(!deferred_definition_ok(loaded@, original[i as int]));
                assert(!definition_valid(original[i as int]));
            }
            return Err(AiError::InvalidInput("deferred definition is invalid".to_string()));
        }
        if count_matching(loaded, d) != 1 {
            proof {
                assert(!deferred_definition_ok(loaded@, original[i as int]));
            }
            return Err(AiError::Forbidden);
        }
        let mut copy = d.duplicate();
        copy.defer_loading = false;
        installed.push(copy);
        i = i + 1;
        proof {
            assert(installed@ =~= undeferred_all(original.subrange(0, i as int)));
        }
    }
    proof {
        assert(original.subrange(0, original.len() as int) =~= original);
    }
    let mut a: usize = 0;
    while a < installed.len()
        invariant
            original == exact_definitions@,
            deferred_counts_ok(loaded@, original, limits),
            forall|j: int| 0 <= j < original.len() ==> deferred_definition_ok(loaded@, #[trigger] original[j]),
            installed@ == undeferred_all(original),
            installed@.len() == original.len(),
            a <= installed@.len(),
            forall|x: int, y: int|
                0 <= x < a && 0 <= y < original.len() && x != y ==> #[trigger] original[x].tool_id@
                    != #[trigger] original[y].tool_id@,
        decreases installed@.len() - a,
    {
        let mut b: usize = 0;
        while b < installed.len()
            invariant
                original == exact_definitions@,
                deferred_counts_ok(loaded@, original, limits),
                forall|j: int| 0 <= j < original.len() ==> deferred_definition_ok(loaded@, #[trigger] original[j]),
                installed@ == undeferred_all(original),
                installed@.len() == original.len(),
                a < installed@.len(),
                b <= installed@.len(),
                forall|y: int|
                    0 <= y < b && y != a ==> original[a as int].tool_id@ != #[trigger] original[y].tool_id@,
            decreases installed@.len() - b,
        {
            proof {
                assert(installed@[a as int].tool_id == original[a as int].tool_id);
                assert(installed@[b as int].tool_id == original[b as int].tool_id);
            }
            if b != a && same_text(installed[a].tool_id.as_str(), installed[b].tool_id.as_str()) {
                proof {
                    assert(original[a as int].tool_id@ == original[b as int].tool_id@);
                    assert(!unique_tool_ids(original));
                }
                return Err(
                    AiError::InvalidInput("deferred capability selection is ambiguous".to_string()),
                );
            }
            b = b + 1;
        }
        a = a + 1;
    }
    Ok(sort_definitions_stable(&installed))
}

} // verus!
