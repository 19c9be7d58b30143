//! One run-owned capability delivery turn: the selected mode, the exact
//! surface minted for it (with the static bootstrap definitions bound into
//! the provider-session binding), and the client-deferred installation of
//! freshly loaded definitions. The turn is not authority: every broker call
//! still rehydrates the principal and reapplies current host policy.

use vstd::prelude::*;

use crate::broker::{
    deferred_counts_ok, deferred_definition_ok, loaded_bindings_of,
    prepare_client_deferred_continuation, undeferred_all, AiCapabilityBrokerSession,
};
use crate::capability_delivery::{
    admissible_mode, definitions_bytes, discovery_definition, failed_with, plan_failure, is_discovery_definition,
    limits_valid, plan_capability_delivery, surface_input_ok, surface_tools_for, texts,
    AiCapabilityBrokerAmplification, AiCapabilityDeliveryMode, AiCapabilityDeliverySurface,
    AiProviderCapabilitySessionBinding, ProviderCapabilities, SessionBindingView,
};
use crate::error::AiError;
use crate::text::same_text;
use crate::tools::{
    definition_valid, same_definition, sort_definitions_stable, stable_by_tool_id,
    unique_tool_ids, ModelToolDefinition,
};

verus! {

/// The definitions whose fingerprints the session binding names as static
/// bootstrap tools, in their original order.
pub open spec fn static_bootstrap(
    definitions: Seq<ModelToolDefinition>,
    fingerprints: Seq<Seq<char>>,
) -> Seq<ModelToolDefinition>
    decreases definitions.len(),
{
    if definitions.len() == 0 {
        Seq::empty()
    } else {
        let rest = static_bootstrap(definitions.drop_last(), fingerprints);
        if fingerprints.contains(definitions.last().fingerprint@) {
            rest.push(definitions.last())
        } else {
            rest
        }
    }
}

/// Modes whose run surface also carries the static bootstrap definitions.
pub open spec fn carries_static_tools(mode: AiCapabilityDeliveryMode) -> bool {
    mode is ClientDeferred || mode is FixedBroker
}

/// The selection facts the planner decides from.
pub open spec fn planned_mode(
    provider: ProviderCapabilities,
    definitions: Seq<ModelToolDefinition>,
    retained_definitions_frozen: bool,
    session: AiCapabilityBrokerSession,
) -> Option<AiCapabilityDeliveryMode> {
    admissible_mode(
        provider.capability_delivery_modes@,
        definitions.len() as usize,
        definitions_bytes(definitions) as usize,
        retained_definitions_frozen,
        session.bounds(),
    )
}

/// When `select` succeeds: the binding names exactly the static bootstrap
/// definitions present, the planner admits a mode for a well-formed surface,
/// and the binding describes that mode and index.
pub open spec fn select_ok(
    provider: ProviderCapabilities,
    index_fingerprint: Seq<char>,
    definitions: Seq<ModelToolDefinition>,
    retained_definitions_frozen: bool,
    binding: SessionBindingView,
    session: AiCapabilityBrokerSession,
) -> bool {
    let mode = planned_mode(provider, definitions, retained_definitions_frozen, session);
    &&& static_bootstrap(definitions, binding.static_bootstrap_tool_fingerprints).len()
        == binding.static_bootstrap_tool_fingerprints.len()
    &&& definitions_bytes(definitions) <= usize::MAX
    &&& limits_valid(session.bounds())
    &&& mode is Some
    &&& surface_input_ok(index_fingerprint, definitions)
    &&& binding.delivery_mode == mode->0
    &&& binding.capability_index_fingerprint == index_fingerprint
}

/// One run-owned delivery turn.
#[derive(Debug)]
pub struct AiCapabilityDeliveryTurn {
    mode: AiCapabilityDeliveryMode,
    index_fingerprint: String,
    session_binding: AiProviderCapabilitySessionBinding,
    session: AiCapabilityBrokerSession,
    static_bootstrap_tools: Vec<ModelToolDefinition>,
    tools: Vec<ModelToolDefinition>,
}

impl AiCapabilityDeliveryTurn {
    /// The selected mode.
    pub closed spec fn turn_mode(&self) -> AiCapabilityDeliveryMode {
        self.mode
    }

    /// The bound index-set fingerprint.
    pub closed spec fn turn_index(&self) -> Seq<char> {
        self.index_fingerprint@
    }

    /// The retained provider-session binding.
    pub closed spec fn turn_binding(&self) -> SessionBindingView {
        self.session_binding@
    }

    /// The broker state of the run.
    pub closed spec fn turn_session(&self) -> AiCapabilityBrokerSession {
        self.session
    }

    /// The static bootstrap definitions.
    pub closed spec fn turn_static_tools(&self) -> Seq<ModelToolDefinition> {
        self.static_bootstrap_tools@
    }

    /// The definitions currently installed.
    pub closed spec fn turn_tools(&self) -> Seq<ModelToolDefinition> {
        self.tools@
    }

    /// Selects the delivery mode and mints the exact initial surface; in
    /// client-deferred and fixed-broker modes the static bootstrap
    /// definitions join the surface, ordered by tool identifier.
    pub fn select(
        provider: &ProviderCapabilities,
        index_fingerprint: &str,
        filtered_exact_definitions: Vec<ModelToolDefinition>,
        retained_definitions_frozen: bool,
        session_binding: AiProviderCapabilitySessionBinding,
        session: AiCapabilityBrokerSession,
    ) -> (r: Result<Self, AiError>)
        ensures
            r is Ok <==> select_ok(
                *provider,
                index_fingerprint@,
                filtered_exact_definitions@,
                retained_definitions_frozen,
                session_binding@,
                session,
            ),
            r matches Ok(t) ==> {
                let statics = static_bootstrap(
                    filtered_exact_definitions@,
                    session_binding@.static_bootstrap_tool_fingerprints,
                );
                &&& Some(t.turn_mode()) == planned_mode(
                    *provider,
                    filtered_exact_definitions@,
                    retained_definitions_frozen,
                    session,
                )
                &&& t.turn_index() == index_fingerprint@
                &&& t.turn_binding() == session_binding@
                &&& t.turn_session() == session
                &&& t.turn_static_tools() == statics
                &&& exists|base: Seq<ModelToolDefinition>|
                    surface_tools_for(
                        t.turn_mode(),
                        index_fingerprint@,
                        filtered_exact_definitions@,
                        base,
                    ) && t.turn_tools() == (if carries_static_tools(t.turn_mode()) {
                        stable_by_tool_id(base + statics)
                    } else {
                        base
                    })
            },
            r matches Err(e) ==> e is InvalidConfiguration,
            static_bootstrap(
                filtered_exact_definitions@,
                session_binding@.static_bootstrap_tool_fingerprints,
            ).len() != session_binding@.static_bootstrap_tool_fingerprints.len() ==> failed_with(
                r,
                "capability static bootstrap binding is incomplete"@,
            ),
            static_bootstrap(
                filtered_exact_definitions@,
                session_binding@.static_bootstrap_tool_fingerprints,
            ).len() == session_binding@.static_bootstrap_tool_fingerprints.len() ==> match plan_failure(
                provider.capability_delivery_modes@,
                index_fingerprint@,
                filtered_exact_definitions@,
                retained_definitions_frozen,
                session.bounds(),
            ) {
                Some(message) => failed_with(r, message),
                None => (session_binding@.delivery_mode != planned_mode(
                    *provider,
                    filtered_exact_definitions@,
                    retained_definitions_frozen,
                    session,
                )->0 || session_binding@.capability_index_fingerprint != index_fingerprint@)
                    ==> failed_with(
                    r,
                    "capability session binding does not match the selected surface"@,
                ),
            },
    {
        let fingerprints = session_binding.static_bootstrap_tool_fingerprints();
        let ghost set = session_binding@.static_bootstrap_tool_fingerprints;
        let mut statics: Vec<ModelToolDefinition> = Vec::new();
        let mut i: usize = 0;
        proof {
            assert(filtered_exact_definitions@.subrange(0, 0) =~= Seq::<ModelToolDefinition>::empty());
        }
        while i < filtered_exact_definitions.len()
            invariant
                i <= filtered_exact_definitions@.len(),
                texts(fingerprints@) == set,
                statics@ == static_bootstrap(filtered_exact_definitions@.subrange(0, i as int), set),
            decreases filtered_exact_definitions@.len() - i,
        {
            let d = &filtered_exact_definitions[i];
            let mut found = false;
            let mut k: usize = 0;
            while k < fingerprints.len()
                invariant
                    k <= fingerprints@.len(),
                    texts(fingerprints@) == set,
                    found == exists|j: int| 0 <= j < k && set[j] == d.fingerprint@,
                decreases fingerprints@.len() - k,
            {
                proof {
                    assert(set[k as int] == fingerprints@[k as int]@);
                }
                if same_text(fingerprints[k].as_str(), d.fingerprint.as_str()) {
                    found = true;
                }
                k = k + 1;
            }
            proof {
                let pre = filtered_exact_definitions@.subrange(0, i + 1);
                assert(pre.drop_last() =~= filtered_exact_definitions@.subrange(0, i as int));
                assert(pre.last() == *d);
                assert(found == set.contains(d.fingerprint@));
            }
            if found {
                statics.push(d.duplicate());
            }
            i = i + 1;
        }
        proof {
            assert(filtered_exact_definitions@.subrange(0, filtered_exact_definitions@.len() as int)
                =~= filtered_exact_definitions@);
        }
        if statics.len() != fingerprints.len() {
            return Err(
                AiError::InvalidConfiguration(
                    "capability static bootstrap binding is incomplete".to_string(),
                ),
            );
        }
        let surface = plan_capability_delivery(
            provider,
            index_fingerprint,
            filtered_exact_definitions,
            retained_definitions_frozen,
            session.limits(),
        )?;
        if session_binding.delivery_mode() != surface.mode() || !same_text(
            session_binding.capability_index_fingerprint(),
            index_fingerprint,
        ) {
            return Err(
                AiError::InvalidConfiguration(
                    "capability session binding does not match the selected surface".to_string(),
                ),
            );
        }
        let mode = surface.mode();
        let mut tools: Vec<ModelToolDefinition> = Vec::new();
        let base = surface.tools();
        let mut b: usize = 0;
        while b < base.len()
            invariant
                b <= base@.len(),
                tools@ == base@.subrange(0, b as int),
            decreases base@.len() - b,
        {
            tools.push(base[b].duplicate());
            b = b + 1;
            proof {
                assert(tools@ =~= base@.subrange(0, b as int));
            }
        }
        proof {
            assert(base@.subrange(0, base@.len() as int) =~= base@);
        }
        let ghost base_view = base@;
        proof {
            assert(surface_tools_for(mode, index_fingerprint@, filtered_exact_definitions@, base_view));
        }
        let tools = if mode == AiCapabilityDeliveryMode::ClientDeferred || mode
            == AiCapabilityDeliveryMode::FixedBroker {
            let mut merged = tools;
            let mut s: usize = 0;
            while s < statics.len()
                invariant
                    s <= statics@.len(),
                    merged@ == base_view + statics@.subrange(0, s as int),
                decreases statics@.len() - s,
            {
                merged.push(statics[s].duplicate());
                s = s + 1;
                proof {
                    assert(merged@ =~= base_view + statics@.subrange(0, s as int));
                }
            }
            proof {
                assert(statics@.subrange(0, statics@.len() as int) =~= statics@);
            }
            sort_definitions_stable(&merged)
        } else {
            tools
        };
        Ok(
            AiCapabilityDeliveryTurn {
                mode,
                index_fingerprint: index_fingerprint.to_string(),
                session_binding,
                session,
                static_bootstrap_tools: statics,
                tools,
            },
        )
    }

    /// Coordinator-selected delivery mode for this run.
    pub fn mode(&self) -> (r: AiCapabilityDeliveryMode)
        ensures
            r == self.turn_mode(),
    {
        self.mode
    }

    /// Exact canonical capability-index-set fingerprint bound into this surface.
    pub fn index_fingerprint(&self) -> (r: &str)
        ensures
            r@ == self.turn_index(),
    {
        self.index_fingerprint.as_str()
    }

    /// Exact canonical capability-index-set fingerprint bound into this turn.
    pub fn index_set_fingerprint(&self) -> (r: &str)
        ensures
            r@ == self.turn_index(),
    {
        self.index_fingerprint.as_str()
    }

    /// Immutable retained provider capability-session binding.
    pub fn session_binding(&self) -> (r: &AiProviderCapabilitySessionBinding)
        ensures
            r@ == self.turn_binding(),
    {
        &self.session_binding
    }

    /// Bounded process-local broker state for this run.
    pub fn session(&self) -> (r: &AiCapabilityBrokerSession)
        ensures
            *r == self.turn_session(),
    {
        &self.session
    }

    /// Exact definitions a host must install in the next provider request.
    pub fn current_tools(&self) -> (r: Vec<ModelToolDefinition>)
        ensures
            r@ == self.turn_tools(),
    {
        let mut out: Vec<ModelToolDefinition> = Vec::new();
        let mut i: usize = 0;
        while i < self.tools.len()
            invariant
                i <= self.tools@.len(),
                out@ == self.tools@.subrange(0, i as int),
            decreases self.tools@.len() - i,
        {
            out.push(self.tools[i].duplicate());
            i = i + 1;
            proof {
                assert(out@ =~= self.tools@.subrange(0, i as int));
            }
        }
        proof {
            assert(self.tools@.subrange(0, self.tools@.len() as int) =~= self.tools@);
        }
        out
    }

    /// The exact current provider surface for initial or continuation plan
    /// construction.
    pub fn current_surface(&self) -> (r: AiCapabilityDeliverySurface)
        ensures
            r@ == (self.turn_mode(), self.turn_tools()),
    {
        AiCapabilityDeliverySurface::from_parts(self.mode, self.current_tools())
    }

    /// Whether an offered definition set is exactly the crate-owned surface.
    pub fn matches_offered_tools(&self, offered: &[ModelToolDefinition]) -> (r: bool)
        ensures
            r == (self.turn_tools().len() == offered@.len() && forall|i: int|
                0 <= i < offered@.len() ==> same_definition(
                    #[trigger] self.turn_tools()[i],
                    offered@[i],
                )),
    {
        if self.tools.len() != offered.len() {
            return false;
        }
        let mut i: usize = 0;
        while i < offered.len()
            invariant
                i <= offered@.len(),
                self.tools@.len() == offered@.len(),
                forall|k: int| 0 <= k < i ==> same_definition(#[trigger] self.tools@[k], offered@[k]),
            decreases offered@.len() - i,
        {
            if !(self.tools[i] == offered[i]) {
                return false;
            }
            i = i + 1;
        }
        true
    }

    /// Whether the run needs freshly loaded exact definitions installed on
    /// the next continuation.
    pub fn requires_deferred_installation(&self) -> (r: bool)
        ensures
            r == (self.turn_mode() is ClientDeferred && self.turn_session().installation_pending()),
    {
        self.mode == AiCapabilityDeliveryMode::ClientDeferred
            && self.session.deferred_installation_pending()
    }

    /// Installs the exact freshly loaded definitions for the next
    /// client-deferred continuation and returns the complete new surface:
    /// discovery, the static bootstrap definitions, and the installed
    /// definitions, ordered by tool identifier. Only definitions matching a
    /// loaded binding are installed.
    #[verifier::spinoff_prover]
    pub fn install_deferred_definitions(
        &mut self,
        exact_definitions: Vec<ModelToolDefinition>,
    ) -> (r: Result<Vec<ModelToolDefinition>, AiError>)
        ensures
            final(self).turn_mode() == old(self).turn_mode(),
            final(self).turn_index() == old(self).turn_index(),
            final(self).turn_binding() == old(self).turn_binding(),
            final(self).turn_static_tools() == old(self).turn_static_tools(),
            old(self).turn_mode() !is ClientDeferred ==> (r matches Err(e) && e is Forbidden),
            r is Ok <==> {
                let loaded = loaded_bindings_of(old(self).turn_session().loaded_entries());
                &&& old(self).turn_mode() is ClientDeferred
                &&& deferred_counts_ok(
                    loaded,
                    exact_definitions@,
                    old(self).turn_session().bounds(),
                )
                &&& forall|j: int|
                    0 <= j < exact_definitions@.len() ==> deferred_definition_ok(
                        loaded,
                        #[trigger] exact_definitions@[j],
                    )
                &&& unique_tool_ids(exact_definitions@)
            },
            r matches Ok(v) ==> {
                let loaded = loaded_bindings_of(old(self).turn_session().loaded_entries());
                &&& old(self).turn_mode() is ClientDeferred
                &&& deferred_counts_ok(
                    loaded,
                    exact_definitions@,
                    old(self).turn_session().bounds(),
                )
                &&& forall|j: int|
                    0 <= j < exact_definitions@.len() ==> deferred_definition_ok(
                        loaded,
                        #[trigger] exact_definitions@[j],
                    )
                &&& unique_tool_ids(exact_definitions@)
                &&& exists|discovery: ModelToolDefinition|
                    is_discovery_definition(discovery, old(self).turn_index()) && v@
                        == stable_by_tool_id(
                        seq![discovery] + old(self).turn_static_tools() + stable_by_tool_id(undeferred_all(exact_definitions@)),
                    )
                &&& final(self).turn_tools() == v@
                &&& !final(self).turn_session().installation_pending()
                &&& final(self).turn_session().loaded_entries() == old(
                    self,
                ).turn_session().loaded_entries()
            },
            r is Err ==> final(self).turn_tools() == old(self).turn_tools()
                && final(self).turn_session() == old(self).turn_session(),
    {
        if self.mode != AiCapabilityDeliveryMode::ClientDeferred {
            return Err(AiError::Forbidden);
        }
        let loaded = self.session.loaded_bindings();
        let installed = prepare_client_deferred_continuation(
            &loaded,
            exact_definitions,
            self.session.limits(),
        )?;
        let mut tools: Vec<ModelToolDefinition> = Vec::new();
        let discovery = discovery_definition(self.index_fingerprint.as_str());
        let ghost discovery_view = discovery;
        tools.push(discovery);
        let mut s: usize = 0;
        while s < self.static_bootstrap_tools.len()
            invariant
                s <= self.static_bootstrap_tools@.len(),
                tools@ == seq![discovery_view] + self.static_bootstrap_tools@.subrange(0, s as int),
            decreases self.static_bootstrap_tools@.len() - s,
        {
            tools.push(self.static_bootstrap_tools[s].duplicate());
            s = s + 1;
            proof {
                assert(tools@ =~= seq![discovery_view] + self.static_bootstrap_tools@.subrange(
                    0,
                    s as int,
                ));
            }
        }
        proof {
            assert(self.static_bootstrap_tools@.subrange(0, self.static_bootstrap_tools@.len() as int)
                =~= self.static_bootstrap_tools@);
        }
        let ghost prefix = tools@;
        let mut k: usize = 0;
        while k < installed.len()
            invariant
                k <= installed@.len(),
                tools@ == prefix + installed@.subrange(0, k as int),
            decreases installed@.len() - k,
        {
            tools.push(installed[k].duplicate());
            k = k + 1;
            proof {
                assert(tools@ =~= prefix + installed@.subrange(0, k as int));
            }
        }
        proof {
            assert(installed@.subrange(0, installed@.len() as int) =~= installed@);
            assert(tools@ =~= seq![discovery_view] + self.static_bootstrap_tools@ + installed@);
            assert(is_discovery_definition(discovery_view, self.index_fingerprint@));
        }
        self.tools = sort_definitions_stable(&tools);
        self.session.complete_deferred_installation();
        Ok(self.current_tools())
    }

    /// Observed broker call amplification for host-side run sizing.
    pub fn amplification(&self) -> (r: AiCapabilityBrokerAmplification)
        ensures
            r == self.turn_session().counts(),
    {
        self.session.amplification()
    }
}

} // verus!
