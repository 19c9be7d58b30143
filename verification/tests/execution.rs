use graphql_orm_ai::error::ToolExecutionError;
use graphql_orm_ai::approvals::AiApprovalBinding;
use graphql_orm_ai::native::ProviderToolSnapshot;
use graphql_orm_ai::execution::{
    AiToolExecutionProvenance, AiToolLeaseFacts, AiToolProviderTurnFacts, AiToolRequestFacts,
    authorize_bound_execution, authorize_direct_execution, tool_bridge_step, AiApprovalRule,
    AiToolAuthorizationFacts, AiToolBridgeAction, AiToolBridgeEvent, GraphqlExecutionTarget, GraphqlExecutionTargetClass, GraphqlExecutionTargetRegistry,
    GraphqlOperationContract,
};
use graphql_orm_ai::scope::{validate_scope, AiScope};

fn local(id: &str) -> GraphqlExecutionTarget {
    GraphqlExecutionTarget {
        id: id.to_owned(),
        class: GraphqlExecutionTargetClass::Local,
        audience: None,
        resource_type: None,
        resource_id: None,
        schema_fingerprint: "s".repeat(64),
    }
}

fn contract(target: &str) -> GraphqlOperationContract {
    GraphqlOperationContract {
        target_id: target.to_owned(),
        schema_fingerprint: "s".repeat(64),
        operation_name: "ReadThing".to_owned(),
        document_hash: "d".repeat(64),
        result_projection_fingerprint: "r".repeat(64),
        disclosure_schema_fingerprint: "x".repeat(64),
    }
}

#[test]
fn registry_rejects_duplicate_and_unbound_remote_targets() {
    let mut registry = GraphqlExecutionTargetRegistry::new();
    assert!(registry.register(local("app")).is_ok());
    assert_eq!(registry.register(local("app")), Err(ToolExecutionError::InvalidTarget));
    let mut remote = local("routed");
    remote.class = GraphqlExecutionTargetClass::PrivateRouted;
    assert_eq!(registry.register(remote.clone()), Err(ToolExecutionError::InvalidTarget));
    remote.audience = Some("api".to_owned());
    remote.resource_type = Some("service".to_owned());
    remote.resource_id = Some(String::new());
    assert_eq!(registry.register(remote.clone()), Err(ToolExecutionError::InvalidTarget));
    remote.resource_id = Some("orders".to_owned());
    assert!(registry.register(remote).is_ok());
    let mut blank = local("blank");
    blank.schema_fingerprint = " ".to_owned();
    assert_eq!(registry.register(blank), Err(ToolExecutionError::InvalidTarget));
    assert!(registry.target("routed").is_some());
    assert!(registry.target("blank").is_none());
}

#[test]
fn contract_must_match_the_registered_schema_and_document() {
    let mut registry = GraphqlExecutionTargetRegistry::new();
    registry.register(local("app")).unwrap();
    assert_eq!(registry.validate_contract(&contract("app"), &"d".repeat(64)).unwrap().id, "app");
    assert_eq!(
        registry.validate_contract(&contract("missing"), &"d".repeat(64)).err(),
        Some(ToolExecutionError::InvalidTarget)
    );
    assert_eq!(
        registry.validate_contract(&contract("app"), &"e".repeat(64)).err(),
        Some(ToolExecutionError::StaleContract)
    );
    let mut stale = contract("app");
    stale.schema_fingerprint = "t".repeat(64);
    assert_eq!(
        registry.validate_contract(&stale, &"d".repeat(64)).err(),
        Some(ToolExecutionError::StaleContract)
    );
    let mut unnamed = contract("app");
    unnamed.operation_name = String::new();
    assert_eq!(
        registry.validate_contract(&unnamed, &"d".repeat(64)).err(),
        Some(ToolExecutionError::StaleContract)
    );
}

#[test]
fn scopes_must_be_present_and_bounded() {
    assert!(validate_scope(&AiScope::new("workspace", "w-1")).is_ok());
    assert!(validate_scope(&AiScope::new(" ", "w-1")).is_err());
    assert!(validate_scope(&AiScope::new("workspace", "")).is_err());
    assert!(validate_scope(&AiScope::new(&"k".repeat(128), "w")).is_ok());
    assert!(validate_scope(&AiScope::new(&"k".repeat(129), "w")).is_err());
    assert!(validate_scope(&AiScope::new("k", &"é".repeat(256))).is_ok());
    assert!(validate_scope(&AiScope::new("k", &"é".repeat(257))).is_err());
    let mut tenant = AiScope::new("workspace", "w-1");
    tenant.tenant_id = Some(" ".to_owned());
    assert!(validate_scope(&tenant).is_err());
    tenant.tenant_id = Some("t-1".to_owned());
    assert!(validate_scope(&tenant).is_ok());
    let copy = tenant.duplicate();
    assert!(copy.same_as(&tenant));
    assert!(!copy.same_as(&AiScope::new("workspace", "w-1")));
}

fn facts(complete_allow: bool, approval_requirement: AiApprovalRule) -> AiToolAuthorizationFacts {
    AiToolAuthorizationFacts {
        complete_allow,
        approval_requirement,
        policy_version: "policy-v1".to_owned(),
        authorization_state_digest: "d".repeat(64),
    }
}

#[test]
fn direct_execution_needs_a_complete_allow_without_approval() {
    assert!(authorize_direct_execution(&facts(true, AiApprovalRule::NoApproval)).is_ok());
    assert_eq!(authorize_direct_execution(&facts(false, AiApprovalRule::NoApproval)), Err(ToolExecutionError::Authorization));
    assert_eq!(authorize_direct_execution(&facts(true, AiApprovalRule::OneShot)), Err(ToolExecutionError::Authorization));
}

#[test]
fn bound_execution_needs_the_bound_policy_digest_and_approval() {
    let digest = "d".repeat(64);
    let current = facts(true, AiApprovalRule::OneShot);
    assert!(authorize_bound_execution(&current, "policy-v1", &digest, Some(AiApprovalRule::OneShot)).is_ok());
    assert!(authorize_bound_execution(&current, "policy-v1", &digest, None).is_ok());
    assert_eq!(
        authorize_bound_execution(&current, "policy-v2", &digest, None),
        Err(ToolExecutionError::Authorization)
    );
    assert_eq!(
        authorize_bound_execution(&current, "policy-v1", &"e".repeat(64), None),
        Err(ToolExecutionError::Authorization)
    );
    assert_eq!(
        authorize_bound_execution(&current, "policy-v1", &digest, Some(AiApprovalRule::NoApproval)),
        Err(ToolExecutionError::Authorization)
    );
    assert_eq!(
        authorize_bound_execution(&facts(false, AiApprovalRule::OneShot), "policy-v1", &digest, None),
        Err(ToolExecutionError::Authorization)
    );
}

#[test]
fn tool_bridge_checks_in_order_and_maps_each_failure() {
    let requested = AiToolBridgeEvent::Requested {
        operation_name: "Jobs".to_owned(),
        contract_operation_name: "Jobs".to_owned(),
    };
    assert_eq!(tool_bridge_step(&requested), AiToolBridgeAction::CheckContract);
    let renamed = AiToolBridgeEvent::Requested {
        operation_name: "Jobs".to_owned(),
        contract_operation_name: "OtherJobs".to_owned(),
    };
    assert_eq!(tool_bridge_step(&renamed), AiToolBridgeAction::Fail(ToolExecutionError::StaleContract));
    assert_eq!(tool_bridge_step(&AiToolBridgeEvent::ContractChecked(Ok(()))), AiToolBridgeAction::ResolvePrincipal);
    assert_eq!(
        tool_bridge_step(&AiToolBridgeEvent::ContractChecked(Err(ToolExecutionError::InvalidTarget))),
        AiToolBridgeAction::Fail(ToolExecutionError::InvalidTarget)
    );
    assert_eq!(tool_bridge_step(&AiToolBridgeEvent::PrincipalResolved(true)), AiToolBridgeAction::Authorize);
    assert_eq!(
        tool_bridge_step(&AiToolBridgeEvent::PrincipalResolved(false)),
        AiToolBridgeAction::Fail(ToolExecutionError::Reauthorization)
    );
    assert_eq!(tool_bridge_step(&AiToolBridgeEvent::Authorized(Ok(()))), AiToolBridgeAction::BuildContext);
    assert_eq!(
        tool_bridge_step(&AiToolBridgeEvent::Authorized(Err(ToolExecutionError::Authorization))),
        AiToolBridgeAction::Fail(ToolExecutionError::Authorization)
    );
    assert_eq!(tool_bridge_step(&AiToolBridgeEvent::ContextBuilt(Ok(()))), AiToolBridgeAction::Execute);
    assert_eq!(
        tool_bridge_step(&AiToolBridgeEvent::ContextBuilt(Err(ToolExecutionError::StaleContract))),
        AiToolBridgeAction::Fail(ToolExecutionError::StaleContract)
    );
}

fn snapshot(call_id: &str, tool_id: &str) -> ProviderToolSnapshot {
    ProviderToolSnapshot {
        call_id: call_id.to_owned(),
        tool_id: tool_id.to_owned(),
        provider_name: None,
        tool_fingerprint: "t".repeat(64),
        arguments: "{\"id\":\"7\"}".to_owned(),
    }
}

fn lease() -> AiToolLeaseFacts {
    AiToolLeaseFacts { session_id: 1, run_id: 2, attempt_id: 3, lease_generation: 4 }
}

fn turn(calls: Vec<ProviderToolSnapshot>) -> AiToolProviderTurnFacts {
    AiToolProviderTurnFacts {
        session_id: 1,
        run_id: 2,
        attempt_id: 3,
        lease_generation: 4,
        provider_kind: "open_ai".to_owned(),
        provider_model: "gpt-test".to_owned(),
        provider_profile_id: "profile-1".to_owned(),
        provider_response_id: Some("resp-1".to_owned()),
        budget_reservation_id: 5,
        provider_registration_fingerprint: None,
        tool_calls: calls,
    }
}

fn request() -> AiToolRequestFacts {
    AiToolRequestFacts {
        run_id: 2,
        tool_call_id: 6,
        variables: "{\"id\":\"7\"}".to_owned(),
        argument_hash: "a".repeat(64),
    }
}

#[test]
fn provenance_binds_exactly_one_requested_call_of_this_lease() {
    let fingerprint = "t".repeat(64);
    let calls = vec![snapshot("call-1", "jim.read"), snapshot("call-2", "jim.other")];
    let p = AiToolExecutionProvenance::from_provider_call(&lease(), &turn(calls.clone()), "call-1", "jim.read", &fingerprint, &request(), None)
        .expect("exact call");
    assert_eq!((p.session_id(), p.run_id(), p.tool_call_id(), p.attempt_id(), p.lease_generation()), (1, 2, 6, 3, 4));
    assert_eq!(p.provider_call_id(), "call-1");
    assert_eq!(p.provider_response_id(), Some("resp-1"));
    assert_eq!(p.argument_hash(), "a".repeat(64));
    assert!(p.approval_id().is_none() && p.policy_version().is_none());
    assert!(p.matches_request(&fingerprint, 2, 6, &"a".repeat(64)));
    assert!(!p.matches_request(&fingerprint, 2, 7, &"a".repeat(64)));
    let stale = |r: Result<AiToolExecutionProvenance, ToolExecutionError>| matches!(r, Err(ToolExecutionError::StaleContract));
    assert!(stale(AiToolExecutionProvenance::from_provider_call(&lease(), &turn(calls.clone()), "call-3", "jim.read", &fingerprint, &request(), None)));
    assert!(stale(AiToolExecutionProvenance::from_provider_call(&lease(), &turn(calls.clone()), "call-1", "jim.other", &fingerprint, &request(), None)));
    let duplicated = vec![snapshot("call-1", "jim.read"), snapshot("call-1", "jim.read")];
    assert!(stale(AiToolExecutionProvenance::from_provider_call(&lease(), &turn(duplicated), "call-1", "jim.read", &fingerprint, &request(), None)));
    let mut later = lease();
    later.lease_generation = 5;
    assert!(stale(AiToolExecutionProvenance::from_provider_call(&later, &turn(calls.clone()), "call-1", "jim.read", &fingerprint, &request(), None)));
    let other_model = Some(("open_ai".to_owned(), "other-model".to_owned()));
    assert!(stale(AiToolExecutionProvenance::from_provider_call(&lease(), &turn(calls.clone()), "call-1", "jim.read", &fingerprint, &request(), other_model)));
    let same = Some(("open_ai".to_owned(), "gpt-test".to_owned()));
    let routed = AiToolExecutionProvenance::from_provider_call(&lease(), &turn(calls), "call-1", "jim.read", &fingerprint, &request(), same).unwrap();
    assert_eq!(routed.execution_selection(), Some(("open_ai", "gpt-test")));
}

fn approval_envelope(session_id: u128, tool_call_id: u128) -> AiApprovalBinding {
    AiApprovalBinding {
        tool_call_id,
        session_id,
        scope: AiScope::new("workspace", "w-1"),
        tool_fingerprint: "t".repeat(64),
        argument_hash: "a".repeat(64),
        operation: GraphqlOperationContract {
            target_id: "local".to_owned(),
            schema_fingerprint: "s".repeat(64),
            operation_name: "UpdateThing".to_owned(),
            document_hash: "d".repeat(64),
            result_projection_fingerprint: "r".repeat(64),
            disclosure_schema_fingerprint: "x".repeat(64),
        },
        principal_reference_fingerprint: "p".repeat(64),
        delegated_actor_subject: None,
        delegation_reference: None,
        policy_version: "policy-1".to_owned(),
        authorization_state_digest: "state-1".to_owned(),
        resources: vec![],
        preview_hash: "h".repeat(64),
    }
}

#[test]
fn consumed_approval_must_be_the_exact_envelope_of_this_call() {
    let fingerprint = "t".repeat(64);
    let make = || {
        AiToolExecutionProvenance::from_provider_call(&lease(), &turn(vec![snapshot("call-1", "jim.write")]), "call-1", "jim.write", &fingerprint, &request(), None)
            .unwrap()
    };
    let binding = approval_envelope(1, 6);
    let hash = binding.stable_hash();
    let approved = make().with_consumed_approval(42, &hash, &binding).expect("exact envelope");
    assert_eq!(approved.approval_id(), Some(42));
    assert_eq!(approved.approval_binding_hash(), Some(hash.as_str()));
    assert!(approved.matches_request(&fingerprint, 2, 6, &"a".repeat(64)));
    assert!(matches!(make().with_consumed_approval(42, &"0".repeat(64), &binding), Err(ToolExecutionError::StaleContract)));
    let other = approval_envelope(9, 6);
    let other_hash = other.stable_hash();
    assert!(matches!(make().with_consumed_approval(42, &other_hash, &other), Err(ToolExecutionError::StaleContract)));
}
