use graphql_orm_ai::configuration::{
    authorize_normalized_endpoint, check_provider_profile_update, content_policy_ready,
    content_protection_state, migration_state_value, normalize_display_name,
    normalize_endpoint_candidate, provider_data_policy, provider_data_policy_view,
    provider_profile_write, singleton_policy_write, AiContentProtectionMode,
    AiOpenAiCompatibleProfileInput, ProviderProfileWrite, SingletonPolicyWrite,
    StoredProviderDataPolicy,
};
use graphql_orm_ai::error::AiError;

fn compatible() -> AiOpenAiCompatibleProfileInput {
    AiOpenAiCompatibleProfileInput {
        retention: "zero-data".to_owned(),
        custom_tools: true,
        parallel_tool_calls: true,
        structured_output: false,
        provider_retained_continuation: false,
    }
}

#[test]
fn compatible_data_policy_is_stored_canonically_and_read_back() {
    let stored = provider_data_policy(true, Some(&compatible())).unwrap();
    assert_eq!(
        stored,
        "{\"openai_compatible\":{\"custom_tools\":true,\"parallel_tool_calls\":true,\"provider_retained_continuation\":false,\"retention\":\"zero-data\",\"structured_output\":false,\"version\":1}}"
    );
    let parsed: serde_json::Value = serde_json::from_str(&stored).unwrap();
    assert_eq!(parsed["openai_compatible"]["retention"], "zero-data");
    assert_eq!(provider_data_policy(false, None).unwrap(), "{}");
    assert!(matches!(provider_data_policy(true, None), Err(AiError::InvalidInput(_))));
    assert!(matches!(provider_data_policy(false, Some(&compatible())), Err(AiError::InvalidInput(_))));
    let mut unsafe_parallel = compatible();
    unsafe_parallel.custom_tools = false;
    assert!(matches!(provider_data_policy(true, Some(&unsafe_parallel)), Err(AiError::InvalidInput(_))));
    let view = provider_data_policy_view(true, &StoredProviderDataPolicy::OpenAiCompatible { version: 1, profile: compatible() })
        .unwrap()
        .unwrap();
    assert_eq!(view.retention, "zero-data");
    assert!(provider_data_policy_view(true, &StoredProviderDataPolicy::Empty).unwrap().is_none());
    assert!(matches!(
        provider_data_policy_view(true, &StoredProviderDataPolicy::OpenAiCompatible { version: 2, profile: compatible() }),
        Err(AiError::InvalidConfiguration(_))
    ));
    assert!(provider_data_policy_view(false, &StoredProviderDataPolicy::Malformed).is_err());
}

#[test]
fn configurable_endpoints_are_parsed_and_must_be_safe() {
    assert_eq!(
        normalize_endpoint_candidate(true, Some("  http://localhost:11434  ")).unwrap(),
        Some("http://localhost:11434/".to_owned())
    );
    assert_eq!(
        normalize_endpoint_candidate(true, Some("https://Example.COM/v1")).unwrap(),
        Some("https://example.com/v1".to_owned())
    );
    for unsafe_url in ["ftp://example.com", "https://user@example.com", "https://example.com/?q=1", "https://example.com/#f", "not a url"] {
        assert!(matches!(normalize_endpoint_candidate(true, Some(unsafe_url)), Err(AiError::InvalidInput(_))));
    }
    assert!(matches!(normalize_endpoint_candidate(true, Some("   ")), Err(AiError::InvalidInput(_))));
    assert!(matches!(normalize_endpoint_candidate(true, None), Err(AiError::InvalidInput(_))));
    assert_eq!(normalize_endpoint_candidate(false, None).unwrap(), None);
    assert!(matches!(normalize_endpoint_candidate(false, Some("https://example.com")), Err(AiError::InvalidInput(_))));
    assert!(matches!(authorize_normalized_endpoint(Some("https://example.com/".to_owned()), false), Err(AiError::Forbidden)));
    assert_eq!(authorize_normalized_endpoint(None, false).unwrap(), None);
}

#[test]
fn content_protection_key_policy_must_match_the_mode() {
    let managed = content_protection_state(AiContentProtectionMode::DatabaseManaged, false).unwrap();
    assert!(managed.ready && managed.migration_ready);
    assert_eq!(migration_state_value(managed.migration_ready), "ready");
    let encrypted = content_protection_state(AiContentProtectionMode::ApplicationEncrypted, true).unwrap();
    assert!(!encrypted.ready);
    assert_eq!(migration_state_value(encrypted.migration_ready), "pending");
    assert!(matches!(content_protection_state(AiContentProtectionMode::DatabaseManaged, true), Err(AiError::InvalidInput(_))));
    assert!(matches!(content_protection_state(AiContentProtectionMode::ApplicationEncrypted, false), Err(AiError::InvalidInput(_))));
    assert!(content_policy_ready(true, "ready"));
    assert!(!content_policy_ready(true, "pending"));
    assert!(!content_policy_ready(false, "ready"));
}

#[test]
fn singleton_and_profile_writes_follow_identity_and_version() {
    assert_eq!(singleton_policy_write(&[], None).unwrap(), SingletonPolicyWrite::Create);
    assert_eq!(singleton_policy_write(&[5], Some(2)).unwrap(), SingletonPolicyWrite::Update(5, 2));
    assert!(matches!(singleton_policy_write(&[5], None), Err(AiError::Conflict)));
    assert!(matches!(singleton_policy_write(&[], Some(0)), Err(AiError::Conflict)));
    assert!(matches!(singleton_policy_write(&[5, 6], None), Err(AiError::PersistenceFailed)));
    assert_eq!(provider_profile_write(None, None).unwrap(), ProviderProfileWrite::Create);
    assert_eq!(provider_profile_write(Some(3), Some(1)).unwrap(), ProviderProfileWrite::Update(3, 1));
    assert!(matches!(provider_profile_write(Some(3), None), Err(AiError::InvalidInput(_))));
    assert!(check_provider_profile_update("k", "k", false, true).is_ok());
    assert!(matches!(check_provider_profile_update("k", "other", false, false), Err(AiError::Conflict)));
    assert!(matches!(check_provider_profile_update("k", "k", true, true), Err(AiError::InvalidInput(_))));
    assert_eq!(normalize_display_name("  Local model  ").unwrap(), "Local model");
    assert!(normalize_display_name("   ").is_err());
    assert!(normalize_display_name(&"x".repeat(201)).is_err());
}

use graphql_orm_ai::configuration::{
    normalize_and_validate_budget_policy_input, parse_protection_mode, protection_mode_value,
    validate_compatible_profile, validate_retention_input, AiBudgetAmounts,
    AiBudgetPolicyManagementLimits, AiBudgetReclamationLimits, SetAiRetentionPolicyInput,
    UpsertAiBudgetPolicyInput,
};
use graphql_orm_ai::scope::AiScope;

#[test]
fn protection_modes_round_trip_through_their_stored_names() {
    for mode in [AiContentProtectionMode::DatabaseManaged, AiContentProtectionMode::ApplicationEncrypted] {
        assert_eq!(parse_protection_mode(protection_mode_value(mode)).unwrap(), mode);
    }
    assert_eq!(protection_mode_value(AiContentProtectionMode::DatabaseManaged), "database_managed");
    assert!(matches!(parse_protection_mode("plaintext"), Err(AiError::InvalidConfiguration(_))));
}

#[test]
fn compatible_profile_labels_are_bounded_and_parallel_needs_custom_tools() {
    assert!(validate_compatible_profile("zero-data:v1.2_x", true, true).is_ok());
    assert!(validate_compatible_profile("zero-data", false, false).is_ok());
    assert!(validate_compatible_profile("zero-data", false, true).is_err());
    assert!(validate_compatible_profile("", true, true).is_err());
    assert!(validate_compatible_profile("zero data", true, true).is_err());
    assert!(validate_compatible_profile(&"r".repeat(200), true, false).is_ok());
    assert!(validate_compatible_profile(&"r".repeat(201), true, false).is_err());
}

fn retention() -> SetAiRetentionPolicyInput {
    SetAiRetentionPolicyInput {
        scope: AiScope::new("workspace", "w-1"),
        message_retention_seconds: None,
        delta_retention_seconds: 60,
        raw_payload_retention_seconds: 86_400,
        audit_retention_seconds: 315_576_000,
        deleted_content_purge_seconds: 3_600,
        provider_file_delete_required: true,
        inbox_event_retention_seconds: 3_600,
        inbox_minimum_events: 1,
    }
}

#[test]
fn retention_durations_are_between_a_minute_and_ten_years() {
    assert!(validate_retention_input(&retention()).is_ok());
    let mut input = retention();
    input.delta_retention_seconds = 59;
    assert!(matches!(validate_retention_input(&input), Err(AiError::InvalidInput(_))));
    let mut input = retention();
    input.audit_retention_seconds = 315_576_001;
    assert!(validate_retention_input(&input).is_err());
    let mut input = retention();
    input.message_retention_seconds = Some(30);
    assert!(validate_retention_input(&input).is_err());
    input.message_retention_seconds = Some(120);
    assert!(validate_retention_input(&input).is_ok());
    let mut input = retention();
    input.inbox_minimum_events = 0;
    assert!(validate_retention_input(&input).is_err());
    input.inbox_minimum_events = 100_000;
    assert!(validate_retention_input(&input).is_ok());
    input.inbox_minimum_events = 100_001;
    assert!(validate_retention_input(&input).is_err());
}

fn ceiling() -> AiBudgetAmounts {
    AiBudgetAmounts {
        input_tokens: 1_000,
        output_tokens: 1_000,
        tool_units: 10,
        image_units: 0,
        cost_microunits: 5_000,
        runs: 5,
    }
}

fn budget_input() -> UpsertAiBudgetPolicyInput {
    UpsertAiBudgetPolicyInput {
        id: None,
        scope: AiScope::new("workspace", "w-1"),
        principal_kind: Some("  api_token:ci-bot ".to_owned()),
        principal_subject: Some(" token-7 ".to_owned()),
        interval_kind: "day".to_owned(),
        maximum_input_tokens: Some(1_000),
        maximum_output_tokens: None,
        maximum_tool_units: None,
        maximum_image_units: None,
        maximum_cost_microunits: None,
        maximum_runs: Some(5),
        enabled: true,
        expected_version: None,
    }
}

#[test]
fn budget_policy_input_is_trimmed_and_bounded_by_the_deployment_ceiling() {
    let mut input = budget_input();
    assert!(normalize_and_validate_budget_policy_input(&mut input, ceiling()).is_ok());
    assert_eq!(input.principal_kind.as_deref(), Some("api_token:ci-bot"));
    assert_eq!(input.principal_subject.as_deref(), Some("token-7"));

    let mut over = budget_input();
    over.maximum_runs = Some(6);
    assert!(matches!(
        normalize_and_validate_budget_policy_input(&mut over, ceiling()),
        Err(AiError::InvalidInput(_))
    ));
    let mut negative = budget_input();
    negative.maximum_input_tokens = Some(-1);
    assert!(normalize_and_validate_budget_policy_input(&mut negative, ceiling()).is_err());
    let mut none = budget_input();
    none.maximum_input_tokens = None;
    none.maximum_runs = None;
    assert!(normalize_and_validate_budget_policy_input(&mut none, ceiling()).is_err());
    let mut no_image = budget_input();
    no_image.maximum_image_units = Some(1);
    assert!(normalize_and_validate_budget_policy_input(&mut no_image, ceiling()).is_err());

    let mut orphan = budget_input();
    orphan.principal_subject = None;
    let before = format!("{:?}", orphan);
    assert!(normalize_and_validate_budget_policy_input(&mut orphan, ceiling()).is_err());
    assert_eq!(format!("{:?}", orphan), before);
    let mut unversioned = budget_input();
    unversioned.id = Some(9);
    assert!(normalize_and_validate_budget_policy_input(&mut unversioned, ceiling()).is_err());
    unversioned.expected_version = Some(0);
    assert!(normalize_and_validate_budget_policy_input(&mut unversioned, ceiling()).is_ok());
    let mut nil = budget_input();
    nil.id = Some(0);
    nil.expected_version = Some(0);
    assert!(normalize_and_validate_budget_policy_input(&mut nil, ceiling()).is_err());

    let mut user = budget_input();
    user.principal_kind = Some("user".to_owned());
    assert!(normalize_and_validate_budget_policy_input(&mut user, ceiling()).is_ok());
    let mut upper = budget_input();
    upper.principal_kind = Some("api_token:CI".to_owned());
    assert!(normalize_and_validate_budget_policy_input(&mut upper, ceiling()).is_err());
    let mut control = budget_input();
    control.principal_subject = Some("a\u{7}b".to_owned());
    assert!(normalize_and_validate_budget_policy_input(&mut control, ceiling()).is_err());
    let mut blank_subject = budget_input();
    blank_subject.principal_subject = Some("   ".to_owned());
    assert!(normalize_and_validate_budget_policy_input(&mut blank_subject, ceiling()).is_err());
    let mut scope_wide = budget_input();
    scope_wide.principal_kind = None;
    scope_wide.principal_subject = None;
    assert!(normalize_and_validate_budget_policy_input(&mut scope_wide, ceiling()).is_ok());
}

#[test]
fn deployment_limits_are_validated() {
    let limits = AiBudgetPolicyManagementLimits::new(ceiling(), 100).unwrap();
    assert_eq!(limits.maximum_ceiling(), ceiling());
    assert_eq!(limits.maximum_policies_per_scope(), 100);
    assert!(AiBudgetPolicyManagementLimits::new(ceiling(), 0).is_err());
    assert!(AiBudgetPolicyManagementLimits::new(ceiling(), 101).is_err());
    let reclaim = AiBudgetReclamationLimits::new(1, 1_000).unwrap();
    assert_eq!(reclaim.minimum_expired_age(), 1);
    assert_eq!(reclaim.maximum_reservation_scan(), 1_000);
    assert!(AiBudgetReclamationLimits::new(0, 10).is_err());
    assert!(AiBudgetReclamationLimits::new(10, 1_001).is_err());
    assert!(AiBudgetReclamationLimits::new(10, 0).is_err());
}

use graphql_orm_ai::configuration::{
    check_provider_credential_change, credential_audit_fact, ProviderCredentialChange,
};

#[test]
fn credential_changes_need_a_current_version_and_a_remote_provider() {
    assert!(check_provider_credential_change(ProviderCredentialChange::Store, false, 3, 3).is_ok());
    assert!(matches!(
        check_provider_credential_change(ProviderCredentialChange::Store, true, 3, 3),
        Err(AiError::InvalidInput(_))
    ));
    assert!(matches!(
        check_provider_credential_change(ProviderCredentialChange::Store, false, 4, 3),
        Err(AiError::Conflict)
    ));
    assert!(check_provider_credential_change(ProviderCredentialChange::Remove, true, 3, 3).is_ok());
    assert!(matches!(
        check_provider_credential_change(ProviderCredentialChange::Remove, true, 2, 3),
        Err(AiError::Conflict)
    ));
    assert_eq!(
        credential_audit_fact(ProviderCredentialChange::Store),
        ("ai.provider_credential.set", "credential_rotated")
    );
    assert_eq!(
        credential_audit_fact(ProviderCredentialChange::Remove),
        ("ai.provider_credential.remove", "credential_removed")
    );
}
