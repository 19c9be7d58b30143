use graphql_orm_ai::budget::{is_terminal_run_state, is_unresolved_reservation_state};
use graphql_orm_ai::budget::{
    authorize_reservation_reclamation, budget_policy_capacity_view, budget_scope_capacity_view,
    budget_reservation_capacity_view, budget_policy_write, budget_scan_window,
    check_budget_policy_capacity, check_budget_policy_identity, reclaim_threshold,
    reclamation_reason_code, run_reclamation_evidence, scan_truncated, tally_reservations,
    AiBudgetCounterRecord, AiBudgetPolicyRecord, AiBudgetReservationRecord,
    AiRunSettlementEvidence, BudgetPeriod, BudgetPolicyWrite,
};
use graphql_orm_ai::configuration::AiBudgetReclamationLimits;
use graphql_orm_ai::error::AiError;
use graphql_orm_ai::scope::AiScope;

const SECOND: i128 = 1_000_000_000;

fn scope() -> AiScope {
    let mut scope = AiScope::new("workspace", "budget-scope");
    scope.tenant_id = Some("tenant-1".to_owned());
    scope
}

fn reservation(state: &str, expires_at: i64) -> AiBudgetReservationRecord {
    AiBudgetReservationRecord {
        id: 7,
        run_id: 8,
        session_id: 9,
        scope_kind: "workspace".to_owned(),
        scope_id: "budget-scope".to_owned(),
        tenant_id: Some("tenant-1".to_owned()),
        state: state.to_owned(),
        expires_at,
        created_at: expires_at - 60,
        reserved_input_tokens: 100,
        reserved_output_tokens: 50,
        reserved_tool_units: 1,
        reserved_image_units: 0,
        reserved_cost_microunits: 10,
        reserved_runs: 1,
        row_version: 3,
    }
}

fn terminal_run() -> AiRunSettlementEvidence {
    AiRunSettlementEvidence {
        session_id: 9,
        state: "failed".to_owned(),
        has_lease_owner: false,
        has_lease_expiry: false,
    }
}

fn limits() -> AiBudgetReclamationLimits {
    AiBudgetReclamationLimits::new(600 * SECOND, 50).unwrap()
}

#[test]
fn scan_window_narrows_to_the_database_ceiling_and_keeps_a_lookahead() {
    let w = budget_scan_window(None, None).unwrap();
    assert_eq!((w.window, w.has_lookahead, w.scan_limit), (200, true, 201));
    let w = budget_scan_window(Some(limits()), Some(1000)).unwrap();
    assert_eq!((w.window, w.has_lookahead, w.scan_limit), (50, true, 51));
    let w = budget_scan_window(Some(limits()), Some(50)).unwrap();
    assert_eq!((w.window, w.has_lookahead, w.scan_limit), (50, false, 50));
    let w = budget_scan_window(None, Some(-3)).unwrap();
    assert_eq!((w.window, w.has_lookahead, w.scan_limit), (0, false, 0));
    assert!(scan_truncated(budget_scan_window(None, None).unwrap(), 201));
    assert!(!scan_truncated(budget_scan_window(None, None).unwrap(), 200));
    assert!(scan_truncated(budget_scan_window(Some(limits()), Some(50)).unwrap(), 50));
}

#[test]
fn expired_uncertain_reservation_of_a_terminal_run_is_reclaimable() {
    let now = 10_000 * SECOND;
    let threshold = reclaim_threshold(now, limits());
    assert_eq!(threshold, Some(now - 600 * SECOND));
    let record = reservation("uncertain", 9_000);
    let (terminal, lease_free) = run_reclamation_evidence(&record, Some(&terminal_run()));
    assert!(terminal && lease_free);
    let view = budget_reservation_capacity_view(&record, terminal, lease_free, now, threshold);
    assert!(view.expired && view.reclaimable && view.run_terminal);
    assert_eq!(view.reserved_input_tokens, 100);
    assert!(authorize_reservation_reclamation(&record, &scope(), 3, threshold.unwrap(), Some(&terminal_run())).is_ok());
    assert_eq!(reclamation_reason_code("uncertain"), "expired_uncertain_reservation_committed");
    assert_eq!(reclamation_reason_code("reserved"), "expired_reserved_reservation_committed");
}

#[test]
fn unexpired_or_active_reservations_are_not_reclaimable() {
    let now = 10_000 * SECOND;
    let threshold = reclaim_threshold(now, limits());
    let recent = reservation("reserved", 9_700);
    let view = budget_reservation_capacity_view(&recent, true, true, now, threshold);
    assert!(view.expired && !view.reclaimable);
    assert!(matches!(
        authorize_reservation_reclamation(&recent, &scope(), 3, threshold.unwrap(), Some(&terminal_run())),
        Err(AiError::Conflict)
    ));
    let old = reservation("reserved", 1_000);
    let mut running = terminal_run();
    running.state = "running".to_owned();
    assert_eq!(run_reclamation_evidence(&old, Some(&running)), (false, true));
    assert!(matches!(
        authorize_reservation_reclamation(&old, &scope(), 3, threshold.unwrap(), Some(&running)),
        Err(AiError::Conflict)
    ));
    let mut leased = terminal_run();
    leased.has_lease_owner = true;
    assert!(matches!(
        authorize_reservation_reclamation(&old, &scope(), 3, threshold.unwrap(), Some(&leased)),
        Err(AiError::Conflict)
    ));
    assert!(matches!(
        authorize_reservation_reclamation(&old, &scope(), 4, threshold.unwrap(), Some(&terminal_run())),
        Err(AiError::Conflict)
    ));
    assert!(matches!(
        authorize_reservation_reclamation(&old, &scope(), 3, threshold.unwrap(), None),
        Err(AiError::Conflict)
    ));
    let committed = reservation("committed", 1_000);
    assert!(matches!(
        authorize_reservation_reclamation(&committed, &scope(), 3, threshold.unwrap(), Some(&terminal_run())),
        Err(AiError::Conflict)
    ));
    assert_eq!(run_reclamation_evidence(&old, None), (false, false));
}

#[test]
fn reclamation_rejects_a_cross_scope_reservation_as_not_found() {
    let other = AiScope::new("workspace", "other-scope");
    let record = reservation("uncertain", 1_000);
    assert!(matches!(
        authorize_reservation_reclamation(&record, &other, 3, 10_000 * SECOND, Some(&terminal_run())),
        Err(AiError::NotFound)
    ));
    let untenanted = AiScope::new("workspace", "budget-scope");
    assert!(matches!(
        authorize_reservation_reclamation(&record, &untenanted, 3, 10_000 * SECOND, Some(&terminal_run())),
        Err(AiError::NotFound)
    ));
}

#[test]
fn reclaimable_views_are_always_expired() {
    let now = 10_000 * SECOND;
    let threshold = reclaim_threshold(now, limits());
    for expires in [1_000, 9_399, 9_400, 9_401, 10_000, 10_001] {
        let view = budget_reservation_capacity_view(&reservation("uncertain", expires), true, true, now, threshold);
        assert!(!view.reclaimable || view.expired);
        assert_eq!(view.reclaimable, expires <= 9_400);
        assert_eq!(view.expired, expires <= 10_000);
    }
}

#[test]
fn tally_counts_each_reservation_once() {
    let now = 10_000 * SECOND;
    let threshold = reclaim_threshold(now, limits());
    let views = vec![
        budget_reservation_capacity_view(&reservation("uncertain", 1_000), true, true, now, threshold),
        budget_reservation_capacity_view(&reservation("reserved", 9_900), true, true, now, threshold),
        budget_reservation_capacity_view(&reservation("reserved", 20_000), false, false, now, threshold),
    ];
    let tally = tally_reservations(&views);
    assert_eq!(tally.uncertain, 1);
    assert_eq!(tally.reserved, 2);
    assert_eq!(tally.expired, 2);
    assert_eq!(tally.reclaimable, 1);
    assert_eq!(tally.uncertain + tally.reserved, views.len() as i64);
    let empty = tally_reservations(&[]);
    assert_eq!((empty.uncertain, empty.reserved, empty.expired, empty.reclaimable), (0, 0, 0, 0));
}

fn policy() -> AiBudgetPolicyRecord {
    AiBudgetPolicyRecord {
        id: 1,
        scope_key: "scope-key".to_owned(),
        scope_kind: "workspace".to_owned(),
        scope_id: "budget-scope".to_owned(),
        tenant_id: Some("tenant-1".to_owned()),
        principal_kind: None,
        principal_subject: None,
        interval_kind: "day".to_owned(),
        maximum_input_tokens: Some(1_000),
        maximum_output_tokens: None,
        maximum_tool_units: None,
        maximum_image_units: None,
        maximum_cost_microunits: Some(5),
        maximum_runs: Some(3),
        enabled: true,
        row_version: 2,
    }
}

#[test]
fn policy_capacity_reports_zero_usage_without_a_counter() {
    let period = BudgetPeriod { key: "2024-01-01".to_owned(), started_at: 100, ends_at: 200 };
    let view = budget_policy_capacity_view(&policy(), &period, None);
    assert!(view.period_key.is_none() && view.period_started_at.is_none());
    assert_eq!(view.counter.reserved_runs, 0);
    assert_eq!(view.maximum_runs, Some(3));
    let counter = AiBudgetCounterRecord {
        reserved_input_tokens: 1,
        reserved_output_tokens: 2,
        reserved_tool_units: 3,
        reserved_image_units: 4,
        reserved_cost_microunits: 5,
        reserved_runs: 6,
        committed_input_tokens: 7,
        committed_output_tokens: 8,
        committed_tool_units: 9,
        committed_image_units: 10,
        committed_cost_microunits: 11,
        committed_runs: 12,
    };
    let view = budget_policy_capacity_view(&policy(), &period, Some(&counter));
    assert_eq!(view.period_key.as_deref(), Some("2024-01-01"));
    assert_eq!(view.period_ends_at, Some(200));
    assert_eq!(view.counter.committed_runs, 12);
}

#[test]
fn policy_upsert_writes_and_identity_checks() {
    assert_eq!(budget_policy_write(None, None).unwrap(), BudgetPolicyWrite::Create);
    assert_eq!(budget_policy_write(Some(4), Some(2)).unwrap(), BudgetPolicyWrite::Update(4, 2));
    assert!(matches!(budget_policy_write(Some(4), None), Err(AiError::Conflict)));
    assert!(matches!(budget_policy_write(Some(4), Some(-1)), Err(AiError::Conflict)));
    assert!(check_budget_policy_capacity(2, 3).is_ok());
    assert!(matches!(check_budget_policy_capacity(3, 3), Err(AiError::InvalidInput(_))));
    assert!(check_budget_policy_identity(&policy(), "scope-key", &scope(), &None, &None, "day").is_ok());
    assert!(matches!(
        check_budget_policy_identity(&policy(), "scope-key", &scope(), &None, &None, "month"),
        Err(AiError::NotFound)
    ));
    assert!(matches!(
        check_budget_policy_identity(&policy(), "scope-key", &scope(), &Some("user".to_owned()), &Some("s".to_owned()), "day"),
        Err(AiError::NotFound)
    ));
}

#[test]
fn terminal_and_unresolved_states_are_exact_names() {
    for state in ["completed", "failed", "cancelled", "recovery_required"] {
        assert!(is_terminal_run_state(state));
    }
    for state in ["running", "queued", "Completed", ""] {
        assert!(!is_terminal_run_state(state));
    }
    assert!(is_unresolved_reservation_state("reserved"));
    assert!(is_unresolved_reservation_state("uncertain"));
    assert!(!is_unresolved_reservation_state("settled"));
    assert!(!is_unresolved_reservation_state("released"));
}

#[test]
fn scope_capacity_reports_a_window_of_reservations_with_counts() {
    let now = 10_000 * SECOND;
    let period = BudgetPeriod { key: "2024-01-01".to_owned(), started_at: 100, ends_at: 200 };
    let records = vec![
        reservation("uncertain", 9_000),
        reservation("reserved", 9_700),
        reservation("reserved", 20_000),
        reservation("uncertain", 1_000),
    ];
    let evidence = vec![(true, true), (true, true), (false, false), (true, true)];
    let window = budget_scan_window(Some(limits()), Some(3)).unwrap();
    assert_eq!((window.window, window.has_lookahead), (3, false));
    let report = budget_scope_capacity_view(
        &vec![policy()],
        &vec![(period, None)],
        &records,
        &evidence,
        window,
        now,
        Some(limits()),
    );
    assert_eq!(report.policies.len(), 1);
    assert_eq!(report.policies[0].maximum_runs, Some(3));
    assert!(report.policies[0].period_key.is_none());
    assert_eq!(report.reservations.len(), 3);
    assert_eq!(report.uncertain_reservation_count, 1);
    assert_eq!(report.reserved_reservation_count, 2);
    assert_eq!(report.expired_reservation_count, 2);
    assert_eq!(report.reclaimable_reservation_count, 1);
    assert!(report.truncated);
    let open = budget_scan_window(None, None).unwrap();
    let without_reclamation = budget_scope_capacity_view(&vec![], &vec![], &records, &evidence, open, now, None);
    assert_eq!(without_reclamation.reservations.len(), 4);
    assert_eq!(without_reclamation.reclaimable_reservation_count, 0);
    assert!(!without_reclamation.truncated);
}

#[test]
fn reclamation_threshold_stays_inside_the_calendar_range() {
    let earliest = -377_705_116_800 * SECOND;
    assert_eq!(reclaim_threshold(earliest + 600 * SECOND, limits()), Some(earliest));
    assert_eq!(reclaim_threshold(earliest + 600 * SECOND - 1, limits()), None);
    let latest = 253_402_300_800 * SECOND - 1;
    assert_eq!(reclaim_threshold(latest, limits()), Some(latest - 600 * SECOND));
    assert_eq!(reclaim_threshold(latest + 1, limits()), None);
}
