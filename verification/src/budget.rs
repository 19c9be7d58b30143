//! Budget capacity reporting and privileged reclamation of stranded
//! reservations: the bounded read window, what each reservation is reported
//! as, the counts over a window, and when an expired reservation may be
//! resolved.
//!
//! Instants are Unix timestamps in nanoseconds; record timestamps are whole
//! Unix seconds.

use vstd::prelude::*;

use crate::configuration::AiBudgetReclamationLimits;
use crate::error::AiError;
use crate::scope::AiScope;
use crate::text::same_text;

verus! {

/// Bounded read window used when the deployment has not enabled reclamation.
pub const DEFAULT_BUDGET_RESERVATION_SCAN: usize = 200;

/// Nanoseconds in one second.
pub const NANOS_PER_SECOND: i128 = 1_000_000_000;

/// A run state that can no longer reconcile its own reservation.
pub open spec fn terminal_run_state(state: Seq<char>) -> bool {
    state == "completed"@ || state == "failed"@ || state == "cancelled"@ || state
        == "recovery_required"@
}

/// A reservation state that still holds capacity against a policy ceiling.
pub open spec fn unresolved_reservation_state(state: Seq<char>) -> bool {
    state == "reserved"@ || state == "uncertain"@
}

/// Whether a run state is terminal.
pub fn is_terminal_run_state(state: &str) -> (r: bool)
    ensures
        r == terminal_run_state(state@),
{
    same_text(state, "completed") || same_text(state, "failed") || same_text(state, "cancelled")
        || same_text(state, "recovery_required")
}

/// Whether a reservation state still holds capacity.
pub fn is_unresolved_reservation_state(state: &str) -> (r: bool)
    ensures
        r == unresolved_reservation_state(state@),
{
    same_text(state, "reserved") || same_text(state, "uncertain")
}

/// One durable budget reservation, as capacity reporting reads it.
#[derive(Clone, Debug)]
pub struct AiBudgetReservationRecord {
    /// Reservation identifier.
    pub id: u128,
    /// Owning run.
    pub run_id: u128,
    /// Owning session.
    pub session_id: u128,
    /// Scope kind.
    pub scope_kind: String,
    /// Scope identifier.
    pub scope_id: String,
    /// Tenant, when the scope is tenant-bound.
    pub tenant_id: Option<String>,
    /// `reserved`, `uncertain`, or a resolved state.
    pub state: String,
    /// Expiry (Unix seconds).
    pub expires_at: i64,
    /// Creation (Unix seconds).
    pub created_at: i64,
    /// Reserved input tokens.
    pub reserved_input_tokens: i64,
    /// Reserved output tokens.
    pub reserved_output_tokens: i64,
    /// Reserved tool units.
    pub reserved_tool_units: i64,
    /// Reserved image units.
    pub reserved_image_units: i64,
    /// Reserved cost micro-units.
    pub reserved_cost_microunits: i64,
    /// Reserved runs.
    pub reserved_runs: i64,
    /// Optimistic-concurrency version.
    pub row_version: i64,
}

/// What the owning run shows about whether it can still settle a
/// reservation.
#[derive(Clone, Debug)]
pub struct AiRunSettlementEvidence {
    /// The run's session.
    pub session_id: u128,
    /// The run's durable state.
    pub state: String,
    /// Whether a worker holds the run's lease.
    pub has_lease_owner: bool,
    /// Whether the run has a lease expiry.
    pub has_lease_expiry: bool,
}

/// Administrative view of one unresolved reservation.
#[derive(Clone, Debug)]
pub struct AiBudgetReservationCapacityView {
    /// Reservation identifier.
    pub id: u128,
    /// Owning run.
    pub run_id: u128,
    /// Reservation state.
    pub state: String,
    /// Expiry (Unix seconds).
    pub expires_at: i64,
    /// Creation (Unix seconds).
    pub created_at: i64,
    /// The expiry has passed.
    pub expired: bool,
    /// The owning run reached a terminal state.
    pub run_terminal: bool,
    /// The reservation may be resolved by privileged reclamation now.
    pub reclaimable: bool,
    /// Reserved input tokens.
    pub reserved_input_tokens: i64,
    /// Reserved output tokens.
    pub reserved_output_tokens: i64,
    /// Reserved tool units.
    pub reserved_tool_units: i64,
    /// Reserved image units.
    pub reserved_image_units: i64,
    /// Reserved cost micro-units.
    pub reserved_cost_microunits: i64,
    /// Reserved runs.
    pub reserved_runs: i64,
    /// Optimistic-concurrency version.
    pub row_version: i64,
}

/// Whether an instant (Unix nanoseconds) lies in the calendar range of the
/// `time` crate without its `large-dates` feature: from
/// -9999-01-01T00:00:00Z to 9999-12-31T23:59:59.999999999Z.
pub open spec fn in_time_range(t: int) -> bool {
    -377_705_116_800 * NANOS_PER_SECOND <= t < 253_402_300_800 * NANOS_PER_SECOND
}

/// The instant `age` nanoseconds before `now`, as the `time` crate computes
/// it: exactly `now - age` when both instants lie in its calendar range,
/// otherwise none.
pub open spec fn time_checked_sub_nanos(now: i128, age: i128) -> Option<i128> {
    if in_time_range(now as int) && in_time_range(now - age) {
        Some((now - age) as i128)
    } else {
        None
    }
}

/// Calls `time::OffsetDateTime::from_unix_timestamp_nanos` on `now`, then
/// `checked_sub` with a duration of `age` nanoseconds, and reads the result
/// back as Unix nanoseconds. The first call refuses an instant outside the
/// calendar range and the second returns `None` exactly when the result
/// leaves it, so the result is `time_checked_sub_nanos(now, age)`.
#[verifier::external_body]
fn checked_instant_before(now: i128, age: i128) -> (r: Option<i128>)
    requires
        -9_223_372_036_854_775_808 * NANOS_PER_SECOND < age < 9_223_372_036_854_775_808
            * NANOS_PER_SECOND,
    ensures
        r == time_checked_sub_nanos(now, age),
        r matches Some(t) ==> t == now - age,
{
    let instant = match time::OffsetDateTime::from_unix_timestamp_nanos(now) {
        Ok(instant) => instant,
        Err(_) => return None,
    };
    match instant.checked_sub(time::Duration::nanoseconds_i128(age)) {
        Some(earlier) => Some(earlier.unix_timestamp_nanos()),
        None => None,
    }
}

/// The latest instant an expiry may have reached for reclamation: `now`
/// less the deployment's minimum expired age.
pub open spec fn reclaim_threshold_spec(now: i128, age: i128) -> Option<i128> {
    if age >= 9_223_372_036_854_775_807 * NANOS_PER_SECOND {
        None
    } else {
        time_checked_sub_nanos(now, age)
    }
}

/// The reclamation threshold for `now` under `limits`: `None` where the
/// subtraction leaves the calendar range, or where the age exceeds what a
/// duration can hold.
pub fn reclaim_threshold(now: i128, limits: AiBudgetReclamationLimits) -> (r: Option<i128>)
    ensures
        r == reclaim_threshold_spec(now, limits@.0),
        r matches Some(t) ==> t == now - limits@.0,
{
    let age = limits.minimum_expired_age();
    if age >= 9_223_372_036_854_775_807 * NANOS_PER_SECOND {
        return None;
    }
    checked_instant_before(now, age)
}

/// A whole-second timestamp is at or before the instant `at`.
pub open spec fn second_not_after(seconds: i64, at: i128) -> bool {
    seconds * NANOS_PER_SECOND <= at
}

fn second_reached(seconds: i64, at: i128) -> (r: bool)
    ensures
        r == second_not_after(seconds, at),
{
    (seconds as i128) * NANOS_PER_SECOND <= at
}

/// The view reported for one reservation: expired once its expiry second is
/// reached, reclaimable when the run is terminal and lease-free and the
/// expiry has reached the reclamation threshold.
pub open spec fn reservation_view_matches(
    view: AiBudgetReservationCapacityView,
    record: AiBudgetReservationRecord,
    run_terminal: bool,
    run_lease_free: bool,
    now: i128,
    threshold: Option<i128>,
) -> bool {
    &&& view.id == record.id
    &&& view.run_id == record.run_id
    &&& view.state@ == record.state@
    &&& view.expires_at == record.expires_at
    &&& view.created_at == record.created_at
    &&& view.expired == second_not_after(record.expires_at, now)
    &&& view.run_terminal == run_terminal
    &&& view.reclaimable == (run_terminal && run_lease_free && (threshold matches Some(t)
        && second_not_after(record.expires_at, t)))
    &&& view.reserved_input_tokens == record.reserved_input_tokens
    &&& view.reserved_output_tokens == record.reserved_output_tokens
    &&& view.reserved_tool_units == record.reserved_tool_units
    &&& view.reserved_image_units == record.reserved_image_units
    &&& view.reserved_cost_microunits == record.reserved_cost_microunits
    &&& view.reserved_runs == record.reserved_runs
    &&& view.row_version == record.row_version
}

/// Builds the capacity view of one reservation; `threshold` is the
/// reclamation threshold, `None` where reclamation is not enabled.
pub fn budget_reservation_capacity_view(
    record: &AiBudgetReservationRecord,
    run_terminal: bool,
    run_lease_free: bool,
    now: i128,
    threshold: Option<i128>,
) -> (r: AiBudgetReservationCapacityView)
    ensures
        reservation_view_matches(r, *record, run_terminal, run_lease_free, now, threshold),
        r.reclaimable ==> run_terminal && run_lease_free && threshold is Some
            && record.expires_at * NANOS_PER_SECOND <= threshold->0,
        r.expired <==> record.expires_at * NANOS_PER_SECOND <= now,
{
    let reachable = match threshold {
        Some(t) => second_reached(record.expires_at, t),
        None => false,
    };
    AiBudgetReservationCapacityView {
        id: record.id,
        run_id: record.run_id,
        state: record.state.clone(),
        expires_at: record.expires_at,
        created_at: record.created_at,
        expired: second_reached(record.expires_at, now),
        run_terminal,
        reclaimable: run_terminal && run_lease_free && reachable,
        reserved_input_tokens: record.reserved_input_tokens,
        reserved_output_tokens: record.reserved_output_tokens,
        reserved_tool_units: record.reserved_tool_units,
        reserved_image_units: record.reserved_image_units,
        reserved_cost_microunits: record.reserved_cost_microunits,
        reserved_runs: record.reserved_runs,
        row_version: record.row_version,
    }
}

/// Law: a reservation reported reclaimable is always reported expired, since
/// the reclamation threshold lies strictly before `now`.
pub proof fn lemma_reclaimable_implies_expired(
    view: AiBudgetReservationCapacityView,
    record: AiBudgetReservationRecord,
    run_terminal: bool,
    run_lease_free: bool,
    now: i128,
    age: i128,
)
    requires
        age > 0,
        reservation_view_matches(
            view,
            record,
            run_terminal,
            run_lease_free,
            now,
            reclaim_threshold_spec(now, age),
        ),
        reclaim_threshold_spec(now, age) matches Some(t) ==> t == now - age,
    ensures
        view.reclaimable ==> view.expired,
{
}

/// Law: capacity reporting agrees with reclamation. A reservation reported
/// reclaimable, for the evidence of its owning run and the reclamation
/// threshold, has a terminal, lease-free run of its own session and an
/// expiry at or before the threshold; so when it is unresolved, in the
/// scope, and at the expected version, reclamation resolves it, and a run
/// that still holds lease evidence is never reported reclaimable.
pub proof fn lemma_reported_reclaimable_agrees_with_reclamation(
    view: AiBudgetReservationCapacityView,
    record: AiBudgetReservationRecord,
    run: Option<AiRunSettlementEvidence>,
    now: i128,
    threshold: i128,
    scope: AiScope,
)
    requires
        reservation_view_matches(
            view,
            record,
            run_evidence_spec(record, run).0,
            run_evidence_spec(record, run).1,
            now,
            Some(threshold),
        ),
    ensures
        view.reclaimable ==> (run matches Some(r) && r.session_id == record.session_id
            && terminal_run_state(r.state@) && !r.has_lease_owner && !r.has_lease_expiry),
        view.reclaimable ==> record.expires_at * NANOS_PER_SECOND <= threshold,
        view.reclaimable && reservation_in_scope(record, scope) && unresolved_reservation_state(
            record.state@,
        ) ==> reclamation_outcome(record, scope, record.row_version, threshold, run) == Some(true),
        (run matches Some(r) && (r.has_lease_owner || r.has_lease_expiry)) ==> !view.reclaimable,
{
}

/// What the owning run shows for capacity reporting: whether it is terminal
/// and whether it is lease-free, both only when it belongs to the
/// reservation's session.
pub open spec fn run_evidence_spec(
    record: AiBudgetReservationRecord,
    run: Option<AiRunSettlementEvidence>,
) -> (bool, bool) {
    match run {
        None => (false, false),
        Some(run) => (
            run.session_id == record.session_id && terminal_run_state(run.state@),
            run.session_id == record.session_id && !run.has_lease_owner && !run.has_lease_expiry,
        ),
    }
}

/// Reads the owning run's evidence for one reservation.
pub fn run_reclamation_evidence(
    record: &AiBudgetReservationRecord,
    run: Option<&AiRunSettlementEvidence>,
) -> (r: (bool, bool))
    ensures
        r == run_evidence_spec(*record, owned_run(run)),
{
    match run {
        None => (false, false),
        Some(run) => (
            run.session_id == record.session_id && is_terminal_run_state(run.state.as_str()),
            run.session_id == record.session_id && !run.has_lease_owner && !run.has_lease_expiry,
        ),
    }
}

/// The administrative read window: the deployment window narrowed to the
/// database's page ceiling, whether a look-ahead record fits, and how many
/// records to ask for.
#[derive(Clone, Copy, Debug, PartialEq, Eq, Structural)]
pub struct BudgetScanWindow {
    /// Records reported at most.
    pub window: usize,
    /// Whether one extra record can be read to detect truncation.
    pub has_lookahead: bool,
    /// Records to request.
    pub scan_limit: i64,
}

/// The requested window: the reclamation scan bound, or the default.
pub open spec fn requested_window(limits: Option<AiBudgetReclamationLimits>) -> int {
    match limits {
        Some(l) => l@.1 as int,
        None => DEFAULT_BUDGET_RESERVATION_SCAN as int,
    }
}

/// The database page ceiling as a count, when one is configured and it fits.
pub open spec fn database_ceiling(database_maximum: Option<i64>) -> Option<int> {
    match database_maximum {
        Some(m) => {
            let c = if m < 0 {
                0
            } else {
                m as int
            };
            if c <= usize::MAX {
                Some(c)
            } else {
                None
            }
        },
        None => None,
    }
}

/// The window planned for a request and a database ceiling.
pub open spec fn scan_window_spec(
    limits: Option<AiBudgetReclamationLimits>,
    database_maximum: Option<i64>,
) -> (int, bool, int) {
    let requested = requested_window(limits);
    match database_ceiling(database_maximum) {
        None => (requested, true, if requested < usize::MAX {
            requested + 1
        } else {
            requested
        }),
        Some(c) => {
            let window = if requested <= c {
                requested
            } else {
                c
            };
            let lookahead = window < c;
            (window, lookahead, if lookahead {
                window + 1
            } else {
                window
            })
        },
    }
}

/// Plans the administrative read window. Fails only where the request count
/// cannot be expressed as a query limit.
pub fn budget_scan_window(
    limits: Option<AiBudgetReclamationLimits>,
    database_maximum: Option<i64>,
) -> (r: Result<BudgetScanWindow, AiError>)
    ensures
        r is Ok <==> scan_window_spec(limits, database_maximum).2 <= i64::MAX,
        r matches Ok(w) ==> (w.window as int, w.has_lookahead, w.scan_limit as int)
            == scan_window_spec(limits, database_maximum),
        r matches Err(e) ==> e is InvalidConfiguration,
{
    let requested: usize = match limits {
        Some(l) => l.maximum_reservation_scan(),
        None => DEFAULT_BUDGET_RESERVATION_SCAN,
    };
    let ceiling: Option<usize> = match database_maximum {
        Some(m) => {
            let c: i64 = if m < 0 {
                0
            } else {
                m
            };
            if (c as u128) <= (usize::MAX as u128) {
                Some(c as usize)
            } else {
                None
            }
        },
        None => None,
    };
    let (window, has_lookahead): (usize, bool) = match ceiling {
        None => (requested, true),
        Some(c) => {
            let w = if requested <= c {
                requested
            } else {
                c
            };
            (w, w < c)
        },
    };
    let scan: usize = if has_lookahead {
        if window < usize::MAX {
            window + 1
        } else {
            window
        }
    } else {
        window
    };
    if (scan as u128) > (i64::MAX as u128) {
        return Err(AiError::InvalidConfiguration("invalid scan window".to_string()));
    }
    Ok(BudgetScanWindow { window, has_lookahead, scan_limit: scan as i64 })
}

/// Whether a scan that returned `fetched` records was cut short: more than
/// the window with a look-ahead, a full window without one.
pub open spec fn scan_truncated_spec(window: BudgetScanWindow, fetched: int) -> bool {
    if window.has_lookahead {
        fetched > window.window
    } else {
        fetched >= window.window
    }
}

/// Reports whether the scan was truncated.
pub fn scan_truncated(window: BudgetScanWindow, fetched: usize) -> (r: bool)
    ensures
        r == scan_truncated_spec(window, fetched as int),
{
    if window.has_lookahead {
        fetched > window.window
    } else {
        fetched >= window.window
    }
}

/// Counts over the reported reservations.
#[derive(Clone, Copy, Debug, PartialEq, Eq, Structural)]
pub struct AiBudgetReservationTally {
    /// Reservations in the `uncertain` state.
    pub uncertain: i64,
    /// All other reported reservations.
    pub reserved: i64,
    /// Reservations whose expiry has passed.
    pub expired: i64,
    /// Reservations that may be reclaimed now.
    pub reclaimable: i64,
}

/// What a tally counts.
#[derive(Clone, Copy, Debug, PartialEq, Eq, Structural)]
pub enum ReservationCounter {
    /// Reservations in the `uncertain` state.
    Uncertain,
    /// Reservations in any other state.
    Reserved,
    /// Expired reservations.
    Expired,
    /// Reclaimable reservations.
    Reclaimable,
}

/// Whether a view is counted by `counter`.
pub open spec fn counted(v: AiBudgetReservationCapacityView, counter: ReservationCounter) -> bool {
    match counter {
        ReservationCounter::Uncertain => v.state@ == "uncertain"@,
        ReservationCounter::Reserved => v.state@ != "uncertain"@,
        ReservationCounter::Expired => v.expired,
        ReservationCounter::Reclaimable => v.reclaimable,
    }
}

/// The number of views counted by `counter`.
pub open spec fn count_views(
    views: Seq<AiBudgetReservationCapacityView>,
    counter: ReservationCounter,
) -> nat
    decreases views.len(),
{
    if views.len() == 0 {
        0
    } else {
        count_views(views.drop_last(), counter) + if counted(views.last(), counter) {
            1nat
        } else {
            0nat
        }
    }
}

/// A count clamped at `i64::MAX`, as saturating addition leaves it.
pub open spec fn saturated(n: nat) -> i64 {
    if n >= i64::MAX {
        i64::MAX
    } else {
        n as i64
    }
}

/// The tally of a sequence of views.
pub open spec fn tally_spec(views: Seq<AiBudgetReservationCapacityView>) -> AiBudgetReservationTally {
    AiBudgetReservationTally {
        uncertain: saturated(count_views(views, ReservationCounter::Uncertain)),
        reserved: saturated(count_views(views, ReservationCounter::Reserved)),
        expired: saturated(count_views(views, ReservationCounter::Expired)),
        reclaimable: saturated(count_views(views, ReservationCounter::Reclaimable)),
    }
}

fn bump(count: i64, yes: bool) -> (r: i64)
    ensures
        r == if yes && count < i64::MAX {
            count + 1
        } else {
            count as int
        },
{
    if yes && count < i64::MAX {
        count + 1
    } else {
        count
    }
}

proof fn lemma_saturated_step(n: nat, yes: bool)
    ensures
        saturated(n + if yes {
            1nat
        } else {
            0nat
        }) == if yes && saturated(n) < i64::MAX {
            saturated(n) + 1
        } else {
            saturated(n) as int
        },
{
}

/// Counts the reported reservations by state, expiry, and reclaimability,
/// each count saturating at `i64::MAX`.
pub fn tally_reservations(views: &[AiBudgetReservationCapacityView]) -> (r: AiBudgetReservationTally)
    ensures
        r == tally_spec(views@),
{
    let mut tally = AiBudgetReservationTally { uncertain: 0, reserved: 0, expired: 0, reclaimable: 0 };
    let mut i: usize = 0;
    while i < views.len()
        invariant
            i <= views@.len(),
            tally == tally_spec(views@.subrange(0, i as int)),
        decreases views@.len() - i,
    {
        let v = &views[i];
        let uncertain = same_text(v.state.as_str(), "uncertain");
        proof {
            let prefix = views@.subrange(0, i as int);
            let next = views@.subrange(0, i + 1);
            assert(next.drop_last() =~= prefix);
            assert(next.last() == views@[i as int]);
            lemma_saturated_step(count_views(prefix, ReservationCounter::Uncertain), uncertain);
            lemma_saturated_step(count_views(prefix, ReservationCounter::Reserved), !uncertain);
            lemma_saturated_step(count_views(prefix, ReservationCounter::Expired), v.expired);
            lemma_saturated_step(
                count_views(prefix, ReservationCounter::Reclaimable),
                v.reclaimable,
            );
        }
        tally = AiBudgetReservationTally {
            uncertain: bump(tally.uncertain, uncertain),
            reserved: bump(tally.reserved, !uncertain),
            expired: bump(tally.expired, v.expired),
            reclaimable: bump(tally.reclaimable, v.reclaimable),
        };
        i = i + 1;
    }
    proof {
        assert(views@.subrange(0, views@.len() as int) =~= views@);
    }
    tally
}

/// Law: every reported reservation is counted exactly once as uncertain or
/// as reserved.
pub proof fn lemma_tally_partitions_states(views: Seq<AiBudgetReservationCapacityView>)
    ensures
        count_views(views, ReservationCounter::Uncertain) + count_views(
            views,
            ReservationCounter::Reserved,
        ) == views.len(),
    decreases views.len(),
{
    if views.len() > 0 {
        lemma_tally_partitions_states(views.drop_last());
    }
}

/// Whether a reservation belongs to the exact scope.
pub open spec fn reservation_in_scope(record: AiBudgetReservationRecord, scope: AiScope) -> bool {
    &&& record.scope_kind@ == scope.kind@
    &&& record.scope_id@ == scope.id@
    &&& match (record.tenant_id, scope.tenant_id) {
        (None, None) => true,
        (Some(a), Some(b)) => a@ == b@,
        _ => false,
    }
}

fn same_optional_text(a: &Option<String>, b: &Option<String>) -> (r: bool)
    ensures
        r == match (*a, *b) {
            (None, None) => true,
            (Some(x), Some(y)) => x@ == y@,
            _ => false,
        },
{
    match (a, b) {
        (None, None) => true,
        (Some(x), Some(y)) => same_text(x.as_str(), y.as_str()),
        _ => false,
    }
}

/// The run evidence behind a reference, if any.
pub open spec fn owned_run(run: Option<&AiRunSettlementEvidence>) -> Option<AiRunSettlementEvidence> {
    match run {
        Some(r) => Some(*r),
        None => None,
    }
}

/// What privileged reclamation decides about one reservation.
pub open spec fn reclamation_outcome(
    record: AiBudgetReservationRecord,
    scope: AiScope,
    expected_version: i64,
    threshold: i128,
    run: Option<AiRunSettlementEvidence>,
) -> Option<bool> {
    // `None`: not found in this scope; `Some(false)`: conflict; `Some(true)`: reclaim.
    if !reservation_in_scope(record, scope) {
        None
    } else if record.row_version != expected_version || !unresolved_reservation_state(
        record.state@,
    ) || !second_not_after(record.expires_at, threshold) {
        Some(false)
    } else {
        match run {
            None => Some(false),
            Some(run) => Some(
                run.session_id == record.session_id && terminal_run_state(run.state@)
                    && !run.has_lease_owner && !run.has_lease_expiry,
            ),
        }
    }
}

/// Decides whether a stranded reservation may be resolved now: it must be in
/// the exact scope (else not found), at the expected version, unresolved,
/// expired for at least the minimum age, and owned by a terminal lease-free
/// run of its session (else a conflict).
pub fn authorize_reservation_reclamation(
    record: &AiBudgetReservationRecord,
    scope: &AiScope,
    expected_version: i64,
    threshold: i128,
    run: Option<&AiRunSettlementEvidence>,
) -> (r: Result<(), AiError>)
    ensures
        r is Ok <==> reclamation_outcome(*record, *scope, expected_version, threshold, owned_run(run))
            == Some(true),
        r matches Err(e) ==> (e is NotFound <==> reclamation_outcome(
            *record,
            *scope,
            expected_version,
            threshold,
            owned_run(run),
        ) is None),
        r matches Err(e) ==> (e is NotFound || e is Conflict),
{
    if !same_text(record.scope_kind.as_str(), scope.kind.as_str()) || !same_text(
        record.scope_id.as_str(),
        scope.id.as_str(),
    ) || !same_optional_text(&record.tenant_id, &scope.tenant_id) {
        return Err(AiError::NotFound);
    }
    if record.row_version != expected_version || !is_unresolved_reservation_state(
        record.state.as_str(),
    ) || !second_reached(record.expires_at, threshold) {
        return Err(AiError::Conflict);
    }
    match run {
        None => Err(AiError::Conflict),
        Some(run) => {
            if run.session_id != record.session_id || !is_terminal_run_state(run.state.as_str())
                || run.has_lease_owner || run.has_lease_expiry {
                Err(AiError::Conflict)
            } else {
                Ok(())
            }
        },
    }
}

/// The audit reason recorded for a reclamation, by the reservation's state.
pub fn reclamation_reason_code(previous_state: &str) -> (r: &'static str)
    ensures
        previous_state@ == "uncertain"@ ==> r@ == "expired_uncertain_reservation_committed"@,
        previous_state@ != "uncertain"@ ==> r@ == "expired_reserved_reservation_committed"@,
{
    if same_text(previous_state, "uncertain") {
        "expired_uncertain_reservation_committed"
    } else {
        "expired_reserved_reservation_committed"
    }
}

/// One durable budget policy.
#[derive(Clone, Debug)]
pub struct AiBudgetPolicyRecord {
    /// Policy identifier.
    pub id: u128,
    /// Exact scope key.
    pub scope_key: String,
    /// Scope kind.
    pub scope_kind: String,
    /// Scope identifier.
    pub scope_id: String,
    /// Tenant, when tenant-bound.
    pub tenant_id: Option<String>,
    /// Principal kind, for a principal policy.
    pub principal_kind: Option<String>,
    /// Principal subject, for a principal policy.
    pub principal_subject: Option<String>,
    /// Budget interval kind.
    pub interval_kind: String,
    /// Input-token ceiling.
    pub maximum_input_tokens: Option<i64>,
    /// Output-token ceiling.
    pub maximum_output_tokens: Option<i64>,
    /// Tool-unit ceiling.
    pub maximum_tool_units: Option<i64>,
    /// Image-unit ceiling.
    pub maximum_image_units: Option<i64>,
    /// Cost ceiling in micro-units.
    pub maximum_cost_microunits: Option<i64>,
    /// Run ceiling.
    pub maximum_runs: Option<i64>,
    /// Whether the policy is enforced.
    pub enabled: bool,
    /// Optimistic-concurrency version.
    pub row_version: i64,
}

/// The counters of one policy in one budget period.
#[derive(Clone, Debug)]
pub struct AiBudgetCounterRecord {
    /// Reserved input tokens.
    pub reserved_input_tokens: i64,
    /// Reserved output tokens.
    pub reserved_output_tokens: i64,
    /// Reserved tool units.
    pub reserved_tool_units: i64,
    /// Reserved image units.
    pub reserved_image_units: i64,
    /// Reserved cost micro-units.
    pub reserved_cost_microunits: i64,
    /// Reserved runs.
    pub reserved_runs: i64,
    /// Committed input tokens.
    pub committed_input_tokens: i64,
    /// Committed output tokens.
    pub committed_output_tokens: i64,
    /// Committed tool units.
    pub committed_tool_units: i64,
    /// Committed image units.
    pub committed_image_units: i64,
    /// Committed cost micro-units.
    pub committed_cost_microunits: i64,
    /// Committed runs.
    pub committed_runs: i64,
}

/// The current period of a policy's interval.
#[derive(Clone, Debug)]
pub struct BudgetPeriod {
    /// Period key.
    pub key: String,
    /// Period start (Unix seconds).
    pub started_at: i64,
    /// Period end (Unix seconds).
    pub ends_at: i64,
}

/// Administrative view of one policy's capacity in the current period.
#[derive(Clone, Debug)]
pub struct AiBudgetPolicyCapacityView {
    /// Policy identifier.
    pub policy_id: u128,
    /// Interval kind.
    pub interval_kind: String,
    /// Whether the policy is enforced.
    pub enabled: bool,
    /// Current period key, when the period has a counter.
    pub period_key: Option<String>,
    /// Current period start, when the period has a counter.
    pub period_started_at: Option<i64>,
    /// Current period end, when the period has a counter.
    pub period_ends_at: Option<i64>,
    /// The counter (zero without one) and the policy ceilings.
    pub counter: AiBudgetCounterRecord,
    /// Input-token ceiling.
    pub maximum_input_tokens: Option<i64>,
    /// Output-token ceiling.
    pub maximum_output_tokens: Option<i64>,
    /// Tool-unit ceiling.
    pub maximum_tool_units: Option<i64>,
    /// Image-unit ceiling.
    pub maximum_image_units: Option<i64>,
    /// Cost ceiling in micro-units.
    pub maximum_cost_microunits: Option<i64>,
    /// Run ceiling.
    pub maximum_runs: Option<i64>,
}

/// The all-zero counter of a period with no recorded usage.
pub open spec fn zero_counter() -> AiBudgetCounterRecord {
    AiBudgetCounterRecord {
        reserved_input_tokens: 0,
        reserved_output_tokens: 0,
        reserved_tool_units: 0,
        reserved_image_units: 0,
        reserved_cost_microunits: 0,
        reserved_runs: 0,
        committed_input_tokens: 0,
        committed_output_tokens: 0,
        committed_tool_units: 0,
        committed_image_units: 0,
        committed_cost_microunits: 0,
        committed_runs: 0,
    }
}

/// The capacity view of one policy: the period is reported only when a
/// counter exists for it, missing usage reads as zero, and the policy's
/// identity and ceilings are copied.
pub open spec fn policy_view_matches(
    view: AiBudgetPolicyCapacityView,
    policy: AiBudgetPolicyRecord,
    period: BudgetPeriod,
    counter: Option<AiBudgetCounterRecord>,
) -> bool {
    &&& view.policy_id == policy.id
    &&& view.interval_kind@ == policy.interval_kind@
    &&& view.enabled == policy.enabled
    &&& match counter {
        Some(c) => (view.period_key matches Some(k) && k@ == period.key@) && view.period_started_at
            == Some(period.started_at) && view.period_ends_at == Some(period.ends_at)
            && view.counter == c,
        None => view.period_key is None && view.period_started_at is None && view.period_ends_at
            is None && view.counter == zero_counter(),
    }
    &&& view.maximum_input_tokens == policy.maximum_input_tokens
    &&& view.maximum_output_tokens == policy.maximum_output_tokens
    &&& view.maximum_tool_units == policy.maximum_tool_units
    &&& view.maximum_image_units == policy.maximum_image_units
    &&& view.maximum_cost_microunits == policy.maximum_cost_microunits
    &&& view.maximum_runs == policy.maximum_runs
}

/// Builds the capacity view of one policy: the period is reported only when
/// a counter exists for it, and missing usage reads as zero.
pub fn budget_policy_capacity_view(
    policy: &AiBudgetPolicyRecord,
    period: &BudgetPeriod,
    counter: Option<&AiBudgetCounterRecord>,
) -> (r: AiBudgetPolicyCapacityView)
    ensures
        r.policy_id == policy.id,
        r.interval_kind@ == policy.interval_kind@,
        r.enabled == policy.enabled,
        counter is Some ==> (r.period_key matches Some(k) && k@ == period.key@)
            && r.period_started_at == Some(period.started_at) && r.period_ends_at == Some(
            period.ends_at,
        ) && r.counter == *counter->0,
        counter is None ==> r.period_key is None && r.period_started_at is None
            && r.period_ends_at is None && r.counter == zero_counter(),
        r.maximum_input_tokens == policy.maximum_input_tokens,
        r.maximum_output_tokens == policy.maximum_output_tokens,
        r.maximum_tool_units == policy.maximum_tool_units,
        r.maximum_image_units == policy.maximum_image_units,
        r.maximum_cost_microunits == policy.maximum_cost_microunits,
        r.maximum_runs == policy.maximum_runs,
        policy_view_matches(
            r,
            *policy,
            *period,
            match counter {
                Some(c) => Some(*c),
                None => None,
            },
        ),
{
    let (period_key, period_started_at, period_ends_at, counter) = match counter {
        Some(c) => (
            Some(period.key.clone()),
            Some(period.started_at),
            Some(period.ends_at),
            AiBudgetCounterRecord {
                reserved_input_tokens: c.reserved_input_tokens,
                reserved_output_tokens: c.reserved_output_tokens,
                reserved_tool_units: c.reserved_tool_units,
                reserved_image_units: c.reserved_image_units,
                reserved_cost_microunits: c.reserved_cost_microunits,
                reserved_runs: c.reserved_runs,
                committed_input_tokens: c.committed_input_tokens,
                committed_output_tokens: c.committed_output_tokens,
                committed_tool_units: c.committed_tool_units,
                committed_image_units: c.committed_image_units,
                committed_cost_microunits: c.committed_cost_microunits,
                committed_runs: c.committed_runs,
            },
        ),
        None => (
            None,
            None,
            None,
            AiBudgetCounterRecord {
                reserved_input_tokens: 0,
                reserved_output_tokens: 0,
                reserved_tool_units: 0,
                reserved_image_units: 0,
                reserved_cost_microunits: 0,
                reserved_runs: 0,
                committed_input_tokens: 0,
                committed_output_tokens: 0,
                committed_tool_units: 0,
                committed_image_units: 0,
                committed_cost_microunits: 0,
                committed_runs: 0,
            },
        ),
    };
    AiBudgetPolicyCapacityView {
        policy_id: policy.id,
        interval_kind: policy.interval_kind.clone(),
        enabled: policy.enabled,
        period_key,
        period_started_at,
        period_ends_at,
        counter,
        maximum_input_tokens: policy.maximum_input_tokens,
        maximum_output_tokens: policy.maximum_output_tokens,
        maximum_tool_units: policy.maximum_tool_units,
        maximum_image_units: policy.maximum_image_units,
        maximum_cost_microunits: policy.maximum_cost_microunits,
        maximum_runs: policy.maximum_runs,
    }
}

/// How an upsert writes.
#[derive(Clone, Copy, Debug, PartialEq, Eq, Structural)]
pub enum BudgetPolicyWrite {
    /// Insert a new policy.
    Create,
    /// Compare-and-swap the policy with this id at this version.
    Update(u128, i64),
}

/// The write an id and expected version call for.
pub open spec fn budget_policy_write_spec(id: Option<u128>, expected_version: Option<i64>) -> Option<
    BudgetPolicyWrite,
> {
    match (id, expected_version) {
        (None, None) => Some(BudgetPolicyWrite::Create),
        (Some(i), Some(v)) => if v >= 0 {
            Some(BudgetPolicyWrite::Update(i, v))
        } else {
            None
        },
        _ => None,
    }
}

/// Chooses how an upsert writes: a create carries neither id nor version,
/// an update carries both with a non-negative version; anything else is a
/// conflict.
pub fn budget_policy_write(id: Option<u128>, expected_version: Option<i64>) -> (r: Result<
    BudgetPolicyWrite,
    AiError,
>)
    ensures
        r is Ok <==> budget_policy_write_spec(id, expected_version) is Some,
        r matches Ok(w) ==> budget_policy_write_spec(id, expected_version) == Some(w),
        r matches Err(e) ==> e is Conflict,
{
    match (id, expected_version) {
        (None, None) => Ok(BudgetPolicyWrite::Create),
        (Some(i), Some(v)) => {
            if v >= 0 {
                Ok(BudgetPolicyWrite::Update(i, v))
            } else {
                Err(AiError::Conflict)
            }
        },
        _ => Err(AiError::Conflict),
    }
}

/// A new policy fits under the per-scope policy limit.
pub fn check_budget_policy_capacity(existing: i64, maximum_policies: usize) -> (r: Result<
    (),
    AiError,
>)
    ensures
        r is Ok <==> existing < maximum_policies,
        r matches Err(e) ==> e is InvalidInput,
{
    if existing >= 0 && (existing as u128) >= (maximum_policies as u128) {
        return Err(AiError::InvalidInput("budget policy limit reached".to_string()));
    }
    Ok(())
}

fn same_optional(a: &Option<String>, b: &Option<String>) -> (r: bool)
    ensures
        r == match (*a, *b) {
            (None, None) => true,
            (Some(x), Some(y)) => x@ == y@,
            _ => false,
        },
{
    match (a, b) {
        (None, None) => true,
        (Some(x), Some(y)) => same_text(x.as_str(), y.as_str()),
        _ => false,
    }
}

/// An update may only change the ceilings and the enabled flag of the
/// policy it names: scope, principal, and interval must be unchanged.
pub open spec fn budget_policy_identity_matches(
    current: AiBudgetPolicyRecord,
    scope_key: Seq<char>,
    scope: AiScope,
    principal_kind: Option<String>,
    principal_subject: Option<String>,
    interval_kind: Seq<char>,
) -> bool {
    &&& current.scope_key@ == scope_key
    &&& current.scope_kind@ == scope.kind@
    &&& current.scope_id@ == scope.id@
    &&& match (current.tenant_id, scope.tenant_id) {
        (None, None) => true,
        (Some(x), Some(y)) => x@ == y@,
        _ => false,
    }
    &&& match (current.principal_kind, principal_kind) {
        (None, None) => true,
        (Some(x), Some(y)) => x@ == y@,
        _ => false,
    }
    &&& match (current.principal_subject, principal_subject) {
        (None, None) => true,
        (Some(x), Some(y)) => x@ == y@,
        _ => false,
    }
    &&& current.interval_kind@ == interval_kind
}

/// Checks that an update names the same policy identity; a different
/// identity is reported as not found.
pub fn check_budget_policy_identity(
    current: &AiBudgetPolicyRecord,
    scope_key: &str,
    scope: &AiScope,
    principal_kind: &Option<String>,
    principal_subject: &Option<String>,
    interval_kind: &str,
) -> (r: Result<(), AiError>)
    ensures
        r is Ok <==> budget_policy_identity_matches(
            *current,
            scope_key@,
            *scope,
            *principal_kind,
            *principal_subject,
            interval_kind@,
        ),
        r matches Err(e) ==> e is NotFound,
{
    if !same_text(current.scope_key.as_str(), scope_key) || !same_text(
        current.scope_kind.as_str(),
        scope.kind.as_str(),
    ) || !same_text(current.scope_id.as_str(), scope.id.as_str()) || !same_optional(
        &current.tenant_id,
        &scope.tenant_id,
    ) || !same_optional(&current.principal_kind, principal_kind) || !same_optional(
        &current.principal_subject,
        principal_subject,
    ) || !same_text(current.interval_kind.as_str(), interval_kind) {
        return Err(AiError::NotFound);
    }
    Ok(())
}

/// The administrative budget report of one exact scope.
#[derive(Clone, Debug)]
pub struct AiBudgetScopeCapacityView {
    /// Policy capacity views, in policy order.
    pub policies: Vec<AiBudgetPolicyCapacityView>,
    /// Reported reservations in the `uncertain` state.
    pub uncertain_reservation_count: i64,
    /// Other reported reservations.
    pub reserved_reservation_count: i64,
    /// Reported reservations whose expiry has passed.
    pub expired_reservation_count: i64,
    /// Reported reservations that may be reclaimed now.
    pub reclaimable_reservation_count: i64,
    /// Reported reservations, oldest first.
    pub reservations: Vec<AiBudgetReservationCapacityView>,
    /// Whether more unresolved reservations exist than the window reports.
    pub truncated: bool,
}

/// The reclamation threshold of a deployment at `now`: none where the
/// deployment has not enabled reclamation.
pub open spec fn scope_threshold(now: i128, reclamation: Option<AiBudgetReclamationLimits>) -> Option<
    i128,
> {
    match reclamation {
        Some(limits) => reclaim_threshold_spec(now, limits@.0),
        None => None,
    }
}

/// The number of reservations a report holds: the window, and no more than
/// the records read and the run evidence read for them.
pub open spec fn reported_count(window: BudgetScanWindow, records: int, evidence: int) -> int {
    let a = if window.window < records {
        window.window as int
    } else {
        records
    };
    if a < evidence {
        a
    } else {
        evidence
    }
}

/// Assembles the budget report of one scope from its policies with their
/// current periods and counters, the unresolved reservations read oldest first under `window`, and the owning
/// runs' evidence for each (terminal, lease-free): at most a window of
/// reservations is reported, each as its capacity view at `now` under the
/// deployment's reclamation threshold, counted by state, expiry, and
/// reclaimability, and the report is truncated exactly when the read found
/// more than the window.
pub fn budget_scope_capacity_view(
    policies: &Vec<AiBudgetPolicyRecord>,
    periods: &Vec<(BudgetPeriod, Option<AiBudgetCounterRecord>)>,
    reservations: &Vec<AiBudgetReservationRecord>,
    run_evidence: &Vec<(bool, bool)>,
    window: BudgetScanWindow,
    now: i128,
    reclamation: Option<AiBudgetReclamationLimits>,
) -> (r: AiBudgetScopeCapacityView)
    ensures
        r.policies@.len() == if policies@.len() < periods@.len() {
            policies@.len()
        } else {
            periods@.len()
        },
        forall|i: int|
            0 <= i < r.policies@.len() ==> policy_view_matches(
                #[trigger] r.policies@[i],
                policies@[i],
                periods@[i].0,
                periods@[i].1,
            ),
        r.reservations@.len() == reported_count(window, reservations@.len() as int, run_evidence@.len() as int),
        forall|i: int|
            0 <= i < r.reservations@.len() ==> reservation_view_matches(
                #[trigger] r.reservations@[i],
                reservations@[i],
                run_evidence@[i].0,
                run_evidence@[i].1,
                now,
                scope_threshold(now, reclamation),
            ),
        (AiBudgetReservationTally {
            uncertain: r.uncertain_reservation_count,
            reserved: r.reserved_reservation_count,
            expired: r.expired_reservation_count,
            reclaimable: r.reclaimable_reservation_count,
        }) == tally_spec(r.reservations@),
        r.truncated == scan_truncated_spec(window, reservations@.len() as int),
{
    let mut policy_views: Vec<AiBudgetPolicyCapacityView> = Vec::new();
    let mut p: usize = 0;
    while p < policies.len() && p < periods.len()
        invariant
            p <= policies@.len(),
            p <= periods@.len(),
            policy_views@.len() == p,
            forall|k: int|
                0 <= k < p ==> policy_view_matches(
                    #[trigger] policy_views@[k],
                    policies@[k],
                    periods@[k].0,
                    periods@[k].1,
                ),
        decreases policies@.len() - p,
    {
        let counter = match &periods[p].1 {
            Some(c) => Some(c),
            None => None,
        };
        policy_views.push(budget_policy_capacity_view(&policies[p], &periods[p].0, counter));
        p = p + 1;
    }
    let threshold = match reclamation {
        Some(limits) => reclaim_threshold(now, limits),
        None => None,
    };
    let mut views: Vec<AiBudgetReservationCapacityView> = Vec::new();
    let mut i: usize = 0;
    while i < window.window && i < reservations.len() && i < run_evidence.len()
        invariant
            i <= reported_count(window, reservations@.len() as int, run_evidence@.len() as int),
            threshold == scope_threshold(now, reclamation),
            views@.len() == i,
            forall|k: int|
                0 <= k < i ==> reservation_view_matches(
                    #[trigger] views@[k],
                    reservations@[k],
                    run_evidence@[k].0,
                    run_evidence@[k].1,
                    now,
                    threshold,
                ),
        decreases reservations@.len() - i,
    {
        let (run_terminal, run_lease_free) = run_evidence[i];
        views.push(
            budget_reservation_capacity_view(
                &reservations[i],
                run_terminal,
                run_lease_free,
                now,
                threshold,
            ),
        );
        i = i + 1;
    }
    let tally = tally_reservations(views.as_slice());
    let truncated = scan_truncated(window, reservations.len());
    AiBudgetScopeCapacityView {
        policies: policy_views,
        uncertain_reservation_count: tally.uncertain,
        reserved_reservation_count: tally.reserved,
        expired_reservation_count: tally.expired,
        reclaimable_reservation_count: tally.reclaimable,
        reservations: views,
        truncated,
    }
}

} // verus!
