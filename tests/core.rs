use ledger_core::admission::{admits, TransactionRecord, CEILING};
use ledger_core::errors::{is_deadlock_sqlstate, DbError, ErrorClass};
use ledger_core::submission::{
    Action, AdmissionDecision, Event, Phase, ResponseClass, RetryPolicy, Submission,
};

/// An in-memory datastore: committed rows, and the rows inserted by the open
/// transaction.
struct Store {
    committed: Vec<(i32, i32)>,
    pending: Vec<(i32, i32)>,
}

impl Store {
    fn new() -> Store {
        Store { committed: Vec::new(), pending: Vec::new() }
    }

    fn total(&self, user: i32) -> i64 {
        self.committed.iter().filter(|r| r.0 == user).map(|r| r.1 as i64).sum()
    }

    fn rows(&self, user: i32) -> usize {
        self.committed.iter().filter(|r| r.0 == user).count()
    }
}

fn record(user_id: i32, amount: i32, description: &str) -> TransactionRecord {
    TransactionRecord { user_id, amount, description: description.to_string() }
}

fn deadlock() -> DbError {
    DbError { sqlstate: Some("40001".to_string()), number: Some(1213), message: "deadlock".to_string() }
}

fn lock_timeout() -> DbError {
    DbError { sqlstate: Some("HY000".to_string()), number: Some(1205), message: "lock wait".to_string() }
}

fn connection_lost() -> DbError {
    DbError { sqlstate: Some("08S01".to_string()), number: Some(2013), message: "lost".to_string() }
}

/// Runs a submission against `store`. `faults[i]`, when present, is the
/// error with which the i-th action performed fails. Returns the decision
/// and the actions in the order they were asked for.
fn drive(
    store: &mut Store,
    request: TransactionRecord,
    policy: RetryPolicy,
    faults: Vec<Option<DbError>>,
) -> (AdmissionDecision, Vec<&'static str>) {
    let expected_user = request.user_id;
    let mut sub = Submission::new(request, policy);
    let mut action = sub.pending_action();
    let mut seen = Vec::new();
    let mut faults = faults.into_iter();
    loop {
        let fault = match action {
            Action::Finish { decision } => return (decision, seen),
            _ => faults.next().flatten(),
        };
        let event = match (action, fault) {
            (Action::Begin, f) => {
                seen.push("begin");
                store.pending.clear();
                f.map_or(Event::Done, |error| Event::Failed { error })
            }
            (Action::LockUser { user_id }, f) => {
                seen.push("lock");
                assert_eq!(user_id, expected_user);
                f.map_or(Event::Done, |error| Event::Failed { error })
            }
            (Action::LockAndSum { user_id }, f) => {
                seen.push("sum");
                match f {
                    Some(error) => Event::Failed { error },
                    None if store.rows(user_id) == 0 => Event::Summed { total: None },
                    None => Event::Summed { total: Some(store.total(user_id)) },
                }
            }
            (Action::Insert { record }, f) => {
                seen.push("insert");
                match f {
                    Some(error) => Event::Failed { error },
                    None => {
                        store.pending.push((record.user_id, record.amount));
                        Event::Done
                    }
                }
            }
            (Action::Commit, f) => {
                seen.push("commit");
                match f {
                    Some(error) => {
                        store.pending.clear();
                        Event::Failed { error }
                    }
                    None => {
                        let rows: Vec<(i32, i32)> = store.pending.drain(..).collect();
                        store.committed.extend(rows);
                        Event::Done
                    }
                }
            }
            (Action::Rollback, f) => {
                seen.push("rollback");
                store.pending.clear();
                f.map_or(Event::Done, |error| Event::Failed { error })
            }
            (Action::Backoff { millis }, _) => {
                assert_eq!(millis, 50);
                seen.push("backoff");
                Event::Done
            }
            (Action::Finish { .. }, _) => unreachable!(),
        };
        action = sub.step(event);
    }
}

fn submit(store: &mut Store, user: i32, amount: i32, description: &str) -> AdmissionDecision {
    drive(store, record(user, amount, description), RetryPolicy::bounded(), Vec::new()).0
}

#[test]
fn scenario_fill_to_ceiling_then_reject_then_zero() {
    let mut store = Store::new();
    let u = 7;
    assert!(matches!(submit(&mut store, u, 1000, "x"), AdmissionDecision::Admitted));
    assert_eq!(store.total(u), 1000);
    match submit(&mut store, u, 1, "y") {
        AdmissionDecision::Rejected { current_total } => assert_eq!(current_total, 1000),
        _ => panic!("expected a rejection"),
    }
    assert_eq!(store.total(u), 1000);
    assert!(matches!(submit(&mut store, u, 0, "z"), AdmissionDecision::Admitted));
    assert_eq!(store.total(u), 1000);
    assert_eq!(store.rows(u), 2);
}

#[test]
fn admits_at_ceiling_and_not_past_it() {
    assert_eq!(CEILING, 1000);
    assert!(admits(600, 400));
    assert!(!admits(600, 401));
    assert!(admits(0, 0));
    assert!(!admits(0, -1));
    assert!(admits(1000, -1000));
    assert!(!admits(i64::MAX, i32::MAX));
    assert!(!admits(i64::MIN, i32::MIN));
}

#[test]
fn boundary_through_the_protocol() {
    let mut store = Store::new();
    assert!(matches!(submit(&mut store, 1, 600, "a"), AdmissionDecision::Admitted));
    assert!(matches!(
        submit(&mut store, 1, 401, "b"),
        AdmissionDecision::Rejected { current_total: 600 }
    ));
    assert!(matches!(submit(&mut store, 1, 400, "c"), AdmissionDecision::Admitted));
    assert_eq!(store.total(1), 1000);
}

#[test]
fn first_request_of_a_new_user_starts_from_zero() {
    let mut store = Store::new();
    let (decision, seen) = drive(&mut store, record(3, 1000, "d"), RetryPolicy::bounded(), Vec::new());
    assert!(matches!(decision, AdmissionDecision::Admitted));
    assert_eq!(seen, vec!["begin", "lock", "sum", "insert", "commit"]);
    let mut store = Store::new();
    match submit(&mut store, 3, -1, "e") {
        AdmissionDecision::Rejected { current_total } => assert_eq!(current_total, 0),
        _ => panic!("expected a rejection"),
    }
    assert_eq!(store.rows(3), 0);
}

#[test]
fn rejection_leaves_total_unchanged() {
    let mut store = Store::new();
    submit(&mut store, 2, 900, "a");
    let (decision, seen) = drive(&mut store, record(2, 200, "b"), RetryPolicy::bounded(), Vec::new());
    assert!(matches!(decision, AdmissionDecision::Rejected { current_total: 900 }));
    assert_eq!(seen, vec!["begin", "lock", "sum", "rollback"]);
    assert_eq!(store.total(2), 900);
    assert_eq!(store.rows(2), 1);
    assert!(store.pending.is_empty());
}

#[test]
fn transient_error_on_first_attempt_admits_once() {
    let mut store = Store::new();
    let (decision, seen) =
        drive(&mut store, record(4, 300, "a"), RetryPolicy::bounded(), vec![None, None, Some(deadlock())]);
    assert!(matches!(decision, AdmissionDecision::Admitted));
    assert_eq!(
        seen,
        vec!["begin", "lock", "sum", "rollback", "backoff", "begin", "lock", "sum", "insert", "commit"]
    );
    assert_eq!(store.rows(4), 1);
    assert_eq!(store.total(4), 300);
}

#[test]
fn transient_error_on_insert_leaves_no_duplicate() {
    let mut store = Store::new();
    let faults = vec![None, None, None, Some(lock_timeout())];
    let (decision, _) = drive(&mut store, record(4, 300, "a"), RetryPolicy::bounded(), faults);
    assert!(matches!(decision, AdmissionDecision::Admitted));
    assert_eq!(store.rows(4), 1);
}

#[test]
fn distinct_users_are_independent() {
    let mut store = Store::new();
    submit(&mut store, 10, 1000, "a");
    assert!(matches!(submit(&mut store, 11, 1000, "b"), AdmissionDecision::Admitted));
    assert!(matches!(submit(&mut store, 10, 1, "c"), AdmissionDecision::Rejected { .. }));
    assert_eq!(store.total(10), 1000);
    assert_eq!(store.total(11), 1000);
}

#[test]
fn totals_never_leave_range() {
    let mut store = Store::new();
    let amounts = [250, 300, 500, 450, -100, 999, 1, 50, -700, 1000, 0, 200];
    for (i, a) in amounts.iter().enumerate() {
        let user = (i % 3) as i32;
        submit(&mut store, user, *a, "r");
        for u in 0..3 {
            let t = store.total(u);
            assert!((0..=1000).contains(&t));
        }
    }
}

#[test]
fn fatal_error_is_not_retried() {
    let mut store = Store::new();
    let (decision, seen) =
        drive(&mut store, record(5, 10, "a"), RetryPolicy::bounded(), vec![None, None, Some(connection_lost())]);
    match decision {
        AdmissionDecision::Fatal { cause } => assert_eq!(cause.message, "lost"),
        _ => panic!("expected a fatal error"),
    }
    assert_eq!(seen, vec!["begin", "lock", "sum", "rollback"]);
    assert_eq!(store.rows(5), 0);
}

#[test]
fn begin_failure_is_fatal() {
    let mut store = Store::new();
    let (decision, seen) =
        drive(&mut store, record(5, 10, "a"), RetryPolicy::bounded(), vec![Some(connection_lost())]);
    assert!(matches!(decision, AdmissionDecision::Fatal { .. }));
    assert_eq!(seen, vec!["begin"]);
}

#[test]
fn begin_contention_is_retried() {
    let mut store = Store::new();
    let (decision, seen) =
        drive(&mut store, record(5, 10, "a"), RetryPolicy::bounded(), vec![Some(deadlock())]);
    assert!(matches!(decision, AdmissionDecision::Admitted));
    assert_eq!(seen, vec!["begin", "backoff", "begin", "lock", "sum", "insert", "commit"]);
    assert_eq!(store.rows(5), 1);
}

#[test]
fn commit_contention_is_retried_without_duplicate() {
    let mut store = Store::new();
    let faults = vec![None, None, None, None, Some(deadlock())];
    let (decision, seen) = drive(&mut store, record(5, 10, "a"), RetryPolicy::bounded(), faults);
    assert!(matches!(decision, AdmissionDecision::Admitted));
    assert_eq!(
        seen,
        vec!["begin", "lock", "sum", "insert", "commit", "backoff", "begin", "lock", "sum", "insert", "commit"]
    );
    assert_eq!(store.rows(5), 1);
    assert_eq!(store.total(5), 10);
}

#[test]
fn lock_contention_is_retried() {
    let mut store = Store::new();
    let faults = vec![None, Some(lock_timeout())];
    let (decision, seen) = drive(&mut store, record(5, 10, "a"), RetryPolicy::bounded(), faults);
    assert!(matches!(decision, AdmissionDecision::Admitted));
    assert_eq!(seen[..4], ["begin", "lock", "rollback", "backoff"]);
    assert_eq!(store.rows(5), 1);
}

#[test]
fn commit_failure_is_fatal() {
    let mut store = Store::new();
    let faults = vec![None, None, None, None, Some(connection_lost())];
    let (decision, seen) = drive(&mut store, record(5, 10, "a"), RetryPolicy::bounded(), faults);
    assert!(matches!(decision, AdmissionDecision::Fatal { .. }));
    assert_eq!(seen, vec!["begin", "lock", "sum", "insert", "commit"]);
    assert_eq!(store.rows(5), 0);
}

#[test]
fn rollback_failure_is_fatal() {
    let mut store = Store::new();
    let faults = vec![None, None, Some(deadlock()), Some(connection_lost())];
    let (decision, seen) = drive(&mut store, record(5, 10, "a"), RetryPolicy::bounded(), faults);
    match decision {
        AdmissionDecision::Fatal { cause } => assert_eq!(cause.message, "lost"),
        _ => panic!("expected a fatal error"),
    }
    assert_eq!(seen, vec!["begin", "lock", "sum", "rollback"]);
}

#[test]
fn failed_rollback_keeps_first_cause() {
    let mut store = Store::new();
    let other = DbError { sqlstate: None, number: None, message: "rollback".to_string() };
    let faults = vec![None, None, Some(connection_lost()), Some(other)];
    let (decision, _) = drive(&mut store, record(5, 10, "a"), RetryPolicy::bounded(), faults);
    match decision {
        AdmissionDecision::Fatal { cause } => assert_eq!(cause.message, "lost"),
        _ => panic!("expected a fatal error"),
    }
}

#[test]
fn contention_past_the_attempt_limit_is_fatal() {
    let mut store = Store::new();
    let policy = RetryPolicy { max_attempts: Some(2), backoff_millis: 50 };
    let faults = vec![None, None, Some(deadlock()), None, None, None, None, Some(deadlock()), None];
    let (decision, seen) = drive(&mut store, record(6, 10, "a"), policy, faults);
    match decision {
        AdmissionDecision::Fatal { cause } => assert_eq!(cause.number, Some(1213)),
        _ => panic!("expected a fatal error"),
    }
    assert_eq!(
        seen,
        vec!["begin", "lock", "sum", "rollback", "backoff", "begin", "lock", "sum", "rollback"]
    );
    assert_eq!(store.rows(6), 0);
}

#[test]
fn unbounded_policy_outlasts_long_contention() {
    let mut store = Store::new();
    let mut faults = Vec::new();
    for _ in 0..30 {
        faults.extend(vec![None, None, Some(deadlock()), None, None]);
    }
    let (decision, _) = drive(&mut store, record(8, 10, "a"), RetryPolicy::unbounded(), faults);
    assert!(matches!(decision, AdmissionDecision::Admitted));
    assert_eq!(store.rows(8), 1);
    let mut store = Store::new();
    let mut faults = Vec::new();
    for _ in 0..30 {
        faults.extend(vec![None, None, Some(deadlock()), None, None]);
    }
    let (decision, _) = drive(&mut store, record(8, 10, "a"), RetryPolicy::bounded(), faults);
    assert!(matches!(decision, AdmissionDecision::Fatal { .. }));
    assert_eq!(store.rows(8), 0);
}

#[test]
fn classifies_contention() {
    assert!(deadlock().is_transient_contention());
    assert!(lock_timeout().is_transient_contention());
    assert!(!connection_lost().is_transient_contention());
    let by_state = DbError { sqlstate: Some("40001".to_string()), number: None, message: String::new() };
    assert!(matches!(by_state.classify(), ErrorClass::TransientContention));
    let none = DbError { sqlstate: None, number: None, message: String::new() };
    assert!(matches!(none.classify(), ErrorClass::Fatal));
    assert!(is_deadlock_sqlstate("40001"));
    assert!(!is_deadlock_sqlstate("4000"));
    assert!(!is_deadlock_sqlstate("400011"));
    assert!(!is_deadlock_sqlstate("40002"));
    assert!(!is_deadlock_sqlstate(""));
}

#[test]
fn stray_event_leaves_state_unchanged() {
    let mut sub = Submission::new(record(1, 5, "a"), RetryPolicy::bounded());
    assert!(matches!(sub.step(Event::Summed { total: Some(3) }), Action::Begin));
    assert!(matches!(sub.step(Event::Done), Action::LockUser { user_id: 1 }));
    assert!(matches!(sub.step(Event::Summed { total: Some(3) }), Action::LockUser { user_id: 1 }));
    assert!(matches!(sub.step(Event::Done), Action::LockAndSum { user_id: 1 }));
    assert!(matches!(sub.step(Event::Done), Action::LockAndSum { user_id: 1 }));
    match sub.step(Event::Summed { total: Some(3) }) {
        Action::Insert { record } => {
            assert_eq!(record.amount, 5);
            assert_eq!(record.description, "a");
        }
        _ => panic!("expected an insert"),
    }
    assert!(matches!(sub.step(Event::Done), Action::Commit));
    assert!(matches!(sub.step(Event::Done), Action::Finish { decision: AdmissionDecision::Admitted }));
    assert!(sub.is_finished());
    assert!(matches!(sub.step(Event::Done), Action::Finish { decision: AdmissionDecision::Admitted }));
    assert!(matches!(sub.phase, Phase::Finished { .. }));
    assert_eq!(sub.attempts, 1);
    assert!(sub.user_locked);
    assert_eq!(sub.observed_total, Some(3));
}

#[test]
fn decisions_map_to_response_classes() {
    assert!(matches!(AdmissionDecision::Admitted.response_class(), ResponseClass::Success));
    assert!(matches!(
        AdmissionDecision::Rejected { current_total: 1000 }.response_class(),
        ResponseClass::ClientError
    ));
    assert!(matches!(
        AdmissionDecision::Fatal { cause: connection_lost() }.response_class(),
        ResponseClass::ServerError
    ));
}

#[test]
fn policies() {
    let b = RetryPolicy::bounded();
    assert_eq!(b.max_attempts, Some(20));
    assert!(b.may_retry(19));
    assert!(!b.may_retry(20));
    let u = RetryPolicy::unbounded();
    assert!(u.max_attempts.is_none());
    assert!(u.may_retry(u32::MAX));
}

#[test]
fn duplicates_are_equal() {
    let r = record(9, 12, "desc");
    let d = r.duplicate();
    assert_eq!((d.user_id, d.amount, d.description.as_str()), (9, 12, "desc"));
    let e = deadlock().duplicate();
    assert_eq!(e.sqlstate.as_deref(), Some("40001"));
    assert_eq!(e.number, Some(1213));
    assert_eq!(e.message, "deadlock");
}
