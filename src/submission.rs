//! One request's way through the locked-read / evaluate / conditional-write
//! protocol, with retries on transient contention.
//!
//! The caller drives a `Submission`: it performs the pending action against
//! the datastore, hands the outcome back to `step` as an event, and repeats
//! until the action is `Finish`.
use vstd::prelude::*;
use crate::admission::{admits, submit_to, total_allowed, total_of, TransactionRecord, CEILING};
use crate::errors::DbError;

verus! {

/// How often, and after how long a pause, a request is tried again after
/// transient contention.
pub struct RetryPolicy {
    /// The most attempts that are begun for one request; `None` for no limit.
    pub max_attempts: Option<u32>,
    /// The pause between rolling back an attempt and beginning the next.
    pub backoff_millis: u64,
}

/// The attempts that `RetryPolicy::bounded` allows.
pub const DEFAULT_MAX_ATTEMPTS: u32 = 20;

/// The pause that `RetryPolicy::bounded` and `RetryPolicy::unbounded` keep.
pub const DEFAULT_BACKOFF_MILLIS: u64 = 50;

impl RetryPolicy {
    /// Whether a request that has begun `attempts` attempts may begin another.
    pub open spec fn allows_retry(&self, attempts: u32) -> bool {
        match self.max_attempts {
            Some(m) => attempts < m,
            None => true,
        }
    }

    /// The usual policy: a bounded number of attempts, a fixed pause.
    pub fn bounded() -> (r: RetryPolicy)
        ensures
            r.max_attempts == Some(DEFAULT_MAX_ATTEMPTS),
            r.backoff_millis == DEFAULT_BACKOFF_MILLIS,
    {
        RetryPolicy { max_attempts: Some(DEFAULT_MAX_ATTEMPTS), backoff_millis: DEFAULT_BACKOFF_MILLIS }
    }

    /// Retry for as long as contention lasts, with a fixed pause.
    pub fn unbounded() -> (r: RetryPolicy)
        ensures
            r.max_attempts is None,
            r.backoff_millis == DEFAULT_BACKOFF_MILLIS,
    {
        RetryPolicy { max_attempts: None, backoff_millis: DEFAULT_BACKOFF_MILLIS }
    }

    /// Whether a request that has begun `attempts` attempts may begin another.
    pub fn may_retry(&self, attempts: u32) -> (r: bool)
        ensures
            r == self.allows_retry(attempts),
    {
        match self.max_attempts {
            Some(m) => attempts < m,
            None => true,
        }
    }
}

/// What became of a request.
pub enum AdmissionDecision {
    /// The record was inserted and its transaction committed.
    Admitted,
    /// The new total would leave `[0, CEILING]`; nothing was written.
    Rejected { current_total: i64 },
    /// The datastore failed in a way that retrying does not mend.
    Fatal { cause: DbError },
}

impl AdmissionDecision {
    /// A copy of this decision, equal to it.
    pub fn duplicate(&self) -> (r: AdmissionDecision)
        ensures
            r == *self,
    {
        match self {
            AdmissionDecision::Admitted => AdmissionDecision::Admitted,
            AdmissionDecision::Rejected { current_total } => AdmissionDecision::Rejected {
                current_total: *current_total,
            },
            AdmissionDecision::Fatal { cause } => AdmissionDecision::Fatal { cause: cause.duplicate() },
        }
    }
}

/// The category of response that a decision is reported with.
pub enum ResponseClass {
    Success,
    ClientError,
    ServerError,
}

impl AdmissionDecision {
    /// Admitted requests succeed, rejections are the client's concern, and
    /// fatal datastore errors are the server's.
    pub fn response_class(&self) -> (r: ResponseClass)
        ensures
            (r is Success) == (self is Admitted),
            (r is ClientError) == (self is Rejected),
            (r is ServerError) == (self is Fatal),
    {
        match self {
            AdmissionDecision::Admitted => ResponseClass::Success,
            AdmissionDecision::Rejected { .. } => ResponseClass::ClientError,
            AdmissionDecision::Fatal { .. } => ResponseClass::ServerError,
        }
    }
}

/// What a rollback that is under way leads to once it is done.
pub enum AfterRollback {
    /// Pause, then begin a new attempt.
    Retry,
    /// Report the rejection.
    Reject { current_total: i64 },
    /// Report the failure.
    Fail { cause: DbError },
}

/// Where a submission stands.
pub enum Phase {
    /// Waiting for a transaction to be opened.
    Beginning,
    /// Waiting for the user's lock row to be created if absent and locked.
    Locking,
    /// Waiting for the user's total, read while the lock row is held.
    Summing,
    /// Waiting for the record to be inserted.
    Inserting,
    /// Waiting for the transaction to commit.
    Committing,
    /// Waiting for the transaction to roll back.
    RollingBack { then: AfterRollback },
    /// Waiting out the pause before the next attempt.
    BackingOff,
    /// Decided.
    Finished { decision: AdmissionDecision },
}

/// What the caller is to do next.
pub enum Action {
    /// Open a datastore transaction.
    Begin,
    /// Within it, create the user's lock row if there is none and lock it
    /// exclusively, so that requests of one user serialize even before the
    /// user has any record.
    LockUser { user_id: i32 },
    /// Within it, sum the user's amounts.
    LockAndSum { user_id: i32 },
    /// Within it, insert the record.
    Insert { record: TransactionRecord },
    /// Commit the transaction.
    Commit,
    /// Roll the transaction back.
    Rollback,
    /// Pause before the next attempt.
    Backoff { millis: u64 },
    /// Stop: the request is decided.
    Finish { decision: AdmissionDecision },
}

/// What came of the last action.
pub enum Event {
    /// It succeeded.
    Done,
    /// The sum succeeded; `None` when the user has no records.
    Summed { total: Option<i64> },
    /// The datastore reported an error.
    Failed { error: DbError },
}

/// The state of one request.
pub struct Submission {
    pub request: TransactionRecord,
    pub policy: RetryPolicy,
    /// The attempts begun so far.
    pub attempts: u32,
    pub phase: Phase,
    /// The current attempt holds the user's lock row.
    pub user_locked: bool,
    /// The user's total as the current attempt read it under the lock.
    pub observed_total: Option<i64>,
}

/// The total that a sum stands for: no records sum to zero.
pub open spec fn total_or_zero(total: Option<i64>) -> i64 {
    match total {
        Some(t) => t,
        None => 0,
    }
}

/// The action that a submission in state `s` waits on.
pub open spec fn pending(s: Submission) -> Action {
    match s.phase {
        Phase::Beginning => Action::Begin,
        Phase::Locking => Action::LockUser { user_id: s.request.user_id },
        Phase::Summing => Action::LockAndSum { user_id: s.request.user_id },
        Phase::Inserting => Action::Insert { record: s.request },
        Phase::Committing => Action::Commit,
        Phase::RollingBack { .. } => Action::Rollback,
        Phase::BackingOff => Action::Backoff { millis: s.policy.backoff_millis },
        Phase::Finished { decision } => Action::Finish { decision },
    }
}

/// Where a failed step leads: transient contention is retried while the
/// policy allows it; any other error, or contention once the attempts are
/// spent, is reported.
pub open spec fn after_failure(s: Submission, error: DbError) -> AfterRollback {
    if error.is_transient() && s.policy.allows_retry(s.attempts) {
        AfterRollback::Retry
    } else {
        AfterRollback::Fail { cause: error }
    }
}

/// Where a failure leads when no transaction is left to roll back: to the
/// pause before the next attempt, or to the reported failure.
pub open spec fn retry_or_fail(s: Submission, error: DbError) -> Phase {
    match after_failure(s, error) {
        AfterRollback::Fail { cause } => Phase::Finished {
            decision: AdmissionDecision::Fatal { cause },
        },
        _ => Phase::BackingOff,
    }
}

/// The state that follows `s` on `e`. An event that does not answer the
/// pending action leaves the state as it is.
pub open spec fn next(s: Submission, e: Event) -> Submission {
    match (s.phase, e) {
        (Phase::Beginning, Event::Done) => Submission { phase: Phase::Locking, ..s },
        (Phase::Beginning, Event::Failed { error }) => Submission {
            phase: retry_or_fail(s, error),
            ..s
        },
        (Phase::Locking, Event::Done) => Submission {
            phase: Phase::Summing,
            user_locked: true,
            ..s
        },
        (Phase::Locking, Event::Failed { error }) => Submission {
            phase: Phase::RollingBack { then: after_failure(s, error) },
            ..s
        },
        (Phase::Summing, Event::Summed { total }) => {
            let t = total_or_zero(total);
            if total_allowed(t + s.request.amount) {
                Submission { phase: Phase::Inserting, observed_total: Some(t), ..s }
            } else {
                Submission {
                    phase: Phase::RollingBack { then: AfterRollback::Reject { current_total: t } },
                    observed_total: Some(t),
                    ..s
                }
            }
        },
        (Phase::Summing, Event::Failed { error }) => Submission {
            phase: Phase::RollingBack { then: after_failure(s, error) },
            ..s
        },
        (Phase::Inserting, Event::Done) => Submission { phase: Phase::Committing, ..s },
        (Phase::Inserting, Event::Failed { error }) => Submission {
            phase: Phase::RollingBack { then: after_failure(s, error) },
            ..s
        },
        (Phase::Committing, Event::Done) => Submission {
            phase: Phase::Finished { decision: AdmissionDecision::Admitted },
            ..s
        },
        (Phase::Committing, Event::Failed { error }) => Submission {
            phase: retry_or_fail(s, error),
            ..s
        },
        (Phase::RollingBack { then }, Event::Done) => match then {
            AfterRollback::Retry => Submission { phase: Phase::BackingOff, ..s },
            AfterRollback::Reject { current_total } => Submission {
                phase: Phase::Finished { decision: AdmissionDecision::Rejected { current_total } },
                ..s
            },
            AfterRollback::Fail { cause } => Submission {
                phase: Phase::Finished { decision: AdmissionDecision::Fatal { cause } },
                ..s
            },
        },
        (Phase::RollingBack { then }, Event::Failed { error }) => match then {
            AfterRollback::Retry => Submission { phase: retry_or_fail(s, error), ..s },
            AfterRollback::Reject { .. } => Submission {
                phase: Phase::Finished { decision: AdmissionDecision::Fatal { cause: error } },
                ..s
            },
            AfterRollback::Fail { cause } => Submission {
                phase: Phase::Finished { decision: AdmissionDecision::Fatal { cause } },
                ..s
            },
        },
        (Phase::BackingOff, Event::Done) => Submission {
            phase: Phase::Beginning,
            attempts: if s.attempts < u32::MAX { (s.attempts + 1) as u32 } else { s.attempts },
            user_locked: false,
            observed_total: None,
            ..s
        },
        _ => s,
    }
}

/// The state of a request that has not yet begun: its first attempt is
/// about to open a transaction.
pub open spec fn initial(request: TransactionRecord, policy: RetryPolicy) -> Submission {
    Submission {
        request,
        policy,
        attempts: 1,
        phase: Phase::Beginning,
        user_locked: false,
        observed_total: None,
    }
}

/// What holds of every state that a submission reaches: within an attempt
/// the lock row is taken before the total is read, the total is read before
/// anything is inserted, and every decision agrees with the total that the
/// deciding attempt read.
pub open spec fn consistent(s: Submission) -> bool {
    let admitted_total = s.observed_total is Some && total_allowed(
        total_or_zero(s.observed_total) + s.request.amount,
    );
    match s.phase {
        Phase::Beginning => !s.user_locked && s.observed_total is None,
        Phase::Locking => !s.user_locked && s.observed_total is None,
        Phase::Summing => s.user_locked && s.observed_total is None,
        Phase::Inserting => s.user_locked && admitted_total,
        Phase::Committing => s.user_locked && admitted_total,
        Phase::RollingBack { then } => match then {
            AfterRollback::Reject { current_total } => s.observed_total == Some(current_total)
                && !total_allowed(current_total + s.request.amount),
            _ => true,
        },
        Phase::BackingOff => true,
        Phase::Finished { decision } => match decision {
            AdmissionDecision::Admitted => s.user_locked && admitted_total,
            AdmissionDecision::Rejected { current_total } => s.observed_total == Some(
                current_total,
            ) && !total_allowed(current_total + s.request.amount),
            _ => true,
        },
    }
}

/// The state after `events` have been handed to `s` one after another.
pub open spec fn run(s: Submission, events: Seq<Event>) -> Submission
    decreases events.len(),
{
    if events.len() == 0 {
        s
    } else {
        run(next(s, events[0]), events.drop_first())
    }
}

/// How many records `events` persisted: a record becomes visible to other
/// transactions only when the commit of the transaction that inserted it
/// succeeds, and a submission commits only after inserting its record.
pub open spec fn persisted(s: Submission, events: Seq<Event>) -> nat
    decreases events.len(),
{
    if events.len() == 0 {
        0
    } else {
        (if s.phase is Committing && events[0] is Done {
            1nat
        } else {
            0nat
        }) + persisted(next(s, events[0]), events.drop_first())
    }
}

/// The request was admitted.
pub open spec fn is_admitted(s: Submission) -> bool {
    match s.phase {
        Phase::Finished { decision } => decision is Admitted,
        _ => false,
    }
}

/// The request was rejected by the admission rule.
pub open spec fn is_rejected(s: Submission) -> bool {
    match s.phase {
        Phase::Finished { decision } => decision is Rejected,
        _ => false,
    }
}

/// A decided request stays decided and writes nothing more.
pub proof fn lemma_finished_stays(s: Submission, events: Seq<Event>)
    requires
        s.phase is Finished,
    ensures
        run(s, events) == s,
        persisted(s, events) == 0,
    decreases events.len(),
{
    if events.len() > 0 {
        lemma_finished_stays(s, events.drop_first());
    }
}

/// However the datastore answers, and however often contention forces a
/// retry, an undecided request persists at most one record: exactly one when
/// it ends admitted, and none otherwise.
pub proof fn lemma_at_most_one_record(s: Submission, events: Seq<Event>)
    requires
        !(s.phase is Finished),
    ensures
        persisted(s, events) == if is_admitted(run(s, events)) {
            1nat
        } else {
            0nat
        },
        persisted(s, events) <= 1,
    decreases events.len(),
{
    if events.len() > 0 {
        let s1 = next(s, events[0]);
        if s1.phase is Finished {
            lemma_finished_stays(s1, events.drop_first());
        } else {
            lemma_at_most_one_record(s1, events.drop_first());
        }
    }
}

/// A rejected request leaves the persisted records as they were: nothing of
/// it is inserted for good.
pub proof fn lemma_rejection_writes_nothing(
    request: TransactionRecord,
    policy: RetryPolicy,
    events: Seq<Event>,
)
    requires
        is_rejected(run(initial(request, policy), events)),
    ensures
        persisted(initial(request, policy), events) == 0,
{
    lemma_at_most_one_record(initial(request, policy), events);
}

/// The admission rule at the point of decision: with the user's total `t`
/// read under the lock, the request goes on to insert its record exactly
/// when `0 <= t + amount <= CEILING`; a total that lands on the ceiling is
/// admitted and one past it is not. When the insert and the commit, or the
/// rollback, then succeed, the request ends admitted exactly when the rule
/// holds, and rejected with `t` as its current total otherwise.
pub proof fn lemma_admission_boundary(s: Submission, t: i64)
    requires
        s.phase is Summing,
    ensures
        (next(s, Event::Summed { total: Some(t) }).phase is Inserting) == (0 <= t
            + s.request.amount <= CEILING),
        t + s.request.amount == CEILING ==> next(
            s,
            Event::Summed { total: Some(t) },
        ).phase is Inserting,
        t + s.request.amount == CEILING + 1 ==> next(
            s,
            Event::Summed { total: Some(t) },
        ).phase is RollingBack,
        (next(s, Event::Summed { total: None }).phase is Inserting) == (0 <= s.request.amount
            <= CEILING),
        0 <= t + s.request.amount <= CEILING ==> is_admitted(
            run(s, seq![Event::Summed { total: Some(t) }, Event::Done, Event::Done]),
        ),
        !(0 <= t + s.request.amount <= CEILING) ==> run(
            s,
            seq![Event::Summed { total: Some(t) }, Event::Done],
        ).phase == (Phase::Finished {
            decision: AdmissionDecision::Rejected { current_total: t },
        }),
{
    reveal_with_fuel(run, 4);
}

/// A record is inserted only right after the user's total was read under
/// the lock and found to admit it, and only this request's record, for this
/// request's user, is ever locked, read or written.
pub proof fn lemma_insert_only_when_admitted(s: Submission, e: Event)
    requires
        consistent(s),
    ensures
        next(s, e).phase is Inserting && !(s.phase is Inserting) ==> (s.phase is Summing && (
        e matches Event::Summed { total } && total_allowed(
            total_or_zero(total) + s.request.amount,
        ))),
        pending(s) is Insert ==> s.user_locked && s.observed_total is Some && total_allowed(
            total_or_zero(s.observed_total) + s.request.amount,
        ),
        next(s, e).request == s.request,
        pending(s) matches Action::LockUser { user_id } ==> user_id == s.request.user_id,
        pending(s) matches Action::LockAndSum { user_id } ==> user_id == s.request.user_id,
        pending(s) matches Action::Insert { record } ==> record == s.request,
{
}

/// Every state that a submission reaches is consistent.
pub proof fn lemma_consistent_step(s: Submission, e: Event)
    requires
        consistent(s),
    ensures
        consistent(next(s, e)),
{
}

/// Every state that a run reaches from a consistent state is consistent, and
/// a run keeps its request.
pub proof fn lemma_consistent_run(s: Submission, events: Seq<Event>)
    requires
        consistent(s),
    ensures
        consistent(run(s, events)),
        run(s, events).request == s.request,
    decreases events.len(),
{
    if events.len() > 0 {
        lemma_consistent_step(s, events[0]);
        lemma_consistent_run(next(s, events[0]), events.drop_first());
    }
}

/// A run decides as the admission rule does on the total that its deciding
/// attempt read while holding the user's lock: admitted only when that
/// total plus the amount lies in `[0, CEILING]`, rejected with that total
/// only when it does not. Where that total is the user's total in `ledger`,
/// the ledger that results is `submit_to(ledger, request)`: the record
/// appended when admitted, the ledger unchanged when rejected.
pub proof fn lemma_decision_follows_rule(
    request: TransactionRecord,
    policy: RetryPolicy,
    events: Seq<Event>,
    ledger: Seq<TransactionRecord>,
)
    ensures
        ({
            let r = run(initial(request, policy), events);
            &&& is_admitted(r) ==> r.user_locked && r.observed_total is Some && total_allowed(
                total_or_zero(r.observed_total) + request.amount,
            )
            &&& r.phase matches Phase::Finished {
                decision: AdmissionDecision::Rejected { current_total },
            } ==> r.observed_total == Some(current_total) && !total_allowed(
                current_total + request.amount,
            )
            &&& r.observed_total == Some(total_or_zero(r.observed_total)) && total_or_zero(
                r.observed_total,
            ) == total_of(ledger, request.user_id) ==> (is_admitted(r) ==> submit_to(ledger, request) == ledger.push(request)) && (
            is_rejected(r) ==> submit_to(ledger, request) == ledger)
        }),
{
    lemma_consistent_run(initial(request, policy), events);
}

/// One transient contention error on the first attempt is invisible but for
/// the retry: the request is admitted in its second attempt and exactly one
/// record is persisted.
pub proof fn lemma_retry_transparent(
    request: TransactionRecord,
    policy: RetryPolicy,
    error: DbError,
    total: Option<i64>,
)
    requires
        error.is_transient(),
        policy.allows_retry(1),
        total_allowed(total_or_zero(total) + request.amount),
    ensures
        ({
            let events = seq![
                Event::Done,
                Event::Done,
                Event::Failed { error },
                Event::Done,
                Event::Done,
                Event::Done,
                Event::Done,
                Event::Summed { total },
                Event::Done,
                Event::Done,
            ];
            &&& is_admitted(run(initial(request, policy), events))
            &&& persisted(initial(request, policy), events) == 1
            &&& run(initial(request, policy), events).attempts == 2
        }),
{
    reveal_with_fuel(run, 11);
    reveal_with_fuel(persisted, 11);
}

/// Contention at any step of an attempt, the commit and the opening of the
/// transaction included, leads to a new attempt while the policy allows one;
/// any other error ends the request with that error as its cause, which a
/// rollback that fails in turn does not replace.
pub proof fn lemma_failure_handling(s: Submission, error: DbError, rollback_error: DbError)
    requires
        s.phase is Beginning || s.phase is Locking || s.phase is Summing || s.phase is Inserting
            || s.phase is Committing,
    ensures
        ({
            let n = next(s, Event::Failed { error });
            &&& error.is_transient() && s.policy.allows_retry(s.attempts) ==> (n.phase is BackingOff
                || n.phase == Phase::RollingBack { then: AfterRollback::Retry })
            &&& !error.is_transient() ==> (n.phase == Phase::Finished {
                decision: AdmissionDecision::Fatal { cause: error },
            } || n.phase == Phase::RollingBack { then: AfterRollback::Fail { cause: error } })
            &&& n.phase == Phase::RollingBack { then: AfterRollback::Fail { cause: error } } ==> next(
                n,
                Event::Failed { error: rollback_error },
            ).phase == Phase::Finished { decision: AdmissionDecision::Fatal { cause: error } }
        }),
{
}
impl Submission {
    /// A new submission of `request`, about to begin its first attempt.
    pub fn new(request: TransactionRecord, policy: RetryPolicy) -> (r: Submission)
        ensures
            r == initial(request, policy),
            consistent(r),
    {
        Submission {
            request,
            policy,
            attempts: 1,
            phase: Phase::Beginning,
            user_locked: false,
            observed_total: None,
        }
    }

    /// The action that this submission waits on.
    pub fn pending_action(&self) -> (a: Action)
        ensures
            a == pending(*self),
    {
        match &self.phase {
            Phase::Beginning => Action::Begin,
            Phase::Locking => Action::LockUser { user_id: self.request.user_id },
            Phase::Summing => Action::LockAndSum { user_id: self.request.user_id },
            Phase::Inserting => Action::Insert { record: self.request.duplicate() },
            Phase::Committing => Action::Commit,
            Phase::RollingBack { .. } => Action::Rollback,
            Phase::BackingOff => Action::Backoff { millis: self.policy.backoff_millis },
            Phase::Finished { decision } => Action::Finish { decision: decision.duplicate() },
        }
    }

    /// Whether the request is decided.
    pub fn is_finished(&self) -> (r: bool)
        ensures
            r == (self.phase is Finished),
    {
        matches!(self.phase, Phase::Finished { .. })
    }

    /// Takes in what came of the pending action and returns the next one.
    pub fn step(&mut self, e: Event) -> (a: Action)
        ensures
            *final(self) == next(*old(self), e),
            a == pending(*final(self)),
            consistent(*old(self)) ==> consistent(*final(self)),
    {
        let mut phase = Phase::Beginning;
        core::mem::swap(&mut phase, &mut self.phase);
        let new_phase = match (phase, e) {
            (Phase::Beginning, Event::Done) => Phase::Locking,
            (Phase::Beginning, Event::Failed { error }) => self.retry_or_fail(error),
            (Phase::Locking, Event::Done) => {
                self.user_locked = true;
                Phase::Summing
            },
            (Phase::Locking, Event::Failed { error }) => Phase::RollingBack {
                then: self.after_failure(error),
            },
            (Phase::Summing, Event::Summed { total }) => {
                let t: i64 = match total {
                    Some(t) => t,
                    None => 0,
                };
                self.observed_total = Some(t);
                if admits(t, self.request.amount) {
                    Phase::Inserting
                } else {
                    Phase::RollingBack { then: AfterRollback::Reject { current_total: t } }
                }
            },
            (Phase::Summing, Event::Failed { error }) => Phase::RollingBack {
                then: self.after_failure(error),
            },
            (Phase::Inserting, Event::Done) => Phase::Committing,
            (Phase::Inserting, Event::Failed { error }) => Phase::RollingBack {
                then: self.after_failure(error),
            },
            (Phase::Committing, Event::Done) => Phase::Finished {
                decision: AdmissionDecision::Admitted,
            },
            (Phase::Committing, Event::Failed { error }) => self.retry_or_fail(error),
            (Phase::RollingBack { then }, Event::Done) => match then {
                AfterRollback::Retry => Phase::BackingOff,
                AfterRollback::Reject { current_total } => Phase::Finished {
                    decision: AdmissionDecision::Rejected { current_total },
                },
                AfterRollback::Fail { cause } => Phase::Finished {
                    decision: AdmissionDecision::Fatal { cause },
                },
            },
            (Phase::RollingBack { then }, Event::Failed { error }) => match then {
                AfterRollback::Retry => self.retry_or_fail(error),
                AfterRollback::Reject { .. } => Phase::Finished {
                    decision: AdmissionDecision::Fatal { cause: error },
                },
                AfterRollback::Fail { cause } => Phase::Finished {
                    decision: AdmissionDecision::Fatal { cause },
                },
            },
            (Phase::BackingOff, Event::Done) => {
                if self.attempts < u32::MAX {
                    self.attempts = self.attempts + 1;
                }
                self.user_locked = false;
                self.observed_total = None;
                Phase::Beginning
            },
            (p, _) => p,
        };
        self.phase = new_phase;
        proof {
            if consistent(*old(self)) {
                lemma_consistent_step(*old(self), e);
            }
        }
        self.pending_action()
    }

    fn after_failure(&self, error: DbError) -> (r: AfterRollback)
        ensures
            r == after_failure(*self, error),
    {
        if error.is_transient_contention() && self.policy.may_retry(self.attempts) {
            AfterRollback::Retry
        } else {
            AfterRollback::Fail { cause: error }
        }
    }

    fn retry_or_fail(&self, error: DbError) -> (r: Phase)
        ensures
            r == retry_or_fail(*self, error),
    {
        match self.after_failure(error) {
            AfterRollback::Fail { cause } => Phase::Finished {
                decision: AdmissionDecision::Fatal { cause },
            },
            _ => Phase::BackingOff,
        }
    }
}

} // verus!
