//! The admission rule and the ledger it protects.
use vstd::prelude::*;

verus! {

/// The largest total that a user's recorded amounts may reach.
pub const CEILING: i64 = 1000;

/// One persisted entry: an amount recorded for a user.
pub struct TransactionRecord {
    pub user_id: i32,
    pub amount: i32,
    pub description: String,
}

impl TransactionRecord {
    /// A copy of this record, equal to it.
    pub fn duplicate(&self) -> (r: TransactionRecord)
        ensures
            r == *self,
    {
        TransactionRecord {
            user_id: self.user_id,
            amount: self.amount,
            description: self.description.clone(),
        }
    }
}

/// True when a total of `t` is one that the ledger may hold.
pub open spec fn total_allowed(t: int) -> bool {
    0 <= t <= CEILING
}

/// Whether a request for `amount` is admitted on top of `current_total`:
/// the new total must lie in `[0, CEILING]`, both ends included.
pub fn admits(current_total: i64, amount: i32) -> (r: bool)
    ensures
        r == total_allowed(current_total + amount),
{
    let t = current_total as i128 + amount as i128;
    0 <= t && t <= CEILING as i128
}

/// The sum of the amounts recorded for `user` in `ledger`.
pub open spec fn total_of(ledger: Seq<TransactionRecord>, user: i32) -> int
    decreases ledger.len(),
{
    if ledger.len() == 0 {
        0
    } else {
        total_of(ledger.drop_last(), user) + if ledger.last().user_id == user {
            ledger.last().amount as int
        } else {
            0
        }
    }
}

/// The ledger after one request has been decided under the user's lock:
/// the record is appended when it is admitted, and nothing changes otherwise.
pub open spec fn submit_to(ledger: Seq<TransactionRecord>, r: TransactionRecord) -> Seq<
    TransactionRecord,
> {
    if total_allowed(total_of(ledger, r.user_id) + r.amount) {
        ledger.push(r)
    } else {
        ledger
    }
}

/// The ledger after `requests` have been decided one after another, in the
/// order in which their transactions committed.
pub open spec fn submit_all(ledger: Seq<TransactionRecord>, requests: Seq<TransactionRecord>) -> Seq<
    TransactionRecord,
>
    decreases requests.len(),
{
    if requests.len() == 0 {
        ledger
    } else {
        submit_all(submit_to(ledger, requests[0]), requests.drop_first())
    }
}

/// Every user's total lies within `[0, CEILING]`.
pub open spec fn within_ceiling(ledger: Seq<TransactionRecord>) -> bool {
    forall|u: i32| total_allowed(#[trigger] total_of(ledger, u))
}

/// Appending a record changes its own user's total by its amount and no
/// other user's total.
pub proof fn lemma_total_of_push(ledger: Seq<TransactionRecord>, r: TransactionRecord, u: i32)
    ensures
        total_of(ledger.push(r), u) == total_of(ledger, u) + if r.user_id == u {
            r.amount as int
        } else {
            0
        },
{
    assert(ledger.push(r).drop_last() =~= ledger);
}

/// Deciding one request keeps every user's total within the ceiling.
pub proof fn lemma_submit_keeps_ceiling(ledger: Seq<TransactionRecord>, r: TransactionRecord)
    requires
        within_ceiling(ledger),
    ensures
        within_ceiling(submit_to(ledger, r)),
{
    if total_allowed(total_of(ledger, r.user_id) + r.amount) {
        assert forall|u: i32| total_allowed(#[trigger] total_of(ledger.push(r), u)) by {
            lemma_total_of_push(ledger, r, u);
        }
    }
}

/// Whatever requests arrive, and in whatever order their transactions
/// commit, a ledger within the ceiling stays within it after each of them:
/// no user's total ever exceeds the ceiling or goes below zero.
pub proof fn lemma_ceiling_invariant(ledger: Seq<TransactionRecord>, requests: Seq<TransactionRecord>)
    requires
        within_ceiling(ledger),
    ensures
        within_ceiling(submit_all(ledger, requests)),
        forall|i: int|
            0 <= i <= requests.len() ==> within_ceiling(
                #[trigger] submit_all(ledger, requests.take(i)),
            ),
    decreases requests.len(),
{
    if requests.len() > 0 {
        lemma_submit_keeps_ceiling(ledger, requests[0]);
        lemma_ceiling_invariant(submit_to(ledger, requests[0]), requests.drop_first());
    }
    assert forall|i: int| 0 <= i <= requests.len() implies within_ceiling(
        #[trigger] submit_all(ledger, requests.take(i)),
    ) by {
        lemma_ceiling_prefix(ledger, requests, i);
    }
}

proof fn lemma_ceiling_prefix(ledger: Seq<TransactionRecord>, requests: Seq<TransactionRecord>, i: int)
    requires
        within_ceiling(ledger),
        0 <= i <= requests.len(),
    ensures
        within_ceiling(submit_all(ledger, requests.take(i))),
    decreases requests.len(),
{
    if i > 0 {
        let t = requests.take(i);
        assert(t[0] == requests[0]);
        assert(t.drop_first() =~= requests.drop_first().take(i - 1));
        lemma_submit_keeps_ceiling(ledger, requests[0]);
        lemma_ceiling_prefix(submit_to(ledger, requests[0]), requests.drop_first(), i - 1);
    } else {
        assert(requests.take(0).len() == 0);
    }
}

/// Requests of distinct users do not affect each other: deciding one leaves
/// every other user's total as it was, the other request is decided the same
/// way before it or after it, and the two orders give every user the same
/// total.
pub proof fn lemma_users_independent(
    ledger: Seq<TransactionRecord>,
    a: TransactionRecord,
    b: TransactionRecord,
)
    requires
        a.user_id != b.user_id,
    ensures
        forall|u: i32|
            u != a.user_id ==> #[trigger] total_of(submit_to(ledger, a), u) == total_of(ledger, u),
        total_of(submit_to(ledger, a), b.user_id) == total_of(ledger, b.user_id),
        forall|u: i32|
            #[trigger] total_of(submit_to(submit_to(ledger, a), b), u) == total_of(
                submit_to(submit_to(ledger, b), a),
                u,
            ),
{
    assert forall|l: Seq<TransactionRecord>, r: TransactionRecord, u: i32|
        u != r.user_id implies #[trigger] total_of(submit_to(l, r), u) == total_of(l, u) by {
        lemma_total_of_push(l, r, u);
    }
    assert forall|l: Seq<TransactionRecord>, r: TransactionRecord|
        #[trigger] total_of(submit_to(l, r), r.user_id) == total_of(l, r.user_id) + if total_allowed(
            total_of(l, r.user_id) + r.amount,
        ) {
            r.amount as int
        } else {
            0
        } by {
        lemma_total_of_push(l, r, r.user_id);
    }
    let ab = submit_to(submit_to(ledger, a), b);
    let ba = submit_to(submit_to(ledger, b), a);
    assert forall|u: i32| #[trigger] total_of(ab, u) == total_of(ba, u) by {
        if u == a.user_id {
            assert(total_of(ab, u) == total_of(submit_to(ledger, a), u));
            assert(total_of(submit_to(ledger, b), u) == total_of(ledger, u));
        } else if u == b.user_id {
            assert(total_of(ba, u) == total_of(submit_to(ledger, b), u));
            assert(total_of(submit_to(ledger, a), u) == total_of(ledger, u));
        } else {
            assert(total_of(ab, u) == total_of(ledger, u));
            assert(total_of(ba, u) == total_of(ledger, u));
        }
    }
}

} // verus!
