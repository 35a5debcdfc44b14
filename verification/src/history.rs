//! What holds of a limiter over its whole life.
//!
//! A limiter is told of every transaction that enters the pool and of every
//! one that leaves it. The lemmas here are stated over [`LimiterState`], the
//! model in which the contracts of the limiter's functions are written, so
//! they hold of every limiter that is driven through those functions.

use vstd::multiset::Multiset;
use vstd::prelude::*;
use crate::limiter::LimiterState;
use crate::limits::{
    InsertCheck, MempoolLimitReached, MempoolLimits, TransactionCategory, TransactionCheckedLimits,
};
use crate::time::Timestamp;

verus! {

/// One report made to a limiter.
pub enum PoolEvent {
    /// A transaction entered the pool and was counted with this value.
    Admitted(TransactionCheckedLimits),
    /// A transaction left the pool and was taken off the count with this value.
    Removed(TransactionCheckedLimits),
}

/// The state of a limiter that was in `start` and was then told of `events`,
/// the earliest first.
pub open spec fn replay(start: LimiterState, events: Seq<PoolEvent>) -> LimiterState
    decreases events.len(),
{
    if events.len() == 0 {
        start
    } else {
        let before = replay(start, events.drop_last());
        match events.last() {
            PoolEvent::Admitted(tx) => before.after_admission(tx),
            PoolEvent::Removed(tx) => before.after_removal(tx),
        }
    }
}

/// The transactions that are in the pool after `events`, each by the value it
/// was counted with: those that were admitted and not removed since.
pub open spec fn outstanding(events: Seq<PoolEvent>) -> Multiset<TransactionCheckedLimits>
    decreases events.len(),
{
    if events.len() == 0 {
        Multiset::empty()
    } else {
        let before = outstanding(events.drop_last());
        match events.last() {
            PoolEvent::Admitted(tx) => before.insert(tx),
            PoolEvent::Removed(tx) => before.remove(tx),
        }
    }
}

/// Every removal in `events` is reported with the value of a transaction that
/// is in the pool at that moment. A caller that reports each admission once,
/// and each removal once with the value kept from the admission, produces
/// such reports and no others.
pub open spec fn removals_matched(events: Seq<PoolEvent>) -> bool
    decreases events.len(),
{
    events.len() > 0 ==> {
        &&& removals_matched(events.drop_last())
        &&& (events.last() matches PoolEvent::Removed(tx)
            ==> outstanding(events.drop_last()).contains(tx))
    }
}

/// How many of `events` are admissions. With `declare_only`, how many are
/// admissions of a declare transaction.
pub open spec fn admissions(events: Seq<PoolEvent>, declare_only: bool) -> nat
    decreases events.len(),
{
    if events.len() == 0 {
        0
    } else {
        let earlier = admissions(events.drop_last(), declare_only);
        match events.last() {
            PoolEvent::Admitted(tx) if !declare_only || tx.check_declare_limit => earlier + 1,
            _ => earlier,
        }
    }
}

/// How many of `events` are removals. With `declare_only`, how many are
/// removals of a declare transaction.
pub open spec fn removals(events: Seq<PoolEvent>, declare_only: bool) -> nat
    decreases events.len(),
{
    if events.len() == 0 {
        0
    } else {
        let earlier = removals(events.drop_last(), declare_only);
        match events.last() {
            PoolEvent::Removed(tx) if !declare_only || tx.check_declare_limit => earlier + 1,
            _ => earlier,
        }
    }
}

/// The part of [`outstanding`] whose members have `check_declare_limit` equal
/// to `declare`.
spec fn outstanding_part(events: Seq<PoolEvent>, declare: bool) -> Multiset<TransactionCheckedLimits>
    decreases events.len(),
{
    if events.len() == 0 {
        Multiset::empty()
    } else {
        let before = outstanding_part(events.drop_last(), declare);
        match events.last() {
            PoolEvent::Admitted(tx) if tx.check_declare_limit == declare => before.insert(tx),
            PoolEvent::Removed(tx) if tx.check_declare_limit == declare => before.remove(tx),
            _ => before,
        }
    }
}

proof fn lemma_remove_member_len(pool: Multiset<TransactionCheckedLimits>, tx: TransactionCheckedLimits)
    requires
        pool.contains(tx),
    ensures
        pool.remove(tx).len() + 1 == pool.len(),
{
    broadcast use vstd::multiset::group_multiset_axioms;

    assert(pool.remove(tx).insert(tx) =~= pool);
    vstd::multiset::lemma_insert_len(pool.remove(tx), tx);
}

/// A member of the pool is a member of its own part, as often.
proof fn lemma_parts(events: Seq<PoolEvent>, tx: TransactionCheckedLimits)
    ensures
        outstanding_part(events, tx.check_declare_limit).count(tx) == outstanding(events).count(tx),
    decreases events.len(),
{
    broadcast use vstd::multiset::group_multiset_axioms;

    if events.len() > 0 {
        lemma_parts(events.drop_last(), tx);
    }
}

/// What the counters of a limiter are after reports that keep to the rule, in
/// terms of the pool and of the numbers of reports.
proof fn lemma_replay(config: MempoolLimits, events: Seq<PoolEvent>)
    requires
        removals_matched(events),
    ensures
        ({
            let state = replay(LimiterState::empty(config), events);
            &&& state.config == config
            &&& state.declare_transactions == outstanding_part(events, true).len()
            &&& state.transactions == outstanding_part(events, true).len()
                + outstanding_part(events, false).len()
            &&& state.transactions == outstanding(events).len()
            &&& state.transactions == admissions(events, false) - removals(events, false)
            &&& state.declare_transactions == admissions(events, true) - removals(events, true)
        }),
    decreases events.len(),
{
    broadcast use vstd::multiset::group_multiset_axioms;

    if events.len() > 0 {
        let earlier = events.drop_last();
        lemma_replay(config, earlier);
        match events.last() {
            PoolEvent::Admitted(tx) => {
                vstd::multiset::lemma_insert_len(outstanding(earlier), tx);
                vstd::multiset::lemma_insert_len(outstanding_part(earlier, tx.check_declare_limit), tx);
            },
            PoolEvent::Removed(tx) => {
                lemma_parts(earlier, tx);
                lemma_remove_member_len(outstanding(earlier), tx);
                lemma_remove_member_len(outstanding_part(earlier, tx.check_declare_limit), tx);
            },
        }
    }
}

proof fn lemma_matched_prefix(events: Seq<PoolEvent>, upto: int)
    requires
        removals_matched(events),
        0 <= upto <= events.len(),
    ensures
        removals_matched(events.take(upto)),
    decreases events.len(),
{
    if upto == events.len() {
        assert(events.take(upto) =~= events);
    } else {
        assert(events.drop_last().take(upto) =~= events.take(upto));
        lemma_matched_prefix(events.drop_last(), upto);
    }
}

/// The counters follow the reports. Take a limiter that starts empty and is
/// told of `events`, in which every removal is matched by an admission. At
/// every point on the way, that is after the first `upto` reports for every
/// `upto`:
///
/// - the count of transactions is the number of admissions so far less the
///   number of removals so far, and the count of declare transactions is the
///   same difference taken over the declare transactions alone;
/// - the count of transactions is the number of transactions in the pool;
/// - neither difference is negative, and the declare count is no greater than
///   the count of all;
/// - if the next report is a removal, it is accepted.
pub proof fn lemma_counters_follow_reports(config: MempoolLimits, events: Seq<PoolEvent>, upto: int)
    requires
        removals_matched(events),
        0 <= upto <= events.len(),
    ensures
        ({
            let seen = events.take(upto);
            let state = replay(LimiterState::empty(config), seen);
            &&& state.config == config
            &&& state.transactions == admissions(seen, false) - removals(seen, false)
            &&& state.declare_transactions == admissions(seen, true) - removals(seen, true)
            &&& state.transactions == outstanding(seen).len()
            &&& removals(seen, false) <= admissions(seen, false)
            &&& removals(seen, true) <= admissions(seen, true)
            &&& state.declare_transactions <= state.transactions
            &&& (upto < events.len() && events[upto] is Removed
                ==> state.check_removal(events[upto]->Removed_0) is Ok)
        }),
{
    let seen = events.take(upto);
    lemma_matched_prefix(events, upto);
    lemma_replay(config, seen);
    if upto < events.len() {
        if let PoolEvent::Removed(tx) = events[upto] {
            let next = events.take(upto + 1);
            lemma_matched_prefix(events, upto + 1);
            assert(next.drop_last() =~= seen);
            lemma_parts(seen, tx);
        }
    }
}

/// Counting a transaction in and taking it off again leaves both counters as
/// they were, whatever the transaction and whatever the counters.
pub proof fn lemma_admission_then_removal(state: LimiterState, tx: TransactionCheckedLimits)
    ensures
        state.after_admission(tx).check_removal(tx) is Ok,
        state.after_admission(tx).after_removal(tx) == state,
{
}

/// A full pool. A limiter that starts empty with a cap of `n` transactions
/// and counts `n` of them in, of whatever kind, turns away every transaction
/// that is checked against that cap, and reports that cap. A transaction that
/// is checked against nothing, as one of category `L1Handler` is, still
/// passes, at any time.
pub proof fn lemma_pool_cap_reached(
    config: MempoolLimits,
    admitted: Seq<TransactionCheckedLimits>,
    tx: TransactionCheckedLimits,
    l1_arrived_at: Timestamp,
    now: Timestamp,
)
    requires
        admitted.len() == config.max_transactions,
    ensures
        ({
            let state = LimiterState::empty(config).after_admissions(admitted);
            let l1_handler = TransactionCheckedLimits::spec_limits_for(
                TransactionCategory::L1Handler,
                l1_arrived_at,
            );
            &&& state.transactions == config.max_transactions
            &&& tx.check_tx_limit ==> state.check_insert(tx, now) == InsertCheck::Err(
                MempoolLimitReached::MaxTransactions { max: config.max_transactions },
            )
            &&& state.check_insert(l1_handler, now) == InsertCheck::Ok(())
        }),
{
    lemma_after_admissions(LimiterState::empty(config), admitted);
}

/// The declare cap is reached on its own. A limiter that starts empty with a
/// cap of `m` declare transactions and counts `m` declare transactions in,
/// while the pool as a whole has room for more than `m`, turns away a further
/// declare transaction and reports the declare cap. A transaction of category
/// `InvokeFunction` that is not too old passes at the same moment.
pub proof fn lemma_declare_cap_reached(
    config: MempoolLimits,
    admitted: Seq<TransactionCheckedLimits>,
    declare_arrived_at: Timestamp,
    invoke_arrived_at: Timestamp,
    now: Timestamp,
)
    requires
        admitted.len() == config.max_declare_transactions,
        forall|i: int| 0 <= i < admitted.len() ==> (#[trigger] admitted[i]).check_declare_limit,
        config.max_declare_transactions < config.max_transactions,
    ensures
        ({
            let state = LimiterState::empty(config).after_admissions(admitted);
            let declare = TransactionCheckedLimits::spec_limits_for(
                TransactionCategory::Declare,
                declare_arrived_at,
            );
            let invoke = TransactionCheckedLimits::spec_limits_for(
                TransactionCategory::InvokeFunction,
                invoke_arrived_at,
            );
            &&& state.declare_transactions == config.max_declare_transactions
            &&& state.check_insert(declare, now) == InsertCheck::Err(
                MempoolLimitReached::MaxDeclareTransactions { max: config.max_declare_transactions },
            )
            &&& !state.age_exceeded(invoke, now)
                ==> state.check_insert(invoke, now) == InsertCheck::Ok(())
        }),
{
    lemma_after_admissions(LimiterState::empty(config), admitted);
}

/// The counters after a run of admissions: one more transaction for each,
/// and one more declare transaction for each that is one.
pub proof fn lemma_after_admissions(start: LimiterState, admitted: Seq<TransactionCheckedLimits>)
    ensures
        ({
            let state = start.after_admissions(admitted);
            &&& state.config == start.config
            &&& state.transactions == start.transactions + admitted.len()
            &&& start.declare_transactions <= state.declare_transactions
            &&& state.declare_transactions <= start.declare_transactions + admitted.len()
            &&& (forall|i: int| 0 <= i < admitted.len() ==> (#[trigger] admitted[i]).check_declare_limit)
                ==> state.declare_transactions == start.declare_transactions + admitted.len()
            &&& (forall|i: int| 0 <= i < admitted.len() ==> !(#[trigger] admitted[i]).check_declare_limit)
                ==> state.declare_transactions == start.declare_transactions
        }),
    decreases admitted.len(),
{
    if admitted.len() > 0 {
        lemma_after_admissions(start, admitted.drop_last());
    }
}

/// Where the age limit lies. A transaction whose age is checked and that
/// arrived one nanosecond more than `max_age` before `now` is too old, and is
/// turned away for its age if no cap keeps it out first. One that arrived
/// `max_age` before `now` or later, and so one that arrived at `now`, is not
/// too old. One whose age is not checked is never too old, whenever it
/// arrived.
pub proof fn lemma_age_boundary(state: LimiterState, tx: TransactionCheckedLimits, now: Timestamp)
    ensures
        state.age_exceeded(tx, now) <==> tx.check_age
            && tx.tx_arrived_at.nanos + state.config.max_age.nanos < now.nanos,
        tx.check_age && tx.tx_arrived_at.nanos + state.config.max_age.nanos + 1 == now.nanos
            ==> state.age_exceeded(tx, now),
        tx.check_age && tx.tx_arrived_at.nanos + state.config.max_age.nanos + 1 == now.nanos
            && state.cap_reached(tx) is None
            ==> state.check_insert(tx, now) == InsertCheck::Err(
            MempoolLimitReached::Age { max: state.config.max_age },
        ),
        tx.tx_arrived_at.nanos + state.config.max_age.nanos >= now.nanos
            ==> !state.age_exceeded(tx, now),
        tx.tx_arrived_at == now ==> !state.age_exceeded(tx, now),
        !tx.check_age ==> !state.age_exceeded(tx, now),
        !state.age_exceeded(tx, now) && state.cap_reached(tx) is None
            ==> state.check_insert(tx, now) == InsertCheck::Ok(()),
{
}

/// Limits out of reach let everything in. Under the limits of
/// [`MempoolLimits::for_testing`] every transaction passes the check, whatever
/// its classification, whenever it arrived and whatever the time, as long as
/// the counter of a cap that it is checked against has not reached the largest
/// `usize`.
pub proof fn lemma_limits_for_testing_let_in(state: LimiterState, tx: TransactionCheckedLimits, now: Timestamp)
    requires
        state.config == MempoolLimits::spec_for_testing(),
        tx.check_tx_limit ==> state.transactions < usize::MAX,
        tx.check_declare_limit ==> state.declare_transactions < usize::MAX,
    ensures
        state.check_insert(tx, now) == InsertCheck::Ok(()),
{
}

/// A transaction is turned away only for a limit that it is checked against:
/// for the cap on all transactions only if `check_tx_limit` is set, for the
/// declare cap only if `check_declare_limit` is set, for its age only if
/// `check_age` is set. One that is checked against nothing, as those of
/// category `L1Handler` are, is therefore never turned away.
pub proof fn lemma_rejection_needs_its_check(state: LimiterState, tx: TransactionCheckedLimits, now: Timestamp)
    ensures
        state.check_insert(tx, now) matches Err(MempoolLimitReached::MaxTransactions { .. })
            ==> tx.check_tx_limit,
        state.check_insert(tx, now) matches Err(MempoolLimitReached::MaxDeclareTransactions { .. })
            ==> tx.check_declare_limit,
        state.check_insert(tx, now) matches Err(MempoolLimitReached::Age { .. }) ==> tx.check_age,
        !tx.check_tx_limit && !tx.check_declare_limit && !tx.check_age
            ==> state.check_insert(tx, now) == InsertCheck::Ok(()),
{
}

} // verus!
