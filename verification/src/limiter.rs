//! The limiter: two counters next to the configured caps, the check that
//! decides whether a transaction may enter the pool, and the bookkeeping for
//! transactions that enter and leave.

use vstd::prelude::*;
use crate::clock;
use crate::limits::{InsertCheck, MempoolLimitReached, MempoolLimits, TransactionCheckedLimits};
use crate::time::Timestamp;

verus! {

/// A removal was reported to the limiter that no admission stands for: the
/// counter it would lower is already at zero. This is a fault of the caller's
/// bookkeeping, not a state of the pool.
#[derive(Clone, Copy, Debug, PartialEq, Eq, Structural)]
pub enum UnmatchedRemoval {
    /// The limiter counts no transaction at all.
    Transaction,
    /// The limiter counts no declare transaction.
    DeclareTransaction,
}

/// What a limiter holds, with counters that have no upper end: the model that
/// the contracts of [`MempoolLimiter`] are written in.
pub struct LimiterState {
    pub config: MempoolLimits,
    /// Transactions that were admitted and not removed since.
    pub transactions: nat,
    /// Those among them that count against the declare cap.
    pub declare_transactions: nat,
}

impl LimiterState {
    /// A limiter that has counted nothing yet.
    pub open spec fn empty(config: MempoolLimits) -> LimiterState {
        LimiterState { config, transactions: 0, declare_transactions: 0 }
    }

    /// The instant before which a transaction must have arrived to be too old
    /// at `now`: `max_age` before `now`, or the epoch if that would lie before
    /// the epoch.
    pub open spec fn cutoff(self, now: Timestamp) -> Timestamp {
        now.spec_earlier_by(self.config.max_age)
    }

    /// Whether a transaction is too old at `now`. One whose age is not checked
    /// never is.
    pub open spec fn age_exceeded(self, tx: TransactionCheckedLimits, now: Timestamp) -> bool {
        tx.check_age && tx.tx_arrived_at.nanos < self.cutoff(now).nanos
    }

    /// The cap that keeps a transaction out, if one does. The cap on all
    /// transactions is looked at before the cap on declare transactions.
    pub open spec fn cap_reached(self, tx: TransactionCheckedLimits) -> Option<MempoolLimitReached> {
        if tx.check_tx_limit && self.transactions >= self.config.max_transactions {
            Some(MempoolLimitReached::MaxTransactions { max: self.config.max_transactions })
        } else if tx.check_declare_limit
            && self.declare_transactions >= self.config.max_declare_transactions {
            Some(MempoolLimitReached::MaxDeclareTransactions { max: self.config.max_declare_transactions })
        } else {
            None
        }
    }

    /// The outcome of checking a transaction at `now`: the first limit that
    /// it fails, caps before age, or `Ok`.
    pub open spec fn check_insert(
        self,
        tx: TransactionCheckedLimits,
        now: Timestamp,
    ) -> Result<(), MempoolLimitReached> {
        match self.cap_reached(tx) {
            Some(reached) => Err(reached),
            None => if self.age_exceeded(tx, now) {
                Err(MempoolLimitReached::Age { max: self.config.max_age })
            } else {
                Ok(())
            },
        }
    }

    /// The state after a transaction has entered the pool. Every transaction
    /// takes up room, also one that no cap is held against.
    pub open spec fn after_admission(self, tx: TransactionCheckedLimits) -> LimiterState {
        LimiterState {
            config: self.config,
            transactions: self.transactions + 1,
            declare_transactions: if tx.check_declare_limit {
                self.declare_transactions + 1
            } else {
                self.declare_transactions
            },
        }
    }

    /// The state after each of `admitted` has entered the pool, the first of
    /// them first.
    pub open spec fn after_admissions(self, admitted: Seq<TransactionCheckedLimits>) -> LimiterState
        decreases admitted.len(),
    {
        if admitted.len() == 0 {
            self
        } else {
            self.after_admissions(admitted.drop_last()).after_admission(admitted.last())
        }
    }

    /// Whether the removal of `tx` can be reported in this state: every
    /// counter that the removal lowers must stand above zero. The count of all
    /// transactions is looked at first.
    pub open spec fn check_removal(self, tx: TransactionCheckedLimits) -> Result<(), UnmatchedRemoval> {
        if self.transactions == 0 {
            Err(UnmatchedRemoval::Transaction)
        } else if tx.check_declare_limit && self.declare_transactions == 0 {
            Err(UnmatchedRemoval::DeclareTransaction)
        } else {
            Ok(())
        }
    }

    /// The state after the removal of `tx` has been reported. A removal that
    /// no admission stands for changes nothing.
    pub open spec fn after_removal(self, tx: TransactionCheckedLimits) -> LimiterState {
        if self.check_removal(tx) is Err {
            self
        } else {
            LimiterState {
                config: self.config,
                transactions: (self.transactions - 1) as nat,
                declare_transactions: if tx.check_declare_limit {
                    (self.declare_transactions - 1) as nat
                } else {
                    self.declare_transactions
                },
            }
        }
    }
}

/// Keeps count of the transactions in a pool and decides whether one more may
/// enter.
///
/// The counters follow what the limiter is told, not the pool itself. A block
/// producer may take transactions out of the pool and put the unused ones back
/// within one round, and report to the limiter only at the end of it; until
/// then the counters and the pool differ. The limiter does nothing about that.
///
/// The limiter does no locking. Whoever owns it lets one call finish before
/// the next begins.
#[derive(Debug)]
pub struct MempoolLimiter {
    config: MempoolLimits,
    current_transactions: usize,
    current_declare_transactions: usize,
}

impl View for MempoolLimiter {
    type V = LimiterState;

    closed spec fn view(&self) -> LimiterState {
        LimiterState {
            config: self.config,
            transactions: self.current_transactions as nat,
            declare_transactions: self.current_declare_transactions as nat,
        }
    }
}

impl MempoolLimiter {
    /// A limiter for an empty pool.
    pub fn new(limits: MempoolLimits) -> (limiter: Self)
        ensures
            limiter@ == LimiterState::empty(limits),
    {
        MempoolLimiter { config: limits, current_transactions: 0, current_declare_transactions: 0 }
    }

    /// The limits that the limiter was built with.
    pub fn config(&self) -> (limits: &MempoolLimits)
        ensures
            *limits == self@.config,
    {
        &self.config
    }

    /// How many transactions the limiter counts.
    pub fn current_transactions(&self) -> (count: usize)
        ensures
            count == self@.transactions,
    {
        self.current_transactions
    }

    /// How many declare transactions the limiter counts.
    pub fn current_declare_transactions(&self) -> (count: usize)
        ensures
            count == self@.declare_transactions,
    {
        self.current_declare_transactions
    }

    /// Whether the transaction may enter the pool at `now`. The limits are
    /// tried in a fixed order and the first that fails is reported: the cap on
    /// all transactions, the cap on declare transactions, the age. Nothing is
    /// counted by this call.
    pub fn check_insert_limits_at(
        &self,
        to_check: &TransactionCheckedLimits,
        now: Timestamp,
    ) -> (outcome: Result<(), MempoolLimitReached>)
        ensures
            outcome == self@.check_insert(*to_check, now),
    {
        if to_check.check_tx_limit && self.current_transactions >= self.config.max_transactions {
            return Err(MempoolLimitReached::MaxTransactions { max: self.config.max_transactions });
        }
        if to_check.check_declare_limit
            && self.current_declare_transactions >= self.config.max_declare_transactions {
            return Err(
                MempoolLimitReached::MaxDeclareTransactions { max: self.config.max_declare_transactions },
            );
        }
        if self.tx_age_exceeded_at(to_check, now) {
            return Err(MempoolLimitReached::Age { max: self.config.max_age });
        }
        Ok(())
    }

    /// Whether the transaction may enter the pool now, by the system clock.
    ///
    /// A cap that is reached decides the outcome whatever the clock shows, and
    /// so does a transaction whose age is not checked. Otherwise the outcome is
    /// that of [`Self::check_insert_limits_at`] for the instant that the clock
    /// showed.
    pub fn check_insert_limits(
        &self,
        to_check: &TransactionCheckedLimits,
    ) -> (outcome: Result<(), MempoolLimitReached>)
        ensures
            exists|now: Timestamp| outcome == #[trigger] self@.check_insert(*to_check, now),
            self@.cap_reached(*to_check) matches Some(reached) ==> outcome == InsertCheck::Err(reached),
            self@.cap_reached(*to_check) is None && !to_check.check_age ==> outcome == InsertCheck::Ok(()),
    {
        let now = clock::now();
        let outcome = self.check_insert_limits_at(to_check, now);
        outcome
    }

    /// Whether the transaction is too old at `now`: it arrived before the
    /// instant that lies `max_age` before `now`, which is the same as saying
    /// that more than `max_age` has passed since it arrived. A transaction
    /// whose age is not checked is never too old.
    pub fn tx_age_exceeded_at(&self, to_check: &TransactionCheckedLimits, now: Timestamp) -> (exceeded: bool)
        ensures
            exceeded == self@.age_exceeded(*to_check, now),
            exceeded == (to_check.check_age
                && to_check.tx_arrived_at.nanos + self@.config.max_age.nanos < now.nanos),
    {
        if to_check.check_age {
            let cutoff = now.earlier_by(self.config.max_age);
            if to_check.tx_arrived_at.is_before(cutoff) {
                return true;
            }
        }
        false
    }

    /// Whether the transaction is too old now, by the system clock. A sweep
    /// over the pool can call this for transactions that are already in.
    ///
    /// The answer is that of [`Self::tx_age_exceeded_at`] for the instant that
    /// the clock showed.
    pub fn tx_age_exceeded(&self, to_check: &TransactionCheckedLimits) -> (exceeded: bool)
        ensures
            exists|now: Timestamp| exceeded == #[trigger] self@.age_exceeded(*to_check, now),
            !to_check.check_age ==> !exceeded,
    {
        let now = clock::now();
        let exceeded = self.tx_age_exceeded_at(to_check, now);
        exceeded
    }

    /// Counts a transaction that has entered the pool. Every transaction is
    /// counted, also one that the cap is not held against; a declare
    /// transaction is counted a second time, among its kind.
    ///
    /// A counter that stands at the largest `usize` cannot be raised: the
    /// caller sees to it that the counters this call raises stand below that.
    pub fn update_tx_limits(&mut self, limits: &TransactionCheckedLimits)
        requires
            old(self)@.transactions < usize::MAX,
            limits.check_declare_limit ==> old(self)@.declare_transactions < usize::MAX,
        ensures
            final(self)@ == old(self)@.after_admission(*limits),
    {
        self.current_transactions += 1;
        if limits.check_declare_limit {
            self.current_declare_transactions += 1;
        }
    }

    /// Takes a transaction that has left the pool off the count. `to_update`
    /// is the value that was counted when the transaction entered.
    ///
    /// Where a counter that the removal would lower stands at zero, the call
    /// was not matched by an admission: nothing is changed and the error says
    /// which counter it was.
    pub fn mark_removed(
        &mut self,
        to_update: &TransactionCheckedLimits,
    ) -> (outcome: Result<(), UnmatchedRemoval>)
        ensures
            outcome == old(self)@.check_removal(*to_update),
            final(self)@ == old(self)@.after_removal(*to_update),
    {
        if self.current_transactions == 0 {
            return Err(UnmatchedRemoval::Transaction);
        }
        if to_update.check_declare_limit {
            if self.current_declare_transactions == 0 {
                return Err(UnmatchedRemoval::DeclareTransaction);
            }
            self.current_declare_transactions -= 1;
        }
        self.current_transactions -= 1;
        Ok(())
    }
}

} // verus!
