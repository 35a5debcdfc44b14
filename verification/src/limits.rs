//! The configured caps, the classification of a transaction against them, and
//! the reasons for which the pool turns a transaction away.

use vstd::prelude::*;
use crate::time::{TimeSpan, Timestamp};

verus! {

/// The capacity of a transaction pool. Set once when the pool is built and
/// never changed afterwards. A cap of zero is a real cap: nothing that is
/// checked against it gets in.
#[derive(Clone, Copy, Debug, PartialEq, Eq, Structural)]
pub struct MempoolLimits {
    /// How many transactions the pool holds before it turns away those that
    /// are checked against this cap.
    pub max_transactions: usize,
    /// How many declare transactions the pool holds before it turns further
    /// ones away.
    pub max_declare_transactions: usize,
    /// How long ago a transaction may have arrived and still be let in.
    pub max_age: TimeSpan,
}

impl MempoolLimits {
    /// Limits with exactly the three given values. Nothing is validated.
    pub fn new(max_transactions: usize, max_declare_transactions: usize, max_age: TimeSpan) -> (limits: Self)
        ensures
            limits.max_transactions == max_transactions,
            limits.max_declare_transactions == max_declare_transactions,
            limits.max_age == max_age,
    {
        MempoolLimits { max_transactions, max_declare_transactions, max_age }
    }

    /// Limits that are out of reach: every field holds the largest value of
    /// its type.
    pub open spec fn spec_for_testing() -> MempoolLimits {
        MempoolLimits {
            max_transactions: usize::MAX,
            max_declare_transactions: usize::MAX,
            max_age: TimeSpan::spec_longest(),
        }
    }

    /// Limits for test harnesses, which no pool and no transaction's age
    /// reaches.
    pub fn for_testing() -> (limits: Self)
        ensures
            limits == Self::spec_for_testing(),
    {
        MempoolLimits {
            max_transactions: usize::MAX,
            max_declare_transactions: usize::MAX,
            max_age: TimeSpan::longest(),
        }
    }
}

/// Why the pool turned a transaction away.
#[allow(inconsistent_fields)]
#[derive(Clone, Copy, Debug, PartialEq, Eq, Structural)]
pub enum MempoolLimitReached {
    /// The pool already holds `max` transactions.
    MaxTransactions { max: usize },
    /// The pool already holds `max` declare transactions.
    MaxDeclareTransactions { max: usize },
    /// The transaction arrived longer ago than `max`.
    Age { max: TimeSpan },
}

/// What a check of a transaction against the limits comes to: `Ok` lets the
/// transaction in, `Err` says which limit keeps it out.
pub type InsertCheck = Result<(), MempoolLimitReached>;

/// The four kinds of transaction that a pool is offered.
#[derive(Clone, Copy, Debug, PartialEq, Eq, Structural)]
pub enum TransactionCategory {
    /// Registers a new contract class. The costliest kind to process, so it
    /// has a cap of its own.
    Declare,
    DeployAccount,
    InvokeFunction,
    /// Relays a message that the settlement layer has already confirmed. The
    /// pool must not lose one of these, so no cap and no age limit is held
    /// against it.
    L1Handler,
}

/// Which limits one transaction is checked against, and when it arrived.
///
/// It is worked out once, when the transaction is offered, and kept with the
/// transaction: the same value is handed to the limiter when the transaction
/// enters the pool and again when it leaves, so that both calls move the same
/// counters.
#[derive(Clone, Copy, Debug, PartialEq, Eq, Structural)]
pub struct TransactionCheckedLimits {
    /// The transaction is turned away when the pool is full.
    pub check_tx_limit: bool,
    /// The transaction is a declare transaction: it is turned away when the
    /// pool holds too many of those, and it is counted among them.
    pub check_declare_limit: bool,
    /// The transaction is turned away when it is too old.
    pub check_age: bool,
    /// When the transaction arrived.
    pub tx_arrived_at: Timestamp,
}

impl TransactionCheckedLimits {
    /// The limits that apply to a transaction of the given category.
    ///
    /// | category         | pool cap | declare cap | age |
    /// |------------------|----------|-------------|-----|
    /// | `Declare`        | yes      | yes         | yes |
    /// | `DeployAccount`  | yes      | no          | yes |
    /// | `InvokeFunction` | yes      | no          | yes |
    /// | `L1Handler`      | no       | no          | no  |
    pub open spec fn spec_limits_for(category: TransactionCategory, arrived_at: Timestamp) -> TransactionCheckedLimits {
        TransactionCheckedLimits {
            check_tx_limit: !(category is L1Handler),
            check_declare_limit: category is Declare,
            check_age: !(category is L1Handler),
            tx_arrived_at: arrived_at,
        }
    }

    /// Classifies a transaction of the given category that arrived at
    /// `arrived_at`.
    pub fn limits_for(category: TransactionCategory, arrived_at: Timestamp) -> (limits: Self)
        ensures
            limits == Self::spec_limits_for(category, arrived_at),
    {
        match category {
            TransactionCategory::Declare => TransactionCheckedLimits {
                check_tx_limit: true,
                check_declare_limit: true,
                check_age: true,
                tx_arrived_at: arrived_at,
            },
            TransactionCategory::DeployAccount => TransactionCheckedLimits {
                check_tx_limit: true,
                check_declare_limit: false,
                check_age: true,
                tx_arrived_at: arrived_at,
            },
            TransactionCategory::InvokeFunction => TransactionCheckedLimits {
                check_tx_limit: true,
                check_declare_limit: false,
                check_age: true,
                tx_arrived_at: arrived_at,
            },
            TransactionCategory::L1Handler => TransactionCheckedLimits {
                check_tx_limit: false,
                check_declare_limit: false,
                check_age: false,
                tx_arrived_at: arrived_at,
            },
        }
    }
}

} // verus!
