//! Admission control for a transaction pool: which transactions may enter,
//! given how many the pool holds and how old they are, and the counters that
//! keep that decision right as transactions come and go.
//!
//! - [`limits`]: the configured caps, how a transaction is classified against
//!   them, and the reasons for turning one away.
//! - [`limiter`]: the counters, the check, and the bookkeeping.
//! - [`history`]: what holds of a limiter over any run of admissions and
//!   removals, proved once for all runs.
//! - [`time`]: instants and spans as the limiter counts them.
//! - [`l1_sync`]: what a node does at start-up to follow the settlement layer.

mod clock;
pub mod history;
pub mod l1_sync;
pub mod limiter;
pub mod limits;
pub mod time;

pub use limiter::{LimiterState, MempoolLimiter, UnmatchedRemoval};
pub use limits::{
    InsertCheck, MempoolLimitReached, MempoolLimits, TransactionCategory, TransactionCheckedLimits,
};
pub use time::{TimeSpan, Timestamp};
