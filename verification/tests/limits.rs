use mempool_admission::{MempoolLimits, TimeSpan, Timestamp, TransactionCategory, TransactionCheckedLimits};

#[test]
fn limits_new_keeps_the_three_values() {
    let limits = MempoolLimits::new(7, 3, TimeSpan::from_secs(60));
    assert_eq!(limits.max_transactions, 7);
    assert_eq!(limits.max_declare_transactions, 3);
    assert_eq!(limits.max_age, TimeSpan { nanos: 60_000_000_000 });
}

#[test]
fn limits_new_accepts_zero_caps() {
    let limits = MempoolLimits::new(0, 0, TimeSpan { nanos: 0 });
    assert_eq!(limits.max_transactions, 0);
    assert_eq!(limits.max_declare_transactions, 0);
    assert_eq!(limits.max_age.nanos, 0);
}

#[test]
fn limits_for_testing_are_the_largest_values() {
    let limits = MempoolLimits::for_testing();
    assert_eq!(limits.max_transactions, usize::MAX);
    assert_eq!(limits.max_declare_transactions, usize::MAX);
    assert_eq!(limits.max_age, TimeSpan { nanos: u128::MAX });
    assert_eq!(limits.max_age, TimeSpan::longest());
}

#[test]
fn declare_is_checked_against_everything() {
    let arrived = Timestamp { nanos: 42 };
    let limits = TransactionCheckedLimits::limits_for(TransactionCategory::Declare, arrived);
    assert_eq!(
        limits,
        TransactionCheckedLimits {
            check_tx_limit: true,
            check_declare_limit: true,
            check_age: true,
            tx_arrived_at: arrived,
        }
    );
}

#[test]
fn deploy_account_is_not_checked_against_the_declare_cap() {
    let arrived = Timestamp { nanos: 43 };
    let limits = TransactionCheckedLimits::limits_for(TransactionCategory::DeployAccount, arrived);
    assert_eq!(
        limits,
        TransactionCheckedLimits {
            check_tx_limit: true,
            check_declare_limit: false,
            check_age: true,
            tx_arrived_at: arrived,
        }
    );
}

#[test]
fn invoke_function_is_not_checked_against_the_declare_cap() {
    let arrived = Timestamp { nanos: 44 };
    let limits = TransactionCheckedLimits::limits_for(TransactionCategory::InvokeFunction, arrived);
    assert_eq!(
        limits,
        TransactionCheckedLimits {
            check_tx_limit: true,
            check_declare_limit: false,
            check_age: true,
            tx_arrived_at: arrived,
        }
    );
}

#[test]
fn l1_handler_is_checked_against_nothing() {
    let arrived = Timestamp { nanos: 45 };
    let limits = TransactionCheckedLimits::limits_for(TransactionCategory::L1Handler, arrived);
    assert_eq!(
        limits,
        TransactionCheckedLimits {
            check_tx_limit: false,
            check_declare_limit: false,
            check_age: false,
            tx_arrived_at: arrived,
        }
    );
}

#[test]
fn classification_keeps_the_arrival_time() {
    let early = TransactionCheckedLimits::limits_for(TransactionCategory::Declare, Timestamp { nanos: 0 });
    let late = TransactionCheckedLimits::limits_for(TransactionCategory::Declare, Timestamp { nanos: u128::MAX });
    assert_eq!(early.tx_arrived_at.nanos, 0);
    assert_eq!(late.tx_arrived_at.nanos, u128::MAX);
    assert_ne!(early, late);
}
