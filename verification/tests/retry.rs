use cw_orch_daemon::retry::{
    account_sequence_strategy, find_applicable, has_account_sequence_error, has_insufficient_fee,
    insufficient_fee_strategy, RetryDecision, RetryKind, DEFAULT_FEE_RETRIES,
    DEFAULT_SEQUENCE_RETRIES,
};

#[test]
fn recognises_sequence_errors() {
    assert!(has_account_sequence_error("account sequence (expected 5, got 4)"));
    assert!(has_account_sequence_error(
        "account sequence mismatch, expected 5, got 4: incorrect account sequence"
    ));
    assert!(!has_account_sequence_error("out of gas"));
    assert!(!has_account_sequence_error(""));
}

#[test]
fn recognises_insufficient_fees() {
    assert!(has_insufficient_fee(
        "insufficient fees; got: 14867ujuno required: 444255ujuno: insufficient fee"
    ));
    assert!(has_insufficient_fee("insufficient fee"));
    assert!(!has_insufficient_fee("account sequence (expected 5, got 4)"));
}

#[test]
fn default_strategies() {
    let sequence = account_sequence_strategy();
    assert_eq!(sequence.kind, RetryKind::AccountSequence);
    assert_eq!(sequence.max_retries, DEFAULT_SEQUENCE_RETRIES);
    assert_eq!(sequence.current_retries, 0);
    let fee = insufficient_fee_strategy();
    assert_eq!(fee.kind, RetryKind::InsufficientFee);
    assert_eq!(fee.max_retries, DEFAULT_FEE_RETRIES);
    assert_eq!(fee.max_retries, 1);
    assert_eq!(fee.current_retries, 0);
}

#[test]
fn strategy_decides() {
    let fee = insufficient_fee_strategy();
    assert_eq!(fee.decide("insufficient fee"), RetryDecision::Retry);
    assert_eq!(fee.decide("something else"), RetryDecision::NotApplicable);
    let spent = insufficient_fee_strategy().with_max_retries(0);
    assert_eq!(spent.decide("insufficient fee"), RetryDecision::Exhausted);
    assert_eq!(spent.decide("something else"), RetryDecision::NotApplicable);
    let mut used = account_sequence_strategy().with_max_retries(3);
    used.current_retries = 3;
    assert_eq!(used.decide("account sequence"), RetryDecision::Exhausted);
    used.current_retries = 2;
    assert_eq!(used.decide("account sequence"), RetryDecision::Retry);
}

#[test]
fn first_recognising_strategy_is_found() {
    let strategies = vec![insufficient_fee_strategy(), account_sequence_strategy()];
    assert_eq!(find_applicable(&strategies, "insufficient fee"), 0);
    assert_eq!(find_applicable(&strategies, "account sequence"), 1);
    assert_eq!(find_applicable(&strategies, "insufficient fee and account sequence"), 0);
    assert_eq!(find_applicable(&strategies, "out of gas"), 2);
    assert_eq!(find_applicable(&Vec::new(), "insufficient fee"), 0);
}
