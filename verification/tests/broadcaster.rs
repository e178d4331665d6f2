use cw_orch_daemon::account::{AccountInfo, AccountStore};
use cw_orch_daemon::chain::{EnvVars, FeeToken};
use cw_orch_daemon::coin::Coin;
use cw_orch_daemon::error::DaemonError;
use cw_orch_daemon::retry::{
    account_sequence_strategy, insufficient_fee_strategy, RetryKind,
};
use cw_orch_daemon::tx_broadcaster::{
    raise_fee, Action, BroadcastOutcome, NodeEvent, Phase, TxBroadcaster, TxPlan,
    TIMEOUT_LOOKAHEAD,
};

fn token() -> FeeToken {
    FeeToken {
        denom: "utoken".to_string(),
        fixed_min_gas_price: 25_000_000,
        average_gas_price: 30_000_000,
    }
}

fn unchecked() -> EnvVars {
    EnvVars {
        gas_buffer: None,
        min_gas: None,
        disable_wallet_balance_assertion: true,
        disable_manual_interaction: true,
    }
}

fn checked(manual: bool) -> EnvVars {
    EnvVars {
        gas_buffer: None,
        min_gas: None,
        disable_wallet_balance_assertion: false,
        disable_manual_interaction: !manual,
    }
}

fn broadcaster(env: EnvVars) -> TxBroadcaster {
    TxBroadcaster::new(env, token(), AccountStore::new())
        .add_strategy(insufficient_fee_strategy())
        .add_strategy(account_sequence_strategy())
}

fn account(sequence: u64) -> AccountInfo {
    AccountInfo { account_number: 7, sequence }
}

fn rejected(code: u32, raw_log: &str) -> NodeEvent {
    NodeEvent::Broadcast(BroadcastOutcome::Rejected { code, raw_log: raw_log.to_string() })
}

fn accepted(txhash: &str) -> NodeEvent {
    NodeEvent::Broadcast(BroadcastOutcome::Accepted { txhash: txhash.to_string() })
}

/// Runs one attempt without a balance check up to the submission and returns the plan.
fn attempt(b: &mut TxBroadcaster, info: AccountInfo, height: u64, gas: u64) -> TxPlan {
    assert_eq!(b.step(NodeEvent::Account(info)), Action::QueryHeight);
    match b.step(NodeEvent::Height(height)) {
        Action::Simulate(plan) => {
            assert_eq!(plan.gas_limit, 0);
            assert_eq!(plan.fee_amount, 0);
            assert_eq!(plan.sequence, info.sequence);
            assert_eq!(plan.timeout_height, height + 10);
        }
        other => panic!("expected a simulation, got {:?}", other),
    }
    match b.step(NodeEvent::GasEstimate(gas)) {
        Action::Submit(plan) => plan,
        other => panic!("expected a submission, got {:?}", other),
    }
}

#[test]
fn bank_send_is_priced_and_accepted() {
    let mut b = broadcaster(unchecked());
    assert_eq!(b.step(NodeEvent::Begin), Action::QueryAccount);
    let plan = attempt(&mut b, account(4), 32, 150_000);
    assert_eq!(
        plan,
        TxPlan {
            account_number: 7,
            sequence: 4,
            timeout_height: 42,
            gas_limit: 210_000,
            // 210000 * (max(0.025, 0.03) + 0.00001)
            fee_amount: 6_302,
        }
    );
    assert_eq!(b.step(accepted("H")), Action::Done { txhash: "H".to_string() });
    assert_eq!(b.phase, Phase::Accepted);
    assert!(b.is_finished());
    assert_eq!(b.account.current(), Some(account(5)));
}

#[test]
fn sequence_mismatch_is_refreshed_and_resubmitted() {
    let mut b = broadcaster(unchecked());
    assert_eq!(b.step(NodeEvent::Begin), Action::QueryAccount);
    let first = attempt(&mut b, account(4), 100, 150_000);
    assert_eq!(first.sequence, 4);
    assert_eq!(
        b.step(rejected(32, "account sequence (expected 5, got 4)")),
        Action::QueryAccount
    );
    assert_eq!(b.phase, Phase::AwaitingAccount);
    assert_eq!(b.timeout_height, None);
    let second = attempt(&mut b, account(5), 101, 150_000);
    assert_eq!(second.sequence, 5);
    assert_eq!(second.timeout_height, 111);
    assert_eq!(second.gas_limit, 210_000);
    assert_eq!(second.fee_amount, 6_302);
    assert_eq!(b.step(accepted("H2")), Action::Done { txhash: "H2".to_string() });
    assert_eq!(b.account.current(), Some(account(6)));
    assert_eq!(b.strategies[1].current_retries, 1);
    assert_eq!(b.strategies[0].current_retries, 0);
}

#[test]
fn sequence_retries_succeed_up_to_the_ceiling() {
    for rejections in 0..=10u64 {
        let mut b = broadcaster(unchecked());
        assert_eq!(b.step(NodeEvent::Begin), Action::QueryAccount);
        for i in 0..rejections {
            let plan = attempt(&mut b, account(20 + i), 100 + i, 150_000);
            assert_eq!(plan.sequence, 20 + i);
            assert_eq!(b.step(rejected(32, "incorrect account sequence")), Action::QueryAccount);
        }
        let plan = attempt(&mut b, account(20 + rejections), 100 + rejections, 150_000);
        assert_eq!(plan.sequence, 20 + rejections);
        assert_eq!(b.step(accepted("OK")), Action::Done { txhash: "OK".to_string() });
        assert_eq!(b.account.current(), Some(account(20 + rejections + 1)));
        assert_eq!(b.strategies[1].current_retries, rejections);
    }
}

#[test]
fn sequence_retries_fail_beyond_the_ceiling() {
    let mut b = broadcaster(unchecked());
    assert_eq!(b.step(NodeEvent::Begin), Action::QueryAccount);
    for i in 0..10u64 {
        attempt(&mut b, account(i), 100, 150_000);
        assert_eq!(b.step(rejected(32, "account sequence mismatch")), Action::QueryAccount);
    }
    attempt(&mut b, account(10), 100, 150_000);
    assert_eq!(
        b.step(rejected(32, "account sequence mismatch")),
        Action::Fail(DaemonError::RetriesExhausted {
            kind: RetryKind::AccountSequence,
            retries: 10,
            code: 32,
            reason: "account sequence mismatch".to_string(),
        })
    );
    assert_eq!(b.phase, Phase::Failed);
    assert!(b.is_finished());
    assert_eq!(b.step(NodeEvent::Begin), Action::Fail(DaemonError::UnexpectedEvent));
}

#[test]
fn configured_ceiling_is_respected() {
    let mut b = TxBroadcaster::new(unchecked(), token(), AccountStore::new())
        .add_strategy(account_sequence_strategy().with_max_retries(2));
    assert_eq!(b.step(NodeEvent::Begin), Action::QueryAccount);
    for _ in 0..2 {
        attempt(&mut b, account(1), 5, 1_000);
        assert_eq!(b.step(rejected(32, "account sequence")), Action::QueryAccount);
    }
    attempt(&mut b, account(1), 5, 1_000);
    assert_eq!(
        b.step(rejected(32, "account sequence")),
        Action::Fail(DaemonError::RetriesExhausted {
            kind: RetryKind::AccountSequence,
            retries: 2,
            code: 32,
            reason: "account sequence".to_string(),
        })
    );
}

#[test]
fn insufficient_fee_is_retried_once_with_a_raised_fee() {
    let mut b = broadcaster(unchecked());
    assert_eq!(b.step(NodeEvent::Begin), Action::QueryAccount);
    let first = attempt(&mut b, account(4), 100, 150_000);
    assert_eq!(first.fee_amount, 6_302);
    assert_eq!(b.step(rejected(13, "insufficient fees; got: 6302utoken")), Action::QueryAccount);
    assert_eq!(b.fee_raises, 1);
    let second = attempt(&mut b, account(4), 101, 150_000);
    // 6302 + (6302 / 4 + 1)
    assert_eq!(second.fee_amount, 7_878);
    assert_eq!(second.gas_limit, 210_000);
    assert_eq!(second.timeout_height, 111);
    assert_eq!(
        b.step(rejected(13, "insufficient fees; got: 7878utoken")),
        Action::Fail(DaemonError::RetriesExhausted {
            kind: RetryKind::InsufficientFee,
            retries: 1,
            code: 13,
            reason: "insufficient fees; got: 7878utoken".to_string(),
        })
    );
    assert!(b.is_finished());
}

#[test]
fn fee_raise_formula() {
    assert_eq!(raise_fee(6_302, 0), 6_302);
    assert_eq!(raise_fee(6_302, 1), 7_878);
    assert_eq!(raise_fee(6_302, 2), 9_454);
    assert_eq!(raise_fee(0, 1), 1);
    assert_eq!(raise_fee(3, 1), 4);
    assert_eq!(raise_fee(u128::MAX, 1), u128::MAX);
    assert_eq!(raise_fee(u128::MAX / 2, u64::MAX), u128::MAX);
}

#[test]
fn unrecognised_rejection_is_final() {
    let mut b = broadcaster(unchecked());
    assert_eq!(b.step(NodeEvent::Begin), Action::QueryAccount);
    attempt(&mut b, account(4), 100, 150_000);
    assert_eq!(
        b.step(rejected(11, "out of gas")),
        Action::Fail(DaemonError::TxFailed { code: 11, reason: "out of gas".to_string() })
    );
    assert_eq!(b.phase, Phase::Failed);
}

#[test]
fn rejection_without_strategies_is_final() {
    let mut b = TxBroadcaster::new(unchecked(), token(), AccountStore::new());
    assert_eq!(b.step(NodeEvent::Begin), Action::QueryAccount);
    attempt(&mut b, account(4), 100, 150_000);
    assert_eq!(
        b.step(rejected(32, "account sequence")),
        Action::Fail(DaemonError::TxFailed { code: 32, reason: "account sequence".to_string() })
    );
}

#[test]
fn strategies_are_consulted_in_order() {
    let log = "insufficient fee after account sequence";
    let mut b = broadcaster(unchecked());
    assert_eq!(b.step(NodeEvent::Begin), Action::QueryAccount);
    attempt(&mut b, account(4), 100, 150_000);
    assert_eq!(b.step(rejected(1, log)), Action::QueryAccount);
    assert_eq!(b.strategies[0].current_retries, 1);
    assert_eq!(b.strategies[1].current_retries, 0);
    attempt(&mut b, account(4), 100, 150_000);
    // the fee strategy still recognises the rejection first, and is used up
    assert_eq!(
        b.step(rejected(1, log)),
        Action::Fail(DaemonError::RetriesExhausted {
            kind: RetryKind::InsufficientFee,
            retries: 1,
            code: 1,
            reason: log.to_string(),
        })
    );
}

#[test]
fn retry_discards_the_timeout_height() {
    let mut b = broadcaster(unchecked());
    assert_eq!(b.step(NodeEvent::Begin), Action::QueryAccount);
    let first = attempt(&mut b, account(4), 100, 150_000);
    assert_eq!(first.timeout_height, 100 + TIMEOUT_LOOKAHEAD);
    assert_eq!(b.timeout_height, Some(110));
    assert_eq!(b.step(rejected(32, "account sequence")), Action::QueryAccount);
    assert_eq!(b.timeout_height, None);
    // the chain has moved past the first timeout height by now
    let second = attempt(&mut b, account(5), 111, 150_000);
    assert_eq!(second.timeout_height, 121);
    assert!(second.timeout_height > 111);
}

#[test]
fn cached_account_skips_the_first_query() {
    let mut store = AccountStore::new();
    store.refresh(account(9));
    let mut b = TxBroadcaster::new(unchecked(), token(), store);
    assert_eq!(b.step(NodeEvent::Begin), Action::QueryHeight);
    match b.step(NodeEvent::Height(1)) {
        Action::Simulate(plan) => assert_eq!(plan.sequence, 9),
        other => panic!("unexpected {:?}", other),
    }
}

#[test]
fn balance_is_asserted_before_submission() {
    let mut b = broadcaster(checked(false));
    assert_eq!(b.step(NodeEvent::Begin), Action::QueryAccount);
    assert_eq!(b.step(NodeEvent::Account(account(4))), Action::QueryHeight);
    assert!(matches!(b.step(NodeEvent::Height(32)), Action::Simulate(_)));
    assert_eq!(b.step(NodeEvent::GasEstimate(150_000)), Action::QueryBalance);
    assert_eq!(b.phase, Phase::AwaitingBalance);
    match b.step(NodeEvent::Balance(6_302)) {
        Action::Submit(plan) => assert_eq!(plan.fee_amount, 6_302),
        other => panic!("unexpected {:?}", other),
    }
}

#[test]
fn insufficient_balance_fails_without_an_operator() {
    let mut b = broadcaster(checked(false));
    assert_eq!(b.step(NodeEvent::Begin), Action::QueryAccount);
    assert_eq!(b.step(NodeEvent::Account(account(4))), Action::QueryHeight);
    assert!(matches!(b.step(NodeEvent::Height(32)), Action::Simulate(_)));
    assert_eq!(b.step(NodeEvent::GasEstimate(150_000)), Action::QueryBalance);
    assert_eq!(
        b.step(NodeEvent::Balance(6_301)),
        Action::Fail(DaemonError::NotEnoughBalance {
            expected: Coin { denom: "utoken".to_string(), amount: 6_302 },
            current: Coin { denom: "utoken".to_string(), amount: 6_301 },
        })
    );
    assert!(b.is_finished());
}

#[test]
fn insufficient_balance_asks_the_operator() {
    let mut b = broadcaster(checked(true));
    assert_eq!(b.step(NodeEvent::Begin), Action::QueryAccount);
    assert_eq!(b.step(NodeEvent::Account(account(4))), Action::QueryHeight);
    assert!(matches!(b.step(NodeEvent::Height(32)), Action::Simulate(_)));
    assert_eq!(b.step(NodeEvent::GasEstimate(150_000)), Action::QueryBalance);
    let ask = Action::AskOperator {
        expected: Coin { denom: "utoken".to_string(), amount: 6_302 },
        current: Coin { denom: "utoken".to_string(), amount: 10 },
    };
    assert_eq!(b.step(NodeEvent::Balance(10)), ask);
    assert_eq!(b.step(NodeEvent::OperatorAnswer(true)), Action::QueryBalance);
    assert_eq!(b.step(NodeEvent::Balance(10)), ask);
    assert_eq!(b.step(NodeEvent::OperatorAnswer(true)), Action::QueryBalance);
    assert!(matches!(b.step(NodeEvent::Balance(1_000_000)), Action::Submit(_)));
    assert_eq!(b.step(accepted("H")), Action::Done { txhash: "H".to_string() });
}

#[test]
fn operator_refusal_fails() {
    let mut b = broadcaster(checked(true));
    assert_eq!(b.step(NodeEvent::Begin), Action::QueryAccount);
    assert_eq!(b.step(NodeEvent::Account(account(4))), Action::QueryHeight);
    assert!(matches!(b.step(NodeEvent::Height(32)), Action::Simulate(_)));
    assert_eq!(b.step(NodeEvent::GasEstimate(150_000)), Action::QueryBalance);
    assert!(matches!(b.step(NodeEvent::Balance(10)), Action::AskOperator { .. }));
    assert_eq!(
        b.step(NodeEvent::OperatorAnswer(false)),
        Action::Fail(DaemonError::NotEnoughBalance {
            expected: Coin { denom: "utoken".to_string(), amount: 6_302 },
            current: Coin { denom: "utoken".to_string(), amount: 10 },
        })
    );
}

#[test]
fn node_fault_is_fatal() {
    let mut b = broadcaster(unchecked());
    assert_eq!(b.step(NodeEvent::Begin), Action::QueryAccount);
    assert_eq!(
        b.step(NodeEvent::Fault("connection refused".to_string())),
        Action::Fail(DaemonError::Node("connection refused".to_string()))
    );
    assert_eq!(b.phase, Phase::Failed);
    assert_eq!(
        b.step(NodeEvent::Account(account(1))),
        Action::Fail(DaemonError::UnexpectedEvent)
    );
}

#[test]
fn unexpected_event_fails() {
    let mut b = broadcaster(unchecked());
    assert_eq!(b.step(NodeEvent::Height(3)), Action::Fail(DaemonError::UnexpectedEvent));
    assert_eq!(b.phase, Phase::Failed);
    let mut b = broadcaster(unchecked());
    assert_eq!(b.step(NodeEvent::Begin), Action::QueryAccount);
    assert_eq!(b.step(NodeEvent::GasEstimate(3)), Action::Fail(DaemonError::UnexpectedEvent));
}

#[test]
fn height_without_room_for_the_timeout_fails() {
    let mut b = broadcaster(unchecked());
    assert_eq!(b.step(NodeEvent::Begin), Action::QueryAccount);
    assert_eq!(b.step(NodeEvent::Account(account(4))), Action::QueryHeight);
    assert_eq!(
        b.step(NodeEvent::Height(u64::MAX - 9)),
        Action::Fail(DaemonError::HeightOutOfRange)
    );
    let mut b = broadcaster(unchecked());
    assert_eq!(b.step(NodeEvent::Begin), Action::QueryAccount);
    assert_eq!(b.step(NodeEvent::Account(account(4))), Action::QueryHeight);
    match b.step(NodeEvent::Height(u64::MAX - 10)) {
        Action::Simulate(plan) => assert_eq!(plan.timeout_height, u64::MAX),
        other => panic!("unexpected {:?}", other),
    }
}

#[test]
fn exhausted_sequence_fails() {
    let mut b = broadcaster(unchecked());
    assert_eq!(b.step(NodeEvent::Begin), Action::QueryAccount);
    assert_eq!(b.step(NodeEvent::Account(account(u64::MAX))), Action::QueryHeight);
    assert!(matches!(b.step(NodeEvent::Height(1)), Action::Simulate(_)));
    assert_eq!(
        b.step(NodeEvent::GasEstimate(1_000)),
        Action::Fail(DaemonError::SequenceExhausted)
    );
}

#[test]
fn broadcast_response_is_classified() {
    assert_eq!(
        BroadcastOutcome::from_response(0, "ABC".to_string(), "".to_string()),
        BroadcastOutcome::Accepted { txhash: "ABC".to_string() }
    );
    assert_eq!(
        BroadcastOutcome::from_response(32, "ABC".to_string(), "bad".to_string()),
        BroadcastOutcome::Rejected { code: 32, raw_log: "bad".to_string() }
    );
}

#[test]
fn overrides_reach_the_plan() {
    let env = EnvVars {
        gas_buffer: Some(2_000),
        min_gas: Some(500_000),
        disable_wallet_balance_assertion: true,
        disable_manual_interaction: true,
    };
    let mut b = TxBroadcaster::new(env, token(), AccountStore::new());
    assert_eq!(b.step(NodeEvent::Begin), Action::QueryAccount);
    let plan = attempt(&mut b, account(0), 1, 100_000);
    assert_eq!(plan.gas_limit, 500_000);
    let mut b = TxBroadcaster::new(env, token(), AccountStore::new());
    assert_eq!(b.step(NodeEvent::Begin), Action::QueryAccount);
    let plan = attempt(&mut b, account(0), 1, 300_000);
    assert_eq!(plan.gas_limit, 600_000);
    // 600000 * 0.03001
    assert_eq!(plan.fee_amount, 18_006);
}

#[test]
fn expired_body_is_rebuilt_with_a_fresh_timeout() {
    // a node that takes no transaction past its timeout height
    let mut chain_height = 100u64;
    let mut b = broadcaster(unchecked());
    assert_eq!(b.step(NodeEvent::Begin), Action::QueryAccount);
    let first = attempt(&mut b, account(4), chain_height, 150_000);
    assert!(!first.is_expired(chain_height));
    assert!(!first.is_expired(110));
    assert!(first.is_expired(111));
    // the chain moves on before the transaction arrives
    chain_height = 120;
    assert!(first.is_expired(chain_height));
    assert_eq!(
        b.step(rejected(30, "tx timeout height: account sequence unchanged")),
        Action::QueryAccount
    );
    let second = attempt(&mut b, account(4), chain_height, 150_000);
    assert_ne!(second, first);
    assert_eq!(second.timeout_height, 130);
    assert!(!second.is_expired(chain_height));
    assert_eq!(b.step(accepted("H")), Action::Done { txhash: "H".to_string() });
}

#[test]
fn expiry_without_a_strategy_is_final() {
    let mut b = broadcaster(unchecked());
    assert_eq!(b.step(NodeEvent::Begin), Action::QueryAccount);
    attempt(&mut b, account(4), 100, 150_000);
    assert_eq!(
        b.step(rejected(30, "tx timeout height")),
        Action::Fail(DaemonError::TxFailed { code: 30, reason: "tx timeout height".to_string() })
    );
    // nothing is submitted again
    assert_eq!(b.step(NodeEvent::Height(200)), Action::Fail(DaemonError::UnexpectedEvent));
}

#[test]
fn submissions_are_bounded_by_the_retries() {
    // the node rejects whatever it is sent, with either reason in turn
    let mut b = broadcaster(unchecked());
    let mut action = b.step(NodeEvent::Begin);
    let mut submissions = 0u64;
    let mut steps = 0u64;
    while !b.is_finished() {
        steps += 1;
        assert!(steps < 1_000);
        let event = match action {
            Action::QueryAccount => NodeEvent::Account(account(submissions)),
            Action::QueryHeight => NodeEvent::Height(100 + steps),
            Action::Simulate(_) => NodeEvent::GasEstimate(150_000),
            Action::QueryBalance => NodeEvent::Balance(u128::MAX),
            Action::AskOperator { .. } => NodeEvent::OperatorAnswer(true),
            Action::Submit(_) => {
                submissions += 1;
                if submissions % 2 == 0 {
                    rejected(13, "insufficient fee")
                } else {
                    rejected(32, "account sequence")
                }
            }
            Action::Done { .. } | Action::Fail(_) => NodeEvent::Begin,
        };
        action = b.step(event);
    }
    // one submission, one retry for the fee, and the second fee rejection ends it
    assert_eq!(submissions, 4);
    assert!(submissions <= 1 + 1 + 10);
    assert!(matches!(
        action,
        Action::Fail(DaemonError::RetriesExhausted { kind: RetryKind::InsufficientFee, .. })
    ));

    let mut b = broadcaster(unchecked());
    let mut action = b.step(NodeEvent::Begin);
    let mut submissions = 0u64;
    while !b.is_finished() {
        let event = match action {
            Action::QueryAccount => NodeEvent::Account(account(submissions)),
            Action::QueryHeight => NodeEvent::Height(100),
            Action::Simulate(_) => NodeEvent::GasEstimate(150_000),
            Action::Submit(_) => {
                submissions += 1;
                if submissions == 3 {
                    rejected(13, "insufficient fee")
                } else {
                    rejected(32, "account sequence")
                }
            }
            _ => NodeEvent::Begin,
        };
        action = b.step(event);
    }
    assert_eq!(submissions, 12);
}
