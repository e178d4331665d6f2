use cw_orch_daemon::confirm::{
    ConfirmAction, ConfirmEvent, ConfirmPhase, Confirmer, DEFAULT_CONFIRMATION_POLLS,
};
use cw_orch_daemon::error::DaemonError;
use cw_orch_daemon::tx_resp::CosmTxResponse;

fn response(txhash: &str, height: u64, code: u32) -> CosmTxResponse {
    CosmTxResponse {
        height,
        txhash: txhash.to_string(),
        code,
        raw_log: String::new(),
        gas_wanted: 210_000,
        gas_used: 150_000,
        events: Vec::new(),
    }
}

fn get_tx(txhash: &str) -> ConfirmAction {
    ConfirmAction::GetTx { txhash: txhash.to_string() }
}

#[test]
fn transaction_found_after_two_polls() {
    let mut c = Confirmer::new("H".to_string(), DEFAULT_CONFIRMATION_POLLS);
    assert_eq!(c.step(ConfirmEvent::Begin), get_tx("H"));
    assert_eq!(c.step(ConfirmEvent::NotFound), ConfirmAction::Sleep);
    assert_eq!(c.step(ConfirmEvent::Slept), get_tx("H"));
    assert_eq!(c.polls, 2);
    let found = response("H", 42, 0);
    assert_eq!(c.step(ConfirmEvent::Found(found.clone())), ConfirmAction::Done(found.clone()));
    assert_eq!(c.phase, ConfirmPhase::Confirmed);
    assert!(c.is_finished());
    assert_eq!(found.height, 42);
    assert_eq!(found.code, 0);
    assert_eq!(found.txhash, "H");
    assert!(found.is_success());
}

#[test]
fn confirmation_is_repeatable() {
    let found = response("H", 42, 0);
    let mut early = Confirmer::new("H".to_string(), 5);
    assert_eq!(early.step(ConfirmEvent::Begin), get_tx("H"));
    let first = early.step(ConfirmEvent::Found(found.clone()));
    let mut late = Confirmer::new("H".to_string(), 5);
    assert_eq!(late.step(ConfirmEvent::Begin), get_tx("H"));
    for _ in 0..3 {
        assert_eq!(late.step(ConfirmEvent::NotFound), ConfirmAction::Sleep);
        assert_eq!(late.step(ConfirmEvent::Slept), get_tx("H"));
    }
    let second = late.step(ConfirmEvent::Found(found.clone()));
    assert_eq!(first, second);
    assert_eq!(first, ConfirmAction::Done(found));
}

#[test]
fn failure_on_chain_is_a_confirmation() {
    let mut c = Confirmer::new("H".to_string(), 3);
    assert_eq!(c.step(ConfirmEvent::Begin), get_tx("H"));
    let mut failed = response("H", 50, 5);
    failed.raw_log = "insufficient funds".to_string();
    assert!(!failed.is_success());
    assert_eq!(c.step(ConfirmEvent::Found(failed.clone())), ConfirmAction::Done(failed));
}

#[test]
fn polling_times_out() {
    let mut c = Confirmer::new("H".to_string(), 3);
    assert_eq!(c.step(ConfirmEvent::Begin), get_tx("H"));
    assert_eq!(c.step(ConfirmEvent::NotFound), ConfirmAction::Sleep);
    assert_eq!(c.step(ConfirmEvent::Slept), get_tx("H"));
    assert_eq!(c.step(ConfirmEvent::NotFound), ConfirmAction::Sleep);
    assert_eq!(c.step(ConfirmEvent::Slept), get_tx("H"));
    assert_eq!(
        c.step(ConfirmEvent::NotFound),
        ConfirmAction::Fail(DaemonError::ConfirmationTimeout {
            txhash: "H".to_string(),
            attempts: 3,
        })
    );
    assert_eq!(c.phase, ConfirmPhase::Failed);
    assert_eq!(c.step(ConfirmEvent::Slept), ConfirmAction::Fail(DaemonError::UnexpectedEvent));
}

#[test]
fn no_poll_allowed_times_out_at_once() {
    let mut c = Confirmer::new("H".to_string(), 0);
    assert_eq!(
        c.step(ConfirmEvent::Begin),
        ConfirmAction::Fail(DaemonError::ConfirmationTimeout {
            txhash: "H".to_string(),
            attempts: 0,
        })
    );
}

#[test]
fn query_fault_is_fatal() {
    let mut c = Confirmer::new("H".to_string(), 3);
    assert_eq!(c.step(ConfirmEvent::Begin), get_tx("H"));
    assert_eq!(
        c.step(ConfirmEvent::Fault("decode failure".to_string())),
        ConfirmAction::Fail(DaemonError::Node("decode failure".to_string()))
    );
    assert!(c.is_finished());
}

#[test]
fn confirmer_rejects_unexpected_events() {
    let mut c = Confirmer::new("H".to_string(), 3);
    assert_eq!(c.step(ConfirmEvent::NotFound), ConfirmAction::Fail(DaemonError::UnexpectedEvent));
    let mut c = Confirmer::new("H".to_string(), 3);
    assert_eq!(c.step(ConfirmEvent::Begin), get_tx("H"));
    assert_eq!(c.step(ConfirmEvent::Slept), ConfirmAction::Fail(DaemonError::UnexpectedEvent));
}
