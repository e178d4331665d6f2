use cosmrs::proto::cosmos::bank::v1beta1::MsgSend;
use cosmrs::proto::cosmos::tx::v1beta1::{AuthInfo, TxBody, TxRaw};
use cosmrs::proto::traits::Message;
use cw_orch_daemon::account::{AccountInfo, AccountStore};
use cw_orch_daemon::chain::{ChainInfo, EnvVars, FeeToken};
use cw_orch_daemon::coin::Coin;
use cw_orch_daemon::confirm::{ConfirmAction, ConfirmEvent, Confirmer};
use cw_orch_daemon::keys::PrivateKey;
use cw_orch_daemon::sender::{Sender, SenderOptions, Submission};
use cw_orch_daemon::tx_broadcaster::{Action, BroadcastOutcome, NodeEvent, TxPlan};
use cw_orch_daemon::tx_resp::CosmTxResponse;

fn sender() -> Sender {
    let chain = ChainInfo::new(
        "test-1".to_string(),
        "cosmos".to_string(),
        118,
        vec![FeeToken {
            denom: "utoken".to_string(),
            fixed_min_gas_price: 25_000_000,
            average_gas_price: 30_000_000,
        }],
        Vec::new(),
    )
    .unwrap();
    let key = PrivateKey::from_raw_key(vec![1u8; 32], 118).unwrap();
    let env = EnvVars {
        gas_buffer: None,
        min_gas: None,
        disable_wallet_balance_assertion: true,
        disable_manual_interaction: true,
    };
    Sender::from_private_key(chain, key, SenderOptions::new(), env).unwrap()
}

fn recipient() -> String {
    let key = PrivateKey::from_raw_key(vec![2u8; 32], 118).unwrap();
    cosmrs::crypto::secp256k1::SigningKey::from_slice(key.raw_key())
        .unwrap()
        .public_key()
        .account_id("cosmos")
        .unwrap()
        .to_string()
}

fn decode(bytes: &[u8]) -> (TxBody, AuthInfo) {
    let raw = TxRaw::decode(bytes).unwrap();
    assert_eq!(raw.signatures.len(), 1);
    (
        TxBody::decode(raw.body_bytes.as_slice()).unwrap(),
        AuthInfo::decode(raw.auth_info_bytes.as_slice()).unwrap(),
    )
}

fn start(sender: &Sender) -> Submission {
    let coins = vec![Coin { denom: "utoken".to_string(), amount: 100 }];
    sender.bank_send(&recipient(), &coins, AccountStore::new()).unwrap()
}

fn simulated(sender: &Sender, submission: &mut Submission, info: AccountInfo, height: u64) {
    assert_eq!(submission.step(NodeEvent::Account(info)), Action::QueryHeight);
    match submission.step(NodeEvent::Height(height)) {
        Action::Simulate(plan) => {
            let (body, auth) = decode(&submission.tx_bytes(sender, &plan).unwrap());
            assert_eq!(body.timeout_height, height + 10);
            assert_eq!(body.memo, "sending tokens");
            assert_eq!(auth.signer_infos[0].sequence, info.sequence);
            let fee = auth.fee.unwrap();
            assert_eq!(fee.gas_limit, 0);
            assert_eq!(fee.amount[0].amount, "0");
        }
        other => panic!("unexpected {:?}", other),
    }
}

fn submitted(sender: &Sender, submission: &mut Submission, gas: u64) -> (TxPlan, TxBody, AuthInfo) {
    match submission.step(NodeEvent::GasEstimate(gas)) {
        Action::Submit(plan) => {
            let (body, auth) = decode(&submission.tx_bytes(sender, &plan).unwrap());
            (plan, body, auth)
        }
        other => panic!("unexpected {:?}", other),
    }
}

#[test]
fn bank_send_is_submitted_and_confirmed() {
    let sender = sender();
    let mut submission = start(&sender);
    assert_eq!(submission.step(NodeEvent::Begin), Action::QueryAccount);
    simulated(&sender, &mut submission, AccountInfo { account_number: 1, sequence: 0 }, 30);
    let (plan, body, auth) = submitted(&sender, &mut submission, 150_000);
    assert_eq!(plan.gas_limit, 210_000);
    assert_eq!(plan.fee_amount, 6_302);
    assert_eq!(body.messages.len(), 1);
    let send = MsgSend::decode(body.messages[0].value.as_slice()).unwrap();
    assert_eq!(send.from_address, sender.pub_addr());
    assert_eq!(send.to_address, recipient());
    assert_eq!(send.amount[0].amount, "100");
    assert_eq!(send.amount[0].denom, "utoken");
    let fee = auth.fee.unwrap();
    assert_eq!(fee.gas_limit, 210_000);
    assert_eq!(fee.amount[0].amount, "6302");
    assert_eq!(fee.amount[0].denom, "utoken");
    let outcome = BroadcastOutcome::from_response(0, "H".to_string(), String::new());
    let txhash = match submission.step(NodeEvent::Broadcast(outcome)) {
        Action::Done { txhash } => txhash,
        other => panic!("unexpected {:?}", other),
    };
    assert_eq!(txhash, "H");

    let mut confirmer = Confirmer::new(txhash, 10);
    assert_eq!(
        confirmer.step(ConfirmEvent::Begin),
        ConfirmAction::GetTx { txhash: "H".to_string() }
    );
    assert_eq!(confirmer.step(ConfirmEvent::NotFound), ConfirmAction::Sleep);
    assert_eq!(
        confirmer.step(ConfirmEvent::Slept),
        ConfirmAction::GetTx { txhash: "H".to_string() }
    );
    let included = CosmTxResponse {
        height: 42,
        txhash: "H".to_string(),
        code: 0,
        raw_log: String::new(),
        gas_wanted: 210_000,
        gas_used: 140_000,
        events: Vec::new(),
    };
    match confirmer.step(ConfirmEvent::Found(included)) {
        ConfirmAction::Done(result) => {
            assert_eq!(result.txhash, "H");
            assert_eq!(result.height, 42);
            assert_eq!(result.code, 0);
        }
        other => panic!("unexpected {:?}", other),
    }
}

#[test]
fn bank_send_is_resigned_after_a_sequence_mismatch() {
    let sender = sender();
    let mut submission = start(&sender);
    assert_eq!(submission.step(NodeEvent::Begin), Action::QueryAccount);
    simulated(&sender, &mut submission, AccountInfo { account_number: 1, sequence: 4 }, 30);
    let (first, first_body, first_auth) = submitted(&sender, &mut submission, 150_000);
    assert_eq!(first.sequence, 4);
    assert_eq!(first_auth.signer_infos[0].sequence, 4);
    let first_bytes = submission.tx_bytes(&sender, &first).unwrap();
    let rejection = BroadcastOutcome::from_response(
        32,
        String::new(),
        "account sequence (expected 5, got 4)".to_string(),
    );
    assert_eq!(submission.step(NodeEvent::Broadcast(rejection)), Action::QueryAccount);
    simulated(&sender, &mut submission, AccountInfo { account_number: 1, sequence: 5 }, 31);
    let (second, second_body, second_auth) = submitted(&sender, &mut submission, 150_000);
    assert_eq!(second.sequence, 5);
    assert_eq!(second_auth.signer_infos[0].sequence, 5);
    assert_eq!(second_body.timeout_height, 41);
    assert_eq!(first_body.timeout_height, 40);
    assert_eq!(second_body.messages, first_body.messages);
    assert_ne!(submission.tx_bytes(&sender, &second).unwrap(), first_bytes);
    let outcome = BroadcastOutcome::from_response(0, "H2".to_string(), String::new());
    assert_eq!(
        submission.step(NodeEvent::Broadcast(outcome)),
        Action::Done { txhash: "H2".to_string() }
    );
    assert_eq!(
        submission.broadcaster.account.current(),
        Some(AccountInfo { account_number: 1, sequence: 6 })
    );
}

#[test]
fn submission_keeps_messages_and_memo() {
    let sender = sender();
    let mut submission = start(&sender);
    let messages = submission.messages.clone();
    assert_eq!(submission.step(NodeEvent::Begin), Action::QueryAccount);
    assert_eq!(
        submission.step(NodeEvent::Account(AccountInfo { account_number: 1, sequence: 0 })),
        Action::QueryHeight
    );
    assert_eq!(submission.messages, messages);
    assert_eq!(submission.memo, "sending tokens");
    let body = submission.body(77);
    assert_eq!(body.messages, messages);
    assert_eq!(body.memo, "sending tokens");
    assert_eq!(body.timeout_height, 77);
}
