//! The broadcast-and-retry state machine.
//!
//! The machine makes every decision of a submission and performs none of its
//! I/O: it is handed what the node answered, and says what to ask next. One
//! attempt asks for the account (after a rejection, so a refresh), the chain's
//! height, a gas estimate and, unless switched off, the balance, and then
//! submits. A rejection is put to the retry strategies in their order; the
//! first that recognises it decides.

use crate::account::{AccountInfo, AccountStore};
use crate::chain::{EnvVars, FeeToken, FeeTokenView};
use crate::coin::{Coin, CoinView};
use crate::error::{DaemonError, DaemonErrorView};
use crate::gas::{buffer_gas, buffered_gas, fee_for, fee_from_gas_limit};
use crate::retry::{
    decision_of, find_applicable, first_applicable, granted,
    lemma_first_applicable_recognises, RetryDecision, RetryKind,
    RetryStrategy,
};
use vstd::prelude::*;

verus! {

/// How many blocks past the current height a transaction stays valid.
pub const TIMEOUT_LOOKAHEAD: u64 = 10;

/// Where a submission stands.
#[derive(Clone, Copy, Debug, PartialEq, Eq, Structural)]
pub enum Phase {
    /// Nothing was asked yet.
    Idle,
    /// The account's number and sequence were asked for.
    AwaitingAccount,
    /// The chain's height was asked for.
    AwaitingHeight,
    /// A simulation was asked for.
    AwaitingGas,
    /// The signer's balance was asked for.
    AwaitingBalance,
    /// The operator was asked to top the balance up.
    AwaitingOperator,
    /// The transaction was submitted.
    AwaitingBroadcast,
    /// The node took the transaction into its mempool.
    Accepted,
    /// The submission was given up.
    Failed,
}

/// The numbers that a transaction is built and signed with.
#[derive(Clone, Copy, Debug, PartialEq, Eq, Structural)]
pub struct TxPlan {
    pub account_number: u64,
    pub sequence: u64,
    pub timeout_height: u64,
    pub gas_limit: u64,
    pub fee_amount: u128,
}

/// A transaction is expired at a height beyond its timeout height: the
/// chain no longer takes it.
pub open spec fn expired_at(plan: TxPlan, height: u64) -> bool {
    height > plan.timeout_height
}

impl TxPlan {
    /// Whether the chain, at the given height, no longer takes the
    /// transaction.
    pub fn is_expired(&self, height: u64) -> (expired: bool)
        ensures
            expired == expired_at(*self, height),
    {
        height > self.timeout_height
    }
}

/// What the node said of a submitted transaction. Accepted means taken into
/// the mempool, not included in a block.
#[derive(Clone, Debug, PartialEq, Eq)]
pub enum BroadcastOutcome {
    Accepted { txhash: String },
    Rejected { code: u32, raw_log: String },
}

/// The mathematical value of a [`BroadcastOutcome`].
pub enum BroadcastOutcomeView {
    Accepted { txhash: Seq<char> },
    Rejected { code: u32, raw_log: Seq<char> },
}

impl View for BroadcastOutcome {
    type V = BroadcastOutcomeView;

    open spec fn view(&self) -> BroadcastOutcomeView {
        match *self {
            BroadcastOutcome::Accepted { txhash } => BroadcastOutcomeView::Accepted {
                txhash: txhash@,
            },
            BroadcastOutcome::Rejected { code, raw_log } => BroadcastOutcomeView::Rejected {
                code,
                raw_log: raw_log@,
            },
        }
    }
}

impl BroadcastOutcome {
    /// Classifies the node's answer to a submission: code 0 means accepted
    /// under the hash given, any other code rejected with that code and the
    /// raw log.
    pub fn from_response(code: u32, txhash: String, raw_log: String) -> (outcome: BroadcastOutcome)
        ensures
            outcome@ == if code == 0 {
                BroadcastOutcomeView::Accepted { txhash: txhash@ }
            } else {
                BroadcastOutcomeView::Rejected { code, raw_log: raw_log@ }
            },
    {
        if code == 0 {
            BroadcastOutcome::Accepted { txhash }
        } else {
            BroadcastOutcome::Rejected { code, raw_log }
        }
    }
}

/// What the machine is told.
#[derive(Clone, Debug, PartialEq, Eq)]
pub enum NodeEvent {
    /// The caller wants the submission to start.
    Begin,
    /// The node reported the account's state.
    Account(AccountInfo),
    /// The node reported the chain's height.
    Height(u64),
    /// The node simulated the transaction and reported the gas it used.
    GasEstimate(u64),
    /// The node reported the signer's balance in the fee token.
    Balance(u128),
    /// The operator answered the request for a top-up.
    OperatorAnswer(bool),
    /// The node answered the submission.
    Broadcast(BroadcastOutcome),
    /// The node or the network failed.
    Fault(String),
}

/// The mathematical value of a [`NodeEvent`].
pub enum NodeEventView {
    Begin,
    Account(AccountInfo),
    Height(u64),
    GasEstimate(u64),
    Balance(u128),
    OperatorAnswer(bool),
    Broadcast(BroadcastOutcomeView),
    Fault(Seq<char>),
}

impl View for NodeEvent {
    type V = NodeEventView;

    open spec fn view(&self) -> NodeEventView {
        match *self {
            NodeEvent::Begin => NodeEventView::Begin,
            NodeEvent::Account(info) => NodeEventView::Account(info),
            NodeEvent::Height(h) => NodeEventView::Height(h),
            NodeEvent::GasEstimate(g) => NodeEventView::GasEstimate(g),
            NodeEvent::Balance(b) => NodeEventView::Balance(b),
            NodeEvent::OperatorAnswer(yes) => NodeEventView::OperatorAnswer(yes),
            NodeEvent::Broadcast(outcome) => NodeEventView::Broadcast(outcome@),
            NodeEvent::Fault(text) => NodeEventView::Fault(text@),
        }
    }
}

/// What the machine wants done next.
#[derive(Clone, Debug, PartialEq, Eq)]
pub enum Action {
    /// Ask the node for the account's number and sequence.
    QueryAccount,
    /// Ask the node for the chain's height.
    QueryHeight,
    /// Build the transaction with these numbers and have it simulated.
    Simulate(TxPlan),
    /// Ask the node for the signer's balance in the fee token.
    QueryBalance,
    /// Ask the operator to top the balance up.
    AskOperator { expected: Coin, current: Coin },
    /// Build the transaction with these numbers and submit it.
    Submit(TxPlan),
    /// The node accepted the transaction under this hash.
    Done { txhash: String },
    /// The submission failed.
    Fail(DaemonError),
}

/// The mathematical value of an [`Action`].
pub enum ActionView {
    QueryAccount,
    QueryHeight,
    Simulate(TxPlan),
    QueryBalance,
    AskOperator { expected: CoinView, current: CoinView },
    Submit(TxPlan),
    Done { txhash: Seq<char> },
    Fail(DaemonErrorView),
}

impl View for Action {
    type V = ActionView;

    open spec fn view(&self) -> ActionView {
        match *self {
            Action::QueryAccount => ActionView::QueryAccount,
            Action::QueryHeight => ActionView::QueryHeight,
            Action::Simulate(plan) => ActionView::Simulate(plan),
            Action::QueryBalance => ActionView::QueryBalance,
            Action::AskOperator { expected, current } => ActionView::AskOperator {
                expected: expected@,
                current: current@,
            },
            Action::Submit(plan) => ActionView::Submit(plan),
            Action::Done { txhash } => ActionView::Done { txhash: txhash@ },
            Action::Fail(error) => ActionView::Fail(error@),
        }
    }
}

/// The state of a submission, as a mathematical value.
pub struct Machine {
    pub phase: Phase,
    pub strategies: Seq<RetryStrategy>,
    pub options: EnvVars,
    pub fee_token: FeeTokenView,
    pub account: Option<AccountInfo>,
    pub timeout_height: Option<u64>,
    pub gas_limit: u64,
    pub fee: u128,
    pub balance: u128,
    pub fee_raises: u64,
}

/// The fee after `raises` rejections as underpriced: each adds a quarter of
/// the priced fee, and one. It saturates at `u128::MAX`.
pub open spec fn raised_fee(fee: u128, raises: u64) -> int {
    let exact = fee + (fee / 4 + 1) * raises;
    if exact > u128::MAX as int { u128::MAX as int } else { exact }
}

/// The submission is over.
pub open spec fn is_terminal(phase: Phase) -> bool {
    phase == Phase::Accepted || phase == Phase::Failed
}

/// The machine gives up with the given error.
pub open spec fn failing(m: Machine, error: DaemonErrorView) -> (Machine, ActionView) {
    (Machine { phase: Phase::Failed, ..m }, ActionView::Fail(error))
}

/// The fee, or the balance, as a coin of the fee token.
pub open spec fn fee_coin(m: Machine, amount: u128) -> CoinView {
    CoinView { denom: m.fee_token.denom, amount }
}

/// The machine submits: it takes the cached sequence for the transaction and
/// moves the cache one up.
pub open spec fn submitting(m: Machine) -> (Machine, ActionView) {
    match (m.account, m.timeout_height) {
        (Some(info), Some(timeout_height)) => if info.sequence < u64::MAX {
            (
                Machine {
                    phase: Phase::AwaitingBroadcast,
                    account: Some(
                        AccountInfo {
                            account_number: info.account_number,
                            sequence: (info.sequence + 1) as u64,
                        },
                    ),
                    ..m
                },
                ActionView::Submit(
                    TxPlan {
                        account_number: info.account_number,
                        sequence: info.sequence,
                        timeout_height,
                        gas_limit: m.gas_limit,
                        fee_amount: m.fee,
                    },
                ),
            )
        } else {
            failing(m, DaemonErrorView::SequenceExhausted)
        },
        _ => failing(m, DaemonErrorView::UnexpectedEvent),
    }
}

/// The machine decides on a rejection: the first strategy that recognises it
/// grants a retry, which starts with a refresh of the account and discards
/// the timeout height, or has none left.
pub open spec fn rejected(m: Machine, code: u32, raw_log: Seq<char>) -> (Machine, ActionView) {
    let index = first_applicable(m.strategies, raw_log, 0);
    if index >= m.strategies.len() {
        failing(m, DaemonErrorView::TxFailed { code, reason: raw_log })
    } else {
        let strategy = m.strategies[index];
        if decision_of(strategy, raw_log) == RetryDecision::Retry {
            (
                Machine {
                    phase: Phase::AwaitingAccount,
                    strategies: m.strategies.update(index, granted(strategy)),
                    timeout_height: None,
                    fee_raises: if strategy.kind == RetryKind::InsufficientFee && m.fee_raises
                        < u64::MAX {
                        (m.fee_raises + 1) as u64
                    } else {
                        m.fee_raises
                    },
                    ..m
                },
                ActionView::QueryAccount,
            )
        } else {
            failing(
                m,
                DaemonErrorView::RetriesExhausted {
                    kind: strategy.kind,
                    retries: strategy.current_retries,
                    code,
                    reason: raw_log,
                },
            )
        }
    }
}

/// The machine's next state and what it wants done, for each state and event.
pub open spec fn next(m: Machine, event: NodeEventView) -> (Machine, ActionView) {
    if is_terminal(m.phase) {
        (m, ActionView::Fail(DaemonErrorView::UnexpectedEvent))
    } else {
        match (m.phase, event) {
            (_, NodeEventView::Fault(text)) => failing(m, DaemonErrorView::Node(text)),
            (Phase::Idle, NodeEventView::Begin) => if m.account is None {
                (Machine { phase: Phase::AwaitingAccount, ..m }, ActionView::QueryAccount)
            } else {
                (Machine { phase: Phase::AwaitingHeight, ..m }, ActionView::QueryHeight)
            },
            (Phase::AwaitingAccount, NodeEventView::Account(info)) => (
                Machine { phase: Phase::AwaitingHeight, account: Some(info), ..m },
                ActionView::QueryHeight,
            ),
            (Phase::AwaitingHeight, NodeEventView::Height(height)) => match m.account {
                Some(info) => if height <= u64::MAX - TIMEOUT_LOOKAHEAD {
                    let timeout_height = (height + TIMEOUT_LOOKAHEAD) as u64;
                    (
                        Machine {
                            phase: Phase::AwaitingGas,
                            timeout_height: Some(timeout_height),
                            ..m
                        },
                        ActionView::Simulate(
                            TxPlan {
                                account_number: info.account_number,
                                sequence: info.sequence,
                                timeout_height,
                                gas_limit: 0,
                                fee_amount: 0,
                            },
                        ),
                    )
                } else {
                    failing(m, DaemonErrorView::HeightOutOfRange)
                },
                None => failing(m, DaemonErrorView::UnexpectedEvent),
            },
            (Phase::AwaitingGas, NodeEventView::GasEstimate(gas)) => {
                let gas_limit = buffered_gas(gas, m.options.gas_buffer, m.options.min_gas) as u64;
                let priced = fee_for(
                    gas_limit,
                    m.fee_token.fixed_min_gas_price,
                    m.fee_token.average_gas_price,
                ) as u128;
                let priced_m = Machine {
                    gas_limit,
                    fee: raised_fee(priced, m.fee_raises) as u128,
                    ..m
                };
                if m.options.disable_wallet_balance_assertion {
                    submitting(priced_m)
                } else {
                    (Machine { phase: Phase::AwaitingBalance, ..priced_m }, ActionView::QueryBalance)
                }
            },
            (Phase::AwaitingBalance, NodeEventView::Balance(balance)) => {
                let known = Machine { balance, ..m };
                if balance >= m.fee {
                    submitting(known)
                } else if !m.options.disable_manual_interaction {
                    (
                        Machine { phase: Phase::AwaitingOperator, ..known },
                        ActionView::AskOperator {
                            expected: fee_coin(m, m.fee),
                            current: fee_coin(m, balance),
                        },
                    )
                } else {
                    failing(
                        known,
                        DaemonErrorView::NotEnoughBalance {
                            expected: fee_coin(m, m.fee),
                            current: fee_coin(m, balance),
                        },
                    )
                }
            },
            (Phase::AwaitingOperator, NodeEventView::OperatorAnswer(topped_up)) => if topped_up {
                (Machine { phase: Phase::AwaitingBalance, ..m }, ActionView::QueryBalance)
            } else {
                failing(
                    m,
                    DaemonErrorView::NotEnoughBalance {
                        expected: fee_coin(m, m.fee),
                        current: fee_coin(m, m.balance),
                    },
                )
            },
            (
                Phase::AwaitingBroadcast,
                NodeEventView::Broadcast(BroadcastOutcomeView::Accepted { txhash }),
            ) => (Machine { phase: Phase::Accepted, ..m }, ActionView::Done { txhash }),
            (
                Phase::AwaitingBroadcast,
                NodeEventView::Broadcast(BroadcastOutcomeView::Rejected { code, raw_log }),
            ) => rejected(m, code, raw_log),
            _ => failing(m, DaemonErrorView::UnexpectedEvent),
        }
    }
}

/// A submission in progress: the retry strategies in their order, the
/// account cache, and what the current attempt has learnt so far.
#[derive(Clone, Debug, PartialEq, Eq)]
pub struct TxBroadcaster {
    pub strategies: Vec<RetryStrategy>,
    pub phase: Phase,
    pub options: EnvVars,
    pub fee_token: FeeToken,
    pub account: AccountStore,
    pub timeout_height: Option<u64>,
    pub gas_limit: u64,
    pub fee: u128,
    pub balance: u128,
    pub fee_raises: u64,
}

impl View for TxBroadcaster {
    type V = Machine;

    open spec fn view(&self) -> Machine {
        Machine {
            phase: self.phase,
            strategies: self.strategies@,
            options: self.options,
            fee_token: self.fee_token@,
            account: self.account.cached,
            timeout_height: self.timeout_height,
            gas_limit: self.gas_limit,
            fee: self.fee,
            balance: self.balance,
            fee_raises: self.fee_raises,
        }
    }
}

/// The state that every submission starts in.
pub open spec fn initial(
    options: EnvVars,
    fee_token: FeeTokenView,
    account: Option<AccountInfo>,
) -> Machine {
    Machine {
        phase: Phase::Idle,
        strategies: Seq::empty(),
        options,
        fee_token,
        account,
        timeout_height: None,
        gas_limit: 0,
        fee: 0,
        balance: 0,
        fee_raises: 0,
    }
}

/// Every further rejection as underpriced raises the fee, until it
/// saturates.
pub proof fn lemma_raised_fee_grows(fee: u128, raises: u64)
    requires
        raises < u64::MAX,
    ensures
        raised_fee(fee, raises) <= raised_fee(fee, (raises + 1) as u64),
        raised_fee(fee, (raises + 1) as u64) < u128::MAX ==> raised_fee(fee, raises) < raised_fee(
            fee,
            (raises + 1) as u64,
        ),
        raised_fee(fee, 0) == fee,
{
    let step = fee / 4 + 1;
    assert(step * (raises + 1) == step * raises + step) by (nonlinear_arith);
    assert(step * raises >= 0) by (nonlinear_arith)
        requires
            step >= 0,
            raises >= 0,
    ;
}

/// Raises a priced fee for the rejections as underpriced so far.
pub fn raise_fee(fee: u128, raises: u64) -> (raised: u128)
    ensures
        raised as int == raised_fee(fee, raises),
{
    let step: u128 = fee / 4 + 1;
    match step.checked_mul(raises as u128) {
        Some(extra) => match fee.checked_add(extra) {
            Some(raised) => raised,
            None => u128::MAX,
        },
        None => u128::MAX,
    }
}

impl TxBroadcaster {
    /// A submission that has not started, without any retry strategy.
    pub fn new(options: EnvVars, fee_token: FeeToken, account: AccountStore) -> (broadcaster:
        TxBroadcaster)
        ensures
            broadcaster@ == initial(options, fee_token@, account.cached),
    {
        TxBroadcaster {
            strategies: Vec::new(),
            phase: Phase::Idle,
            options,
            fee_token,
            account,
            timeout_height: None,
            gas_limit: 0,
            fee: 0,
            balance: 0,
            fee_raises: 0,
        }
    }

    /// Appends a retry strategy: it is consulted after those added before.
    pub fn add_strategy(self, strategy: RetryStrategy) -> (broadcaster: TxBroadcaster)
        ensures
            broadcaster@ == (Machine { strategies: self@.strategies.push(strategy), ..self@ }),
    {
        let mut broadcaster = self;
        broadcaster.strategies.push(strategy);
        broadcaster
    }

    /// Whether the submission is over.
    pub fn is_finished(&self) -> (finished: bool)
        ensures
            finished == is_terminal(self@.phase),
    {
        match self.phase {
            Phase::Accepted => true,
            Phase::Failed => true,
            _ => false,
        }
    }

    fn fail(&mut self, error: DaemonError) -> (action: Action)
        ensures
            (final(self)@, action@) == failing(old(self)@, error@),
    {
        self.phase = Phase::Failed;
        Action::Fail(error)
    }

    fn coin_of(&self, amount: u128) -> (c: Coin)
        ensures
            c@ == fee_coin(self@, amount),
    {
        Coin { denom: self.fee_token.denom.clone(), amount }
    }

    fn submit(&mut self) -> (action: Action)
        ensures
            (final(self)@, action@) == submitting(old(self)@),
    {
        let plan = match (self.account.current(), self.timeout_height) {
            (Some(info), Some(timeout_height)) => TxPlan {
                account_number: info.account_number,
                sequence: info.sequence,
                timeout_height,
                gas_limit: self.gas_limit,
                fee_amount: self.fee,
            },
            _ => {
                return self.fail(DaemonError::UnexpectedEvent);
            },
        };
        match self.account.advance() {
            Some(_) => {
                self.phase = Phase::AwaitingBroadcast;
                Action::Submit(plan)
            },
            None => self.fail(DaemonError::SequenceExhausted),
        }
    }

    fn reject(&mut self, code: u32, raw_log: String) -> (action: Action)
        ensures
            (final(self)@, action@) == rejected(old(self)@, code, raw_log@),
    {
        let index = find_applicable(&self.strategies, raw_log.as_str());
        proof {
            lemma_first_applicable_recognises(self.strategies@, raw_log@, 0);
        }
        if index >= self.strategies.len() {
            return self.fail(DaemonError::TxFailed { code, reason: raw_log });
        }
        let strategy = self.strategies[index];
        if strategy.current_retries < strategy.max_retries {
            self.strategies.set(
                index,
                RetryStrategy {
                    kind: strategy.kind,
                    max_retries: strategy.max_retries,
                    current_retries: strategy.current_retries + 1,
                },
            );
            self.phase = Phase::AwaitingAccount;
            self.timeout_height = None;
            match strategy.kind {
                RetryKind::InsufficientFee => {
                    if self.fee_raises < u64::MAX {
                        self.fee_raises = self.fee_raises + 1;
                    }
                },
                RetryKind::AccountSequence => {},
            }
            Action::QueryAccount
        } else {
            self.fail(
                DaemonError::RetriesExhausted {
                    kind: strategy.kind,
                    retries: strategy.current_retries,
                    code,
                    reason: raw_log,
                },
            )
        }
    }

    /// Takes what happened and says what to do next.
    pub fn step(&mut self, event: NodeEvent) -> (action: Action)
        ensures
            (final(self)@, action@) == next(old(self)@, event@),
    {
        if self.is_finished() {
            return Action::Fail(DaemonError::UnexpectedEvent);
        }
        match event {
            NodeEvent::Fault(text) => self.fail(DaemonError::Node(text)),
            NodeEvent::Begin => match self.phase {
                Phase::Idle => {
                    if self.account.current().is_none() {
                        self.phase = Phase::AwaitingAccount;
                        Action::QueryAccount
                    } else {
                        self.phase = Phase::AwaitingHeight;
                        Action::QueryHeight
                    }
                },
                _ => self.fail(DaemonError::UnexpectedEvent),
            },
            NodeEvent::Account(info) => match self.phase {
                Phase::AwaitingAccount => {
                    self.account.refresh(info);
                    self.phase = Phase::AwaitingHeight;
                    Action::QueryHeight
                },
                _ => self.fail(DaemonError::UnexpectedEvent),
            },
            NodeEvent::Height(height) => match self.phase {
                Phase::AwaitingHeight => match self.account.current() {
                    Some(info) => {
                        if height <= u64::MAX - TIMEOUT_LOOKAHEAD {
                            let timeout_height = height + TIMEOUT_LOOKAHEAD;
                            self.phase = Phase::AwaitingGas;
                            self.timeout_height = Some(timeout_height);
                            Action::Simulate(
                                TxPlan {
                                    account_number: info.account_number,
                                    sequence: info.sequence,
                                    timeout_height,
                                    gas_limit: 0,
                                    fee_amount: 0,
                                },
                            )
                        } else {
                            self.fail(DaemonError::HeightOutOfRange)
                        }
                    },
                    None => self.fail(DaemonError::UnexpectedEvent),
                },
                _ => self.fail(DaemonError::UnexpectedEvent),
            },
            NodeEvent::GasEstimate(gas) => match self.phase {
                Phase::AwaitingGas => {
                    let gas_limit = buffer_gas(gas, self.options.gas_buffer, self.options.min_gas);
                    let priced = fee_from_gas_limit(
                        gas_limit,
                        self.fee_token.fixed_min_gas_price,
                        self.fee_token.average_gas_price,
                    );
                    self.gas_limit = gas_limit;
                    self.fee = raise_fee(priced, self.fee_raises);
                    if self.options.disable_wallet_balance_assertion {
                        self.submit()
                    } else {
                        self.phase = Phase::AwaitingBalance;
                        Action::QueryBalance
                    }
                },
                _ => self.fail(DaemonError::UnexpectedEvent),
            },
            NodeEvent::Balance(balance) => match self.phase {
                Phase::AwaitingBalance => {
                    let expected = self.coin_of(self.fee);
                    let current = self.coin_of(balance);
                    self.balance = balance;
                    if balance >= self.fee {
                        self.submit()
                    } else if !self.options.disable_manual_interaction {
                        self.phase = Phase::AwaitingOperator;
                        Action::AskOperator { expected, current }
                    } else {
                        self.fail(DaemonError::NotEnoughBalance { expected, current })
                    }
                },
                _ => self.fail(DaemonError::UnexpectedEvent),
            },
            NodeEvent::OperatorAnswer(topped_up) => match self.phase {
                Phase::AwaitingOperator => {
                    if topped_up {
                        self.phase = Phase::AwaitingBalance;
                        Action::QueryBalance
                    } else {
                        let expected = self.coin_of(self.fee);
                        let current = self.coin_of(self.balance);
                        self.fail(DaemonError::NotEnoughBalance { expected, current })
                    }
                },
                _ => self.fail(DaemonError::UnexpectedEvent),
            },
            NodeEvent::Broadcast(outcome) => match self.phase {
                Phase::AwaitingBroadcast => match outcome {
                    BroadcastOutcome::Accepted { txhash } => {
                        self.phase = Phase::Accepted;
                        Action::Done { txhash }
                    },
                    BroadcastOutcome::Rejected { code, raw_log } => self.reject(code, raw_log),
                },
                _ => self.fail(DaemonError::UnexpectedEvent),
            },
        }
    }
}

} // verus!
