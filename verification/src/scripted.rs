//! The state machine run against a scripted node: what it does over whole
//! attempts, and what bounds its retries.

use crate::account::AccountInfo;
use crate::chain::{EnvVars, FeeTokenView};
use crate::error::DaemonErrorView;
use crate::gas::{buffered_gas, fee_for};
use crate::retry::{
    first_applicable, granted, is_rejection_of, lemma_first_applicable_recognises, RetryKind,
    RetryStrategy,
};
use crate::tx_broadcaster::{
    expired_at, next, raised_fee, ActionView, BroadcastOutcomeView, Machine, NodeEventView, Phase,
    TxPlan, TIMEOUT_LOOKAHEAD,
};
use vstd::prelude::*;

verus! {

/// What a scripted node answers in the course of one attempt.
pub struct Attempt {
    pub account: AccountInfo,
    pub height: u64,
    pub gas: u64,
    pub balance: u128,
    pub outcome: BroadcastOutcomeView,
}

/// The gas limit that an attempt arrives at for a gas estimate.
pub open spec fn attempt_gas_limit(options: EnvVars, gas: u64) -> u64 {
    buffered_gas(gas, options.gas_buffer, options.min_gas) as u64
}

/// The fee that an attempt arrives at for a gas estimate.
pub open spec fn attempt_fee(options: EnvVars, fee_token: FeeTokenView, fee_raises: u64, gas: u64) -> u128 {
    raised_fee(
        fee_for(
            attempt_gas_limit(options, gas),
            fee_token.fixed_min_gas_price,
            fee_token.average_gas_price,
        ) as u128,
        fee_raises,
    ) as u128
}

/// Nothing but the node's answer to the submission can stop the attempt: the
/// height leaves room for the timeout, the sequence can grow, and the balance
/// covers the fee where it is asserted.
pub open spec fn goes_through(
    options: EnvVars,
    fee_token: FeeTokenView,
    fee_raises: u64,
    a: Attempt,
) -> bool {
    &&& a.height <= u64::MAX - TIMEOUT_LOOKAHEAD
    &&& a.account.sequence < u64::MAX
    &&& options.disable_wallet_balance_assertion || a.balance >= attempt_fee(
        options,
        fee_token,
        fee_raises,
        a.gas,
    )
}

/// The transaction that an attempt submits.
pub open spec fn submitted_plan(m: Machine, a: Attempt) -> TxPlan {
    TxPlan {
        account_number: a.account.account_number,
        sequence: a.account.sequence,
        timeout_height: (a.height + TIMEOUT_LOOKAHEAD) as u64,
        gas_limit: attempt_gas_limit(m.options, a.gas),
        fee_amount: attempt_fee(m.options, m.fee_token, m.fee_raises, a.gas),
    }
}

/// The machine fed the node's answers up to, and without, the answer to the
/// submission, and the last thing it asked for.
pub open spec fn before_broadcast(m: Machine, a: Attempt) -> (Machine, ActionView) {
    let m1 = next(m, NodeEventView::Account(a.account)).0;
    let m2 = next(m1, NodeEventView::Height(a.height)).0;
    let (m3, asked) = next(m2, NodeEventView::GasEstimate(a.gas));
    if asked is QueryBalance {
        next(m3, NodeEventView::Balance(a.balance))
    } else {
        (m3, asked)
    }
}

/// The machine fed all of the node's answers of one attempt.
pub open spec fn after_attempt(m: Machine, a: Attempt) -> (Machine, ActionView) {
    next(before_broadcast(m, a).0, NodeEventView::Broadcast(a.outcome))
}

/// The machine run against the script, attempt after attempt, for as long as
/// it asks for the account again. With the script used up it is left waiting
/// for the account.
pub open spec fn drive(m: Machine, script: Seq<Attempt>) -> (Machine, ActionView)
    decreases script.len(),
{
    if script.len() == 0 {
        (m, ActionView::QueryAccount)
    } else {
        let (after, asked) = after_attempt(m, script[0]);
        if asked is QueryAccount {
            drive(after, script.drop_first())
        } else {
            (after, asked)
        }
    }
}

/// How many times the fee was raised by the time of the attempt with the
/// given index, where every earlier attempt was rejected as of `kind`.
pub open spec fn raises_at(m: Machine, kind: RetryKind, index: int) -> u64 {
    if kind == RetryKind::InsufficientFee {
        (m.fee_raises + index) as u64
    } else {
        m.fee_raises
    }
}

/// The attempt is rejected, and strategy `k` is the first to recognise it.
pub open spec fn rejected_for(m: Machine, a: Attempt, k: int) -> bool {
    a.outcome matches BroadcastOutcomeView::Rejected { raw_log, .. } && first_applicable(
        m.strategies,
        raw_log,
        0,
    ) == k
}

/// Granting retries changes no strategy's kind, so it changes not which
/// strategy is the first to recognise a rejection.
pub proof fn lemma_counters_do_not_reorder(
    strategies: Seq<RetryStrategy>,
    k: int,
    raw_log: Seq<char>,
    from: int,
)
    requires
        0 <= k < strategies.len(),
    ensures
        first_applicable(strategies.update(k, granted(strategies[k])), raw_log, from)
            == first_applicable(strategies, raw_log, from),
    decreases strategies.len() - from,
{
    let updated = strategies.update(k, granted(strategies[k]));
    if 0 <= from < strategies.len() {
        assert(updated[from].kind == strategies[from].kind);
        if !is_rejection_of(strategies[from].kind, raw_log) {
            lemma_counters_do_not_reorder(strategies, k, raw_log, from + 1);
        }
    }
}

/// An attempt that nothing stops submits a transaction with the account
/// state that the node just reported, a timeout height ten blocks past the
/// height that the node just reported, and the buffered gas and its fee; and
/// it leaves the cached sequence one past the reported one.
pub proof fn lemma_attempt_submits(m: Machine, a: Attempt)
    requires
        m.phase == Phase::AwaitingAccount,
        goes_through(m.options, m.fee_token, m.fee_raises, a),
    ensures
        before_broadcast(m, a).1 == ActionView::Submit(submitted_plan(m, a)),
        before_broadcast(m, a).0 == (Machine {
            phase: Phase::AwaitingBroadcast,
            account: Some(
                AccountInfo {
                    account_number: a.account.account_number,
                    sequence: (a.account.sequence + 1) as u64,
                },
            ),
            timeout_height: Some((a.height + TIMEOUT_LOOKAHEAD) as u64),
            gas_limit: submitted_plan(m, a).gas_limit,
            fee: submitted_plan(m, a).fee_amount,
            balance: if m.options.disable_wallet_balance_assertion {
                m.balance
            } else {
                a.balance
            },
            ..m
        }),
{
}

/// A rejected attempt that a strategy with a retry left recognises leaves
/// the machine asking for the account, with that retry counted and the
/// timeout height discarded.
pub proof fn lemma_rejection_is_retried(m: Machine, a: Attempt, k: int)
    requires
        m.phase == Phase::AwaitingAccount,
        goes_through(m.options, m.fee_token, m.fee_raises, a),
        0 <= k < m.strategies.len(),
        rejected_for(m, a, k),
        m.strategies[k].current_retries < m.strategies[k].max_retries,
    ensures
        after_attempt(m, a).1 == ActionView::QueryAccount,
        after_attempt(m, a).0.phase == Phase::AwaitingAccount,
        after_attempt(m, a).0.timeout_height is None,
        after_attempt(m, a).0.strategies == m.strategies.update(k, granted(m.strategies[k])),
        after_attempt(m, a).0.options == m.options,
        after_attempt(m, a).0.fee_token == m.fee_token,
        after_attempt(m, a).0.fee_raises == if m.strategies[k].kind == RetryKind::InsufficientFee
            && m.fee_raises < u64::MAX {
            (m.fee_raises + 1) as u64
        } else {
            m.fee_raises
        },
{
    lemma_attempt_submits(m, a);
    lemma_first_applicable_recognises(m.strategies, a.outcome->Rejected_raw_log, 0);
}

/// Where the node rejects every attempt but the last, each time for a
/// reason that the same strategy is the first to recognise, and that
/// strategy has as many retries left as there are rejections, the submission
/// ends accepted under the hash that the node gave. The cached sequence is
/// then one past the sequence that the last refresh reported, which is the
/// sequence that the accepted transaction carried.
pub proof fn lemma_retries_within_budget_succeed(
    m: Machine,
    script: Seq<Attempt>,
    k: int,
    txhash: Seq<char>,
)
    requires
        m.phase == Phase::AwaitingAccount,
        0 <= k < m.strategies.len(),
        script.len() >= 1,
        m.fee_raises + script.len() <= u64::MAX,
        forall|i: int|
            0 <= i < script.len() ==> goes_through(
                m.options,
                m.fee_token,
                raises_at(m, m.strategies[k].kind, i),
                #[trigger] script[i],
            ),
        forall|i: int| 0 <= i < script.len() - 1 ==> rejected_for(m, #[trigger] script[i], k),
        script.last().outcome == (BroadcastOutcomeView::Accepted { txhash }),
        m.strategies[k].current_retries + (script.len() - 1) <= m.strategies[k].max_retries,
    ensures
        drive(m, script).1 == (ActionView::Done { txhash }),
        drive(m, script).0.phase == Phase::Accepted,
        drive(m, script).0.account == Some(
            AccountInfo {
                account_number: script.last().account.account_number,
                sequence: (script.last().account.sequence + 1) as u64,
            },
        ),
        drive(m, script).0.strategies.len() == m.strategies.len(),
        drive(m, script).0.strategies[k].current_retries == m.strategies[k].current_retries + (
        script.len() - 1),
    decreases script.len(),
{
    let a = script[0];
    assert(raises_at(m, m.strategies[k].kind, 0) == m.fee_raises);
    lemma_attempt_submits(m, a);
    if script.len() == 1 {
        assert(script.last() == a);
        assert(script.drop_first().len() == 0);
    } else {
        lemma_rejection_is_retried(m, a, k);
        let after = after_attempt(m, a).0;
        let rest = script.drop_first();
        assert forall|i: int| 0 <= i < rest.len() implies goes_through(
            after.options,
            after.fee_token,
            raises_at(after, after.strategies[k].kind, i),
            #[trigger] rest[i],
        ) by {
            assert(rest[i] == script[i + 1]);
        }
        assert forall|i: int| 0 <= i < rest.len() - 1 implies rejected_for(
            after,
            #[trigger] rest[i],
            k,
        ) by {
            assert(rest[i] == script[i + 1]);
            let raw_log = rest[i].outcome->Rejected_raw_log;
            lemma_counters_do_not_reorder(m.strategies, k, raw_log, 0);
        }
        assert(rest.last() == script.last());
        lemma_retries_within_budget_succeed(after, rest, k, txhash);
    }
}

/// Where the node rejects one attempt more than the recognising strategy has
/// retries left, the submission fails on the last of them, with the error
/// that names the strategy and its ceiling: it does not ask again.
pub proof fn lemma_retries_beyond_budget_fail(m: Machine, script: Seq<Attempt>, k: int)
    requires
        m.phase == Phase::AwaitingAccount,
        0 <= k < m.strategies.len(),
        script.len() >= 1,
        m.fee_raises + script.len() <= u64::MAX,
        forall|i: int|
            0 <= i < script.len() ==> goes_through(
                m.options,
                m.fee_token,
                raises_at(m, m.strategies[k].kind, i),
                #[trigger] script[i],
            ),
        forall|i: int| 0 <= i < script.len() ==> rejected_for(m, #[trigger] script[i], k),
        m.strategies[k].current_retries <= m.strategies[k].max_retries,
        m.strategies[k].current_retries + script.len() == m.strategies[k].max_retries + 1,
    ensures
        drive(m, script).0.phase == Phase::Failed,
        drive(m, script).1 == ActionView::Fail(
            DaemonErrorView::RetriesExhausted {
                kind: m.strategies[k].kind,
                retries: m.strategies[k].max_retries,
                code: script.last().outcome->Rejected_code,
                reason: script.last().outcome->Rejected_raw_log,
            },
        ),
    decreases script.len(),
{
    let a = script[0];
    assert(raises_at(m, m.strategies[k].kind, 0) == m.fee_raises);
    lemma_attempt_submits(m, a);
    if script.len() == 1 {
        assert(script.last() == a);
    } else {
        lemma_rejection_is_retried(m, a, k);
        let after = after_attempt(m, a).0;
        let rest = script.drop_first();
        assert forall|i: int| 0 <= i < rest.len() implies goes_through(
            after.options,
            after.fee_token,
            raises_at(after, after.strategies[k].kind, i),
            #[trigger] rest[i],
        ) by {
            assert(rest[i] == script[i + 1]);
        }
        assert forall|i: int| 0 <= i < rest.len() implies rejected_for(after, #[trigger] rest[i], k) by {
            assert(rest[i] == script[i + 1]);
            let raw_log = rest[i].outcome->Rejected_raw_log;
            lemma_counters_do_not_reorder(m.strategies, k, raw_log, 0);
        }
        assert(rest.last() == script.last());
        lemma_retries_beyond_budget_fail(after, rest, k);
    }
}

/// What an attempt that nothing stops submits is not expired at the height
/// that the node reported for it, and is expired exactly from ten blocks
/// past that height on.
pub proof fn lemma_fresh_plan_is_not_expired(m: Machine, a: Attempt, height: u64)
    requires
        m.phase == Phase::AwaitingAccount,
        goes_through(m.options, m.fee_token, m.fee_raises, a),
    ensures
        before_broadcast(m, a).1 == ActionView::Submit(submitted_plan(m, a)),
        !expired_at(submitted_plan(m, a), a.height),
        expired_at(submitted_plan(m, a), height) <==> height > a.height + TIMEOUT_LOOKAHEAD,
{
    lemma_attempt_submits(m, a);
}

/// A rejection that no strategy recognises ends the submission at once, with
/// the node's code and raw log.
pub proof fn lemma_unrecognised_rejection_is_final(m: Machine, code: u32, raw_log: Seq<char>)
    requires
        m.phase == Phase::AwaitingBroadcast,
        first_applicable(m.strategies, raw_log, 0) >= m.strategies.len(),
    ensures
        next(m, NodeEventView::Broadcast(BroadcastOutcomeView::Rejected { code, raw_log }))
            == (
            Machine { phase: Phase::Failed, ..m },
            ActionView::Fail(DaemonErrorView::TxFailed { code, reason: raw_log }),
        ),
{
}

/// No transaction is submitted with a timeout height from before the last
/// rejection: a retry discards the timeout height, nothing but a reported
/// height sets one, and what is submitted carries the one that is set, ten
/// blocks past that height and so not yet expired at it.
pub proof fn lemma_submissions_carry_a_fresh_timeout(m: Machine, event: NodeEventView)
    ensures
        next(m, event).1 matches ActionView::Submit(plan) ==> m.timeout_height == Some(
            plan.timeout_height,
        ),
        next(m, event).1 is QueryAccount && !(m.phase == Phase::Idle) ==> next(
            m,
            event,
        ).0.timeout_height is None,
        next(m, event).0.timeout_height != m.timeout_height ==> next(m, event).0.timeout_height
            is None || (event matches NodeEventView::Height(height) && height + TIMEOUT_LOOKAHEAD
            <= u64::MAX && next(m, event).0.timeout_height == Some(
            (height + TIMEOUT_LOOKAHEAD) as u64,
        )),
{
}

} // verus!
