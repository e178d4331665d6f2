//! Why a submission cannot go on forever: every submission of a
//! transaction after the first spends a retry, and retries are counted
//! against their ceilings.

use crate::retry::{first_applicable, granted, lemma_first_applicable_recognises, RetryStrategy};
use crate::tx_broadcaster::{next, ActionView, Machine, NodeEventView, Phase};
use vstd::prelude::*;

verus! {

/// The retries that one strategy has left.
pub open spec fn retries_left(strategy: RetryStrategy) -> nat {
    if strategy.current_retries < strategy.max_retries {
        (strategy.max_retries - strategy.current_retries) as nat
    } else {
        0
    }
}

/// The retries that the strategies have left, all together.
pub open spec fn remaining(strategies: Seq<RetryStrategy>) -> nat
    decreases strategies.len(),
{
    if strategies.len() == 0 {
        0
    } else {
        remaining(strategies.drop_last()) + retries_left(strategies.last())
    }
}

/// The machine can submit without a rejection in between: it has not
/// submitted yet in this attempt, and has not come to an end.
pub open spec fn may_submit(phase: Phase) -> bool {
    !(phase == Phase::AwaitingBroadcast || phase == Phase::Accepted || phase == Phase::Failed)
}

/// How many transactions the machine can still submit, at most.
pub open spec fn submissions_left(m: Machine) -> nat {
    remaining(m.strategies) + if may_submit(m.phase) {
        1nat
    } else {
        0nat
    }
}

/// How many transactions the machine submits when fed the events.
pub open spec fn submissions(m: Machine, events: Seq<NodeEventView>) -> nat
    decreases events.len(),
{
    if events.len() == 0 {
        0
    } else {
        let (after, action) = next(m, events[0]);
        submissions(after, events.drop_first()) + if action is Submit {
            1nat
        } else {
            0nat
        }
    }
}

/// Every strategy has granted no more retries than its ceiling allows.
pub open spec fn within_ceilings(strategies: Seq<RetryStrategy>) -> bool {
    forall|i: int|
        0 <= i < strategies.len() ==> (#[trigger] strategies[i]).current_retries
            <= strategies[i].max_retries
}

/// Granting a retry of a strategy that has one left takes one from what
/// the strategies have left.
pub proof fn lemma_granting_spends_a_retry(strategies: Seq<RetryStrategy>, k: int)
    requires
        0 <= k < strategies.len(),
        strategies[k].current_retries < strategies[k].max_retries,
    ensures
        remaining(strategies.update(k, granted(strategies[k]))) + 1 == remaining(strategies),
    decreases strategies.len(),
{
    let updated = strategies.update(k, granted(strategies[k]));
    if k == strategies.len() - 1 {
        assert(updated.drop_last() =~= strategies.drop_last());
    } else {
        assert(updated.drop_last() =~= strategies.drop_last().update(
            k,
            granted(strategies.drop_last()[k]),
        ));
        lemma_granting_spends_a_retry(strategies.drop_last(), k);
    }
}

/// No event lets the machine submit more than it had left: a step that
/// submits spends one submission, and no step adds any.
pub proof fn lemma_step_spends_submissions(m: Machine, event: NodeEventView)
    ensures
        next(m, event).1 is Submit ==> submissions_left(next(m, event).0) + 1 <= submissions_left(
            m,
        ),
        submissions_left(next(m, event).0) <= submissions_left(m),
{
    if m.phase == Phase::AwaitingBroadcast {
        if let NodeEventView::Broadcast(outcome) = event {
            if let crate::tx_broadcaster::BroadcastOutcomeView::Rejected { code, raw_log } =
                outcome {
                let index = first_applicable(m.strategies, raw_log, 0);
                lemma_first_applicable_recognises(m.strategies, raw_log, 0);
                if index < m.strategies.len() {
                    let strategy = m.strategies[index];
                    if strategy.current_retries < strategy.max_retries {
                        lemma_granting_spends_a_retry(m.strategies, index);
                    }
                }
            }
        }
    }
}

/// Whatever the node answers, and in whatever order, the machine submits
/// at most one transaction more than its strategies have retries left.
pub proof fn lemma_submissions_are_bounded(m: Machine, events: Seq<NodeEventView>)
    ensures
        submissions(m, events) <= submissions_left(m),
        submissions_left(m) <= remaining(m.strategies) + 1,
    decreases events.len(),
{
    if events.len() > 0 {
        lemma_step_spends_submissions(m, events[0]);
        lemma_submissions_are_bounded(next(m, events[0]).0, events.drop_first());
    }
}

/// No event takes a strategy beyond its ceiling.
pub proof fn lemma_retries_stay_within_ceilings(m: Machine, event: NodeEventView)
    requires
        within_ceilings(m.strategies),
    ensures
        within_ceilings(next(m, event).0.strategies),
        next(m, event).0.strategies.len() == m.strategies.len(),
{
    let after = next(m, event).0.strategies;
    if m.phase == Phase::AwaitingBroadcast {
        if let NodeEventView::Broadcast(outcome) = event {
            if let crate::tx_broadcaster::BroadcastOutcomeView::Rejected { code, raw_log } =
                outcome {
                lemma_first_applicable_recognises(m.strategies, raw_log, 0);
            }
        }
    }
    assert(after.len() == m.strategies.len());
    assert forall|i: int| 0 <= i < after.len() implies (#[trigger] after[i]).current_retries
        <= after[i].max_retries by {
        assert(m.strategies[i].current_retries <= m.strategies[i].max_retries);
    }
}

} // verus!
