//! Retry strategies: which broadcast rejections are worth another attempt,
//! and how many.

use crate::text::{contains_text, text_contains};
use vstd::prelude::*;

verus! {

/// How often a stale sequence is retried unless configured otherwise.
pub const DEFAULT_SEQUENCE_RETRIES: u64 = 10;

/// How often an underpriced fee is retried unless configured otherwise.
pub const DEFAULT_FEE_RETRIES: u64 = 1;

/// The kinds of rejection that a strategy can recognise.
#[derive(Clone, Copy, Debug, PartialEq, Eq, Structural)]
pub enum RetryKind {
    /// The transaction carried a sequence that the chain did not expect.
    AccountSequence,
    /// The fee was below what the node asks for.
    InsufficientFee,
}

/// One strategy: the rejections it recognises, how many retries it grants,
/// and how many it has granted so far.
#[derive(Clone, Copy, Debug, PartialEq, Eq, Structural)]
pub struct RetryStrategy {
    pub kind: RetryKind,
    pub max_retries: u64,
    pub current_retries: u64,
}

/// What a strategy says of a rejection.
#[derive(Clone, Copy, Debug, PartialEq, Eq, Structural)]
pub enum RetryDecision {
    /// The strategy does not recognise the rejection.
    NotApplicable,
    /// The strategy recognises the rejection and grants another attempt.
    Retry,
    /// The strategy recognises the rejection and has no attempt left.
    Exhausted,
}

/// The text that marks a rejection of the given kind in a node's raw log.
pub open spec fn rejection_pattern(kind: RetryKind) -> Seq<char> {
    match kind {
        RetryKind::AccountSequence => "account sequence"@,
        RetryKind::InsufficientFee => "insufficient fee"@,
    }
}

/// The raw log marks a rejection of the given kind.
pub open spec fn is_rejection_of(kind: RetryKind, raw_log: Seq<char>) -> bool {
    text_contains(raw_log, rejection_pattern(kind))
}

/// What the strategy says of a rejection with the given raw log.
pub open spec fn decision_of(strategy: RetryStrategy, raw_log: Seq<char>) -> RetryDecision {
    if !is_rejection_of(strategy.kind, raw_log) {
        RetryDecision::NotApplicable
    } else if strategy.current_retries < strategy.max_retries {
        RetryDecision::Retry
    } else {
        RetryDecision::Exhausted
    }
}

/// The index of the first strategy, at or after `from`, that recognises the
/// rejection; the number of strategies if none does.
pub open spec fn first_applicable(strategies: Seq<RetryStrategy>, raw_log: Seq<char>, from: int) -> int
    decreases strategies.len() - from,
{
    if from < 0 || from >= strategies.len() {
        strategies.len() as int
    } else if is_rejection_of(strategies[from].kind, raw_log) {
        from
    } else {
        first_applicable(strategies, raw_log, from + 1)
    }
}

/// The first strategy that recognises a rejection does recognise it.
pub proof fn lemma_first_applicable_recognises(
    strategies: Seq<RetryStrategy>,
    raw_log: Seq<char>,
    from: int,
)
    requires
        0 <= from,
    ensures
        from <= first_applicable(strategies, raw_log, from) || first_applicable(
            strategies,
            raw_log,
            from,
        ) == strategies.len(),
        first_applicable(strategies, raw_log, from) <= strategies.len(),
        first_applicable(strategies, raw_log, from) < strategies.len() ==> is_rejection_of(
            strategies[first_applicable(strategies, raw_log, from)].kind,
            raw_log,
        ),
        forall|i: int|
            from <= i < first_applicable(strategies, raw_log, from) ==> !is_rejection_of(
                (#[trigger] strategies[i]).kind,
                raw_log,
            ),
    decreases strategies.len() - from,
{
    if from < strategies.len() && !is_rejection_of(strategies[from].kind, raw_log) {
        lemma_first_applicable_recognises(strategies, raw_log, from + 1);
    }
}

/// The strategy with one more retry granted.
pub open spec fn granted(strategy: RetryStrategy) -> RetryStrategy {
    RetryStrategy {
        kind: strategy.kind,
        max_retries: strategy.max_retries,
        current_retries: (strategy.current_retries + 1) as u64,
    }
}

/// Whether the raw log marks a stale account sequence.
pub fn has_account_sequence_error(raw_log: &str) -> (found: bool)
    ensures
        found == is_rejection_of(RetryKind::AccountSequence, raw_log@),
{
    contains_text(raw_log, "account sequence")
}

/// Whether the raw log marks an underpriced fee.
pub fn has_insufficient_fee(raw_log: &str) -> (found: bool)
    ensures
        found == is_rejection_of(RetryKind::InsufficientFee, raw_log@),
{
    contains_text(raw_log, "insufficient fee")
}

/// The strategy for stale sequences, with the default number of retries.
pub fn account_sequence_strategy() -> (strategy: RetryStrategy)
    ensures
        strategy == (RetryStrategy {
            kind: RetryKind::AccountSequence,
            max_retries: DEFAULT_SEQUENCE_RETRIES,
            current_retries: 0,
        }),
{
    RetryStrategy {
        kind: RetryKind::AccountSequence,
        max_retries: DEFAULT_SEQUENCE_RETRIES,
        current_retries: 0,
    }
}

/// The strategy for underpriced fees, with the default number of retries.
pub fn insufficient_fee_strategy() -> (strategy: RetryStrategy)
    ensures
        strategy == (RetryStrategy {
            kind: RetryKind::InsufficientFee,
            max_retries: DEFAULT_FEE_RETRIES,
            current_retries: 0,
        }),
{
    RetryStrategy {
        kind: RetryKind::InsufficientFee,
        max_retries: DEFAULT_FEE_RETRIES,
        current_retries: 0,
    }
}

impl RetryStrategy {
    /// The same strategy with another ceiling, and no retry granted yet.
    pub fn with_max_retries(self, max_retries: u64) -> (strategy: RetryStrategy)
        ensures
            strategy == (RetryStrategy { kind: self.kind, max_retries, current_retries: 0 }),
    {
        RetryStrategy { kind: self.kind, max_retries, current_retries: 0 }
    }

    /// Whether this strategy recognises the rejection.
    pub fn recognises(&self, raw_log: &str) -> (found: bool)
        ensures
            found == is_rejection_of(self.kind, raw_log@),
    {
        match self.kind {
            RetryKind::AccountSequence => has_account_sequence_error(raw_log),
            RetryKind::InsufficientFee => has_insufficient_fee(raw_log),
        }
    }

    /// Classifies a rejection and decides on it.
    pub fn decide(&self, raw_log: &str) -> (decision: RetryDecision)
        ensures
            decision == decision_of(*self, raw_log@),
    {
        if !self.recognises(raw_log) {
            RetryDecision::NotApplicable
        } else if self.current_retries < self.max_retries {
            RetryDecision::Retry
        } else {
            RetryDecision::Exhausted
        }
    }
}

/// Finds the first strategy that recognises the rejection.
pub fn find_applicable(strategies: &Vec<RetryStrategy>, raw_log: &str) -> (index: usize)
    ensures
        index == first_applicable(strategies@, raw_log@, 0),
        index <= strategies@.len(),
{
    let mut i: usize = 0;
    while i < strategies.len()
        invariant
            i <= strategies@.len(),
            first_applicable(strategies@, raw_log@, 0) == first_applicable(
                strategies@,
                raw_log@,
                i as int,
            ),
        decreases strategies@.len() - i,
    {
        if strategies[i].recognises(raw_log) {
            return i;
        }
        i += 1;
    }
    i
}

} // verus!
