//! Waiting for a submitted transaction to be included in a block.
//!
//! Like the broadcaster, the confirmer decides and leaves the asking and the
//! sleeping to its caller. It polls a bounded number of times; running out is
//! reported as an unknown outcome, since the transaction may still be
//! included later.

use crate::error::{DaemonError, DaemonErrorView};
use crate::tx_resp::{CosmTxResponse, CosmTxResponseView};
use vstd::prelude::*;

verus! {

/// How often the node is asked for a transaction unless configured otherwise.
pub const DEFAULT_CONFIRMATION_POLLS: u64 = 30;

/// How long the caller sleeps between two polls unless configured
/// otherwise, in milliseconds.
pub const DEFAULT_POLL_INTERVAL: u64 = 2_000;

/// Where a confirmation stands.
#[derive(Clone, Copy, Debug, PartialEq, Eq, Structural)]
pub enum ConfirmPhase {
    /// Nothing was asked yet.
    Idle,
    /// The node was asked for the transaction.
    Polling,
    /// The interval between two polls is being waited out.
    Sleeping,
    /// The transaction was found in a block.
    Confirmed,
    /// The confirmation was given up.
    Failed,
}

/// What the confirmer is told.
#[derive(Clone, Debug, PartialEq, Eq)]
pub enum ConfirmEvent {
    /// The caller wants the confirmation to start.
    Begin,
    /// The node does not know the transaction yet.
    NotFound,
    /// The node reported the transaction as included.
    Found(CosmTxResponse),
    /// The interval has passed.
    Slept,
    /// The node or the network failed.
    Fault(String),
}

/// The mathematical value of a [`ConfirmEvent`].
pub enum ConfirmEventView {
    Begin,
    NotFound,
    Found(CosmTxResponseView),
    Slept,
    Fault(Seq<char>),
}

impl View for ConfirmEvent {
    type V = ConfirmEventView;

    open spec fn view(&self) -> ConfirmEventView {
        match *self {
            ConfirmEvent::Begin => ConfirmEventView::Begin,
            ConfirmEvent::NotFound => ConfirmEventView::NotFound,
            ConfirmEvent::Found(response) => ConfirmEventView::Found(response@),
            ConfirmEvent::Slept => ConfirmEventView::Slept,
            ConfirmEvent::Fault(text) => ConfirmEventView::Fault(text@),
        }
    }
}

/// What the confirmer wants done next.
#[derive(Clone, Debug, PartialEq, Eq)]
pub enum ConfirmAction {
    /// Ask the node for the transaction with this hash.
    GetTx { txhash: String },
    /// Wait for one polling interval.
    Sleep,
    /// The transaction is included; this is its record.
    Done(CosmTxResponse),
    /// The confirmation failed.
    Fail(DaemonError),
}

/// The mathematical value of a [`ConfirmAction`].
pub enum ConfirmActionView {
    GetTx { txhash: Seq<char> },
    Sleep,
    Done(CosmTxResponseView),
    Fail(DaemonErrorView),
}

impl View for ConfirmAction {
    type V = ConfirmActionView;

    open spec fn view(&self) -> ConfirmActionView {
        match *self {
            ConfirmAction::GetTx { txhash } => ConfirmActionView::GetTx { txhash: txhash@ },
            ConfirmAction::Sleep => ConfirmActionView::Sleep,
            ConfirmAction::Done(response) => ConfirmActionView::Done(response@),
            ConfirmAction::Fail(error) => ConfirmActionView::Fail(error@),
        }
    }
}

/// A confirmation in progress. `polls` counts the times the node was asked.
#[derive(Clone, Debug, PartialEq, Eq)]
pub struct Confirmer {
    pub txhash: String,
    pub max_polls: u64,
    pub polls: u64,
    pub phase: ConfirmPhase,
}

/// The state of a confirmation, as a mathematical value.
pub struct Confirmation {
    pub txhash: Seq<char>,
    pub max_polls: u64,
    pub polls: u64,
    pub phase: ConfirmPhase,
}

impl View for Confirmer {
    type V = Confirmation;

    open spec fn view(&self) -> Confirmation {
        Confirmation {
            txhash: self.txhash@,
            max_polls: self.max_polls,
            polls: self.polls,
            phase: self.phase,
        }
    }
}

/// The confirmation is over.
pub open spec fn is_settled(phase: ConfirmPhase) -> bool {
    phase == ConfirmPhase::Confirmed || phase == ConfirmPhase::Failed
}

/// The confirmer gives up with the given error.
pub open spec fn giving_up(c: Confirmation, error: DaemonErrorView) -> (
    Confirmation,
    ConfirmActionView,
) {
    (Confirmation { phase: ConfirmPhase::Failed, ..c }, ConfirmActionView::Fail(error))
}

/// The confirmer asks the node once more, if a poll is left.
pub open spec fn polling(c: Confirmation) -> (Confirmation, ConfirmActionView) {
    if c.polls < c.max_polls {
        (
            Confirmation { phase: ConfirmPhase::Polling, polls: (c.polls + 1) as u64, ..c },
            ConfirmActionView::GetTx { txhash: c.txhash },
        )
    } else {
        giving_up(
            c,
            DaemonErrorView::ConfirmationTimeout { txhash: c.txhash, attempts: c.polls },
        )
    }
}

/// The confirmer's next state and what it wants done, for each state and
/// event.
pub open spec fn confirm_next(c: Confirmation, event: ConfirmEventView) -> (
    Confirmation,
    ConfirmActionView,
) {
    if is_settled(c.phase) {
        (c, ConfirmActionView::Fail(DaemonErrorView::UnexpectedEvent))
    } else {
        match (c.phase, event) {
            (_, ConfirmEventView::Fault(text)) => giving_up(c, DaemonErrorView::Node(text)),
            (ConfirmPhase::Idle, ConfirmEventView::Begin) => polling(c),
            (ConfirmPhase::Polling, ConfirmEventView::Found(response)) => (
                Confirmation { phase: ConfirmPhase::Confirmed, ..c },
                ConfirmActionView::Done(response),
            ),
            (ConfirmPhase::Polling, ConfirmEventView::NotFound) => if c.polls < c.max_polls {
                (Confirmation { phase: ConfirmPhase::Sleeping, ..c }, ConfirmActionView::Sleep)
            } else {
                giving_up(
                    c,
                    DaemonErrorView::ConfirmationTimeout { txhash: c.txhash, attempts: c.polls },
                )
            },
            (ConfirmPhase::Sleeping, ConfirmEventView::Slept) => polling(c),
            _ => giving_up(c, DaemonErrorView::UnexpectedEvent),
        }
    }
}

impl Confirmer {
    /// A confirmation of the given hash that has not started.
    pub fn new(txhash: String, max_polls: u64) -> (confirmer: Confirmer)
        ensures
            confirmer@ == (Confirmation {
                txhash: txhash@,
                max_polls,
                polls: 0,
                phase: ConfirmPhase::Idle,
            }),
    {
        Confirmer { txhash, max_polls, polls: 0, phase: ConfirmPhase::Idle }
    }

    /// Whether the confirmation is over.
    pub fn is_finished(&self) -> (finished: bool)
        ensures
            finished == is_settled(self@.phase),
    {
        match self.phase {
            ConfirmPhase::Confirmed => true,
            ConfirmPhase::Failed => true,
            _ => false,
        }
    }

    fn give_up(&mut self, error: DaemonError) -> (action: ConfirmAction)
        ensures
            (final(self)@, action@) == giving_up(old(self)@, error@),
    {
        self.phase = ConfirmPhase::Failed;
        ConfirmAction::Fail(error)
    }

    fn poll(&mut self) -> (action: ConfirmAction)
        ensures
            (final(self)@, action@) == polling(old(self)@),
    {
        if self.polls < self.max_polls {
            self.phase = ConfirmPhase::Polling;
            self.polls = self.polls + 1;
            ConfirmAction::GetTx { txhash: self.txhash.clone() }
        } else {
            let error = DaemonError::ConfirmationTimeout {
                txhash: self.txhash.clone(),
                attempts: self.polls,
            };
            self.give_up(error)
        }
    }

    /// Takes what happened and says what to do next.
    pub fn step(&mut self, event: ConfirmEvent) -> (action: ConfirmAction)
        ensures
            (final(self)@, action@) == confirm_next(old(self)@, event@),
    {
        if self.is_finished() {
            return ConfirmAction::Fail(DaemonError::UnexpectedEvent);
        }
        match event {
            ConfirmEvent::Fault(text) => self.give_up(DaemonError::Node(text)),
            ConfirmEvent::Begin => match self.phase {
                ConfirmPhase::Idle => self.poll(),
                _ => self.give_up(DaemonError::UnexpectedEvent),
            },
            ConfirmEvent::Found(response) => match self.phase {
                ConfirmPhase::Polling => {
                    self.phase = ConfirmPhase::Confirmed;
                    ConfirmAction::Done(response)
                },
                _ => self.give_up(DaemonError::UnexpectedEvent),
            },
            ConfirmEvent::NotFound => match self.phase {
                ConfirmPhase::Polling => {
                    if self.polls < self.max_polls {
                        self.phase = ConfirmPhase::Sleeping;
                        ConfirmAction::Sleep
                    } else {
                        let error = DaemonError::ConfirmationTimeout {
                            txhash: self.txhash.clone(),
                            attempts: self.polls,
                        };
                        self.give_up(error)
                    }
                },
                _ => self.give_up(DaemonError::UnexpectedEvent),
            },
            ConfirmEvent::Slept => match self.phase {
                ConfirmPhase::Sleeping => self.poll(),
                _ => self.give_up(DaemonError::UnexpectedEvent),
            },
        }
    }
}

/// The confirmer after `misses` polls that did not find the transaction,
/// each followed by its sleep, starting from a confirmer that has just
/// asked.
pub open spec fn after_misses(c: Confirmation, misses: nat) -> Confirmation
    decreases misses,
{
    if misses == 0 {
        c
    } else {
        let slept = confirm_next(c, ConfirmEventView::NotFound).0;
        after_misses(confirm_next(slept, ConfirmEventView::Slept).0, (misses - 1) as nat)
    }
}

/// Whatever the confirmer has counted so far, a report of inclusion ends the
/// confirmation with the record that the node gave, unchanged: asking again
/// for an included transaction gives the same result again.
pub proof fn lemma_confirmation_is_repeatable(
    first: Confirmation,
    second: Confirmation,
    response: CosmTxResponseView,
)
    requires
        first.phase == ConfirmPhase::Polling,
        second.phase == ConfirmPhase::Polling,
    ensures
        confirm_next(first, ConfirmEventView::Found(response)).1 == ConfirmActionView::Done(
            response,
        ),
        confirm_next(first, ConfirmEventView::Found(response)).1 == confirm_next(
            second,
            ConfirmEventView::Found(response),
        ).1,
{
}

/// A transaction that the node reports after fewer misses than polls are
/// allowed is confirmed; after as many misses as polls are allowed the
/// confirmation fails as timed out, and the node is asked no further.
pub proof fn lemma_polling_is_bounded(c: Confirmation, misses: nat)
    requires
        c.phase == ConfirmPhase::Polling,
        c.polls <= c.max_polls,
    ensures
        misses <= c.max_polls - c.polls ==> {
            &&& after_misses(c, misses).phase == ConfirmPhase::Polling
            &&& after_misses(c, misses).polls == c.polls + misses
            &&& after_misses(c, misses).txhash == c.txhash
            &&& after_misses(c, misses).max_polls == c.max_polls
        },
        misses == c.max_polls - c.polls ==> confirm_next(
            after_misses(c, misses),
            ConfirmEventView::NotFound,
        ).1 == ConfirmActionView::Fail(
            DaemonErrorView::ConfirmationTimeout { txhash: c.txhash, attempts: c.max_polls },
        ),
    decreases misses,
{
    if misses > 0 && misses <= c.max_polls - c.polls {
        let slept = confirm_next(c, ConfirmEventView::NotFound).0;
        let asked = confirm_next(slept, ConfirmEventView::Slept).0;
        lemma_polling_is_bounded(asked, (misses - 1) as nat);
    }
}

} // verus!
