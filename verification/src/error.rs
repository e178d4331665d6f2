//! The errors of the pipeline.

use crate::coin::{Coin, CoinView};
use crate::retry::RetryKind;
use vstd::prelude::*;

verus! {

/// Why the pipeline gave up.
#[derive(Clone, Debug, PartialEq, Eq)]
pub enum DaemonError {
    /// The node or the network failed; the text is the fault as reported.
    Node(String),
    /// The node rejected the transaction and no retry strategy recognises
    /// the rejection.
    TxFailed { code: u32, reason: String },
    /// The node rejected the transaction, a strategy recognises the
    /// rejection, and its retries are used up.
    RetriesExhausted { kind: RetryKind, retries: u64, code: u32, reason: String },
    /// The signer's balance does not cover the fee.
    NotEnoughBalance { expected: Coin, current: Coin },
    /// The transaction was not seen in a block in time. Its outcome is
    /// unknown: it may still be included.
    ConfirmationTimeout { txhash: String, attempts: u64 },
    /// An event arrived that the current state does not wait for.
    UnexpectedEvent,
    /// The account's sequence cannot grow any further.
    SequenceExhausted,
    /// The chain is too high for a timeout height to be set.
    HeightOutOfRange,
    /// The account record is in none of the known encodings.
    UnknownAccountType,
    /// The account record lacks the base account it should wrap.
    MissingBaseAccount,
    /// The text is not a valid account address.
    InvalidAddress,
    /// The text is not a valid coin denomination.
    InvalidDenom,
    /// The chain id is not acceptable.
    InvalidChainId,
    /// The key material is not a valid private key.
    InvalidKey,
    /// The mnemonic phrase is not valid.
    InvalidMnemonic,
    /// A message could not be encoded.
    Encoding,
    /// The signature could not be produced.
    Signing,
    /// The data could not be compressed.
    Compression,
    /// The response lacks the attribute that was looked for.
    MissingAttribute,
    /// The two blocks sampled do not tell how long a block takes.
    BlockTimeUnknown,
}

/// The mathematical value of a [`DaemonError`].
pub enum DaemonErrorView {
    Node(Seq<char>),
    TxFailed { code: u32, reason: Seq<char> },
    RetriesExhausted { kind: RetryKind, retries: u64, code: u32, reason: Seq<char> },
    NotEnoughBalance { expected: CoinView, current: CoinView },
    ConfirmationTimeout { txhash: Seq<char>, attempts: u64 },
    UnexpectedEvent,
    SequenceExhausted,
    HeightOutOfRange,
    UnknownAccountType,
    MissingBaseAccount,
    InvalidAddress,
    InvalidDenom,
    InvalidChainId,
    InvalidKey,
    InvalidMnemonic,
    Encoding,
    Signing,
    Compression,
    MissingAttribute,
    BlockTimeUnknown,
}

impl View for DaemonError {
    type V = DaemonErrorView;

    open spec fn view(&self) -> DaemonErrorView {
        match *self {
            DaemonError::Node(m) => DaemonErrorView::Node(m@),
            DaemonError::TxFailed { code, reason } => DaemonErrorView::TxFailed {
                code,
                reason: reason@,
            },
            DaemonError::RetriesExhausted {
                kind,
                retries,
                code,
                reason,
            } => DaemonErrorView::RetriesExhausted { kind, retries, code, reason: reason@ },
            DaemonError::NotEnoughBalance {
                expected,
                current,
            } => DaemonErrorView::NotEnoughBalance { expected: expected@, current: current@ },
            DaemonError::ConfirmationTimeout {
                txhash,
                attempts,
            } => DaemonErrorView::ConfirmationTimeout { txhash: txhash@, attempts },
            DaemonError::UnexpectedEvent => DaemonErrorView::UnexpectedEvent,
            DaemonError::SequenceExhausted => DaemonErrorView::SequenceExhausted,
            DaemonError::HeightOutOfRange => DaemonErrorView::HeightOutOfRange,
            DaemonError::UnknownAccountType => DaemonErrorView::UnknownAccountType,
            DaemonError::MissingBaseAccount => DaemonErrorView::MissingBaseAccount,
            DaemonError::InvalidAddress => DaemonErrorView::InvalidAddress,
            DaemonError::InvalidDenom => DaemonErrorView::InvalidDenom,
            DaemonError::InvalidChainId => DaemonErrorView::InvalidChainId,
            DaemonError::InvalidKey => DaemonErrorView::InvalidKey,
            DaemonError::InvalidMnemonic => DaemonErrorView::InvalidMnemonic,
            DaemonError::Encoding => DaemonErrorView::Encoding,
            DaemonError::Signing => DaemonErrorView::Signing,
            DaemonError::Compression => DaemonErrorView::Compression,
            DaemonError::MissingAttribute => DaemonErrorView::MissingAttribute,
            DaemonError::BlockTimeUnknown => DaemonErrorView::BlockTimeUnknown,
        }
    }
}

} // verus!
