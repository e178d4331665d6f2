//! Client-side engine for submitting and confirming transactions against a
//! Cosmos-SDK node: gas pricing, signing, the broadcast-and-retry state
//! machine and block-inclusion confirmation, free of I/O.
//!
//! The library decides and computes; its caller talks to the node. A
//! [`sender::Sender`] holds the key and the chain, and starts a
//! [`sender::Submission`] for a set of messages. The submission's state
//! machine ([`tx_broadcaster`]) is told what the node answered and says what
//! to ask next, up to the hash of an accepted transaction, which a
//! [`confirm::Confirmer`] then follows into a block. What the chain's own
//! libraries compute (encodings, signatures, addresses) is called through
//! the functions of [`wire`] and [`keys`], whose contracts are taken on
//! trust.

pub mod account;
pub mod blocks;
pub mod bounds;
pub mod chain;
pub mod cli;
pub mod coin;
pub mod confirm;
pub mod daemon;
pub mod error;
pub mod gas;
pub mod injective;
pub mod keys;
pub mod retry;
pub mod scripted;
pub mod sender;
pub mod text;
pub mod tx_broadcaster;
pub mod tx_builder;
pub mod tx_resp;
pub mod tx_types;
pub mod wire;
