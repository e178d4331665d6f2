//! The parts of a transaction, as plain values.

use crate::coin::{Coin, CoinView};
use vstd::prelude::*;

verus! {

/// A message envelope: a type URL and the message's binary encoding, which
/// the pipeline never looks into.
#[derive(Clone, Debug, PartialEq, Eq)]
pub struct Any {
    pub type_url: String,
    pub value: Vec<u8>,
}

/// The mathematical value of an [`Any`].
pub struct AnyView {
    pub type_url: Seq<char>,
    pub value: Seq<u8>,
}

impl View for Any {
    type V = AnyView;

    open spec fn view(&self) -> AnyView {
        AnyView { type_url: self.type_url@, value: self.value@ }
    }
}

/// The mathematical value of a list of envelopes.
pub open spec fn envelopes(msgs: Seq<Any>) -> Seq<AnyView> {
    msgs.map_values(|m: Any| m@)
}

/// Copies a list of envelopes.
pub fn clone_envelopes(msgs: &Vec<Any>) -> (copy: Vec<Any>)
    ensures
        envelopes(copy@) == envelopes(msgs@),
{
    let mut copy: Vec<Any> = Vec::new();
    let mut i: usize = 0;
    while i < msgs.len()
        invariant
            i <= msgs@.len(),
            envelopes(copy@) == envelopes(msgs@.take(i as int)),
        decreases msgs@.len() - i,
    {
        let ghost before = copy@;
        copy.push(Any { type_url: msgs[i].type_url.clone(), value: msgs[i].value.clone() });
        assert(envelopes(copy@) =~= envelopes(before).push(msgs@[i as int]@));
        assert(envelopes(msgs@.take(i + 1)) =~= envelopes(msgs@.take(i as int)).push(
            msgs@[i as int]@,
        ));
        i += 1;
    }
    assert(msgs@.take(i as int) =~= msgs@);
    copy
}

/// An unsigned transaction body: the messages in their order, a memo, and
/// the height after which the chain no longer takes the transaction.
#[derive(Clone, Debug, PartialEq, Eq)]
pub struct TxBody {
    pub messages: Vec<Any>,
    pub memo: String,
    pub timeout_height: u64,
}

/// The mathematical value of a [`TxBody`].
pub struct TxBodyView {
    pub messages: Seq<AnyView>,
    pub memo: Seq<char>,
    pub timeout_height: u64,
}

impl View for TxBody {
    type V = TxBodyView;

    open spec fn view(&self) -> TxBodyView {
        TxBodyView {
            messages: envelopes(self.messages@),
            memo: self.memo@,
            timeout_height: self.timeout_height,
        }
    }
}

/// What a transaction pays: a gas limit and an amount of the fee token.
#[derive(Clone, Debug, PartialEq, Eq)]
pub struct Fee {
    pub gas_limit: u64,
    pub amount: Coin,
}

/// The mathematical value of a [`Fee`].
pub struct FeeView {
    pub gas_limit: u64,
    pub amount: CoinView,
}

impl View for Fee {
    type V = FeeView;

    open spec fn view(&self) -> FeeView {
        FeeView { gas_limit: self.gas_limit, amount: self.amount@ }
    }
}

/// The document that is signed: the encoded body, the encoded auth info
/// (signer's public key, sequence, signing mode, fee), the chain id and the
/// account number.
#[derive(Clone, Debug, PartialEq, Eq)]
pub struct SignDoc {
    pub body_bytes: Vec<u8>,
    pub auth_info_bytes: Vec<u8>,
    pub chain_id: String,
    pub account_number: u64,
}

/// The mathematical value of a [`SignDoc`].
pub struct SignDocView {
    pub body_bytes: Seq<u8>,
    pub auth_info_bytes: Seq<u8>,
    pub chain_id: Seq<char>,
    pub account_number: u64,
}

impl View for SignDoc {
    type V = SignDocView;

    open spec fn view(&self) -> SignDocView {
        SignDocView {
            body_bytes: self.body_bytes@,
            auth_info_bytes: self.auth_info_bytes@,
            chain_id: self.chain_id@,
            account_number: self.account_number,
        }
    }
}

/// A signed transaction: what was signed, and the signatures over it.
#[derive(Clone, Debug, PartialEq, Eq)]
pub struct Raw {
    pub body_bytes: Vec<u8>,
    pub auth_info_bytes: Vec<u8>,
    pub signatures: Vec<Vec<u8>>,
}

/// The mathematical value of a list of signatures.
pub open spec fn signature_list(signatures: Seq<Vec<u8>>) -> Seq<Seq<u8>> {
    signatures.map_values(|s: Vec<u8>| s@)
}

/// The mathematical value of a [`Raw`].
pub struct RawView {
    pub body_bytes: Seq<u8>,
    pub auth_info_bytes: Seq<u8>,
    pub signatures: Seq<Seq<u8>>,
}

impl View for Raw {
    type V = RawView;

    open spec fn view(&self) -> RawView {
        RawView {
            body_bytes: self.body_bytes@,
            auth_info_bytes: self.auth_info_bytes@,
            signatures: signature_list(self.signatures@),
        }
    }
}

} // verus!
