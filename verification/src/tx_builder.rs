//! Assembling a transaction: its body, its fee and the document to sign.
//! Nothing here talks to a node, so one body can be signed again for every
//! attempt.

use crate::account::AccountInfo;
use crate::chain::{is_valid_chain_id, valid_chain_id};
use crate::coin::{is_valid_denom, valid_denom, Coin, CoinView};
use crate::error::DaemonError;
use crate::tx_types::{
    envelopes, Any, AnyView, Fee, FeeView, Raw, RawView, SignDoc, SignDocView, TxBody, TxBodyView,
};
use crate::keys::{scheme_for, PrivateKey, PrivateKeyView, SigningScheme};
use crate::wire::{
    auth_info_encoding, body_encoding, encode_auth_info, encode_body, encode_keyed_auth_info,
    encode_public_key, encode_raw, keyed_auth_info_encoding, public_key_encoding, raw_encoding,
};
use vstd::prelude::*;

verus! {

/// The type URL under which a key of the Ethereum-style scheme declares
/// its public key.
pub open spec fn eth_key_type_url() -> Seq<char> {
    "/injective.crypto.v1beta1.ethsecp256k1.PubKey"@
}

/// The encoded auth info of a transaction signed by the key with the given
/// sequence and fee. A key of the standard scheme declares its public key
/// in the standard way, one of the Ethereum-style scheme under that
/// scheme's type URL.
pub open spec fn auth_info_of(key: PrivateKeyView, sequence: u64, fee: FeeView) -> Option<Seq<u8>> {
    match scheme_for(key.coin_type) {
        SigningScheme::Standard => auth_info_encoding(
            key.raw_key,
            sequence,
            fee.gas_limit,
            fee.amount.amount,
            fee.amount.denom,
        ),
        SigningScheme::Ethereum => keyed_auth_info_encoding(
            eth_key_type_url(),
            public_key_encoding(key.public_key),
            sequence,
            fee.gas_limit,
            fee.amount.amount,
            fee.amount.denom,
        ),
    }
}

/// The sign document of a body, a fee and an account on a chain, for the
/// signer with the given private key; or the error.
pub open spec fn sign_doc_of(
    body: TxBodyView,
    fee: FeeView,
    key: PrivateKeyView,
    account: AccountInfo,
    chain_id: Seq<char>,
) -> Result<SignDocView, DaemonError> {
    if !valid_chain_id(chain_id) {
        Err(DaemonError::InvalidChainId)
    } else {
        match (
            body_encoding(body.messages, body.memo, body.timeout_height),
            auth_info_of(key, account.sequence, fee),
        ) {
            (Some(body_bytes), Some(auth_info_bytes)) => Ok(
                SignDocView {
                    body_bytes,
                    auth_info_bytes,
                    chain_id,
                    account_number: account.account_number,
                },
            ),
            _ => Err(DaemonError::Encoding),
        }
    }
}

/// The result, with the document taken by its value.
pub open spec fn sign_doc_result(result: Result<SignDoc, DaemonError>) -> Result<
    SignDocView,
    DaemonError,
> {
    match result {
        Ok(doc) => Ok(doc@),
        Err(e) => Err(e),
    }
}

/// The bytes that a signed transaction is submitted as, or the error.
pub open spec fn raw_bytes_of(raw: RawView) -> Result<Seq<u8>, DaemonError> {
    match raw_encoding(raw.body_bytes, raw.auth_info_bytes, raw.signatures) {
        Some(bytes) => Ok(bytes),
        None => Err(DaemonError::Encoding),
    }
}

/// The result, with the bytes taken by their value.
pub open spec fn bytes_result(result: Result<Vec<u8>, DaemonError>) -> Result<Seq<u8>, DaemonError> {
    match result {
        Ok(bytes) => Ok(bytes@),
        Err(e) => Err(e),
    }
}

impl SignDoc {
    /// Puts a sign document together from its parts.
    pub fn new(
        body_bytes: Vec<u8>,
        auth_info_bytes: Vec<u8>,
        chain_id: String,
        account_number: u64,
    ) -> (doc: SignDoc)
        ensures
            doc@ == (SignDocView {
                body_bytes: body_bytes@,
                auth_info_bytes: auth_info_bytes@,
                chain_id: chain_id@,
                account_number,
            }),
    {
        SignDoc { body_bytes, auth_info_bytes, chain_id, account_number }
    }
}

impl Raw {
    /// Puts a signed transaction together from what was signed and the
    /// signatures.
    pub fn new(doc: SignDoc, signatures: Vec<Vec<u8>>) -> (raw: Raw)
        ensures
            raw@ == (RawView {
                body_bytes: doc@.body_bytes,
                auth_info_bytes: doc@.auth_info_bytes,
                signatures: crate::tx_types::signature_list(signatures@),
            }),
    {
        Raw { body_bytes: doc.body_bytes, auth_info_bytes: doc.auth_info_bytes, signatures }
    }

    /// The bytes that the transaction is submitted as.
    pub fn to_bytes(&self) -> (bytes: Result<Vec<u8>, DaemonError>)
        ensures
            bytes_result(bytes) == raw_bytes_of(self@),
    {
        match encode_raw(&self.body_bytes, &self.auth_info_bytes, &self.signatures) {
            Ok(bytes) => Ok(bytes),
            Err(_) => Err(DaemonError::Encoding),
        }
    }
}

/// Builds transactions around one body.
#[derive(Clone, Debug, PartialEq, Eq)]
pub struct TxBuilder {
    pub body: TxBody,
}

impl TxBuilder {
    /// A builder around the given body.
    pub fn new(body: TxBody) -> (builder: TxBuilder)
        ensures
            builder.body == body,
    {
        TxBuilder { body }
    }

    /// Puts a body together: the messages in their order, the memo, empty
    /// where none is given, and the timeout height.
    pub fn build_body(msgs: Vec<Any>, memo: Option<&str>, timeout: u64) -> (body: TxBody)
        ensures
            body@ == (TxBodyView {
                messages: envelopes(msgs@),
                memo: match memo {
                    Some(text) => text@,
                    None => Seq::<char>::empty(),
                },
                timeout_height: timeout,
            }),
    {
        let memo = match memo {
            Some(text) => text.to_owned(),
            None => String::new(),
        };
        TxBody { messages: msgs, memo, timeout_height: timeout }
    }

    /// Puts a fee together; the denomination must be valid.
    pub fn build_fee(amount: u128, denom: &str, gas_limit: u64) -> (fee: Result<Fee, DaemonError>)
        ensures
            match fee {
                Ok(f) => valid_denom(denom@) && f@ == (FeeView {
                    gas_limit,
                    amount: CoinView { denom: denom@, amount },
                }),
                Err(e) => e == DaemonError::InvalidDenom && !valid_denom(denom@),
            },
    {
        if is_valid_denom(denom) {
            Ok(Fee { gas_limit, amount: Coin { denom: denom.to_owned(), amount } })
        } else {
            Err(DaemonError::InvalidDenom)
        }
    }

    /// Encodes the auth info of a transaction signed by the key.
    pub fn auth_info(key: &PrivateKey, sequence: u64, fee: &Fee) -> (bytes: Option<Vec<u8>>)
        ensures
            match bytes {
                Some(b) => auth_info_of(key@, sequence, fee@) == Some(b@),
                None => auth_info_of(key@, sequence, fee@) is None,
            },
    {
        let encoded = match key.scheme() {
            SigningScheme::Standard => encode_auth_info(
                key.raw_key().as_slice(),
                sequence,
                fee.gas_limit,
                fee.amount.amount,
                fee.amount.denom.as_str(),
            ),
            SigningScheme::Ethereum => {
                let declared = Any {
                    type_url: "/injective.crypto.v1beta1.ethsecp256k1.PubKey".to_owned(),
                    value: encode_public_key(key.public_key()),
                };
                encode_keyed_auth_info(
                    &declared,
                    sequence,
                    fee.gas_limit,
                    fee.amount.amount,
                    fee.amount.denom.as_str(),
                )
            },
        };
        match encoded {
            Ok(bytes) => Some(bytes),
            Err(_) => None,
        }
    }

    /// Assembles the document to sign for a body, a fee and an account on a
    /// chain, with the signer's private key.
    pub fn sign_doc(
        body: &TxBody,
        fee: &Fee,
        key: &PrivateKey,
        account: AccountInfo,
        chain_id: &str,
    ) -> (doc: Result<SignDoc, DaemonError>)
        ensures
            sign_doc_result(doc) == sign_doc_of(body@, fee@, key@, account, chain_id@),
    {
        if !is_valid_chain_id(chain_id) {
            return Err(DaemonError::InvalidChainId);
        }
        let body_bytes = encode_body(&body.messages, body.memo.as_str(), body.timeout_height);
        let auth_info_bytes = TxBuilder::auth_info(key, account.sequence, fee);
        match (body_bytes, auth_info_bytes) {
            (Ok(body_bytes), Some(auth_info_bytes)) => Ok(
                SignDoc::new(
                    body_bytes,
                    auth_info_bytes,
                    chain_id.to_owned(),
                    account.account_number,
                ),
            ),
            _ => Err(DaemonError::Encoding),
        }
    }
}

} // verus!
