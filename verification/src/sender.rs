//! The signing identity: a private key on a chain, with the address derived
//! once, and what it computes for a submission.

use crate::account::{
    account_of, account_result, parse_account, AccountInfo, AccountStore, BaseAccount,
};
use crate::chain::{ChainInfo, ChainInfoView, EnvVars};
use crate::coin::{valid_denom, Coin, CoinView};
use crate::error::DaemonError;
use crate::gas::{buffer_gas, buffered_gas, fee_for, fee_from_gas_limit};
use crate::keys::{key_of_words, scheme_for, PrivateKey, PrivateKeyView, SigningScheme};
use crate::retry::{account_sequence_strategy, insufficient_fee_strategy, RetryStrategy};
use crate::text::{contains_text, text_contains};
use crate::tx_broadcaster::{initial, Action, Machine, NodeEvent, TxBroadcaster, TxPlan};
use crate::tx_builder::{bytes_result, raw_bytes_of, sign_doc_of, TxBuilder};
use crate::tx_types::{
    clone_envelopes, envelopes, Any, AnyView, FeeView, Raw, RawView, SignDoc, SignDocView, TxBody,
    TxBodyView,
};
use crate::wire::{
    account_address, account_id_of, bech32_account, derive_address,
    derive_uncompressed_public_key, direct_signatures, encode_account_id, encode_msg_exec,
    encode_msg_send, encode_sign_doc, hash_keccak256, keccak256, msg_exec_encoding,
    msg_send_encoding, parse_account_id, prehash_signature, sign_direct, sign_doc_encoding,
    sign_prehash, uncompressed_public_key,
};
use vstd::slice::slice_subrange;
use vstd::prelude::*;

verus! {

/// Options of a sender. With a granter set, the sender submits on behalf of
/// that account, under an authorization that the account granted.
#[derive(Clone, Debug, PartialEq, Eq)]
#[non_exhaustive]
pub struct SenderOptions {
    pub authz_granter: Option<String>,
}

impl SenderOptions {
    /// No option set.
    pub fn new() -> (options: SenderOptions)
        ensures
            options.authz_granter is None,
    {
        SenderOptions { authz_granter: None }
    }

    /// Sets the account on whose behalf the sender submits.
    pub fn authz_granter(self, granter: &str) -> (options: SenderOptions)
        ensures
            options.authz_granter matches Some(g) && g@ == granter@,
    {
        let mut options = self;
        options.authz_granter = Some(granter.to_owned());
        options
    }
}

impl Default for SenderOptions {
    fn default() -> (options: SenderOptions)
        ensures
            options.authz_granter is None,
    {
        SenderOptions { authz_granter: None }
    }
}

/// The granter of the options, as a value.
pub open spec fn granter_of(options: SenderOptions) -> Option<Seq<char>> {
    match options.authz_granter {
        Some(g) => Some(g@),
        None => None,
    }
}

/// The type URL of the authorization-execution message.
pub open spec fn msg_exec_type_url() -> Seq<char> {
    "/cosmos.authz.v1beta1.MsgExec"@
}

/// The type URL of the bank send message.
pub open spec fn msg_send_type_url() -> Seq<char> {
    "/cosmos.bank.v1beta1.MsgSend"@
}

/// The operator's answer confirms the top-up: it holds a `y`, small or
/// capital.
pub open spec fn confirms(input: Seq<char>) -> bool {
    text_contains(input, "y"@) || text_contains(input, "Y"@)
}

/// Whether the operator's answer confirms the top-up.
pub fn operator_confirms(input: &str) -> (yes: bool)
    ensures
        yes == confirms(input@),
{
    contains_text(input, "y") || contains_text(input, "Y")
}

/// Signs transactions and derives the addresses they come from.
#[derive(Debug, PartialEq, Eq)]
pub struct Sender {
    private_key: PrivateKey,
    chain_info: ChainInfo,
    options: SenderOptions,
    env: EnvVars,
    address: String,
}

/// The mathematical value of a [`Sender`].
pub struct SenderView {
    pub key: PrivateKeyView,
    pub chain: ChainInfoView,
    pub authz_granter: Option<Seq<char>>,
    pub env: EnvVars,
    pub address: Seq<char>,
}

impl View for Sender {
    type V = SenderView;

    closed spec fn view(&self) -> SenderView {
        SenderView {
            key: self.private_key@,
            chain: self.chain_info@,
            authz_granter: granter_of(self.options),
            env: self.env,
            address: self.address@,
        }
    }
}

/// The coordinates of an uncompressed curve point: its 64 bytes after the
/// leading byte; `None` where the bytes are not 65.
pub open spec fn point_coordinates(point: Seq<u8>) -> Option<Seq<u8>> {
    if point.len() == 65 {
        Some(point.subrange(1, 65))
    } else {
        None
    }
}

/// The last twenty bytes of a digest of 32 bytes; `None` where the bytes
/// are not 32.
pub open spec fn digest_tail(digest: Seq<u8>) -> Option<Seq<u8>> {
    if digest.len() == 32 {
        Some(digest.subrange(12, 32))
    } else {
        None
    }
}

/// The bytes of an Ethereum-style address: the last twenty bytes of the
/// Keccak-256 digest of the uncompressed public key without its leading
/// byte.
pub open spec fn eth_address_bytes(key: Seq<u8>) -> Option<Seq<u8>> {
    match uncompressed_public_key(key) {
        Some(point) => match point_coordinates(point) {
            Some(coordinates) => digest_tail(keccak256(coordinates)),
            None => None,
        },
        None => None,
    }
}

/// Takes the coordinates out of an uncompressed curve point.
pub fn coordinates_of(point: &[u8]) -> (coordinates: Option<&[u8]>)
    ensures
        match coordinates {
            Some(c) => point_coordinates(point@) == Some(c@),
            None => point_coordinates(point@) is None,
        },
{
    if point.len() == 65 {
        Some(slice_subrange(point, 1, 65))
    } else {
        None
    }
}

/// Takes the last twenty bytes of a digest.
pub fn tail_of(digest: &[u8]) -> (tail: Option<&[u8]>)
    ensures
        match tail {
            Some(t) => digest_tail(digest@) == Some(t@),
            None => digest_tail(digest@) is None,
        },
{
    if digest.len() == 32 {
        Some(slice_subrange(digest, 12, 32))
    } else {
        None
    }
}

/// The Ethereum-style address of a private key under a prefix.
pub open spec fn eth_address_of(prefix: Seq<char>, key: Seq<u8>) -> Option<Seq<char>> {
    match eth_address_bytes(key) {
        Some(bytes) => bech32_account(prefix, bytes),
        None => None,
    }
}

/// The address of a key under a prefix, by the scheme that the key's coin
/// type selects.
pub open spec fn address_of(prefix: Seq<char>, key: PrivateKeyView) -> Option<Seq<char>> {
    match scheme_for(key.coin_type) {
        SigningScheme::Standard => account_address(prefix, key.raw_key),
        SigningScheme::Ethereum => eth_address_of(prefix, key.raw_key),
    }
}

/// The sender that a key makes on a chain, or the error.
pub open spec fn sender_of(
    key: PrivateKeyView,
    chain: ChainInfoView,
    authz_granter: Option<Seq<char>>,
    env: EnvVars,
) -> Result<SenderView, DaemonError> {
    match address_of(chain.bech32_prefix, key) {
        Some(address) => Ok(SenderView { key, chain, authz_granter, env, address }),
        None => Err(DaemonError::InvalidAddress),
    }
}

/// The sender that a mnemonic phrase makes on a chain, or the error.
pub open spec fn sender_of_words(
    words: Seq<char>,
    chain: ChainInfoView,
    authz_granter: Option<Seq<char>>,
) -> Result<SenderView, DaemonError> {
    match key_of_words(words, 0, 0, chain.coin_type) {
        Ok(key) => sender_of(
            key,
            chain,
            authz_granter,
            EnvVars {
                gas_buffer: None,
                min_gas: None,
                disable_wallet_balance_assertion: false,
                disable_manual_interaction: false,
            },
        ),
        Err(e) => Err(e),
    }
}

/// The result, with the sender taken by its value.
pub open spec fn sender_result(result: Result<Sender, DaemonError>) -> Result<
    SenderView,
    DaemonError,
> {
    match result {
        Ok(sender) => Ok(sender@),
        Err(e) => Err(e),
    }
}

/// The account that messages are sent from: the granter, where one is set,
/// in its canonical spelling, else the sender itself.
pub open spec fn message_sender_of(s: SenderView) -> Result<Seq<char>, DaemonError> {
    match s.authz_granter {
        Some(granter) => match account_id_of(granter) {
            Some(id) => Ok(id),
            None => Err(DaemonError::InvalidAddress),
        },
        None => Ok(s.address),
    }
}

/// The result, with the text taken by its value.
pub open spec fn text_result(result: Result<String, DaemonError>) -> Result<Seq<char>, DaemonError> {
    match result {
        Ok(text) => Ok(text@),
        Err(e) => Err(e),
    }
}

/// The messages as they are simulated and submitted: under a granted
/// authorization they are wrapped, all together, in one
/// authorization-execution message whose grantee is the sender.
pub open spec fn wrapped(s: SenderView, msgs: Seq<AnyView>) -> Seq<AnyView> {
    if s.authz_granter is Some {
        seq![
            AnyView { type_url: msg_exec_type_url(), value: msg_exec_encoding(s.address, msgs) },
        ]
    } else {
        msgs
    }
}

/// The state in which the broadcaster of a sender's submission starts:
/// nothing asked yet, the sender's toggles and fee token, the account state
/// as cached, and the strategy for underpriced fees ahead of that for stale
/// sequences, each with its default ceiling.
pub open spec fn fresh_broadcaster(s: SenderView, cached: Option<AccountInfo>) -> Machine {
    Machine {
        strategies: seq![
            RetryStrategy {
                kind: crate::retry::RetryKind::InsufficientFee,
                max_retries: crate::retry::DEFAULT_FEE_RETRIES,
                current_retries: 0,
            },
            RetryStrategy {
                kind: crate::retry::RetryKind::AccountSequence,
                max_retries: crate::retry::DEFAULT_SEQUENCE_RETRIES,
                current_retries: 0,
            },
        ],
        ..initial(s.env, s.chain.fee_tokens[0], cached)
    }
}

/// The bank send message of coins from the message sender to a recipient;
/// or the error.
pub open spec fn bank_send_msg_of(s: SenderView, recipient: Seq<char>, amount: Seq<CoinView>) -> Result<
    AnyView,
    DaemonError,
> {
    match (message_sender_of(s), account_id_of(recipient)) {
        (Ok(from), Some(to)) => if crate::coin::valid_coins(amount) {
            Ok(
                AnyView {
                    type_url: msg_send_type_url(),
                    value: msg_send_encoding(from, to, amount),
                },
            )
        } else {
            Err(DaemonError::InvalidDenom)
        },
        _ => Err(DaemonError::InvalidAddress),
    }
}

/// The result, with the message taken by its value.
pub open spec fn any_result(result: Result<Any, DaemonError>) -> Result<AnyView, DaemonError> {
    match result {
        Ok(any) => Ok(any@),
        Err(e) => Err(e),
    }
}

/// The signed transaction of a sign document, by the scheme that the key's
/// coin type selects; or the error.
pub open spec fn signed(key: PrivateKeyView, doc: SignDocView) -> Result<RawView, DaemonError> {
    match scheme_for(key.coin_type) {
        SigningScheme::Standard => match direct_signatures(
            key.raw_key,
            doc.body_bytes,
            doc.auth_info_bytes,
            doc.chain_id,
            doc.account_number,
        ) {
            Some(signatures) => Ok(
                RawView {
                    body_bytes: doc.body_bytes,
                    auth_info_bytes: doc.auth_info_bytes,
                    signatures,
                },
            ),
            None => Err(DaemonError::Signing),
        },
        SigningScheme::Ethereum => match sign_doc_encoding(
            doc.body_bytes,
            doc.auth_info_bytes,
            doc.chain_id,
            doc.account_number,
        ) {
            None => Err(DaemonError::Encoding),
            Some(bytes) => match prehash_signature(key.raw_key, keccak256(bytes)) {
                Some(signature) => Ok(
                    RawView {
                        body_bytes: doc.body_bytes,
                        auth_info_bytes: doc.auth_info_bytes,
                        signatures: seq![signature],
                    },
                ),
                None => Err(DaemonError::Signing),
            },
        },
    }
}

/// The result, with the transaction taken by its value.
pub open spec fn raw_result(result: Result<Raw, DaemonError>) -> Result<RawView, DaemonError> {
    match result {
        Ok(raw) => Ok(raw@),
        Err(e) => Err(e),
    }
}

/// The signed transaction that the sender builds around a body for an
/// account state, a gas limit and a fee amount in the chain's fee token; or
/// the error.
pub open spec fn built(
    s: SenderView,
    body: TxBodyView,
    account: AccountInfo,
    gas_limit: u64,
    fee_amount: u128,
) -> Result<RawView, DaemonError> {
    let denom = s.chain.fee_tokens[0].denom;
    if !valid_denom(denom) {
        Err(DaemonError::InvalidDenom)
    } else {
        match sign_doc_of(
            body,
            FeeView { gas_limit, amount: CoinView { denom, amount: fee_amount } },
            s.key,
            account,
            s.chain.chain_id,
        ) {
            Ok(doc) => signed(s.key, doc),
            Err(e) => Err(e),
        }
    }
}

/// The bytes of the transaction that carries out a plan for the given
/// messages and memo; or the error.
pub open spec fn plan_bytes(
    s: SenderView,
    messages: Seq<AnyView>,
    memo: Seq<char>,
    plan: TxPlan,
) -> Result<Seq<u8>, DaemonError> {
    match built(
        s,
        TxBodyView { messages, memo, timeout_height: plan.timeout_height },
        AccountInfo { account_number: plan.account_number, sequence: plan.sequence },
        plan.gas_limit,
        plan.fee_amount,
    ) {
        Ok(raw) => raw_bytes_of(raw),
        Err(e) => Err(e),
    }
}

impl Clone for Sender {
    fn clone(&self) -> (copy: Sender)
        ensures
            copy@ == self@,
    {
        proof {
            use_type_invariant(self);
        }
        let options = SenderOptions {
            authz_granter: match &self.options.authz_granter {
                Some(g) => Some(g.clone()),
                None => None,
            },
        };
        Sender {
            private_key: self.private_key.clone(),
            chain_info: self.chain_info.clone(),
            options,
            env: self.env,
            address: self.address.clone(),
        }
    }
}

impl Sender {
    #[verifier::type_invariant]
    spec fn address_matches(&self) -> bool {
        address_of(self.chain_info@.bech32_prefix, self.private_key@) == Some(self.address@)
    }

    /// Derives the Ethereum-style address of a private key under a prefix.
    pub fn eth_address(prefix: &str, key: &[u8]) -> (address: Option<String>)
        ensures
            match address {
                Some(a) => eth_address_of(prefix@, key@) == Some(a@),
                None => eth_address_of(prefix@, key@) is None,
            },
    {
        let point = match derive_uncompressed_public_key(key) {
            Ok(point) => point,
            Err(_) => {
                return None;
            },
        };
        let coordinates = match coordinates_of(point.as_slice()) {
            Some(coordinates) => coordinates,
            None => {
                return None;
            },
        };
        let digest = hash_keccak256(coordinates);
        match tail_of(digest.as_slice()) {
            Some(tail) => match encode_account_id(prefix, tail) {
                Ok(address) => Some(address),
                Err(_) => None,
            },
            None => None,
        }
    }

    /// Makes a sender of a private key on a chain, and derives its address.
    pub fn from_private_key(
        chain_info: ChainInfo,
        private_key: PrivateKey,
        options: SenderOptions,
        env: EnvVars,
    ) -> (sender: Result<Sender, DaemonError>)
        ensures
            sender_result(sender) == sender_of(private_key@, chain_info@, granter_of(options), env),
    {
        let derived = match private_key.scheme() {
            SigningScheme::Standard => match derive_address(
                chain_info.bech32_prefix().as_str(),
                private_key.raw_key().as_slice(),
            ) {
                Ok(address) => Some(address),
                Err(_) => None,
            },
            SigningScheme::Ethereum => Sender::eth_address(
                chain_info.bech32_prefix().as_str(),
                private_key.raw_key().as_slice(),
            ),
        };
        match derived {
            Some(address) => Ok(Sender { private_key, chain_info, options, env, address }),
            None => Err(DaemonError::InvalidAddress),
        }
    }

    /// Makes a sender from a mnemonic phrase, without options.
    pub fn from_mnemonic(chain_info: ChainInfo, mnemonic: &str) -> (sender: Result<
        Sender,
        DaemonError,
    >)
        ensures
            sender_result(sender) == sender_of_words(mnemonic@, chain_info@, None),
    {
        Sender::from_mnemonic_with_options(chain_info, mnemonic, SenderOptions::new())
    }

    /// Makes a sender from a mnemonic phrase: its key is the first of the
    /// first account, derived for the chain's coin type.
    pub fn from_mnemonic_with_options(
        chain_info: ChainInfo,
        mnemonic: &str,
        options: SenderOptions,
    ) -> (sender: Result<Sender, DaemonError>)
        ensures
            sender_result(sender) == sender_of_words(mnemonic@, chain_info@, granter_of(options)),
    {
        match PrivateKey::from_words(mnemonic, 0, 0, chain_info.coin_type()) {
            Ok(private_key) => Sender::from_private_key(
                chain_info,
                private_key,
                options,
                EnvVars::new(),
            ),
            Err(e) => Err(e),
        }
    }

    /// Replaces the toggles that the environment supplied.
    pub fn with_env(self, env: EnvVars) -> (sender: Sender)
        ensures
            sender@ == (SenderView { env, ..self@ }),
    {
        proof {
            use_type_invariant(&self);
        }
        let mut sender = self;
        sender.env = env;
        sender
    }

    /// Sets the account on whose behalf the sender submits.
    pub fn with_authz(&mut self, granter: String)
        ensures
            final(self)@ == (SenderView { authz_granter: Some(granter@), ..old(self)@ }),
    {
        proof {
            use_type_invariant(&*self);
        }
        self.options.authz_granter = Some(granter);
    }

    /// The private key.
    pub fn private_key(&self) -> (key: &PrivateKey)
        ensures
            key@ == self@.key,
    {
        &self.private_key
    }

    /// The chain that the sender signs for.
    pub fn chain_info(&self) -> (chain: &ChainInfo)
        ensures
            chain@ == self@.chain,
    {
        &self.chain_info
    }

    /// The toggles that the environment supplied.
    pub fn env(&self) -> (env: EnvVars)
        ensures
            env == self@.env,
    {
        self.env
    }

    /// The sender's address: that of its key under the chain's prefix.
    pub fn pub_addr(&self) -> (address: String)
        ensures
            address@ == self@.address,
            address_of(self@.chain.bech32_prefix, self@.key) == Some(address@),
    {
        proof {
            use_type_invariant(self);
        }
        self.address.clone()
    }

    /// The sender's address.
    pub fn address(&self) -> (address: String)
        ensures
            address@ == self@.address,
    {
        self.pub_addr()
    }

    /// The sender's address as text.
    pub fn pub_addr_str(&self) -> (address: String)
        ensures
            address@ == self@.address,
    {
        self.pub_addr()
    }

    /// The account that messages are sent from.
    pub fn message_sender(&self) -> (account: Result<String, DaemonError>)
        ensures
            text_result(account) == message_sender_of(self@),
    {
        match &self.options.authz_granter {
            Some(granter) => match parse_account_id(granter.as_str()) {
                Ok(id) => Ok(id),
                Err(_) => Err(DaemonError::InvalidAddress),
            },
            None => Ok(self.pub_addr()),
        }
    }

    /// The denomination of the token that fees are paid in.
    pub fn get_fee_token(&self) -> (denom: String)
        ensures
            self@.chain.fee_tokens.len() > 0,
            denom@ == self@.chain.fee_tokens[0].denom,
    {
        self.chain_info.fee_token().denom.clone()
    }

    /// The gas limit and the fee amount for a raw gas estimate.
    pub fn get_fee_from_gas(&self, gas: u64) -> (priced: (u64, u128))
        ensures
            self@.chain.fee_tokens.len() > 0,
            priced.0 == buffered_gas(gas, self@.env.gas_buffer, self@.env.min_gas),
            priced.1 == fee_for(
                priced.0,
                self@.chain.fee_tokens[0].fixed_min_gas_price,
                self@.chain.fee_tokens[0].average_gas_price,
            ),
    {
        let token = self.chain_info.fee_token();
        let gas_limit = buffer_gas(gas, self.env.gas_buffer, self.env.min_gas);
        let fee = fee_from_gas_limit(
            gas_limit,
            token.fixed_min_gas_price,
            token.average_gas_price,
        );
        (gas_limit, fee)
    }

    /// The gas limit and the fee, as a coin, for the gas that a simulation
    /// reported.
    pub fn simulate(&self, gas_needed: u64) -> (priced: (u64, Coin))
        ensures
            self@.chain.fee_tokens.len() > 0,
            priced.0 == buffered_gas(gas_needed, self@.env.gas_buffer, self@.env.min_gas),
            priced.1@ == (CoinView {
                denom: self@.chain.fee_tokens[0].denom,
                amount: fee_for(
                    priced.0,
                    self@.chain.fee_tokens[0].fixed_min_gas_price,
                    self@.chain.fee_tokens[0].average_gas_price,
                ) as u128,
            }),
    {
        let (gas_limit, fee) = self.get_fee_from_gas(gas_needed);
        (gas_limit, Coin { denom: self.get_fee_token(), amount: fee })
    }

    /// Whether a balance covers the fee of a transaction that needs the
    /// given gas; the error names what was expected and what there is.
    pub fn has_enough_balance_for_gas(&self, gas: u64, balance: u128) -> (enough: Result<
        (),
        DaemonError,
    >)
        ensures
            self@.chain.fee_tokens.len() > 0,
            ({
                let fee = fee_for(
                    buffered_gas(gas, self@.env.gas_buffer, self@.env.min_gas) as u64,
                    self@.chain.fee_tokens[0].fixed_min_gas_price,
                    self@.chain.fee_tokens[0].average_gas_price,
                ) as u128;
                let denom = self@.chain.fee_tokens[0].denom;
                match enough {
                    Ok(_) => balance >= fee,
                    Err(e) => balance < fee && e@ == (crate::error::DaemonErrorView::NotEnoughBalance {
                        expected: CoinView { denom, amount: fee },
                        current: CoinView { denom, amount: balance },
                    }),
                }
            }),
    {
        let (_, fee) = self.get_fee_from_gas(gas);
        if balance >= fee {
            Ok(())
        } else {
            Err(
                DaemonError::NotEnoughBalance {
                    expected: Coin { denom: self.get_fee_token(), amount: fee },
                    current: Coin { denom: self.get_fee_token(), amount: balance },
                },
            )
        }
    }

    /// The base account in the record that the node gave for the sender's
    /// address.
    pub fn base_account(&self, record: &[u8]) -> (account: Result<BaseAccount, DaemonError>)
        ensures
            account_result(account) == account_of(record@),
    {
        parse_account(record)
    }

    /// Signs a document, by the scheme that the key's coin type selects.
    pub fn sign(&self, sign_doc: SignDoc) -> (raw: Result<Raw, DaemonError>)
        ensures
            raw_result(raw) == signed(self@.key, sign_doc@),
    {
        match self.private_key.scheme() {
            SigningScheme::Standard => {
                let signatures = sign_direct(
                    self.private_key.raw_key().as_slice(),
                    &sign_doc.body_bytes,
                    &sign_doc.auth_info_bytes,
                    sign_doc.chain_id.as_str(),
                    sign_doc.account_number,
                );
                match signatures {
                    Ok(signatures) => Ok(Raw::new(sign_doc, signatures)),
                    Err(_) => Err(DaemonError::Signing),
                }
            },
            SigningScheme::Ethereum => {
                let bytes = match encode_sign_doc(
                    &sign_doc.body_bytes,
                    &sign_doc.auth_info_bytes,
                    sign_doc.chain_id.as_str(),
                    sign_doc.account_number,
                ) {
                    Ok(bytes) => bytes,
                    Err(_) => {
                        return Err(DaemonError::Encoding);
                    },
                };
                let digest = hash_keccak256(bytes.as_slice());
                match sign_prehash(self.private_key.raw_key().as_slice(), digest.as_slice()) {
                    Ok(signature) => {
                        let mut signatures: Vec<Vec<u8>> = Vec::new();
                        signatures.push(signature);
                        assert(crate::tx_types::signature_list(signatures@) =~= seq![signature@]);
                        Ok(Raw::new(sign_doc, signatures))
                    },
                    Err(_) => Err(DaemonError::Signing),
                }
            },
        }
    }

    /// Builds and signs the transaction around a body, for an account
    /// state, a gas limit and a fee amount.
    pub fn build(
        &self,
        body: &TxBody,
        account: AccountInfo,
        gas_limit: u64,
        fee_amount: u128,
    ) -> (raw: Result<Raw, DaemonError>)
        ensures
            raw_result(raw) == built(self@, body@, account, gas_limit, fee_amount),
    {
        let denom = self.get_fee_token();
        let fee = match TxBuilder::build_fee(fee_amount, denom.as_str(), gas_limit) {
            Ok(fee) => fee,
            Err(e) => {
                return Err(e);
            },
        };
        let doc = TxBuilder::sign_doc(
            body,
            &fee,
            &self.private_key,
            account,
            self.chain_info.chain_id().as_str(),
        );
        match doc {
            Ok(doc) => self.sign(doc),
            Err(e) => Err(e),
        }
    }

    /// The transaction to hand to the node for simulation: the body, signed
    /// for the given account state with no gas and no fee.
    pub fn calculate_gas(&self, tx_body: &TxBody, sequence: u64, account_number: u64) -> (bytes:
        Result<Vec<u8>, DaemonError>)
        ensures
            bytes_result(bytes) == (match built(
                self@,
                tx_body@,
                AccountInfo { account_number, sequence },
                0,
                0,
            ) {
                Ok(raw) => raw_bytes_of(raw),
                Err(e) => Err(e),
            }),
    {
        match self.build(tx_body, AccountInfo { account_number, sequence }, 0, 0) {
            Ok(raw) => raw.to_bytes(),
            Err(e) => Err(e),
        }
    }

    /// Wraps the messages for submission: unchanged without a granter, all
    /// in one authorization-execution message with one.
    pub fn wrap_msgs(&self, msgs: Vec<Any>) -> (out: Vec<Any>)
        ensures
            envelopes(out@) == wrapped(self@, envelopes(msgs@)),
    {
        if self.options.authz_granter.is_some() {
            let value = encode_msg_exec(self.address.as_str(), &msgs);
            let mut out: Vec<Any> = Vec::new();
            out.push(Any { type_url: "/cosmos.authz.v1beta1.MsgExec".to_owned(), value });
            assert(envelopes(out@) =~= wrapped(self@, envelopes(msgs@)));
            out
        } else {
            msgs
        }
    }

    /// Starts the submission of the messages: they are wrapped where a
    /// granter is set, and go with the memo, empty where none is given, to a
    /// broadcaster that first retries underpriced fees, then stale
    /// sequences.
    pub fn commit_tx_any(&self, msgs: Vec<Any>, memo: Option<&str>, account: AccountStore) -> (
        submission: Submission)
        ensures
            self@.chain.fee_tokens.len() > 0,
            envelopes(submission.messages@) == wrapped(self@, envelopes(msgs@)),
            submission.memo@ == (match memo {
                Some(text) => text@,
                None => Seq::<char>::empty(),
            }),
            submission.broadcaster@ == fresh_broadcaster(self@, account.cached),
    {
        let messages = self.wrap_msgs(msgs);
        let memo = match memo {
            Some(text) => text.to_owned(),
            None => String::new(),
        };
        let token = self.chain_info.fee_token();
        let fee_token = crate::chain::FeeToken {
            denom: token.denom.clone(),
            fixed_min_gas_price: token.fixed_min_gas_price,
            average_gas_price: token.average_gas_price,
        };
        let broadcaster = TxBroadcaster::new(self.env, fee_token, account).add_strategy(
            insufficient_fee_strategy(),
        ).add_strategy(account_sequence_strategy());
        assert(broadcaster@.strategies =~= seq![
            RetryStrategy {
                kind: crate::retry::RetryKind::InsufficientFee,
                max_retries: crate::retry::DEFAULT_FEE_RETRIES,
                current_retries: 0,
            },
            RetryStrategy {
                kind: crate::retry::RetryKind::AccountSequence,
                max_retries: crate::retry::DEFAULT_SEQUENCE_RETRIES,
                current_retries: 0,
            },
        ]);
        Submission { messages, memo, broadcaster }
    }

    /// The bank send message of coins from the message sender to a
    /// recipient.
    pub fn bank_send_msg(&self, recipient: &str, coins: &Vec<Coin>) -> (msg: Result<
        Any,
        DaemonError,
    >)
        ensures
            any_result(msg) == bank_send_msg_of(self@, recipient@, crate::coin::coins(coins@)),
    {
        let from = match self.message_sender() {
            Ok(from) => from,
            Err(_) => {
                return Err(DaemonError::InvalidAddress);
            },
        };
        let to = match parse_account_id(recipient) {
            Ok(to) => to,
            Err(_) => {
                return Err(DaemonError::InvalidAddress);
            },
        };
        let amount = match crate::coin::parse_cw_coins(coins) {
            Ok(amount) => amount,
            Err(e) => {
                return Err(e);
            },
        };
        let value = encode_msg_send(from.as_str(), to.as_str(), &amount);
        Ok(Any { type_url: "/cosmos.bank.v1beta1.MsgSend".to_owned(), value })
    }

    /// Starts the submission of a bank send, with the memo `sending
    /// tokens`.
    pub fn bank_send(&self, recipient: &str, coins: &Vec<Coin>, account: AccountStore) -> (
        submission: Result<Submission, DaemonError>)
        ensures
            match submission {
                Ok(s) => bank_send_msg_of(self@, recipient@, crate::coin::coins(coins@))
                    matches Ok(msg) && envelopes(s.messages@) == wrapped(self@, seq![msg])
                    && s.memo@ == "sending tokens"@ && s.broadcaster@ == fresh_broadcaster(
                    self@,
                    account.cached,
                ),
                Err(e) => bank_send_msg_of(self@, recipient@, crate::coin::coins(coins@)) == Err::<
                    AnyView,
                    DaemonError,
                >(e),
            },
    {
        match self.bank_send_msg(recipient, coins) {
            Ok(msg) => {
                let mut msgs: Vec<Any> = Vec::new();
                msgs.push(msg);
                assert(envelopes(msgs@) =~= seq![msg@]);
                Ok(self.commit_tx_any(msgs, Some("sending tokens"), account))
            },
            Err(e) => Err(e),
        }
    }
}

/// A submission under way: the messages as they are simulated and
/// submitted, the memo, and the state machine that decides what happens
/// next.
#[derive(Clone, Debug, PartialEq, Eq)]
pub struct Submission {
    pub messages: Vec<Any>,
    pub memo: String,
    pub broadcaster: TxBroadcaster,
}

impl Submission {
    /// Takes what happened and says what to do next.
    pub fn step(&mut self, event: NodeEvent) -> (action: Action)
        ensures
            (final(self).broadcaster@, action@) == crate::tx_broadcaster::next(
                old(self).broadcaster@,
                event@,
            ),
            final(self).messages == old(self).messages,
            final(self).memo == old(self).memo,
    {
        self.broadcaster.step(event)
    }

    /// The body of the submission's transaction for a timeout height.
    pub fn body(&self, timeout_height: u64) -> (body: TxBody)
        ensures
            body@ == (TxBodyView {
                messages: envelopes(self.messages@),
                memo: self.memo@,
                timeout_height,
            }),
    {
        TxBody {
            messages: clone_envelopes(&self.messages),
            memo: self.memo.clone(),
            timeout_height,
        }
    }

    /// The bytes to hand to the node for a plan, be it for simulation or
    /// for submission: the submission's transaction, built and signed with
    /// the plan's numbers.
    pub fn tx_bytes(&self, sender: &Sender, plan: &TxPlan) -> (bytes: Result<Vec<u8>, DaemonError>)
        ensures
            bytes_result(bytes) == plan_bytes(sender@, envelopes(self.messages@), self.memo@, *plan),
    {
        let body = self.body(plan.timeout_height);
        let account = AccountInfo { account_number: plan.account_number, sequence: plan.sequence };
        match sender.build(&body, account, plan.gas_limit, plan.fee_amount) {
            Ok(raw) => raw.to_bytes(),
            Err(e) => Err(e),
        }
    }
}

} // verus!
