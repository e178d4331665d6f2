//! Chain metadata and the externally supplied toggles.

use vstd::prelude::*;
use vstd::string::StringSliceAdditionalSpecFns;

verus! {

/// A token that fees can be paid in. Prices are per gas unit, in billionths
/// of the token.
#[derive(Clone, Debug, PartialEq, Eq)]
pub struct FeeToken {
    pub denom: String,
    pub fixed_min_gas_price: u128,
    pub average_gas_price: u128,
}

/// The mathematical value of a [`FeeToken`].
pub struct FeeTokenView {
    pub denom: Seq<char>,
    pub fixed_min_gas_price: u128,
    pub average_gas_price: u128,
}

impl View for FeeToken {
    type V = FeeTokenView;

    open spec fn view(&self) -> FeeTokenView {
        FeeTokenView {
            denom: self.denom@,
            fixed_min_gas_price: self.fixed_min_gas_price,
            average_gas_price: self.average_gas_price,
        }
    }
}

/// What is known of a chain: fixed for the lifetime of a client. It names
/// at least one fee token.
#[derive(Debug, PartialEq, Eq)]
pub struct ChainInfo {
    chain_id: String,
    bech32_prefix: String,
    coin_type: u32,
    fee_tokens: Vec<FeeToken>,
    grpc_urls: Vec<String>,
}

/// The mathematical value of a [`ChainInfo`].
pub struct ChainInfoView {
    pub chain_id: Seq<char>,
    pub bech32_prefix: Seq<char>,
    pub coin_type: u32,
    pub fee_tokens: Seq<FeeTokenView>,
    pub grpc_urls: Seq<Seq<char>>,
}

impl View for ChainInfo {
    type V = ChainInfoView;

    closed spec fn view(&self) -> ChainInfoView {
        ChainInfoView {
            chain_id: self.chain_id@,
            bech32_prefix: self.bech32_prefix@,
            coin_type: self.coin_type,
            fee_tokens: self.fee_tokens@.map_values(|t: FeeToken| t@),
            grpc_urls: self.grpc_urls@.map_values(|u: String| u@),
        }
    }
}

/// Copies a list of fee tokens.
pub fn clone_fee_tokens(tokens: &Vec<FeeToken>) -> (copy: Vec<FeeToken>)
    ensures
        copy@.map_values(|t: FeeToken| t@) == tokens@.map_values(|t: FeeToken| t@),
{
    let mut copy: Vec<FeeToken> = Vec::new();
    let mut i: usize = 0;
    while i < tokens.len()
        invariant
            i <= tokens@.len(),
            copy@.map_values(|t: FeeToken| t@) == tokens@.take(i as int).map_values(
                |t: FeeToken| t@,
            ),
        decreases tokens@.len() - i,
    {
        let ghost before = copy@;
        let token = FeeToken {
            denom: tokens[i].denom.clone(),
            fixed_min_gas_price: tokens[i].fixed_min_gas_price,
            average_gas_price: tokens[i].average_gas_price,
        };
        copy.push(token);
        assert(copy@.map_values(|t: FeeToken| t@) =~= before.map_values(|t: FeeToken| t@).push(
            tokens@[i as int]@,
        ));
        assert(tokens@.take(i + 1).map_values(|t: FeeToken| t@) =~= tokens@.take(
            i as int,
        ).map_values(|t: FeeToken| t@).push(tokens@[i as int]@));
        i += 1;
    }
    assert(tokens@.take(i as int) =~= tokens@);
    copy
}

/// Copies a list of texts.
pub fn clone_strings(texts: &Vec<String>) -> (copy: Vec<String>)
    ensures
        copy@.map_values(|t: String| t@) == texts@.map_values(|t: String| t@),
{
    let mut copy: Vec<String> = Vec::new();
    let mut i: usize = 0;
    while i < texts.len()
        invariant
            i <= texts@.len(),
            copy@.map_values(|t: String| t@) == texts@.take(i as int).map_values(|t: String| t@),
        decreases texts@.len() - i,
    {
        let ghost before = copy@;
        copy.push(texts[i].clone());
        assert(copy@.map_values(|t: String| t@) =~= before.map_values(|t: String| t@).push(
            texts@[i as int]@,
        ));
        assert(texts@.take(i + 1).map_values(|t: String| t@) =~= texts@.take(i as int).map_values(
            |t: String| t@,
        ).push(texts@[i as int]@));
        i += 1;
    }
    assert(texts@.take(i as int) =~= texts@);
    copy
}

impl Clone for ChainInfo {
    fn clone(&self) -> (copy: ChainInfo)
        ensures
            copy@ == self@,
    {
        proof {
            use_type_invariant(self);
        }
        let fee_tokens = clone_fee_tokens(&self.fee_tokens);
        assert(fee_tokens@.len() == fee_tokens@.map_values(|t: FeeToken| t@).len());
        ChainInfo {
            chain_id: self.chain_id.clone(),
            bech32_prefix: self.bech32_prefix.clone(),
            coin_type: self.coin_type,
            fee_tokens,
            grpc_urls: clone_strings(&self.grpc_urls),
        }
    }
}

impl ChainInfo {
    #[verifier::type_invariant]
    spec fn has_fee_token(&self) -> bool {
        self.fee_tokens@.len() > 0
    }

    /// Assembles the metadata; `None` when no fee token is given.
    pub fn new(
        chain_id: String,
        bech32_prefix: String,
        coin_type: u32,
        fee_tokens: Vec<FeeToken>,
        grpc_urls: Vec<String>,
    ) -> (info: Option<ChainInfo>)
        ensures
            info is Some <==> fee_tokens@.len() > 0,
            info matches Some(c) ==> c@ == (ChainInfoView {
                chain_id: chain_id@,
                bech32_prefix: bech32_prefix@,
                coin_type,
                fee_tokens: fee_tokens@.map_values(|t: FeeToken| t@),
                grpc_urls: grpc_urls@.map_values(|u: String| u@),
            }),
    {
        if fee_tokens.len() == 0 {
            None
        } else {
            Some(ChainInfo { chain_id, bech32_prefix, coin_type, fee_tokens, grpc_urls })
        }
    }

    /// The chain's id.
    pub fn chain_id(&self) -> (id: &String)
        ensures
            id@ == self@.chain_id,
    {
        &self.chain_id
    }

    /// The prefix of the chain's bech32 addresses.
    pub fn bech32_prefix(&self) -> (prefix: &String)
        ensures
            prefix@ == self@.bech32_prefix,
    {
        &self.bech32_prefix
    }

    /// The coin type that keys for this chain are derived with.
    pub fn coin_type(&self) -> (coin_type: u32)
        ensures
            coin_type == self@.coin_type,
    {
        self.coin_type
    }

    /// The endpoints at which the chain's nodes are reached.
    pub fn grpc_urls(&self) -> (urls: &Vec<String>)
        ensures
            urls@.map_values(|u: String| u@) == self@.grpc_urls,
    {
        &self.grpc_urls
    }

    /// The token that fees are paid in: the first one configured.
    pub fn fee_token(&self) -> (token: &FeeToken)
        ensures
            self@.fee_tokens.len() > 0,
            token@ == self@.fee_tokens[0],
    {
        proof {
            use_type_invariant(self);
        }
        &self.fee_tokens[0]
    }
}

/// Toggles that the environment supplies. The gas buffer is a multiplier in
/// thousandths.
#[derive(Clone, Copy, Debug, PartialEq, Eq, Structural)]
pub struct EnvVars {
    pub gas_buffer: Option<u64>,
    pub min_gas: Option<u64>,
    pub disable_wallet_balance_assertion: bool,
    pub disable_manual_interaction: bool,
}

impl EnvVars {
    /// What holds where the environment sets nothing: no override, the
    /// balance asserted, and the operator asked where it falls short.
    pub fn new() -> (vars: EnvVars)
        ensures
            vars == (EnvVars {
                gas_buffer: None,
                min_gas: None,
                disable_wallet_balance_assertion: false,
                disable_manual_interaction: false,
            }),
    {
        EnvVars {
            gas_buffer: None,
            min_gas: None,
            disable_wallet_balance_assertion: false,
            disable_manual_interaction: false,
        }
    }
}

} // verus!

verus! {

/// The longest chain id, in bytes.
pub const MAX_CHAIN_ID_LENGTH: usize = 50;

/// The byte may stand in a chain id: an ASCII letter, a digit, `-`, `_` or
/// `.`.
pub open spec fn is_chain_id_byte(b: u8) -> bool {
    ||| 0x41 <= b <= 0x5a
    ||| 0x61 <= b <= 0x7a
    ||| 0x30 <= b <= 0x39
    ||| b == 0x2d
    ||| b == 0x5f
    ||| b == 0x2e
}

/// The text is a chain id: between one and fifty bytes, all of which may
/// stand in one.
pub open spec fn valid_chain_id(id: Seq<char>) -> bool {
    let bytes = vstd::utf8::encode_utf8(id);
    &&& 1 <= bytes.len() <= MAX_CHAIN_ID_LENGTH
    &&& forall|i: int| 0 <= i < bytes.len() ==> is_chain_id_byte(#[trigger] bytes[i])
}

/// Whether the text is a chain id.
pub fn is_valid_chain_id(id: &str) -> (valid: bool)
    ensures
        valid == valid_chain_id(id@),
{
    let bytes = id.as_bytes();
    if bytes.len() == 0 || bytes.len() > MAX_CHAIN_ID_LENGTH {
        return false;
    }
    let mut i: usize = 0;
    while i < bytes.len()
        invariant
            i <= bytes@.len(),
            bytes@ == vstd::utf8::encode_utf8(id@),
            forall|j: int| 0 <= j < i ==> is_chain_id_byte(#[trigger] bytes@[j]),
        decreases bytes@.len() - i,
    {
        let b = bytes[i];
        let ok = (0x41 <= b && b <= 0x5a) || (0x61 <= b && b <= 0x7a) || (0x30 <= b && b <= 0x39)
            || b == 0x2d || b == 0x5f || b == 0x2e;
        if !ok {
            assert(!is_chain_id_byte(bytes@[i as int]));
            return false;
        }
        i += 1;
    }
    true
}

} // verus!
