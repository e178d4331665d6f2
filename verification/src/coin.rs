//! Amounts of a token, and the names that a token can have.

use crate::error::DaemonError;
use vstd::prelude::*;
use vstd::string::StringSliceAdditionalSpecFns;
use vstd::utf8::encode_utf8;

verus! {

/// An amount of the token named by `denom`.
#[derive(Clone, Debug, PartialEq, Eq)]
pub struct Coin {
    pub denom: String,
    pub amount: u128,
}

/// The mathematical value of a [`Coin`].
pub struct CoinView {
    pub denom: Seq<char>,
    pub amount: u128,
}

impl View for Coin {
    type V = CoinView;

    open spec fn view(&self) -> CoinView {
        CoinView { denom: self.denom@, amount: self.amount }
    }
}

/// The mathematical value of a list of coins.
pub open spec fn coins(list: Seq<Coin>) -> Seq<CoinView> {
    list.map_values(|c: Coin| c@)
}

/// The byte may stand in a denomination: an ASCII letter, a digit or `/`.
pub open spec fn is_denom_byte(b: u8) -> bool {
    ||| 0x41 <= b <= 0x5a
    ||| 0x61 <= b <= 0x7a
    ||| 0x30 <= b <= 0x39
    ||| b == 0x2f
}

/// The bytes are a denomination: all of them may stand in one.
pub open spec fn is_denom(bytes: Seq<u8>) -> bool {
    forall|i: int| 0 <= i < bytes.len() ==> is_denom_byte(#[trigger] bytes[i])
}

/// The text is a valid denomination.
pub open spec fn valid_denom(denom: Seq<char>) -> bool {
    is_denom(encode_utf8(denom))
}

/// Every coin of the list has a valid denomination.
pub open spec fn valid_coins(list: Seq<CoinView>) -> bool {
    forall|i: int| 0 <= i < list.len() ==> valid_denom(#[trigger] list[i].denom)
}

/// Makes a coin, as `amount` of `denom`.
pub fn coin(amount: u128, denom: String) -> (c: Coin)
    ensures
        c.amount == amount,
        c.denom == denom,
{
    Coin { denom, amount }
}

/// Whether the text is a valid denomination.
pub fn is_valid_denom(denom: &str) -> (valid: bool)
    ensures
        valid == valid_denom(denom@),
{
    let bytes = denom.as_bytes();
    let mut i: usize = 0;
    while i < bytes.len()
        invariant
            i <= bytes@.len(),
            bytes@ == encode_utf8(denom@),
            forall|j: int| 0 <= j < i ==> is_denom_byte(#[trigger] bytes@[j]),
        decreases bytes@.len() - i,
    {
        let b = bytes[i];
        let ok = (0x41 <= b && b <= 0x5a) || (0x61 <= b && b <= 0x7a) || (0x30 <= b && b <= 0x39)
            || b == 0x2f;
        if !ok {
            assert(!is_denom_byte(bytes@[i as int]));
            return false;
        }
        i += 1;
    }
    true
}

/// Copies a list of coins.
pub fn clone_coins(list: &Vec<Coin>) -> (copy: Vec<Coin>)
    ensures
        coins(copy@) == coins(list@),
{
    let mut copy: Vec<Coin> = Vec::new();
    let mut i: usize = 0;
    while i < list.len()
        invariant
            i <= list@.len(),
            coins(copy@) == coins(list@.take(i as int)),
        decreases list@.len() - i,
    {
        let ghost before = copy@;
        copy.push(Coin { denom: list[i].denom.clone(), amount: list[i].amount });
        assert(coins(copy@) =~= coins(before).push(list@[i as int]@));
        assert(coins(list@.take(i + 1)) =~= coins(list@.take(i as int)).push(list@[i as int]@));
        i += 1;
    }
    assert(list@.take(i as int) =~= list@);
    copy
}

/// Checks the denomination of every coin and hands the coins on: the same
/// coins where all are valid, an error where one is not.
pub fn parse_cw_coins(list: &Vec<Coin>) -> (parsed: Result<Vec<Coin>, DaemonError>)
    ensures
        match parsed {
            Ok(p) => valid_coins(coins(list@)) && coins(p@) == coins(list@),
            Err(e) => e == DaemonError::InvalidDenom && !valid_coins(coins(list@)),
        },
{
    let mut i: usize = 0;
    while i < list.len()
        invariant
            i <= list@.len(),
            forall|j: int| 0 <= j < i ==> valid_denom(#[trigger] coins(list@)[j].denom),
        decreases list@.len() - i,
    {
        if !is_valid_denom(list[i].denom.as_str()) {
            assert(coins(list@)[i as int].denom == list@[i as int].denom@);
            return Err(DaemonError::InvalidDenom);
        }
        assert(coins(list@)[i as int].denom == list@[i as int].denom@);
        i += 1;
    }
    Ok(clone_coins(list))
}

} // verus!
