//! The signing identity's account number and sequence, as last known.

use crate::error::DaemonError;
use crate::injective::{decode_eth_account, eth_account_decoding};
use crate::wire::{
    base_account_decoding, decode_base_account, decode_vesting_account, vesting_account_decoding,
};
use vstd::prelude::*;

verus! {

/// What the chain records of an account: its number, assigned once, and the
/// sequence that its next transaction must carry.
#[derive(Clone, Copy, Debug, PartialEq, Eq, Structural)]
pub struct AccountInfo {
    pub account_number: u64,
    pub sequence: u64,
}

/// The base record of an account, common to all account encodings.
#[derive(Clone, Debug, PartialEq, Eq)]
pub struct BaseAccount {
    pub address: String,
    pub account_number: u64,
    pub sequence: u64,
}

/// The mathematical value of a [`BaseAccount`].
pub struct BaseAccountView {
    pub address: Seq<char>,
    pub account_number: u64,
    pub sequence: u64,
}

impl View for BaseAccount {
    type V = BaseAccountView;

    open spec fn view(&self) -> BaseAccountView {
        BaseAccountView {
            address: self.address@,
            account_number: self.account_number,
            sequence: self.sequence,
        }
    }
}

/// The cache of the signing identity's account state. It is empty until the
/// first refresh.
#[derive(Clone, Copy, Debug, PartialEq, Eq)]
pub struct AccountStore {
    pub cached: Option<AccountInfo>,
}

impl AccountStore {
    /// A cache that holds nothing yet.
    pub fn new() -> (store: AccountStore)
        ensures
            store.cached is None,
    {
        AccountStore { cached: None }
    }

    /// The last-known account state, if any was ever stored.
    pub fn current(&self) -> (info: Option<AccountInfo>)
        ensures
            info == self.cached,
    {
        self.cached
    }

    /// Overwrites the cache with the state that the node reported.
    pub fn refresh(&mut self, authoritative: AccountInfo)
        ensures
            final(self).cached == Some(authoritative),
    {
        self.cached = Some(authoritative);
    }

    /// Moves the cached sequence one up, so that the next submission does not
    /// reuse the number just handed out. Returns the number handed out, or
    /// `None`, with the cache untouched, when there is nothing cached or the
    /// sequence cannot grow.
    pub fn advance(&mut self) -> (used: Option<u64>)
        ensures
            used == handed_out(*old(self)),
            *final(self) == advanced(*old(self)),
    {
        match self.cached {
            Some(info) => {
                if info.sequence < u64::MAX {
                    self.cached = Some(
                        AccountInfo {
                            account_number: info.account_number,
                            sequence: info.sequence + 1,
                        },
                    );
                    Some(info.sequence)
                } else {
                    None
                }
            },
            None => None,
        }
    }
}

} // verus!

verus! {

/// The base account among what the three known encodings give for an
/// account record. The plain encoding goes first, then the vesting account,
/// then the Ethereum-style account; an encoding that fits and wraps no base
/// account is an error.
pub open spec fn selected_account(
    base: Option<BaseAccountView>,
    vesting: Option<Option<BaseAccountView>>,
    eth: Option<Option<BaseAccountView>>,
) -> Result<BaseAccountView, DaemonError> {
    match base {
        Some(account) => Ok(account),
        None => match vesting {
            Some(Some(account)) => Ok(account),
            Some(None) => Err(DaemonError::MissingBaseAccount),
            None => match eth {
                Some(Some(account)) => Ok(account),
                Some(None) => Err(DaemonError::MissingBaseAccount),
                None => Err(DaemonError::UnknownAccountType),
            },
        },
    }
}

/// The base account of an account record, or the error.
pub open spec fn account_of(bytes: Seq<u8>) -> Result<BaseAccountView, DaemonError> {
    selected_account(
        base_account_decoding(bytes),
        vesting_account_decoding(bytes),
        eth_account_decoding(bytes),
    )
}

/// The result, with the account taken by its value.
pub open spec fn account_result(result: Result<BaseAccount, DaemonError>) -> Result<
    BaseAccountView,
    DaemonError,
> {
    match result {
        Ok(account) => Ok(account@),
        Err(e) => Err(e),
    }
}

/// The value of what an encoding gave.
pub open spec fn wrapped_account(decoded: Option<Option<BaseAccount>>) -> Option<
    Option<BaseAccountView>,
> {
    match decoded {
        Some(Some(account)) => Some(Some(account@)),
        Some(None) => Some(None),
        None => None,
    }
}

/// Picks the base account among what the three known encodings gave.
pub fn select_account(
    base: Option<BaseAccount>,
    vesting: Option<Option<BaseAccount>>,
    eth: Option<Option<BaseAccount>>,
) -> (account: Result<BaseAccount, DaemonError>)
    ensures
        account_result(account) == selected_account(
            match base {
                Some(a) => Some(a@),
                None => None,
            },
            wrapped_account(vesting),
            wrapped_account(eth),
        ),
{
    match base {
        Some(account) => Ok(account),
        None => match vesting {
            Some(Some(account)) => Ok(account),
            Some(None) => Err(DaemonError::MissingBaseAccount),
            None => match eth {
                Some(Some(account)) => Ok(account),
                Some(None) => Err(DaemonError::MissingBaseAccount),
                None => Err(DaemonError::UnknownAccountType),
            },
        },
    }
}

/// Reads an account record in whichever of the known encodings it is, and
/// unwraps the base account.
pub fn parse_account(bytes: &[u8]) -> (account: Result<BaseAccount, DaemonError>)
    ensures
        account_result(account) == account_of(bytes@),
{
    match decode_base_account(bytes) {
        Ok(account) => Ok(account),
        Err(_) => match decode_vesting_account(bytes) {
            Ok(Some(account)) => Ok(account),
            Ok(None) => Err(DaemonError::MissingBaseAccount),
            Err(_) => match decode_eth_account(bytes) {
                Some(Some(account)) => Ok(account),
                Some(None) => Err(DaemonError::MissingBaseAccount),
                None => Err(DaemonError::UnknownAccountType),
            },
        },
    }
}

/// The sequence that an advance hands out, if it hands one out.
pub open spec fn handed_out(store: AccountStore) -> Option<u64> {
    match store.cached {
        Some(info) => if info.sequence < u64::MAX {
            Some(info.sequence)
        } else {
            None
        },
        None => None,
    }
}

/// The store after an advance.
pub open spec fn advanced(store: AccountStore) -> AccountStore {
    match store.cached {
        Some(info) => if info.sequence < u64::MAX {
            AccountStore {
                cached: Some(
                    AccountInfo {
                        account_number: info.account_number,
                        sequence: (info.sequence + 1) as u64,
                    },
                ),
            }
        } else {
            store
        },
        None => store,
    }
}

/// The store after `count` advances.
pub open spec fn advanced_by(store: AccountStore, count: nat) -> AccountStore
    decreases count,
{
    if count == 0 {
        store
    } else {
        advanced_by(advanced(store), (count - 1) as nat)
    }
}

/// No sequence is handed out twice: what an advance hands out after any
/// number of advances in between is larger than what an earlier advance
/// handed out.
pub proof fn lemma_sequences_never_collide(store: AccountStore, between: nat)
    ensures
        match (handed_out(store), handed_out(advanced_by(advanced(store), between))) {
            (Some(earlier), Some(later)) => earlier < later,
            _ => true,
        },
        advanced_by(store, between).cached is Some <==> store.cached is Some,
        advanced_by(store, between).cached matches Some(after) ==> store.cached matches Some(
            before,
        ) && before.sequence <= after.sequence && before.account_number == after.account_number,
    decreases between,
{
    if between > 0 {
        lemma_sequences_never_collide(advanced(store), (between - 1) as nat);
        lemma_sequences_never_collide(advanced(advanced(store)), (between - 1) as nat);
    }
}

impl BaseAccount {
    /// The number and the sequence of the account.
    pub fn info(&self) -> (info: AccountInfo)
        ensures
            info == (AccountInfo {
                account_number: self.account_number,
                sequence: self.sequence,
            }),
    {
        AccountInfo { account_number: self.account_number, sequence: self.sequence }
    }
}

} // verus!
