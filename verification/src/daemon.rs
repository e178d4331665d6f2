//! The daemon: a sender on a chain, and the messages that it submits for
//! contracts. Every operation here prepares a submission; talking to the
//! node is left to the caller.

use crate::account::AccountStore;
use crate::coin::{coins, parse_cw_coins, valid_coins, Coin, CoinView};
use crate::error::DaemonError;
use crate::blocks::{BlockWait, WaitPhase};
use crate::sender::{
    any_result, fresh_broadcaster, message_sender_of, wrapped, Sender, SenderView, Submission,
};
use crate::tx_types::{envelopes, Any, AnyView};
use crate::wire::{
    account_id_of, encode_msg_execute_contract, encode_msg_instantiate_contract,
    encode_msg_instantiate_contract2, encode_msg_migrate_contract, encode_msg_store_code, gzip,
    gzip_stream, msg_execute_contract_encoding, msg_instantiate_contract2_encoding,
    msg_instantiate_contract_encoding, msg_migrate_contract_encoding, msg_store_code_encoding,
    parse_account_id,
};
use vstd::prelude::*;

verus! {

/// The label of a contract that is instantiated without one.
pub open spec fn default_label() -> Seq<char> {
    "instantiate_contract"@
}

/// The type URL of the contract execution message.
pub open spec fn execute_type_url() -> Seq<char> {
    "/cosmwasm.wasm.v1.MsgExecuteContract"@
}

/// The type URL of the contract instantiation message.
pub open spec fn instantiate_type_url() -> Seq<char> {
    "/cosmwasm.wasm.v1.MsgInstantiateContract"@
}

/// The type URL of the contract instantiation message with a salt.
pub open spec fn instantiate2_type_url() -> Seq<char> {
    "/cosmwasm.wasm.v1.MsgInstantiateContract2"@
}

/// The type URL of the contract migration message.
pub open spec fn migrate_type_url() -> Seq<char> {
    "/cosmwasm.wasm.v1.MsgMigrateContract"@
}

/// The type URL of the code upload message.
pub open spec fn store_code_type_url() -> Seq<char> {
    "/cosmwasm.wasm.v1.MsgStoreCode"@
}

/// The text of an optional text: empty where there is none.
pub open spec fn or_empty(text: Option<&str>) -> Seq<char> {
    match text {
        Some(t) => t@,
        None => Seq::<char>::empty(),
    }
}

/// The label of an optional label: the default where there is none.
pub open spec fn or_default_label(label: Option<&str>) -> Seq<char> {
    match label {
        Some(l) => l@,
        None => default_label(),
    }
}

/// The result, with the submission taken by its messages and its memo.
pub open spec fn submission_result(result: Result<Submission, DaemonError>) -> Result<
    (Seq<AnyView>, Seq<char>),
    DaemonError,
> {
    match result {
        Ok(s) => Ok((envelopes(s.messages@), s.memo@)),
        Err(e) => Err(e),
    }
}

/// The submission of one message without a memo; or the error.
pub open spec fn submission_of(s: SenderView, msg: Result<AnyView, DaemonError>) -> Result<
    (Seq<AnyView>, Seq<char>),
    DaemonError,
> {
    match msg {
        Ok(any) => Ok((wrapped(s, seq![any]), Seq::<char>::empty())),
        Err(e) => Err(e),
    }
}

/// The message that executes `msg` on a contract, with funds; or the
/// error.
pub open spec fn execute_msg_of(
    s: SenderView,
    msg: Seq<u8>,
    funds: Seq<CoinView>,
    contract_address: Seq<char>,
) -> Result<AnyView, DaemonError> {
    match (message_sender_of(s), account_id_of(contract_address)) {
        (Ok(sender), Some(contract)) => if valid_coins(funds) {
            Ok(
                AnyView {
                    type_url: execute_type_url(),
                    value: msg_execute_contract_encoding(sender, contract, msg, funds),
                },
            )
        } else {
            Err(DaemonError::InvalidDenom)
        },
        _ => Err(DaemonError::InvalidAddress),
    }
}

/// The canonical spelling of an optional admin: empty where there is none,
/// `None` where the text is no address.
pub open spec fn admin_of(admin: Option<&str>) -> Option<Seq<char>> {
    match admin {
        Some(a) => account_id_of(a@),
        None => Some(Seq::<char>::empty()),
    }
}

/// The message that instantiates a contract from stored code; or the
/// error.
pub open spec fn instantiate_msg_of(
    s: SenderView,
    code_id: u64,
    msg: Seq<u8>,
    label: Option<&str>,
    admin: Option<&str>,
    funds: Seq<CoinView>,
) -> Result<AnyView, DaemonError> {
    match (admin_of(admin), message_sender_of(s)) {
        (Some(admin), Ok(sender)) => if valid_coins(funds) {
            Ok(
                AnyView {
                    type_url: instantiate_type_url(),
                    value: msg_instantiate_contract_encoding(
                        sender,
                        admin,
                        code_id,
                        or_default_label(label),
                        msg,
                        funds,
                    ),
                },
            )
        } else {
            Err(DaemonError::InvalidDenom)
        },
        _ => Err(DaemonError::InvalidAddress),
    }
}

/// The message that instantiates a contract at an address fixed by a
/// salt. It comes from the sender itself, and takes the admin and the funds
/// as they are given.
pub open spec fn instantiate2_msg_of(
    s: SenderView,
    code_id: u64,
    msg: Seq<u8>,
    label: Option<&str>,
    admin: Option<&str>,
    funds: Seq<CoinView>,
    salt: Seq<u8>,
) -> AnyView {
    AnyView {
        type_url: instantiate2_type_url(),
        value: msg_instantiate_contract2_encoding(
            s.address,
            or_empty(admin),
            code_id,
            or_default_label(label),
            msg,
            funds,
            salt,
        ),
    }
}

/// The message that migrates a contract to other code; or the error.
pub open spec fn migrate_msg_of(
    s: SenderView,
    msg: Seq<u8>,
    new_code_id: u64,
    contract_address: Seq<char>,
) -> Result<AnyView, DaemonError> {
    match (message_sender_of(s), account_id_of(contract_address)) {
        (Ok(sender), Some(contract)) => Ok(
            AnyView {
                type_url: migrate_type_url(),
                value: msg_migrate_contract_encoding(sender, contract, new_code_id, msg),
            },
        ),
        _ => Err(DaemonError::InvalidAddress),
    }
}

/// The message that uploads a contract's code, compressed; or the error.
pub open spec fn store_code_msg_of(s: SenderView, wasm: Seq<u8>) -> Result<AnyView, DaemonError> {
    match gzip_stream(wasm) {
        None => Err(DaemonError::Compression),
        Some(compressed) => match message_sender_of(s) {
            Ok(sender) => Ok(
                AnyView {
                    type_url: store_code_type_url(),
                    value: msg_store_code_encoding(sender, compressed),
                },
            ),
            Err(_) => Err(DaemonError::InvalidAddress),
        },
    }
}

/// The type URL of the contract instantiation message with a salt.
pub const INSTANTIATE_2_TYPE_URL: &'static str = "/cosmwasm.wasm.v1.MsgInstantiateContract2";

/// A block's height, its time in nanoseconds since the Unix epoch, and the
/// id of its chain.
#[derive(Clone, Debug, PartialEq, Eq)]
pub struct BlockInfo {
    pub height: u64,
    pub time: u64,
    pub chain_id: String,
}

/// The time in nanoseconds, cut to 64 bits.
pub open spec fn nanos_since_epoch(seconds: u64, nanos: u32) -> int {
    (seconds * 1_000_000_000 + nanos) % 0x1_0000_0000_0000_0000
}

/// Puts a block's info together from its header: the time is given in
/// seconds and nanoseconds since the Unix epoch.
pub fn block_info(height: u64, seconds: u64, nanos: u32, chain_id: String) -> (info: BlockInfo)
    ensures
        info.height == height,
        info.time == nanos_since_epoch(seconds, nanos),
        info.chain_id == chain_id,
{
    assert(seconds * 1_000_000_000 + nanos <= 0xffff_ffff_ffff_ffff * 1_000_000_000 + 0xffff_ffff)
        by (nonlinear_arith)
        requires
            0 <= seconds <= 0xffff_ffff_ffff_ffff,
            0 <= nanos <= 0xffff_ffff,
    ;
    let total: u128 = seconds as u128 * 1_000_000_000 + nanos as u128;
    let time: u64 = (total % 0x1_0000_0000_0000_0000) as u64;
    BlockInfo { height, time, chain_id }
}

/// A sender on a chain.
#[derive(Clone, Debug, PartialEq, Eq)]
pub struct DaemonAsyncBase {
    /// Sender to send transactions to the chain
    pub sender: Sender,
}

fn single(msg: Any) -> (msgs: Vec<Any>)
    ensures
        envelopes(msgs@) == seq![msg@],
{
    let mut msgs: Vec<Any> = Vec::new();
    msgs.push(msg);
    assert(envelopes(msgs@) =~= seq![msg@]);
    msgs
}

impl DaemonAsyncBase {
    /// A daemon around the given sender.
    pub fn new(sender: Sender) -> (daemon: DaemonAsyncBase)
        ensures
            daemon.sender == sender,
    {
        DaemonAsyncBase { sender }
    }

    /// The sender's address.
    pub fn sender(&self) -> (address: String)
        ensures
            address@ == self.sender@.address,
    {
        self.sender.address()
    }

    /// The same daemon with another sender.
    pub fn set_sender(self, sender: Sender) -> (daemon: DaemonAsyncBase)
        ensures
            daemon.sender == sender,
    {
        DaemonAsyncBase { sender }
    }

    /// Starts a wait for a number of blocks.
    pub fn wait_blocks(&self, amount: u64) -> (wait: BlockWait)
        ensures
            wait == (BlockWait {
                amount,
                phase: WaitPhase::Idle,
                end_height: 0,
                last_height: 0,
                block_time: 0,
            }),
    {
        BlockWait::new(amount)
    }

    /// Starts a wait for the next block.
    pub fn next_block(&self) -> (wait: BlockWait)
        ensures
            wait == (BlockWait {
                amount: 1,
                phase: WaitPhase::Idle,
                end_height: 0,
                last_height: 0,
                block_time: 0,
            }),
    {
        self.wait_blocks(1)
    }

    /// The message that executes `exec_msg` on a contract.
    pub fn execute_msg(&self, exec_msg: &Vec<u8>, funds: &Vec<Coin>, contract_address: &str) -> (msg:
        Result<Any, DaemonError>)
        ensures
            any_result(msg) == execute_msg_of(
                self.sender@,
                exec_msg@,
                coins(funds@),
                contract_address@,
            ),
    {
        let sender = match self.sender.message_sender() {
            Ok(sender) => sender,
            Err(_) => {
                return Err(DaemonError::InvalidAddress);
            },
        };
        let contract = match parse_account_id(contract_address) {
            Ok(contract) => contract,
            Err(_) => {
                return Err(DaemonError::InvalidAddress);
            },
        };
        let funds = match parse_cw_coins(funds) {
            Ok(funds) => funds,
            Err(e) => {
                return Err(e);
            },
        };
        let value = encode_msg_execute_contract(sender.as_str(), contract.as_str(), exec_msg, &funds);
        Ok(Any { type_url: "/cosmwasm.wasm.v1.MsgExecuteContract".to_owned(), value })
    }

    /// Starts the execution of a message on a contract.
    pub fn execute(
        &self,
        exec_msg: &Vec<u8>,
        funds: &Vec<Coin>,
        contract_address: &str,
        account: AccountStore,
    ) -> (submission: Result<Submission, DaemonError>)
        ensures
            submission_result(submission) == submission_of(
                self.sender@,
                execute_msg_of(self.sender@, exec_msg@, coins(funds@), contract_address@),
            ),
            submission matches Ok(s) ==> s.broadcaster@ == fresh_broadcaster(
                self.sender@,
                account.cached,
            ),
    {
        match self.execute_msg(exec_msg, funds, contract_address) {
            Ok(msg) => Ok(self.sender.commit_tx_any(single(msg), None, account)),
            Err(e) => Err(e),
        }
    }

    /// The message that instantiates a contract.
    pub fn instantiate_msg(
        &self,
        code_id: u64,
        init_msg: &Vec<u8>,
        label: Option<&str>,
        admin: Option<&str>,
        funds: &Vec<Coin>,
    ) -> (msg: Result<Any, DaemonError>)
        ensures
            any_result(msg) == instantiate_msg_of(
                self.sender@,
                code_id,
                init_msg@,
                label,
                admin,
                coins(funds@),
            ),
    {
        let label = match label {
            Some(l) => l,
            None => "instantiate_contract",
        };
        let admin = match admin {
            Some(a) => match parse_account_id(a) {
                Ok(admin) => admin,
                Err(_) => {
                    return Err(DaemonError::InvalidAddress);
                },
            },
            None => String::new(),
        };
        let sender = match self.sender.message_sender() {
            Ok(sender) => sender,
            Err(_) => {
                return Err(DaemonError::InvalidAddress);
            },
        };
        let funds = match parse_cw_coins(funds) {
            Ok(funds) => funds,
            Err(e) => {
                return Err(e);
            },
        };
        let value = encode_msg_instantiate_contract(
            sender.as_str(),
            admin.as_str(),
            code_id,
            label,
            init_msg,
            &funds,
        );
        Ok(Any { type_url: "/cosmwasm.wasm.v1.MsgInstantiateContract".to_owned(), value })
    }

    /// Starts the instantiation of a contract.
    pub fn instantiate(
        &self,
        code_id: u64,
        init_msg: &Vec<u8>,
        label: Option<&str>,
        admin: Option<&str>,
        funds: &Vec<Coin>,
        account: AccountStore,
    ) -> (submission: Result<Submission, DaemonError>)
        ensures
            submission_result(submission) == submission_of(
                self.sender@,
                instantiate_msg_of(self.sender@, code_id, init_msg@, label, admin, coins(funds@)),
            ),
            submission matches Ok(s) ==> s.broadcaster@ == fresh_broadcaster(
                self.sender@,
                account.cached,
            ),
    {
        match self.instantiate_msg(code_id, init_msg, label, admin, funds) {
            Ok(msg) => Ok(self.sender.commit_tx_any(single(msg), None, account)),
            Err(e) => Err(e),
        }
    }

    /// The message that instantiates a contract at an address fixed by a
    /// salt.
    pub fn instantiate2_msg(
        &self,
        code_id: u64,
        init_msg: &Vec<u8>,
        label: Option<&str>,
        admin: Option<&str>,
        funds: &Vec<Coin>,
        salt: &Vec<u8>,
    ) -> (msg: Any)
        ensures
            msg@ == instantiate2_msg_of(
                self.sender@,
                code_id,
                init_msg@,
                label,
                admin,
                coins(funds@),
                salt@,
            ),
    {
        let label = match label {
            Some(l) => l,
            None => "instantiate_contract",
        };
        let admin = match admin {
            Some(a) => a,
            None => "",
        };
        proof {
            reveal_strlit("");
            assert(""@ =~= Seq::<char>::empty());
        }
        let sender = self.sender.address();
        let value = encode_msg_instantiate_contract2(
            sender.as_str(),
            admin,
            code_id,
            label,
            init_msg,
            funds,
            salt,
        );
        Any { type_url: INSTANTIATE_2_TYPE_URL.to_owned(), value }
    }

    /// Starts the instantiation of a contract at an address fixed by a
    /// salt.
    pub fn instantiate2(
        &self,
        code_id: u64,
        init_msg: &Vec<u8>,
        label: Option<&str>,
        admin: Option<&str>,
        funds: &Vec<Coin>,
        salt: &Vec<u8>,
        account: AccountStore,
    ) -> (submission: Submission)
        ensures
            envelopes(submission.messages@) == wrapped(
                self.sender@,
                seq![
                    instantiate2_msg_of(
                        self.sender@,
                        code_id,
                        init_msg@,
                        label,
                        admin,
                        coins(funds@),
                        salt@,
                    ),
                ],
            ),
            submission.memo@ == Seq::<char>::empty(),
            submission.broadcaster@ == fresh_broadcaster(self.sender@, account.cached),
    {
        let msg = self.instantiate2_msg(code_id, init_msg, label, admin, funds, salt);
        self.sender.commit_tx_any(single(msg), None, account)
    }

    /// The message that migrates a contract to other code.
    pub fn migrate_msg(&self, migrate_msg: &Vec<u8>, new_code_id: u64, contract_address: &str) -> (msg:
        Result<Any, DaemonError>)
        ensures
            any_result(msg) == migrate_msg_of(
                self.sender@,
                migrate_msg@,
                new_code_id,
                contract_address@,
            ),
    {
        let sender = match self.sender.message_sender() {
            Ok(sender) => sender,
            Err(_) => {
                return Err(DaemonError::InvalidAddress);
            },
        };
        let contract = match parse_account_id(contract_address) {
            Ok(contract) => contract,
            Err(_) => {
                return Err(DaemonError::InvalidAddress);
            },
        };
        let value = encode_msg_migrate_contract(
            sender.as_str(),
            contract.as_str(),
            new_code_id,
            migrate_msg,
        );
        Ok(Any { type_url: "/cosmwasm.wasm.v1.MsgMigrateContract".to_owned(), value })
    }

    /// Starts the migration of a contract.
    pub fn migrate(
        &self,
        migrate_msg: &Vec<u8>,
        new_code_id: u64,
        contract_address: &str,
        account: AccountStore,
    ) -> (submission: Result<Submission, DaemonError>)
        ensures
            submission_result(submission) == submission_of(
                self.sender@,
                migrate_msg_of(self.sender@, migrate_msg@, new_code_id, contract_address@),
            ),
            submission matches Ok(s) ==> s.broadcaster@ == fresh_broadcaster(
                self.sender@,
                account.cached,
            ),
    {
        match self.migrate_msg(migrate_msg, new_code_id, contract_address) {
            Ok(msg) => Ok(self.sender.commit_tx_any(single(msg), None, account)),
            Err(e) => Err(e),
        }
    }

    /// The message that uploads a contract's code.
    pub fn store_code_msg(&self, wasm: &[u8]) -> (msg: Result<Any, DaemonError>)
        ensures
            any_result(msg) == store_code_msg_of(self.sender@, wasm@),
    {
        let compressed = match gzip(wasm) {
            Ok(compressed) => compressed,
            Err(_) => {
                return Err(DaemonError::Compression);
            },
        };
        let sender = match self.sender.message_sender() {
            Ok(sender) => sender,
            Err(_) => {
                return Err(DaemonError::InvalidAddress);
            },
        };
        let value = encode_msg_store_code(sender.as_str(), &compressed);
        Ok(Any { type_url: "/cosmwasm.wasm.v1.MsgStoreCode".to_owned(), value })
    }

    /// Starts the upload of a contract's code.
    pub fn upload(&self, wasm: &[u8], account: AccountStore) -> (submission: Result<
        Submission,
        DaemonError,
    >)
        ensures
            submission_result(submission) == submission_of(
                self.sender@,
                store_code_msg_of(self.sender@, wasm@),
            ),
            submission matches Ok(s) ==> s.broadcaster@ == fresh_broadcaster(
                self.sender@,
                account.cached,
            ),
    {
        match self.store_code_msg(wasm) {
            Ok(msg) => Ok(self.sender.commit_tx_any(single(msg), None, account)),
            Err(e) => Err(e),
        }
    }
}

} // verus!
