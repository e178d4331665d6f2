//! What the chain's own libraries compute: encodings, signatures and
//! addresses. Each of their results has a name here; the functions that make
//! the calls are not verified, their contracts are taken on trust.

use crate::account::{BaseAccount, BaseAccountView};
use crate::coin::{coins, Coin, CoinView};
use crate::tx_types::{envelopes, signature_list, Any, AnyView};
use cosmrs::crypto::secp256k1::SigningKey;
use cosmrs::proto::traits::Message;
use vstd::prelude::*;

verus! {

/// `cosmrs::ErrorReport`, the error of the chain library; nothing is known
/// of its values.
#[verifier::external_type_specification]
#[verifier::external_body]
pub struct ExErrorReport(cosmrs::ErrorReport);

/// `prost::DecodeError`, the error of protobuf decoding; nothing is known
/// of its values.
#[verifier::external_type_specification]
#[verifier::external_body]
pub struct ExDecodeError(prost::DecodeError);

/// The protobuf encoding of a transaction body, or `None` where the body
/// cannot be encoded.
pub uninterp spec fn body_encoding(messages: Seq<AnyView>, memo: Seq<char>, timeout_height: u64) -> Option<Seq<u8>>;

/// The protobuf encoding of the auth info of a transaction with one signer,
/// who signs directly with the given private key, or `None` where it cannot
/// be encoded.
pub uninterp spec fn auth_info_encoding(key: Seq<u8>, sequence: u64, gas_limit: u64, amount: u128, denom: Seq<char>) -> Option<Seq<u8>>;

/// The signatures of the given private key over a sign document, or `None`
/// where the document cannot be signed.
pub uninterp spec fn direct_signatures(key: Seq<u8>, body_bytes: Seq<u8>, auth_info_bytes: Seq<u8>, chain_id: Seq<char>, account_number: u64) -> Option<Seq<Seq<u8>>>;

/// The protobuf encoding of a signed transaction, or `None` where it cannot
/// be encoded.
pub uninterp spec fn raw_encoding(body_bytes: Seq<u8>, auth_info_bytes: Seq<u8>, signatures: Seq<Seq<u8>>) -> Option<Seq<u8>>;

/// The public key of a private key, or `None` where the bytes are no private
/// key.
pub uninterp spec fn public_key_bytes(key: Seq<u8>) -> Option<Seq<u8>>;

/// The address of a private key's account under a bech32 prefix, or `None`
/// where there is none.
pub uninterp spec fn account_address(prefix: Seq<char>, key: Seq<u8>) -> Option<Seq<char>>;

/// The account id that a text denotes, in its canonical spelling, or `None`
/// where the text denotes none.
pub uninterp spec fn account_id_of(text: Seq<char>) -> Option<Seq<char>>;

/// `cosmrs::tx::Body::into_bytes`, on a body made by `cosmrs::tx::Body::new`
/// from the messages, the memo and the timeout height: the result is the
/// body's encoding, as a function of these three alone.
#[verifier::external_body]
pub(crate) fn encode_body(messages: &Vec<Any>, memo: &str, timeout_height: u64) -> (bytes: Result<
    Vec<u8>,
    cosmrs::ErrorReport,
>)
    ensures
        match bytes {
            Ok(b) => body_encoding(envelopes(messages@), memo@, timeout_height) == Some(b@),
            Err(_) => body_encoding(envelopes(messages@), memo@, timeout_height) is None,
        },
{
    let height = cosmrs::tendermint::block::Height::try_from(timeout_height)?;
    let messages = messages.iter().map(
        |m| cosmrs::Any { type_url: m.type_url.clone(), value: m.value.clone() },
    );
    cosmrs::tx::Body::new(messages, memo, height).into_bytes()
}

/// `cosmrs::tx::AuthInfo::into_bytes`, on the auth info that
/// `cosmrs::tx::SignerInfo::single_direct` and `auth_info` make from the
/// key's public key, the sequence and a fee of one coin: the result is its
/// encoding, as a function of the arguments alone.
#[verifier::external_body]
pub(crate) fn encode_auth_info(
    key: &[u8],
    sequence: u64,
    gas_limit: u64,
    amount: u128,
    denom: &str,
) -> (bytes: Result<Vec<u8>, cosmrs::ErrorReport>)
    ensures
        match bytes {
            Ok(b) => auth_info_encoding(key@, sequence, gas_limit, amount, denom@) == Some(b@),
            Err(_) => auth_info_encoding(key@, sequence, gas_limit, amount, denom@) is None,
        },
{
    let public_key = SigningKey::from_slice(key)?.public_key();
    let fee = cosmrs::tx::Fee::from_amount_and_gas(cosmrs::Coin::new(amount, denom)?, gas_limit);
    cosmrs::tx::SignerInfo::single_direct(Some(public_key), sequence).auth_info(fee).into_bytes()
}

/// `cosmrs::tx::SignDoc::sign`, with the key that
/// `cosmrs::crypto::secp256k1::SigningKey::from_slice` makes of the bytes:
/// the result holds the signatures, as a function of the key and the
/// document alone (the signing is deterministic).
#[verifier::external_body]
pub(crate) fn sign_direct(
    key: &[u8],
    body_bytes: &Vec<u8>,
    auth_info_bytes: &Vec<u8>,
    chain_id: &str,
    account_number: u64,
) -> (signatures: Result<Vec<Vec<u8>>, cosmrs::ErrorReport>)
    ensures
        match signatures {
            Ok(s) => direct_signatures(
                key@,
                body_bytes@,
                auth_info_bytes@,
                chain_id@,
                account_number,
            ) == Some(signature_list(s@)),
            Err(_) => direct_signatures(
                key@,
                body_bytes@,
                auth_info_bytes@,
                chain_id@,
                account_number,
            ) is None,
        },
{
    let doc = cosmrs::tx::SignDoc {
        body_bytes: body_bytes.clone(),
        auth_info_bytes: auth_info_bytes.clone(),
        chain_id: chain_id.to_owned(),
        account_number,
    };
    let raw: cosmrs::proto::cosmos::tx::v1beta1::TxRaw = doc.sign(&SigningKey::from_slice(key)?)?.into();
    Ok(raw.signatures)
}

/// `cosmrs::tx::Raw::to_bytes`: the result is the encoding of the signed
/// transaction, as a function of its three parts alone.
#[verifier::external_body]
pub(crate) fn encode_raw(
    body_bytes: &Vec<u8>,
    auth_info_bytes: &Vec<u8>,
    signatures: &Vec<Vec<u8>>,
) -> (bytes: Result<Vec<u8>, cosmrs::ErrorReport>)
    ensures
        match bytes {
            Ok(b) => raw_encoding(body_bytes@, auth_info_bytes@, signature_list(signatures@))
                == Some(b@),
            Err(_) => raw_encoding(body_bytes@, auth_info_bytes@, signature_list(signatures@))
                is None,
        },
{
    let raw = cosmrs::proto::cosmos::tx::v1beta1::TxRaw {
        body_bytes: body_bytes.clone(),
        auth_info_bytes: auth_info_bytes.clone(),
        signatures: signatures.clone(),
    };
    cosmrs::tx::Raw::from(raw).to_bytes()
}

/// `cosmrs::crypto::secp256k1::SigningKey::public_key`, with the key that
/// `from_slice` makes of the bytes: the result holds the public key's bytes,
/// as a function of the private key alone.
#[verifier::external_body]
pub(crate) fn derive_public_key(key: &[u8]) -> (public: Result<Vec<u8>, cosmrs::ErrorReport>)
    ensures
        match public {
            Ok(p) => public_key_bytes(key@) == Some(p@),
            Err(_) => public_key_bytes(key@) is None,
        },
{
    Ok(SigningKey::from_slice(key)?.public_key().to_bytes())
}

/// `cosmrs::crypto::PublicKey::account_id`, on the public key of the private
/// key: the result is the account's address as text, as a function of the
/// prefix and the key alone.
#[verifier::external_body]
pub(crate) fn derive_address(prefix: &str, key: &[u8]) -> (address: Result<
    String,
    cosmrs::ErrorReport,
>)
    ensures
        match address {
            Ok(a) => account_address(prefix@, key@) == Some(a@),
            Err(_) => account_address(prefix@, key@) is None,
        },
{
    Ok(SigningKey::from_slice(key)?.public_key().account_id(prefix)?.to_string())
}

/// `cosmrs::AccountId::from_str`: the result is the account id that the text
/// denotes, spelled out again, as a function of the text alone.
#[verifier::external_body]
pub(crate) fn parse_account_id(text: &str) -> (id: Result<String, cosmrs::ErrorReport>)
    ensures
        match id {
            Ok(a) => account_id_of(text@) == Some(a@),
            Err(_) => account_id_of(text@) is None,
        },
{
    Ok(text.parse::<cosmrs::AccountId>()?.to_string())
}

} // verus!

verus! {

/// `std::io::Error`, the error of the compressor; nothing is known of its
/// values.
#[verifier::external_type_specification]
#[verifier::external_body]
pub struct ExIoError(std::io::Error);

/// The protobuf encoding of a bank send message.
pub uninterp spec fn msg_send_encoding(from_address: Seq<char>, to_address: Seq<char>, amount: Seq<CoinView>) -> Seq<u8>;

/// The protobuf encoding of an authorization-execution message.
pub uninterp spec fn msg_exec_encoding(grantee: Seq<char>, msgs: Seq<AnyView>) -> Seq<u8>;

/// The protobuf encoding of a contract execution message.
pub uninterp spec fn msg_execute_contract_encoding(sender: Seq<char>, contract: Seq<char>, msg: Seq<u8>, funds: Seq<CoinView>) -> Seq<u8>;

/// The protobuf encoding of a contract instantiation message.
pub uninterp spec fn msg_instantiate_contract_encoding(sender: Seq<char>, admin: Seq<char>, code_id: u64, label: Seq<char>, msg: Seq<u8>, funds: Seq<CoinView>) -> Seq<u8>;

/// The protobuf encoding of a contract instantiation message with a salt.
pub uninterp spec fn msg_instantiate_contract2_encoding(sender: Seq<char>, admin: Seq<char>, code_id: u64, label: Seq<char>, msg: Seq<u8>, funds: Seq<CoinView>, salt: Seq<u8>) -> Seq<u8>;

/// The protobuf encoding of a contract migration message.
pub uninterp spec fn msg_migrate_contract_encoding(sender: Seq<char>, contract: Seq<char>, code_id: u64, msg: Seq<u8>) -> Seq<u8>;

/// The protobuf encoding of a code upload message.
pub uninterp spec fn msg_store_code_encoding(sender: Seq<char>, wasm_byte_code: Seq<u8>) -> Seq<u8>;

/// The base account that the bytes encode, or `None` where they encode
/// none.
pub uninterp spec fn base_account_decoding(bytes: Seq<u8>) -> Option<BaseAccountView>;

/// The base account inside the periodic vesting account that the bytes
/// encode: `None` where they encode no such account, `Some(None)` where the
/// account holds no base account.
pub uninterp spec fn vesting_account_decoding(bytes: Seq<u8>) -> Option<Option<BaseAccountView>>;

/// The gzip stream of the data at the default compression level, or `None`
/// where the compression fails.
pub uninterp spec fn gzip_stream(data: Seq<u8>) -> Option<Seq<u8>>;

/// `prost::Message::encode_to_vec` on a
/// `cosmos.bank.v1beta1.MsgSend` with these fields, each amount written in
/// decimal: the result is its encoding, as a function of the fields alone.
#[verifier::external_body]
pub(crate) fn encode_msg_send(from_address: &str, to_address: &str, amount: &Vec<Coin>) -> (bytes:
    Vec<u8>)
    ensures
        bytes@ == msg_send_encoding(from_address@, to_address@, coins(amount@)),
{
    cosmrs::proto::cosmos::bank::v1beta1::MsgSend {
        from_address: from_address.to_owned(),
        to_address: to_address.to_owned(),
        amount: amount.iter().map(
            |c| cosmrs::proto::cosmos::base::v1beta1::Coin {
                denom: c.denom.clone(),
                amount: c.amount.to_string(),
            },
        ).collect(),
    }.encode_to_vec()
}

/// `prost::Message::encode_to_vec` on a `cosmos.authz.v1beta1.MsgExec` with
/// these fields: the result is its encoding, as a function of the fields
/// alone.
#[verifier::external_body]
pub(crate) fn encode_msg_exec(grantee: &str, msgs: &Vec<Any>) -> (bytes: Vec<u8>)
    ensures
        bytes@ == msg_exec_encoding(grantee@, envelopes(msgs@)),
{
    cosmrs::proto::cosmos::authz::v1beta1::MsgExec {
        grantee: grantee.to_owned(),
        msgs: msgs.iter().map(
            |m| cosmrs::Any { type_url: m.type_url.clone(), value: m.value.clone() },
        ).collect(),
    }.encode_to_vec()
}

/// `prost::Message::encode_to_vec` on a
/// `cosmwasm.wasm.v1.MsgExecuteContract` with these fields: the result is
/// its encoding, as a function of the fields alone.
#[verifier::external_body]
pub(crate) fn encode_msg_execute_contract(
    sender: &str,
    contract: &str,
    msg: &Vec<u8>,
    funds: &Vec<Coin>,
) -> (bytes: Vec<u8>)
    ensures
        bytes@ == msg_execute_contract_encoding(sender@, contract@, msg@, coins(funds@)),
{
    cosmrs::proto::cosmwasm::wasm::v1::MsgExecuteContract {
        sender: sender.to_owned(),
        contract: contract.to_owned(),
        msg: msg.clone(),
        funds: funds.iter().map(
            |c| cosmrs::proto::cosmos::base::v1beta1::Coin {
                denom: c.denom.clone(),
                amount: c.amount.to_string(),
            },
        ).collect(),
    }.encode_to_vec()
}

/// `prost::Message::encode_to_vec` on a
/// `cosmwasm.wasm.v1.MsgInstantiateContract` with these fields: the result
/// is its encoding, as a function of the fields alone.
#[verifier::external_body]
pub(crate) fn encode_msg_instantiate_contract(
    sender: &str,
    admin: &str,
    code_id: u64,
    label: &str,
    msg: &Vec<u8>,
    funds: &Vec<Coin>,
) -> (bytes: Vec<u8>)
    ensures
        bytes@ == msg_instantiate_contract_encoding(
            sender@,
            admin@,
            code_id,
            label@,
            msg@,
            coins(funds@),
        ),
{
    cosmrs::proto::cosmwasm::wasm::v1::MsgInstantiateContract {
        sender: sender.to_owned(),
        admin: admin.to_owned(),
        code_id,
        label: label.to_owned(),
        msg: msg.clone(),
        funds: funds.iter().map(
            |c| cosmrs::proto::cosmos::base::v1beta1::Coin {
                denom: c.denom.clone(),
                amount: c.amount.to_string(),
            },
        ).collect(),
    }.encode_to_vec()
}

/// `prost::Message::encode_to_vec` on a
/// `cosmwasm.wasm.v1.MsgInstantiateContract2` with these fields and
/// `fix_msg` unset: the result is its encoding, as a function of the fields
/// alone.
#[verifier::external_body]
pub(crate) fn encode_msg_instantiate_contract2(
    sender: &str,
    admin: &str,
    code_id: u64,
    label: &str,
    msg: &Vec<u8>,
    funds: &Vec<Coin>,
    salt: &Vec<u8>,
) -> (bytes: Vec<u8>)
    ensures
        bytes@ == msg_instantiate_contract2_encoding(
            sender@,
            admin@,
            code_id,
            label@,
            msg@,
            coins(funds@),
            salt@,
        ),
{
    cosmrs::proto::cosmwasm::wasm::v1::MsgInstantiateContract2 {
        sender: sender.to_owned(),
        admin: admin.to_owned(),
        code_id,
        label: label.to_owned(),
        msg: msg.clone(),
        funds: funds.iter().map(
            |c| cosmrs::proto::cosmos::base::v1beta1::Coin {
                denom: c.denom.clone(),
                amount: c.amount.to_string(),
            },
        ).collect(),
        salt: salt.clone(),
        fix_msg: false,
    }.encode_to_vec()
}

/// `prost::Message::encode_to_vec` on a
/// `cosmwasm.wasm.v1.MsgMigrateContract` with these fields: the result is
/// its encoding, as a function of the fields alone.
#[verifier::external_body]
pub(crate) fn encode_msg_migrate_contract(
    sender: &str,
    contract: &str,
    code_id: u64,
    msg: &Vec<u8>,
) -> (bytes: Vec<u8>)
    ensures
        bytes@ == msg_migrate_contract_encoding(sender@, contract@, code_id, msg@),
{
    cosmrs::proto::cosmwasm::wasm::v1::MsgMigrateContract {
        sender: sender.to_owned(),
        contract: contract.to_owned(),
        code_id,
        msg: msg.clone(),
    }.encode_to_vec()
}

/// `prost::Message::encode_to_vec` on a `cosmwasm.wasm.v1.MsgStoreCode`
/// with these fields and no instantiate permission: the result is its
/// encoding, as a function of the fields alone.
#[verifier::external_body]
pub(crate) fn encode_msg_store_code(sender: &str, wasm_byte_code: &Vec<u8>) -> (bytes: Vec<u8>)
    ensures
        bytes@ == msg_store_code_encoding(sender@, wasm_byte_code@),
{
    cosmrs::proto::cosmwasm::wasm::v1::MsgStoreCode {
        sender: sender.to_owned(),
        wasm_byte_code: wasm_byte_code.clone(),
        instantiate_permission: None,
    }.encode_to_vec()
}

/// `prost::Message::decode` for `cosmos.auth.v1beta1.BaseAccount`: the
/// result holds the address, number and sequence of the account that was
/// decoded, as a function of the bytes alone.
#[verifier::external_body]
pub(crate) fn decode_base_account(bytes: &[u8]) -> (account: Result<BaseAccount, prost::DecodeError>)
    ensures
        match account {
            Ok(a) => base_account_decoding(bytes@) == Some(a@),
            Err(_) => base_account_decoding(bytes@) is None,
        },
{
    let account = cosmrs::proto::cosmos::auth::v1beta1::BaseAccount::decode(bytes)?;
    Ok(
        BaseAccount {
            address: account.address,
            account_number: account.account_number,
            sequence: account.sequence,
        },
    )
}

/// `prost::Message::decode` for
/// `cosmos.vesting.v1beta1.PeriodicVestingAccount`: the result holds the
/// address, number and sequence of the base account inside the account that
/// was decoded, if it has one, as a function of the bytes alone.
#[verifier::external_body]
pub(crate) fn decode_vesting_account(bytes: &[u8]) -> (account: Result<
    Option<BaseAccount>,
    prost::DecodeError,
>)
    ensures
        match account {
            Ok(Some(a)) => vesting_account_decoding(bytes@) == Some(Some(a@)),
            Ok(None) => vesting_account_decoding(bytes@) == Some(None::<BaseAccountView>),
            Err(_) => vesting_account_decoding(bytes@) is None,
        },
{
    let account = cosmrs::proto::cosmos::vesting::v1beta1::PeriodicVestingAccount::decode(bytes)?;
    Ok(
        account.base_vesting_account.and_then(|v| v.base_account).map(
            |a| BaseAccount {
                address: a.address,
                account_number: a.account_number,
                sequence: a.sequence,
            },
        ),
    )
}

/// `flate2::write::GzEncoder`, made with the default compression level,
/// fed all of the data and finished: the result is the gzip stream, as a
/// function of the data alone.
#[verifier::external_body]
pub(crate) fn gzip(data: &[u8]) -> (stream: Result<Vec<u8>, std::io::Error>)
    ensures
        match stream {
            Ok(s) => gzip_stream(data@) == Some(s@),
            Err(_) => gzip_stream(data@) is None,
        },
{
    let mut encoder = flate2::write::GzEncoder::new(Vec::new(), flate2::Compression::default());
    std::io::Write::write_all(&mut encoder, data)?;
    encoder.finish()
}

} // verus!

verus! {

/// `k256::ecdsa::Error`, the error of signing; nothing is known of its
/// values.
#[verifier::external_type_specification]
#[verifier::external_body]
pub struct ExSignatureError(k256::ecdsa::Error);

/// The Keccak-256 digest of the data.
pub uninterp spec fn keccak256(data: Seq<u8>) -> Seq<u8>;

/// The public key of a private key as an uncompressed curve point, or
/// `None` where the bytes are no private key.
pub uninterp spec fn uncompressed_public_key(key: Seq<u8>) -> Option<Seq<u8>>;

/// The bech32 account id of the bytes under a prefix, or `None` where
/// there is none.
pub uninterp spec fn bech32_account(prefix: Seq<char>, bytes: Seq<u8>) -> Option<Seq<char>>;

/// The protobuf encoding of a public key message that holds the key's
/// bytes.
pub uninterp spec fn public_key_encoding(public_key: Seq<u8>) -> Seq<u8>;

/// The protobuf encoding of the auth info of a transaction with one signer,
/// who signs directly and whose public key is the given envelope, or `None`
/// where it cannot be encoded.
pub uninterp spec fn keyed_auth_info_encoding(key_type_url: Seq<char>, key_value: Seq<u8>, sequence: u64, gas_limit: u64, amount: u128, denom: Seq<char>) -> Option<Seq<u8>>;

/// The protobuf encoding of a sign document, or `None` where it cannot be
/// encoded.
pub uninterp spec fn sign_doc_encoding(body_bytes: Seq<u8>, auth_info_bytes: Seq<u8>, chain_id: Seq<char>, account_number: u64) -> Option<Seq<u8>>;

/// The signature of the given private key over a digest, or `None` where
/// the digest cannot be signed.
pub uninterp spec fn prehash_signature(key: Seq<u8>, digest: Seq<u8>) -> Option<Seq<u8>>;

/// `sha3::Keccak256::digest`: the result is the digest, as a function of
/// the data alone.
#[verifier::external_body]
pub(crate) fn hash_keccak256(data: &[u8]) -> (digest: Vec<u8>)
    ensures
        digest@ == keccak256(data@),
{
    <sha3::Keccak256 as sha3::Digest>::digest(data).to_vec()
}

/// `k256::ecdsa::VerifyingKey::to_encoded_point` without compression, on
/// the verifying key of the signing key that `from_slice` makes of the
/// bytes: the result holds the point's bytes, as a function of the private
/// key alone.
#[verifier::external_body]
pub(crate) fn derive_uncompressed_public_key(key: &[u8]) -> (public: Result<
    Vec<u8>,
    k256::ecdsa::Error,
>)
    ensures
        match public {
            Ok(p) => uncompressed_public_key(key@) == Some(p@),
            Err(_) => uncompressed_public_key(key@) is None,
        },
{
    let key = k256::ecdsa::SigningKey::from_slice(key)?;
    Ok(key.verifying_key().to_encoded_point(false).as_bytes().to_vec())
}

/// `cosmrs::AccountId::new`: the result is the account id as text, as a
/// function of the prefix and the bytes alone.
#[verifier::external_body]
pub(crate) fn encode_account_id(prefix: &str, bytes: &[u8]) -> (id: Result<
    String,
    cosmrs::ErrorReport,
>)
    ensures
        match id {
            Ok(a) => bech32_account(prefix@, bytes@) == Some(a@),
            Err(_) => bech32_account(prefix@, bytes@) is None,
        },
{
    Ok(cosmrs::AccountId::new(prefix, bytes)?.to_string())
}

/// `prost::Message::encode_to_vec` on a `cosmos.crypto.secp256k1.PubKey`
/// with the key's bytes: the result is its encoding, as a function of the
/// bytes alone.
#[verifier::external_body]
pub(crate) fn encode_public_key(public_key: &Vec<u8>) -> (bytes: Vec<u8>)
    ensures
        bytes@ == public_key_encoding(public_key@),
{
    cosmrs::proto::cosmos::crypto::secp256k1::PubKey { key: public_key.clone() }.encode_to_vec()
}

/// `cosmrs::tx::AuthInfo::into_bytes`, on the auth info that
/// `cosmrs::tx::SignerInfo::auth_info` makes of a signer with the given
/// public key envelope, direct signing mode and the sequence, and a fee of
/// one coin: the result is its encoding, as a function of the arguments
/// alone.
#[verifier::external_body]
pub(crate) fn encode_keyed_auth_info(
    key: &Any,
    sequence: u64,
    gas_limit: u64,
    amount: u128,
    denom: &str,
) -> (bytes: Result<Vec<u8>, cosmrs::ErrorReport>)
    ensures
        match bytes {
            Ok(b) => keyed_auth_info_encoding(
                key@.type_url,
                key@.value,
                sequence,
                gas_limit,
                amount,
                denom@,
            ) == Some(b@),
            Err(_) => keyed_auth_info_encoding(
                key@.type_url,
                key@.value,
                sequence,
                gas_limit,
                amount,
                denom@,
            ) is None,
        },
{
    let key = cosmrs::Any { type_url: key.type_url.clone(), value: key.value.clone() };
    let fee = cosmrs::tx::Fee::from_amount_and_gas(cosmrs::Coin::new(amount, denom)?, gas_limit);
    let signer = cosmrs::tx::SignerInfo {
        public_key: Some(cosmrs::tx::SignerPublicKey::Any(key)),
        mode_info: cosmrs::tx::ModeInfo::single(cosmrs::tx::SignMode::Direct),
        sequence,
    };
    signer.auth_info(fee).into_bytes()
}

/// `cosmrs::tx::SignDoc::into_bytes`: the result is the encoding of the
/// sign document, as a function of its four parts alone.
#[verifier::external_body]
pub(crate) fn encode_sign_doc(
    body_bytes: &Vec<u8>,
    auth_info_bytes: &Vec<u8>,
    chain_id: &str,
    account_number: u64,
) -> (bytes: Result<Vec<u8>, cosmrs::ErrorReport>)
    ensures
        match bytes {
            Ok(b) => sign_doc_encoding(body_bytes@, auth_info_bytes@, chain_id@, account_number)
                == Some(b@),
            Err(_) => sign_doc_encoding(body_bytes@, auth_info_bytes@, chain_id@, account_number)
                is None,
        },
{
    let doc = cosmrs::tx::SignDoc {
        body_bytes: body_bytes.clone(),
        auth_info_bytes: auth_info_bytes.clone(),
        chain_id: chain_id.to_owned(),
        account_number,
    };
    doc.into_bytes()
}

/// `k256::ecdsa::SigningKey::sign_prehash`, with the key that `from_slice`
/// makes of the bytes: the result holds the signature's bytes, as a
/// function of the key and the digest alone (the signing is
/// deterministic).
#[verifier::external_body]
pub(crate) fn sign_prehash(key: &[u8], digest: &[u8]) -> (signature: Result<
    Vec<u8>,
    k256::ecdsa::Error,
>)
    ensures
        match signature {
            Ok(s) => prehash_signature(key@, digest@) == Some(s@),
            Err(_) => prehash_signature(key@, digest@) is None,
        },
{
    let key = k256::ecdsa::SigningKey::from_slice(key)?;
    let signature: k256::ecdsa::Signature =
        k256::ecdsa::signature::hazmat::PrehashSigner::sign_prehash(&key, digest)?;
    Ok(signature.to_vec())
}

} // verus!
