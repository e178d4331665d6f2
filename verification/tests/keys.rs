use cw_orch_daemon::chain::{ChainInfo, EnvVars, FeeToken};
use cw_orch_daemon::error::DaemonError;
use cw_orch_daemon::keys::{decimal_text, derivation_path_text, PrivateKey};
use cw_orch_daemon::sender::{Sender, SenderOptions};

const WORDS: &str = "abandon abandon abandon abandon abandon abandon abandon abandon abandon abandon abandon abandon abandon abandon abandon abandon abandon abandon abandon abandon abandon abandon abandon art";

fn chain(prefix: &str, coin_type: u32) -> ChainInfo {
    ChainInfo::new(
        "juno-1".to_string(),
        prefix.to_string(),
        coin_type,
        vec![FeeToken {
            denom: "ujuno".to_string(),
            fixed_min_gas_price: 0,
            average_gas_price: 0,
        }],
        Vec::new(),
    )
    .unwrap()
}

fn derived(path: &str) -> Vec<u8> {
    let phrase = bip32::Mnemonic::new(WORDS, bip32::Language::English).unwrap();
    let seed = phrase.to_seed("");
    let path: bip32::DerivationPath = path.parse().unwrap();
    bip32::XPrv::derive_from_path(&seed, &path).unwrap().to_bytes().to_vec()
}

#[test]
fn numbers_are_written_in_decimal() {
    assert_eq!(decimal_text(0), "0");
    assert_eq!(decimal_text(7), "7");
    assert_eq!(decimal_text(10), "10");
    assert_eq!(decimal_text(118), "118");
    assert_eq!(decimal_text(1_000_000), "1000000");
    assert_eq!(decimal_text(u32::MAX), "4294967295");
}

#[test]
fn derivation_path_follows_bip44() {
    assert_eq!(derivation_path_text(118, 0, 0), "m/44'/118'/0'/0/0");
    assert_eq!(derivation_path_text(60, 1, 2), "m/44'/60'/1'/0/2");
    assert_eq!(derivation_path_text(330, 12, 345), "m/44'/330'/12'/0/345");
}

#[test]
fn key_is_derived_from_words() {
    let key = PrivateKey::from_words(WORDS, 0, 0, 118).unwrap();
    assert_eq!(key.raw_key(), &derived("m/44'/118'/0'/0/0"));
    assert_eq!(key.coin_type(), 118);
    assert_eq!(key.raw_key().len(), 32);
    assert_eq!(key.public_key().len(), 33);
    let other = PrivateKey::from_words(WORDS, 1, 2, 330).unwrap();
    assert_eq!(other.raw_key(), &derived("m/44'/330'/1'/0/2"));
    assert_ne!(other.raw_key(), key.raw_key());
    assert_eq!(key.clone(), key);
}

#[test]
fn invalid_words_are_rejected() {
    assert_eq!(PrivateKey::from_words("", 0, 0, 118), Err(DaemonError::InvalidMnemonic));
    assert_eq!(
        PrivateKey::from_words("abandon abandon abandon", 0, 0, 118),
        Err(DaemonError::InvalidMnemonic)
    );
    let wrong_checksum = WORDS.replace(" art", " abandon");
    assert_eq!(
        PrivateKey::from_words(&wrong_checksum, 0, 0, 118),
        Err(DaemonError::InvalidMnemonic)
    );
}

#[test]
fn hardened_indices_have_a_limit() {
    // a hardened child number has 31 bits
    assert_eq!(
        PrivateKey::from_words(WORDS, 0, 0, 0x8000_0000),
        Err(DaemonError::InvalidKey)
    );
    assert!(PrivateKey::from_words(WORDS, 0, 0, 0x7fff_ffff).is_ok());
}

#[test]
fn raw_keys_are_checked() {
    assert_eq!(PrivateKey::from_raw_key(vec![0u8; 32], 118), Err(DaemonError::InvalidKey));
    assert_eq!(PrivateKey::from_raw_key(vec![1u8; 33], 118), Err(DaemonError::InvalidKey));
    // a shorter scalar is read as padded with zeros in front
    let short = PrivateKey::from_raw_key(vec![1u8; 31], 118).unwrap();
    let mut padded = vec![0u8];
    padded.extend_from_slice(&[1u8; 31]);
    let long = PrivateKey::from_raw_key(padded, 118).unwrap();
    assert_eq!(short.public_key(), long.public_key());
    assert_eq!(PrivateKey::from_raw_key(Vec::new(), 118), Err(DaemonError::InvalidKey));
    assert_eq!(PrivateKey::from_raw_key(vec![0xff; 32], 118), Err(DaemonError::InvalidKey));
    let key = PrivateKey::from_raw_key(vec![1u8; 32], 118).unwrap();
    assert_eq!(key.raw_key(), &vec![1u8; 32]);
    let expected = cosmrs::crypto::secp256k1::SigningKey::from_slice(&[1u8; 32])
        .unwrap()
        .public_key()
        .to_bytes();
    assert_eq!(key.public_key(), &expected);
    assert_ne!(key.public_key(), key.raw_key());
}

#[test]
fn sender_from_mnemonic_has_the_chain_address() {
    let sender = Sender::from_mnemonic(chain("juno", 118), WORDS).unwrap();
    let expected = cosmrs::crypto::secp256k1::SigningKey::from_slice(&derived("m/44'/118'/0'/0/0"))
        .unwrap()
        .public_key()
        .account_id("juno")
        .unwrap()
        .to_string();
    assert_eq!(sender.pub_addr(), expected);
    assert_eq!(sender.address(), expected);
    assert_eq!(sender.pub_addr_str(), expected);
    assert!(expected.starts_with("juno1"));
    assert_eq!(sender.message_sender(), Ok(expected.clone()));
    assert_eq!(sender.env(), EnvVars::new());
    let terra = Sender::from_mnemonic(chain("terra", 330), WORDS).unwrap();
    assert!(terra.pub_addr().starts_with("terra1"));
    assert_eq!(terra.private_key().raw_key(), &derived("m/44'/330'/0'/0/0"));
}

#[test]
fn sender_from_mnemonic_with_options_keeps_the_granter() {
    let granter = Sender::from_mnemonic(chain("juno", 118), WORDS).unwrap().pub_addr();
    let key = PrivateKey::from_raw_key(vec![3u8; 32], 118).unwrap();
    let options = SenderOptions::default().authz_granter(&granter);
    assert_eq!(options.authz_granter, Some(granter.clone()));
    let sender =
        Sender::from_private_key(chain("juno", 118), key, options, EnvVars::new()).unwrap();
    assert_eq!(sender.message_sender(), Ok(granter.clone()));
    assert_ne!(sender.pub_addr(), granter);
    let with_options = Sender::from_mnemonic_with_options(
        chain("juno", 118),
        WORDS,
        SenderOptions::new().authz_granter("not an address"),
    )
    .unwrap();
    assert_eq!(with_options.message_sender(), Err(DaemonError::InvalidAddress));
    assert_eq!(with_options.pub_addr(), granter);
}

#[test]
fn sender_rejects_bad_words_and_bad_prefix() {
    assert_eq!(
        Sender::from_mnemonic(chain("juno", 118), "not a phrase"),
        Err(DaemonError::InvalidMnemonic)
    );
    assert_eq!(
        Sender::from_mnemonic(chain("JUNO", 118), WORDS),
        Err(DaemonError::InvalidAddress)
    );
}

#[test]
fn with_authz_sets_the_granter() {
    let granter = Sender::from_mnemonic(chain("juno", 118), WORDS).unwrap().pub_addr();
    let key = PrivateKey::from_raw_key(vec![3u8; 32], 118).unwrap();
    let mut sender =
        Sender::from_private_key(chain("juno", 118), key, SenderOptions::new(), EnvVars::new())
            .unwrap();
    let own = sender.pub_addr();
    assert_eq!(sender.message_sender(), Ok(own.clone()));
    sender.with_authz(granter.clone());
    assert_eq!(sender.message_sender(), Ok(granter));
    assert_eq!(sender.pub_addr(), own);
    let copy = sender.clone();
    assert_eq!(copy, sender);
}

#[test]
fn granter_must_be_a_lowercase_address() {
    let granter = Sender::from_mnemonic(chain("juno", 118), WORDS).unwrap().pub_addr();
    let upper = granter.to_uppercase();
    assert!(upper.parse::<cosmrs::AccountId>().is_err());
    let key = PrivateKey::from_raw_key(vec![3u8; 32], 118).unwrap();
    let options = SenderOptions::new().authz_granter(&upper);
    let sender =
        Sender::from_private_key(chain("juno", 118), key, options, EnvVars::new()).unwrap();
    assert_eq!(sender.message_sender(), Err(DaemonError::InvalidAddress));
    let mut changed = granter.clone();
    changed.pop();
    changed.push(if granter.ends_with('q') { 'p' } else { 'q' });
    let key = PrivateKey::from_raw_key(vec![3u8; 32], 118).unwrap();
    let options = SenderOptions::new().authz_granter(&changed);
    let sender =
        Sender::from_private_key(chain("juno", 118), key, options, EnvVars::new()).unwrap();
    // one changed character breaks the checksum
    assert_eq!(sender.message_sender(), Err(DaemonError::InvalidAddress));
}
