use cw_orch_daemon::chain::{
    clone_fee_tokens, clone_strings, is_valid_chain_id, ChainInfo, EnvVars, FeeToken,
};
use cw_orch_daemon::coin::{clone_coins, coin, is_valid_denom, parse_cw_coins, Coin};
use cw_orch_daemon::error::DaemonError;
use cw_orch_daemon::keys::PrivateKey;
use cw_orch_daemon::sender::{operator_confirms, Sender, SenderOptions};

fn tokens() -> Vec<FeeToken> {
    vec![
        FeeToken {
            denom: "utoken".to_string(),
            fixed_min_gas_price: 25_000_000,
            average_gas_price: 30_000_000,
        },
        FeeToken { denom: "uother".to_string(), fixed_min_gas_price: 1, average_gas_price: 2 },
    ]
}

fn sender(env: EnvVars) -> Sender {
    let chain = ChainInfo::new(
        "juno-1".to_string(),
        "juno".to_string(),
        118,
        tokens(),
        vec!["a".to_string()],
    )
    .unwrap();
    let key = PrivateKey::from_raw_key(vec![1u8; 32], 118).unwrap();
    Sender::from_private_key(chain, key, SenderOptions::new(), EnvVars::new())
        .unwrap()
        .with_env(env)
}

#[test]
fn chain_needs_a_fee_token() {
    assert_eq!(
        ChainInfo::new("juno-1".to_string(), "juno".to_string(), 118, Vec::new(), Vec::new()),
        None
    );
    let info = ChainInfo::new(
        "juno-1".to_string(),
        "juno".to_string(),
        118,
        tokens(),
        vec!["http://a".to_string(), "http://b".to_string()],
    )
    .unwrap();
    assert_eq!(info.chain_id(), "juno-1");
    assert_eq!(info.bech32_prefix(), "juno");
    assert_eq!(info.coin_type(), 118);
    assert_eq!(info.fee_token(), &tokens()[0]);
    assert_eq!(info.grpc_urls(), &vec!["http://a".to_string(), "http://b".to_string()]);
    assert_eq!(info.clone(), info);
}

#[test]
fn lists_are_copied() {
    assert_eq!(clone_fee_tokens(&tokens()), tokens());
    assert_eq!(clone_fee_tokens(&Vec::new()), Vec::new());
    let texts = vec!["a".to_string(), String::new(), "c".to_string()];
    assert_eq!(clone_strings(&texts), texts);
    let coins = vec![coin(1, "a".to_string()), coin(2, "b".to_string())];
    assert_eq!(clone_coins(&coins), coins);
}

#[test]
fn chain_ids_are_checked() {
    assert!(is_valid_chain_id("juno-1"));
    assert!(is_valid_chain_id("Cosmos_Hub.4"));
    assert!(is_valid_chain_id("x"));
    assert!(is_valid_chain_id(&"x".repeat(50)));
    assert!(!is_valid_chain_id(&"x".repeat(51)));
    assert!(!is_valid_chain_id(""));
    assert!(!is_valid_chain_id("juno 1"));
    assert!(!is_valid_chain_id("juno/1"));
    assert!(!is_valid_chain_id("jünø"));
    assert_eq!(
        is_valid_chain_id("juno-1"),
        cosmrs::tendermint::chain::Id::try_from("juno-1").is_ok()
    );
    assert_eq!(
        is_valid_chain_id("juno/1"),
        cosmrs::tendermint::chain::Id::try_from("juno/1").is_ok()
    );
}

#[test]
fn denominations_are_checked() {
    for denom in ["utoken", "ibc/9F53D255F5320A4BE124FF20C29D46406E126CE8", "", "A0z/", "u-token", "u token", "ü", "u.token"] {
        assert_eq!(is_valid_denom(denom), denom.parse::<cosmrs::Denom>().is_ok());
    }
    assert!(is_valid_denom("utoken"));
    assert!(is_valid_denom(""));
    assert!(!is_valid_denom("u-token"));
    assert!(!is_valid_denom("ü"));
}

#[test]
fn coins_are_checked_and_kept() {
    let good = vec![coin(100, "utoken".to_string()), coin(0, "ibc/AB".to_string())];
    assert_eq!(parse_cw_coins(&good), Ok(good.clone()));
    assert_eq!(parse_cw_coins(&Vec::new()), Ok(Vec::new()));
    let bad = vec![coin(100, "utoken".to_string()), coin(1, "no good".to_string())];
    assert_eq!(parse_cw_coins(&bad), Err(DaemonError::InvalidDenom));
    assert_eq!(coin(5, "x".to_string()), Coin { denom: "x".to_string(), amount: 5 });
}

#[test]
fn environment_defaults() {
    let env = EnvVars::new();
    assert_eq!(env.gas_buffer, None);
    assert_eq!(env.min_gas, None);
    assert!(!env.disable_wallet_balance_assertion);
    assert!(!env.disable_manual_interaction);
}

#[test]
fn sender_prices_gas() {
    let s = sender(EnvVars::new());
    assert_eq!(s.get_fee_token(), "utoken");
    assert_eq!(s.get_fee_from_gas(150_000), (210_000, 6_302));
    assert_eq!(s.get_fee_from_gas(200_000), (260_000, 7_802));
    assert_eq!(s.simulate(150_000), (210_000, coin(6_302, "utoken".to_string())));
    let tuned = sender(EnvVars {
        gas_buffer: Some(2_000),
        min_gas: Some(1_000_000),
        disable_wallet_balance_assertion: true,
        disable_manual_interaction: false,
    });
    assert_eq!(tuned.get_fee_from_gas(150_000), (1_000_000, 30_010));
    assert_eq!(tuned.get_fee_from_gas(600_000), (1_200_000, 36_012));
    assert_eq!(tuned.env().min_gas, Some(1_000_000));
    assert_eq!(tuned.chain_info().chain_id(), "juno-1");
}

#[test]
fn sender_checks_the_balance() {
    let s = sender(EnvVars::new());
    assert_eq!(s.has_enough_balance_for_gas(150_000, 6_302), Ok(()));
    assert_eq!(s.has_enough_balance_for_gas(150_000, u128::MAX), Ok(()));
    assert_eq!(
        s.has_enough_balance_for_gas(150_000, 6_301),
        Err(DaemonError::NotEnoughBalance {
            expected: coin(6_302, "utoken".to_string()),
            current: coin(6_301, "utoken".to_string()),
        })
    );
}

#[test]
fn operator_answers() {
    assert!(operator_confirms("y"));
    assert!(operator_confirms("Y\n"));
    assert!(operator_confirms("yes please"));
    assert!(operator_confirms("okay"));
    assert!(!operator_confirms("n"));
    assert!(!operator_confirms(""));
    assert!(!operator_confirms("no\n"));
}
