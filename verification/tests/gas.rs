use cw_orch_daemon::gas::{
    buffer_gas, fee_from_gas_limit, BUFFER_THRESHOLD, GAS_BUFFER, PRICE_EPSILON, PRICE_SCALE,
    SMALL_GAS_BUFFER,
};

#[test]
fn small_estimate_is_scaled_by_one_point_four() {
    assert_eq!(buffer_gas(150_000, None, None), 210_000);
    assert_eq!(buffer_gas(100_000, None, None), 140_000);
    assert_eq!(buffer_gas(0, None, None), 0);
}

#[test]
fn small_estimate_is_rounded_to_nearest() {
    // 1.4 * 1 = 1.4 -> 1; 1.4 * 2 = 2.8 -> 3; 1.4 * 5 = 7.0
    assert_eq!(buffer_gas(1, None, None), 1);
    assert_eq!(buffer_gas(2, None, None), 3);
    assert_eq!(buffer_gas(5, None, None), 7);
    // 1.4 * 199_999 = 279_998.6 -> 279_999
    assert_eq!(buffer_gas(199_999, None, None), 279_999);
}

#[test]
fn estimate_at_threshold_is_scaled_by_one_point_three() {
    assert_eq!(buffer_gas(200_000, None, None), 260_000);
    assert_eq!(buffer_gas(BUFFER_THRESHOLD, None, None), 260_000);
    // 1.3 * 200_001 = 260_001.3 -> 260_001
    assert_eq!(buffer_gas(200_001, None, None), 260_001);
    // 1.3 * 200_005 = 260_006.5 -> 260_007, halves go up
    assert_eq!(buffer_gas(200_005, None, None), 260_007);
    assert_eq!(buffer_gas(1_000_000, None, None), 1_300_000);
}

#[test]
fn buffer_constants_are_thousandths() {
    assert_eq!(GAS_BUFFER, 1_300);
    assert_eq!(SMALL_GAS_BUFFER, 1_400);
    assert_eq!(PRICE_SCALE, 1_000_000_000);
    assert_eq!(PRICE_EPSILON, 10_000);
}

#[test]
fn minimum_gas_wins_when_larger() {
    assert_eq!(buffer_gas(150_000, None, Some(500_000)), 500_000);
    assert_eq!(buffer_gas(150_000, None, Some(210_001)), 210_001);
    assert_eq!(buffer_gas(150_000, None, Some(210_000)), 210_000);
}

#[test]
fn minimum_gas_is_ignored_when_smaller() {
    assert_eq!(buffer_gas(150_000, None, Some(100)), 210_000);
    assert_eq!(buffer_gas(300_000, None, Some(389_999)), 390_000);
}

#[test]
fn configured_buffer_replaces_both_multipliers() {
    assert_eq!(buffer_gas(100_000, Some(2_000), None), 200_000);
    assert_eq!(buffer_gas(300_000, Some(2_000), None), 600_000);
    assert_eq!(buffer_gas(100_000, Some(1_000), None), 100_000);
    assert_eq!(buffer_gas(3, Some(1_500), None), 5);
    assert_eq!(buffer_gas(100_000, Some(1_500), Some(160_000)), 160_000);
}

#[test]
fn gas_limit_saturates() {
    assert_eq!(buffer_gas(u64::MAX, None, None), u64::MAX);
    assert_eq!(buffer_gas(u64::MAX, Some(u64::MAX), None), u64::MAX);
    assert_eq!(buffer_gas(1, None, Some(u64::MAX)), u64::MAX);
}

#[test]
fn buffering_is_monotonic_within_a_band() {
    let mut previous = 0;
    for gas in [0u64, 1, 2, 3, 10, 999, 150_000, 199_998, 199_999] {
        let limit = buffer_gas(gas, None, None);
        assert!(limit >= previous);
        previous = limit;
    }
    let mut previous = 0;
    for gas in [200_000u64, 200_001, 200_002, 250_000, 1_000_000, u64::MAX / 2, u64::MAX] {
        let limit = buffer_gas(gas, None, None);
        assert!(limit >= previous);
        previous = limit;
    }
}

#[test]
fn buffering_drops_across_the_threshold() {
    assert!(buffer_gas(199_999, None, None) > buffer_gas(200_000, None, None));
    assert!(buffer_gas(100, None, None) <= buffer_gas(300_000, None, None));
}

#[test]
fn fee_uses_the_larger_price_plus_margin() {
    // prices 0.025 and 0.03 per gas unit, margin 0.00001: 210000 * 0.03001 = 6302.1
    assert_eq!(fee_from_gas_limit(210_000, 25_000_000, 30_000_000), 6_302);
    assert_eq!(fee_from_gas_limit(210_000, 30_000_000, 25_000_000), 6_302);
    // price 0.025: 210000 * 0.02501 = 5252.1
    assert_eq!(fee_from_gas_limit(210_000, 25_000_000, 0), 5_252);
    // no price at all: only the margin, 1_000_000 * 0.00001 = 10
    assert_eq!(fee_from_gas_limit(1_000_000, 0, 0), 10);
    assert_eq!(fee_from_gas_limit(0, 25_000_000, 30_000_000), 0);
}

#[test]
fn fee_is_rounded_down() {
    // 1 * 0.02501 = 0.02501 -> 0
    assert_eq!(fee_from_gas_limit(1, 25_000_000, 0), 0);
    // 40 * 0.02501 = 1.0004 -> 1
    assert_eq!(fee_from_gas_limit(40, 25_000_000, 0), 1);
    // 39 * 0.02501 = 0.97539 -> 0
    assert_eq!(fee_from_gas_limit(39, 25_000_000, 0), 0);
}

#[test]
fn fee_with_whole_prices() {
    // price 25_000_000_000 per gas unit, as on chains with 18 decimals
    let price: u128 = 25_000_000_000 * 1_000_000_000;
    // 200_000 * (25e9 + 0.00001) = 5e15 + 2
    assert_eq!(fee_from_gas_limit(200_000, price, 0), 5_000_000_000_000_002);
}

#[test]
fn fee_saturates() {
    assert_eq!(fee_from_gas_limit(u64::MAX, u128::MAX, 0), u128::MAX);
    assert_eq!(fee_from_gas_limit(2_000_000_000, u128::MAX, 0), u128::MAX);
    // just below: price u128::MAX billionths, one gas unit
    assert_eq!(
        fee_from_gas_limit(1, u128::MAX, 0),
        (u128::MAX / 1_000_000_000) + ((u128::MAX % 1_000_000_000 + 10_000) / 1_000_000_000)
    );
}

#[test]
fn fee_is_monotonic_in_gas() {
    let mut previous = 0;
    for gas in [0u64, 1, 39, 40, 41, 210_000, 260_000, u64::MAX] {
        let fee = fee_from_gas_limit(gas, 25_000_000, 30_000_000);
        assert!(fee >= previous);
        previous = fee;
    }
}
