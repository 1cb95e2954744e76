use multiversed_dapp::math::{accrue_delta, pct_amount, scale, settle, ACC_PRECISION};

#[test]
fn scale_is_one_trillion() {
    assert_eq!(scale(), 1_000_000_000_000);
    assert_eq!(scale(), ACC_PRECISION);
}

#[test]
fn accrue_delta_examples() {
    // the spec scenario: 100 injected over weight 1000
    assert_eq!(accrue_delta(100, 1000), 100_000_000_000);
    assert_eq!(accrue_delta(1, 1), ACC_PRECISION);
    // floors: 10 over 3 units of weight
    assert_eq!(accrue_delta(10, 3), 10 * ACC_PRECISION / 3);
    // nothing staked: the injection is not folded in
    assert_eq!(accrue_delta(100, 0), 0);
    // the widened product never overflows even at the extremes
    assert_eq!(accrue_delta(u64::MAX, 1), u64::MAX as u128 * ACC_PRECISION);
}

#[test]
fn settle_examples() {
    assert_eq!(settle(1000, 100_000_000_000), 100);
    assert_eq!(settle(0, u128::MAX), 0);
    assert_eq!(settle(5, 0), 0);
    // sub-scale entitlements floor to zero
    assert_eq!(settle(1, ACC_PRECISION - 1), 0);
    assert_eq!(settle(1, ACC_PRECISION), 1);
    // the product saturates instead of wrapping
    assert_eq!(settle(u128::MAX, 2), u128::MAX / ACC_PRECISION);
}

#[test]
fn settle_round_trips_accrue_delta_for_sole_staker() {
    for (injected, weight) in [(100u64, 1000u128), (1, 1), (999, 7), (12345, 321)] {
        let got = settle(weight, accrue_delta(injected, weight));
        // within floor rounding, never above the injection
        assert!(got <= injected as u128);
        assert!(injected as u128 - got <= 1 + weight / 1_000_000_000_000);
    }
}

#[test]
fn pct_amount_examples() {
    assert_eq!(pct_amount(100, 40), 40);
    assert_eq!(pct_amount(97, 50), 48);
    assert_eq!(pct_amount(97, 5), 4);
    assert_eq!(pct_amount(0, 100), 0);
    assert_eq!(pct_amount(u64::MAX, 100), u64::MAX);
    assert_eq!(pct_amount(u64::MAX, 0), 0);
    // widened intermediate: no overflow at the extremes
    assert_eq!(pct_amount(u64::MAX, 50), u64::MAX / 2);
}
