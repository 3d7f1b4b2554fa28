use payment::fees::calculate_fee_amount;
use payment::fees::calculate_fee_percent_hundredths;

#[test]
fn test_calculate_fee_amount() {
    assert_eq!(calculate_fee_amount(588, 2, 50), 50);
    assert_eq!(calculate_fee_amount(1499, 2, 50), 50);
    assert_eq!(calculate_fee_amount(5000, 2, 50), 100);
    assert_eq!(calculate_fee_amount(4444, 2, 50), 88);
    assert_eq!(calculate_fee_amount(4444, 3, 50), 133);
}

#[test]
fn test_calculate_fee_percent() {
    assert_eq!(calculate_fee_percent_hundredths(588, 2, 50) as f64 / 100.0, 8.50);
    assert_eq!(calculate_fee_percent_hundredths(1499, 2, 50) as f64 / 100.0, 3.34);
    assert_eq!(calculate_fee_percent_hundredths(5000, 2, 50) as f64 / 100.0, 2.00);
    assert_eq!(calculate_fee_percent_hundredths(4444, 2, 50) as f64 / 100.0, 2.00);
    assert_eq!(calculate_fee_percent_hundredths(4444, 3, 50) as f64 / 100.0, 3.00);
}

#[test]
fn fee_amount_never_below_minimum() {
    assert!(calculate_fee_amount(0, 0, 0) >= 0);
    assert!(calculate_fee_amount(1, 1, 50) >= 50);
    assert!(calculate_fee_amount(100, 0, 75) >= 75);
    assert!(calculate_fee_amount(1_000_000, 100, 1) >= 1);
}

#[test]
fn fee_amount_monotonic_in_unit_amount() {
    let mut last = 0i64;
    for amount in [0u32, 1, 588, 1499, 2500, 5000, 100_000, 4_000_000_000] {
        let fee = calculate_fee_amount(amount, 2, 50);
        assert!(fee >= last);
        last = fee;
    }
}

#[test]
fn fee_amount_widens_beyond_u32_products() {
    // 4e9 cents at 100 % would overflow a 32-bit product; the fee must
    // still be exact.
    assert_eq!(calculate_fee_amount(4_000_000_000, 100, 1), 4_000_000_000);
    assert_eq!(calculate_fee_amount(4_000_000_000, 3, 1), 120_000_000);
}

#[test]
fn fee_percent_unchanged_when_floor_fee_meets_minimum() {
    // floor(2000 * 5 / 100) = 100 >= 50, so the configured percentage
    // stays.
    assert_eq!(calculate_fee_percent_hundredths(2000, 5, 50), 500);
    assert_eq!(calculate_fee_percent_hundredths(5000, 2, 100), 200);
}

#[test]
fn fee_percent_derived_recovers_minimum_within_one_cent() {
    for (amount, pct, min_fee) in [(588u32, 2u32, 50u32), (1499, 2, 50), (777, 1, 60), (19999, 0, 99)] {
        let bp = calculate_fee_percent_hundredths(amount, pct, min_fee);
        // floor fee below the minimum in each vector
        assert!((amount as u64) * (pct as u64) / 100 < min_fee as u64);
        let recovered_scaled = bp * amount as u64;
        let target_scaled = min_fee as u64 * 10000;
        let diff = recovered_scaled.abs_diff(target_scaled);
        assert!(diff <= 10000, "amount {amount}: diff {diff}");
    }
}

#[test]
fn fee_percent_zero_unit_amount_keeps_configured_pct() {
    assert_eq!(calculate_fee_percent_hundredths(0, 7, 50), 700);
    assert_eq!(calculate_fee_percent_hundredths(0, 0, 0), 0);
    assert_eq!(calculate_fee_percent_hundredths(0, 0, 50), 0);
}
