use walker::fixed::saturating_sum;
use walker::fixed::SCALE;

#[test]
fn scale_counts_millionths() {
    assert_eq!(SCALE, 1_000_000);
}

#[test]
fn sum_within_range_is_exact() {
    assert_eq!(saturating_sum(0, 0), 0);
    assert_eq!(saturating_sum(2_000_000, -10_000_000), -8_000_000);
    assert_eq!(saturating_sum(i64::MAX - 5, 5), i64::MAX);
    assert_eq!(saturating_sum(i64::MIN + 5, -5), i64::MIN);
    assert_eq!(saturating_sum(i64::MAX, i64::MIN), -1);
}

#[test]
fn sum_beyond_range_stays_at_the_end() {
    assert_eq!(saturating_sum(i64::MAX, 1), i64::MAX);
    assert_eq!(saturating_sum(i64::MAX - 1, 2_000_000), i64::MAX);
    assert_eq!(saturating_sum(i64::MAX, i64::MAX), i64::MAX);
    assert_eq!(saturating_sum(i64::MIN, -1), i64::MIN);
    assert_eq!(saturating_sum(i64::MIN + 1, -10_000_000), i64::MIN);
    assert_eq!(saturating_sum(i64::MIN, i64::MIN), i64::MIN);
}
