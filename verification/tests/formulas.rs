//! Exact values of the engine's two amount formulas and of the term table.

use subscription_program::math::{refund_of, tax_of};
use subscription_program::state::{SubscriptionState, Term};

#[test]
fn tax_is_three_percent_floored() {
    assert_eq!(tax_of(0), 0);
    assert_eq!(tax_of(33), 0);
    assert_eq!(tax_of(34), 1);
    assert_eq!(tax_of(100), 3);
    assert_eq!(tax_of(999), 29);
    assert_eq!(tax_of(1000), 30);
    assert_eq!(tax_of(u64::MAX), 553_402_322_211_286_548);
}

#[test]
fn tax_split_is_exact() {
    for amount in [0u64, 1, 33, 34, 99, 100, 101, 12345, u64::MAX] {
        let tax = tax_of(amount);
        assert!(tax <= amount);
        assert_eq!((amount - tax) + tax, amount);
    }
}

#[test]
fn refund_is_linear_pro_ration_floored() {
    assert_eq!(refund_of(1000, 0, 2_592_000), 0);
    assert_eq!(refund_of(1000, 2_592_000, 2_592_000), 1000);
    assert_eq!(refund_of(1000, 1_296_000, 2_592_000), 500);
    assert_eq!(refund_of(1000, 1, 2_592_000), 0);
    assert_eq!(refund_of(1000, 2_591_999, 2_592_000), 999);
    assert_eq!(refund_of(u64::MAX, 1, 2), u64::MAX / 2);
}

#[test]
fn term_second_counts() {
    assert_eq!(Term::OneSecond.seconds(), 1);
    assert_eq!(Term::ThirtySeconds.seconds(), 30);
    assert_eq!(Term::OneWeek.seconds(), 604_800);
    assert_eq!(Term::ThirtyDays.seconds(), 2_592_000);
    assert_eq!(Term::OneYear.seconds(), 31_536_000);
}

#[test]
fn default_term_and_state() {
    assert_eq!(Term::default(), Term::ThirtyDays);
    assert_eq!(SubscriptionState::default(), SubscriptionState::Active);
}
