use miner_activation::balance::{min_balance, BalanceGate, BalanceObservation};

#[test]
fn min_balance_is_a_hundredth_of_a_sol() {
    assert_eq!(min_balance(), 10_000_000);
    assert_eq!(min_balance() * 100, solana_sdk::native_token::LAMPORTS_PER_SOL);
}

#[test]
fn confirmed_balance_below_threshold_is_insufficient() {
    assert!(!BalanceGate::recompute(BalanceObservation::Confirmed(9_999_999), 10_000_000));
    assert!(!BalanceGate::recompute(BalanceObservation::Confirmed(0), 1));
    assert!(!BalanceGate::recompute(BalanceObservation::Confirmed(u64::MAX - 1), u64::MAX));
}

#[test]
fn confirmed_balance_at_or_above_threshold_is_sufficient() {
    assert!(BalanceGate::recompute(BalanceObservation::Confirmed(10_000_000), 10_000_000));
    assert!(BalanceGate::recompute(BalanceObservation::Confirmed(10_000_001), 10_000_000));
    assert!(BalanceGate::recompute(BalanceObservation::Confirmed(0), 0));
    assert!(BalanceGate::recompute(BalanceObservation::Confirmed(u64::MAX), u64::MAX));
}

#[test]
fn pending_and_error_are_never_sufficient() {
    for threshold in [0u64, 1, 10_000_000, u64::MAX] {
        assert!(!BalanceGate::recompute(BalanceObservation::Pending, threshold));
        assert!(!BalanceGate::recompute(BalanceObservation::Error, threshold));
    }
}

#[test]
fn new_gate_derives_its_flag() {
    let pending = BalanceGate::new(5, BalanceObservation::Pending);
    assert!(!pending.is_sufficient());
    assert_eq!(pending.threshold(), 5);
    assert_eq!(pending.observation(), BalanceObservation::Pending);
    let funded = BalanceGate::new(5, BalanceObservation::Confirmed(5));
    assert!(funded.is_sufficient());
}

#[test]
fn gate_with_min_balance_uses_the_minimum() {
    let gate = BalanceGate::with_min_balance(BalanceObservation::Confirmed(10_000_000));
    assert_eq!(gate.threshold(), 10_000_000);
    assert!(gate.is_sufficient());
    let short = BalanceGate::with_min_balance(BalanceObservation::Confirmed(9_999_999));
    assert!(!short.is_sufficient());
}

#[test]
fn observe_reports_a_change_of_the_flag_only() {
    let mut gate = BalanceGate::new(100, BalanceObservation::Pending);
    assert!(!gate.observe(BalanceObservation::Error));
    assert!(!gate.is_sufficient());
    assert!(!gate.observe(BalanceObservation::Confirmed(99)));
    assert!(!gate.is_sufficient());
    assert!(gate.observe(BalanceObservation::Confirmed(100)));
    assert!(gate.is_sufficient());
    assert!(!gate.observe(BalanceObservation::Confirmed(250)));
    assert!(gate.is_sufficient());
    assert_eq!(gate.observation(), BalanceObservation::Confirmed(250));
    assert!(gate.observe(BalanceObservation::Error));
    assert!(!gate.is_sufficient());
    assert_eq!(gate.threshold(), 100);
}
