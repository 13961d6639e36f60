use chui::balance::BalanceCounter;
use chui::uint::U256;

#[test]
fn balance_counter_sums_whole_lamports() {
    let mut counter = BalanceCounter::new();
    assert_eq!(counter.balance(), 0);
    counter.inspect_data(U256([2_500_000_000, 0, 0, 0]));
    counter.inspect_data(U256([999_999_999, 0, 0, 0]));
    counter.inspect_data(U256([7_000_000_001, 0, 0, 0]));
    assert_eq!(counter.balance(), 9);
}

#[test]
fn balance_counter_wraps_like_fetch_add() {
    let mut counter = BalanceCounter::new();
    // u64::MAX lamports, then 2 more
    counter.inspect_data(U256([0xffffffffc4653600, 0x3b9ac9ff, 0, 0]));
    assert_eq!(counter.balance(), u64::MAX);
    counter.inspect_data(U256([2_000_000_000, 0, 0, 0]));
    assert_eq!(counter.balance(), 1);
}
