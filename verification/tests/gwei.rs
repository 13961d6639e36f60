use chui::gwei::{gweis_to_lamports, lamports_to_gwei, LAMPORTS_TO_GWEI_PRICE};
use chui::uint::U256;

#[test]
fn lamports_to_gwei_multiplies_by_price() {
    assert_eq!(LAMPORTS_TO_GWEI_PRICE, 1_000_000_000);
    assert_eq!(lamports_to_gwei(0), U256([0, 0, 0, 0]));
    assert_eq!(lamports_to_gwei(5), U256([5_000_000_000, 0, 0, 0]));
    assert_eq!(lamports_to_gwei(u64::MAX), U256([0xffffffffc4653600, 0x3b9ac9ff, 0, 0]));
}

#[test]
fn gweis_to_lamports_splits_off_change() {
    assert_eq!(gweis_to_lamports(U256([5_000_000_123, 0, 0, 0])), (5, U256([123, 0, 0, 0])));
    assert_eq!(gweis_to_lamports(U256([999_999_999, 0, 0, 0])), (0, U256([999_999_999, 0, 0, 0])));
    // 12345678901234567890123 gwei
    assert_eq!(
        gweis_to_lamports(U256([4807115922877859019, 669, 0, 0])),
        (12345678901234, U256([567890123, 0, 0, 0]))
    );
}

#[test]
fn lamports_gwei_round_trip() {
    for lamports in [0u64, 1, 42, 1_000_000_007, u64::MAX] {
        assert_eq!(gweis_to_lamports(lamports_to_gwei(lamports)), (lamports, U256([0, 0, 0, 0])));
    }
}

#[test]
fn u256_from_u64_is_low_word() {
    assert_eq!(U256::from_u64(77), U256([77, 0, 0, 0]));
}
