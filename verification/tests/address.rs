use chui::address::{evm_address_for_program, Pubkey, ADDR_PREFIX};
use sha3::{Digest, Keccak256};

#[test]
fn evm_address_is_prefixed_hash_tail() {
    for seed in [0u8, 7, 255] {
        let key = Pubkey([seed; 32]);
        let address = evm_address_for_program(key);
        let hash = Keccak256::digest(&key.0);
        assert_eq!(&address.0[0..2], &ADDR_PREFIX);
        assert_eq!(&address.0[0..2], &[0xAC, 0xC0]);
        assert_eq!(&address.0[2..], &hash[14..32]);
    }
}

#[test]
fn pubkey_same_as() {
    assert!(Pubkey([3; 32]).same_as(&Pubkey([3; 32])));
    let mut other = [3u8; 32];
    other[31] = 4;
    assert!(!Pubkey([3; 32]).same_as(&Pubkey(other)));
}
