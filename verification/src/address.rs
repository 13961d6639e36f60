//! Native and EVM account addresses, and the EVM address that stands for a
//! native program account.

use vstd::prelude::*;
use sha3::Digest;

verus! {

/// A native account address (32 bytes).
#[derive(Clone, Copy, PartialEq, Eq, Debug)]
pub struct Pubkey(pub [u8; 32]);

impl Pubkey {
    /// Whether the two keys are the same, byte for byte.
    pub fn same_as(&self, other: &Pubkey) -> (r: bool)
        ensures
            r == (*self == *other),
    {
        let mut i: usize = 0;
        while i < 32
            invariant
                i <= 32,
                forall|j: int| 0 <= j < i ==> self.0@[j] == other.0@[j],
            decreases 32 - i,
        {
            if self.0[i] != other.0[i] {
                return false;
            }
            i = i + 1;
        }
        proof {
            broadcast use vstd::array::axiom_array_ext_equal;
            assert(self.0 =~= other.0);
        }
        true
    }
}

/// An EVM account address (20 bytes), laid out as `primitive_types::H160`.
#[derive(Clone, Copy, PartialEq, Eq, Debug)]
pub struct H160(pub [u8; 20]);

/// The two bytes that begin the EVM address of every native program account.
pub const ADDR_PREFIX: [u8; 2] = [0xAC, 0xC0];

/// The Keccak-256 digest of `data`.
pub uninterp spec fn keccak256(data: Seq<u8>) -> Seq<u8>;

/// `sha3::Keccak256::digest`: the digest is named by `keccak256`; its output
/// size is fixed at 32 bytes (`OutputSize = U32` in the source).
#[verifier::external_body]
fn keccak256_digest(data: &[u8]) -> (r: Vec<u8>)
    ensures
        r@ == keccak256(data@),
        r@.len() == 32,
{
    sha3::Keccak256::digest(data).to_vec()
}

/// `primitive_types::H256::from_slice`: the 32 bytes as given (big endian, in
/// order). The source panics unless the slice holds exactly 32 bytes.
#[verifier::external_body]
fn h256_from_slice(src: &[u8]) -> (r: [u8; 32])
    requires
        src@.len() == 32,
    ensures
        r@ == src@,
{
    primitive_types::H256::from_slice(src).0
}

/// `From<H256> for H160` in `primitive_types`: the last 20 of the 32 bytes
/// (the source copies `value[12..32]`).
#[verifier::external_body]
fn h160_from_h256(h: [u8; 32]) -> (r: [u8; 20])
    ensures
        r@ == h@.subrange(12, 32),
{
    primitive_types::H160::from(primitive_types::H256(h)).0
}

/// The EVM address of a native program account: the last 20 bytes of the
/// Keccak-256 hash of the account key, with the first two replaced by
/// `ADDR_PREFIX`.
pub open spec fn spec_evm_address_for_program(key: Seq<u8>) -> Seq<u8> {
    seq![0xACu8, 0xC0u8] + keccak256(key).subrange(14, 32)
}

/// Calculate the EVM address for a native account, that can be used to call
/// a transaction from the native program scope into the EVM scope.
/// The native address is hashed and prefixed with `[0xac, 0xc0]`.
pub fn evm_address_for_program(program_account: Pubkey) -> (r: H160)
    ensures
        r.0@ == spec_evm_address_for_program(program_account.0@),
        r.0@.subrange(0, 2) == ADDR_PREFIX@,
        r.0@.len() == 20,
        forall|i: int| 2 <= i < 20 ==> #[trigger] r.0@[i] == keccak256(program_account.0@)[i + 12],
{
    let key: [u8; 32] = program_account.0;
    let digest = keccak256_digest(key.as_slice());
    let hash_bytes = h256_from_slice(digest.as_slice());
    let mut short_hash = h160_from_h256(hash_bytes);
    short_hash[0] = ADDR_PREFIX[0];
    short_hash[1] = ADDR_PREFIX[1];
    assert(short_hash@ =~= spec_evm_address_for_program(program_account.0@));
    assert(short_hash@.subrange(0, 2) =~= ADDR_PREFIX@);
    proof { lemma_evm_address_is_prefixed_hash_tail(program_account.0@); }
    H160(short_hash)
}

/// The EVM address of a program account is 20 bytes: `0xAC`, `0xC0`, then
/// bytes 14 to 31 of the Keccak-256 hash (32 bytes) of the account key,
/// hashed as given.
pub proof fn lemma_evm_address_is_prefixed_hash_tail(key: Seq<u8>)
    requires
        keccak256(key).len() == 32,
    ensures
        spec_evm_address_for_program(key).len() == 20,
        spec_evm_address_for_program(key)[0] == 0xACu8,
        spec_evm_address_for_program(key)[1] == 0xC0u8,
        forall|i: int| 2 <= i < 20 ==> #[trigger] spec_evm_address_for_program(key)[i] == keccak256(key)[i + 12],
{
}

/// Two keys whose hashes differ in bytes 14 to 31 get different addresses.
pub proof fn lemma_evm_address_separates_hashes(k1: Seq<u8>, k2: Seq<u8>)
    requires
        keccak256(k1).len() == 32,
        keccak256(k2).len() == 32,
        keccak256(k1).subrange(14, 32) != keccak256(k2).subrange(14, 32),
    ensures
        spec_evm_address_for_program(k1) != spec_evm_address_for_program(k2),
{
    lemma_evm_address_is_prefixed_hash_tail(k1);
    lemma_evm_address_is_prefixed_hash_tail(k2);
    if spec_evm_address_for_program(k1) == spec_evm_address_for_program(k2) {
        assert(keccak256(k1).subrange(14, 32) =~= keccak256(k2).subrange(14, 32)) by {
            assert forall|j: int| 0 <= j < 18 implies keccak256(k1).subrange(14, 32)[j]
                == keccak256(k2).subrange(14, 32)[j] by {
                assert(spec_evm_address_for_program(k1)[j + 2] == spec_evm_address_for_program(k2)[j + 2]);
            }
        }
    }
}

} // verus!
