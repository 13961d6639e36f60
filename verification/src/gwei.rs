//! Conversion between lamports (native units) and gwei (EVM units).
//!
//! A lamport is 10^-9 of a native coin while a gwei is 10^-18 of an ether,
//! so one lamport is worth `LAMPORTS_TO_GWEI_PRICE` gwei.

use vstd::prelude::*;
use vstd::arithmetic::div_mod::{lemma_fundamental_div_mod, lemma_div_by_multiple, lemma_mod_multiples_basic};
use crate::uint::{U256, u256_from_u64, u256_mul, u256_div, u256_rem, u256_as_u64, u256_modulus};

verus! {

/// Number of gwei in one lamport.
pub const LAMPORTS_TO_GWEI_PRICE: u64 = 1_000_000_000;

/// The gwei amount worth `lamports`.
pub open spec fn spec_lamports_to_gwei(lamports: nat) -> nat {
    lamports * (LAMPORTS_TO_GWEI_PRICE as nat)
}

/// Whole lamports in `gweis`, and the gwei left over.
pub open spec fn spec_gweis_to_lamports(gweis: nat) -> (nat, nat) {
    (gweis / (LAMPORTS_TO_GWEI_PRICE as nat), gweis % (LAMPORTS_TO_GWEI_PRICE as nat))
}

/// The gwei amounts whose whole-lamport part fits in a `u64`.
pub open spec fn gweis_in_range(gweis: nat) -> bool {
    gweis / (LAMPORTS_TO_GWEI_PRICE as nat) <= u64::MAX
}

/// Convert lamports to gwei.
pub fn lamports_to_gwei(lamports: u64) -> (r: U256)
    ensures
        r@ == spec_lamports_to_gwei(lamports as nat),
{
    let a = u256_from_u64(lamports);
    let b = u256_from_u64(LAMPORTS_TO_GWEI_PRICE);
    assert(a@ * b@ < u256_modulus()) by (nonlinear_arith)
        requires
            a@ <= u64::MAX,
            b@ == 1_000_000_000,
    ;
    u256_mul(a, b)
}

/// Convert gwei back to lamports, returning the change (the gwei that do
/// not make up a whole lamport) as the second element.
pub fn gweis_to_lamports(gweis: U256) -> (r: (u64, U256))
    requires
        gweis_in_range(gweis@),
    ensures
        (r.0 as nat, r.1@) == spec_gweis_to_lamports(gweis@),
{
    let price = u256_from_u64(LAMPORTS_TO_GWEI_PRICE);
    let lamports = u256_div(gweis, price);
    let change = u256_rem(gweis, price);
    (u256_as_u64(lamports), change)
}

/// Converting lamports to gwei and back gives the same lamports and no change.
pub proof fn lemma_lamports_gwei_round_trip(lamports: u64)
    ensures
        gweis_in_range(spec_lamports_to_gwei(lamports as nat)),
        spec_gweis_to_lamports(spec_lamports_to_gwei(lamports as nat)) == (lamports as nat, 0nat),
{
    let p = LAMPORTS_TO_GWEI_PRICE as int;
    lemma_div_by_multiple(lamports as int, p);
    lemma_mod_multiples_basic(lamports as int, p);
}

/// The lamports and the change of a gwei amount add back up to it, and the
/// change is less than one lamport.
pub proof fn lemma_gweis_split(gweis: nat)
    ensures
        spec_lamports_to_gwei(spec_gweis_to_lamports(gweis).0) + spec_gweis_to_lamports(gweis).1
            == gweis,
        spec_gweis_to_lamports(gweis).1 < LAMPORTS_TO_GWEI_PRICE,
{
    let p = LAMPORTS_TO_GWEI_PRICE as int;
    lemma_fundamental_div_mod(gweis as int, p);
    assert((gweis / (p as nat)) * p == p * (gweis as int / p)) by (nonlinear_arith)
        requires
            p == 1_000_000_000,
    ;
}

} // verus!
