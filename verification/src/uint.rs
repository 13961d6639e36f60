//! 256-bit unsigned integers, held as four little-endian 64-bit words.
//!
//! The arithmetic itself is done by `primitive_types::U256`; this module
//! only states what each operation computes on the mathematical value.

use vstd::prelude::*;

verus! {

/// 2^64
pub open spec fn word_base() -> nat {
    0x1_0000_0000_0000_0000
}

/// 2^256, one more than the largest value a `U256` can hold.
pub open spec fn u256_modulus() -> nat {
    word_base() * word_base() * word_base() * word_base()
}

/// The number that four little-endian 64-bit words stand for.
pub open spec fn limbs_value(l: Seq<u64>) -> nat
    recommends
        l.len() == 4,
{
    (l[0] + l[1] * word_base() + l[2] * (word_base() * word_base()) + l[3] * (word_base()
        * word_base() * word_base())) as nat
}

/// A 256-bit unsigned integer with the same layout as `primitive_types::U256`:
/// word 0 is the least significant one.
#[derive(Clone, Copy, PartialEq, Eq, Debug)]
pub struct U256(pub [u64; 4]);

impl View for U256 {
    type V = nat;

    open spec fn view(&self) -> nat {
        limbs_value(self.0@)
    }
}

/// `From<u64> for primitive_types::U256`: the number equal to `x`
/// (the source puts `x` in the low word and zeroes the others).
#[verifier::external_body]
pub(crate) fn u256_from_u64(x: u64) -> (r: U256)
    ensures
        r@ == x as nat,
{
    U256(primitive_types::U256::from(x).0)
}

/// `Mul for primitive_types::U256`: the exact product. The source panics
/// ("arithmetic operation overflow") when the product does not fit in
/// 256 bits, so such inputs are left out.
#[verifier::external_body]
pub(crate) fn u256_mul(a: U256, b: U256) -> (r: U256)
    requires
        a@ * b@ < u256_modulus(),
    ensures
        r@ == a@ * b@,
{
    U256((primitive_types::U256(a.0) * primitive_types::U256(b.0)).0)
}

/// `Div for primitive_types::U256`: the quotient rounded down. The source
/// panics on a zero divisor, so it is left out.
#[verifier::external_body]
pub(crate) fn u256_div(a: U256, b: U256) -> (r: U256)
    requires
        b@ != 0,
    ensures
        r@ == a@ / b@,
{
    U256((primitive_types::U256(a.0) / primitive_types::U256(b.0)).0)
}

/// `Rem for primitive_types::U256`: the remainder of the division. The
/// source panics on a zero divisor, so it is left out.
#[verifier::external_body]
pub(crate) fn u256_rem(a: U256, b: U256) -> (r: U256)
    requires
        b@ != 0,
    ensures
        r@ == a@ % b@,
{
    U256((primitive_types::U256(a.0) % primitive_types::U256(b.0)).0)
}

/// `primitive_types::U256::as_u64`: the value as a `u64`. The source panics
/// ("Integer overflow when casting to u64") when it does not fit.
#[verifier::external_body]
pub(crate) fn u256_as_u64(a: U256) -> (r: u64)
    requires
        a@ <= u64::MAX,
    ensures
        r as nat == a@,
{
    primitive_types::U256(a.0).as_u64()
}

impl U256 {
    /// The number equal to `x`.
    pub fn from_u64(x: u64) -> (r: U256)
        ensures
            r@ == x as nat,
    {
        u256_from_u64(x)
    }
}

} // verus!
